//! Byte-level ASCII helpers.
//!
//! Identifiers handled here (tickers, outcome labels, risk-mode words) are
//! ASCII in practice; case mapping is applied byte by byte and leaves every
//! non-ASCII byte unchanged.
use vstd::prelude::*;

verus! {

/// Lower-cases one ASCII byte; other bytes are unchanged.
pub open spec fn spec_lower_byte(b: u8) -> u8 {
    if 65 <= b <= 90 {
        (b + 32) as u8
    } else {
        b
    }
}

/// Upper-cases one ASCII byte; other bytes are unchanged.
pub open spec fn spec_upper_byte(b: u8) -> u8 {
    if 97 <= b <= 122 {
        (b - 32) as u8
    } else {
        b
    }
}

/// Byte-wise ASCII lower-casing of a byte string.
pub open spec fn spec_lower_bytes(s: Seq<u8>) -> Seq<u8> {
    s.map_values(|b: u8| spec_lower_byte(b))
}

/// Byte-wise ASCII upper-casing of a byte string.
pub open spec fn spec_upper_bytes(s: Seq<u8>) -> Seq<u8> {
    s.map_values(|b: u8| spec_upper_byte(b))
}

/// Lower-cases the ASCII letters of `s`.
pub fn to_lower_bytes(s: &[u8]) -> (r: Vec<u8>)
    ensures
        r@ == spec_lower_bytes(s@),
{
    let mut r: Vec<u8> = Vec::new();
    let mut i: usize = 0;
    while i < s.len()
        invariant
            i <= s@.len(),
            r@ =~= spec_lower_bytes(s@.subrange(0, i as int)),
        decreases s@.len() - i,
    {
        let b = s[i];
        if 65 <= b && b <= 90 {
            r.push(b + 32);
        } else {
            r.push(b);
        }
        i = i + 1;
        proof {
            assert(s@.subrange(0, i as int) =~= s@.subrange(0, i - 1).push(s@[i - 1]));
        }
    }
    proof {
        assert(s@.subrange(0, s@.len() as int) =~= s@);
    }
    r
}

/// Upper-cases the ASCII letters of `s`.
pub fn to_upper_bytes(s: &[u8]) -> (r: Vec<u8>)
    ensures
        r@ == spec_upper_bytes(s@),
{
    let mut r: Vec<u8> = Vec::new();
    let mut i: usize = 0;
    while i < s.len()
        invariant
            i <= s@.len(),
            r@ =~= spec_upper_bytes(s@.subrange(0, i as int)),
        decreases s@.len() - i,
    {
        let b = s[i];
        if 97 <= b && b <= 122 {
            r.push(b - 32);
        } else {
            r.push(b);
        }
        i = i + 1;
        proof {
            assert(s@.subrange(0, i as int) =~= s@.subrange(0, i - 1).push(s@[i - 1]));
        }
    }
    proof {
        assert(s@.subrange(0, s@.len() as int) =~= s@);
    }
    r
}

/// Whether two byte strings hold the same bytes.
pub fn bytes_eq(a: &[u8], b: &[u8]) -> (r: bool)
    ensures
        r <==> a@ == b@,
{
    if a.len() != b.len() {
        proof {
            assert(a@.len() != b@.len());
        }
        return false;
    }
    let mut i: usize = 0;
    while i < a.len()
        invariant
            i <= a@.len(),
            a@.len() == b@.len(),
            forall|j: int| 0 <= j < i ==> a@[j] == b@[j],
        decreases a@.len() - i,
    {
        if a[i] != b[i] {
            return false;
        }
        i = i + 1;
    }
    proof {
        assert(a@ =~= b@);
    }
    true
}

/// Whether `n` occurs in `h` starting at offset `i`.
pub open spec fn spec_occurs_at(h: Seq<u8>, n: Seq<u8>, i: int) -> bool {
    0 <= i && i + n.len() <= h.len() && h.subrange(i, i + n.len() as int) == n
}

/// Whether `n` occurs anywhere in `h`.
pub open spec fn spec_contains_bytes(h: Seq<u8>, n: Seq<u8>) -> bool {
    exists|i: int| spec_occurs_at(h, n, i)
}

/// Whether the needle `n` occurs as a contiguous run of bytes in `h`.
pub fn contains_bytes(h: &[u8], n: &[u8]) -> (r: bool)
    ensures
        r == spec_contains_bytes(h@, n@),
{
    if n.len() > h.len() {
        proof {
            assert(forall|i: int| !spec_occurs_at(h@, n@, i));
        }
        return false;
    }
    let hlen = h.len();
    let nlen = n.len();
    let mut i: usize = 0;
    while i <= hlen - nlen
        invariant
            hlen == h@.len(),
            nlen == n@.len(),
            n@.len() <= h@.len(),
            i <= h@.len() - n@.len() + 1,
            forall|k: int| 0 <= k < i ==> !spec_occurs_at(h@, n@, k),
        decreases h@.len() - i,
    {
        let mut j: usize = 0;
        let mut all_match = true;
        while j < nlen
            invariant
                hlen == h@.len(),
                nlen == n@.len(),
                i + n@.len() <= h@.len(),
                j <= n@.len(),
                all_match <==> h@.subrange(i as int, i + j as int) =~= n@.subrange(0, j as int),
            decreases n@.len() - j,
        {
            proof {
                assert(h@.subrange(i as int, i + j + 1) =~= h@.subrange(i as int, i + j as int).push(
                    h@[i + j]));
                assert(n@.subrange(0, j + 1) =~= n@.subrange(0, j as int).push(n@[j as int]));
            }
            if h[i + j] != n[j] {
                all_match = false;
                proof {
                    assert(h@.subrange(i as int, i + j + 1)[j as int] == h@[i + j]);
                    assert(n@.subrange(0, j + 1)[j as int] == n@[j as int]);
                }
            }
            j = j + 1;
        }
        if all_match {
            proof {
                assert(n@.subrange(0, n@.len() as int) =~= n@);
                assert(spec_occurs_at(h@, n@, i as int));
            }
            return true;
        }
        proof {
            assert(h@.subrange(i as int, i + n@.len()) != n@);
        }
        i = i + 1;
    }
    proof {
        assert(forall|k: int| i <= k ==> !spec_occurs_at(h@, n@, k));
    }
    false
}

/// Decimal digits of a non-negative integer, most significant first.
pub open spec fn spec_dec_digits(n: nat) -> Seq<u8>
    decreases n,
{
    if n < 10 {
        seq![(48 + n) as u8]
    } else {
        spec_dec_digits(n / 10) + seq![(48 + n % 10) as u8]
    }
}

/// Decimal representation of a signed integer, with a leading minus sign
/// when negative.
pub open spec fn spec_dec_bytes(n: int) -> Seq<u8> {
    if n >= 0 {
        spec_dec_digits(n as nat)
    } else {
        seq![45u8] + spec_dec_digits((-n) as nat)
    }
}

/// Writes `n` in decimal.
pub fn u64_to_dec_bytes(n: u64) -> (r: Vec<u8>)
    ensures
        r@ == spec_dec_digits(n as nat),
    decreases n,
{
    if n < 10 {
        let mut r: Vec<u8> = Vec::new();
        r.push(48 + n as u8);
        proof {
            assert(r@ =~= seq![(48 + n) as u8]);
        }
        r
    } else {
        let mut r = u64_to_dec_bytes(n / 10);
        r.push(48 + (n % 10) as u8);
        proof {
            assert(r@ =~= spec_dec_digits((n / 10) as nat) + seq![(48 + n % 10) as u8]);
        }
        r
    }
}

/// The characters of a byte string, one character per byte.
pub open spec fn spec_chars_of_bytes(b: Seq<u8>) -> Seq<char> {
    b.map_values(|x: u8| x as char)
}

/// Every decimal digit byte is an ASCII digit.
pub proof fn lemma_dec_digits_ascii(n: nat)
    ensures
        forall|i: int|
            0 <= i < spec_dec_digits(n).len() ==> 48 <= #[trigger] spec_dec_digits(n)[i] <= 57,
    decreases n,
{
    if n >= 10 {
        lemma_dec_digits_ascii(n / 10);
        assert(forall|i: int|
            0 <= i < spec_dec_digits(n / 10).len() ==> #[trigger] spec_dec_digits(n)[i]
                == spec_dec_digits(n / 10)[i]);
    }
}

/// Every byte of a signed decimal representation is an ASCII digit or the
/// minus sign.
pub proof fn lemma_dec_bytes_ascii(n: int)
    ensures
        forall|i: int|
            0 <= i < spec_dec_bytes(n).len() ==> 45 <= #[trigger] spec_dec_bytes(n)[i] <= 57,
{
    if n >= 0 {
        lemma_dec_digits_ascii(n as nat);
    } else {
        lemma_dec_digits_ascii((-n) as nat);
        assert(forall|i: int|
            1 <= i < spec_dec_bytes(n).len() ==> #[trigger] spec_dec_bytes(n)[i]
                == spec_dec_digits((-n) as nat)[i - 1]);
    }
}

/// Builds a string from ASCII bytes, one character per byte.
///
/// Relies on String::from_utf8: a sequence of bytes below 128 is valid
/// UTF-8 and decodes to exactly those code points.
#[verifier::external_body]
pub fn string_from_ascii(v: Vec<u8>) -> (r: String)
    requires
        forall|i: int| 0 <= i < v@.len() ==> v@[i] < 128,
    ensures
        r@ == spec_chars_of_bytes(v@),
{
    match String::from_utf8(v) {
        Ok(s) => s,
        Err(_) => String::new(),
    }
}

/// Writes `n` in decimal, with a minus sign when negative.
pub fn i64_to_dec_bytes(n: i64) -> (r: Vec<u8>)
    requires
        n > i64::MIN,
    ensures
        r@ == spec_dec_bytes(n as int),
{
    if n >= 0 {
        u64_to_dec_bytes(n as u64)
    } else {
        let mut r: Vec<u8> = Vec::new();
        r.push(45);
        let mut digits = u64_to_dec_bytes((-n) as u64);
        r.append(&mut digits);
        proof {
            assert(r@ =~= seq![45u8] + spec_dec_digits((-(n as int)) as nat));
        }
        r
    }
}

} // verus!
