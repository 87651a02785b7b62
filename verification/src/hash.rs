//! Content-digest computation and verification: SHA-1 over the bytes on
//! disk, rendered as lowercase hexadecimal, compared by exact equality.

use vstd::prelude::*;
use vstd::string::StringExecFns;

use sha1::Digest;

verus! {

/// The lowercase hexadecimal digit for a nibble.
pub open spec fn hex_digit(n: u8) -> char {
    if n == 0 {
        '0'
    } else if n == 1 {
        '1'
    } else if n == 2 {
        '2'
    } else if n == 3 {
        '3'
    } else if n == 4 {
        '4'
    } else if n == 5 {
        '5'
    } else if n == 6 {
        '6'
    } else if n == 7 {
        '7'
    } else if n == 8 {
        '8'
    } else if n == 9 {
        '9'
    } else if n == 10 {
        'a'
    } else if n == 11 {
        'b'
    } else if n == 12 {
        'c'
    } else if n == 13 {
        'd'
    } else if n == 14 {
        'e'
    } else {
        'f'
    }
}

/// The two lowercase hexadecimal digits of one byte, high nibble first.
pub open spec fn hex_of_byte(b: u8) -> Seq<char> {
    seq![hex_digit((b / 16) as u8), hex_digit((b % 16) as u8)]
}

/// The lowercase hexadecimal rendering of a byte string, two digits per byte.
pub open spec fn hex_of_bytes(s: Seq<u8>) -> Seq<char>
    decreases s.len(),
{
    if s.len() == 0 {
        Seq::empty()
    } else {
        hex_of_bytes(s.drop_last()) + hex_of_byte(s.last())
    }
}

/// The SHA-1 digest (20 raw bytes) of a byte string.
pub uninterp spec fn sha1_of(data: Seq<u8>) -> Seq<u8>;

/// The digest a transaction stores and compares: the lowercase hexadecimal
/// form of the SHA-1 digest of the file's bytes.
pub open spec fn sha1_hex_of(data: Seq<u8>) -> Seq<char> {
    hex_of_bytes(sha1_of(data))
}

/// Relies on `sha1::Sha1::digest` (RustCrypto): the SHA-1 digest is a pure
/// function of the input bytes, 20 bytes long.
#[verifier::external_body]
fn sha1_digest(data: &[u8]) -> (r: Vec<u8>)
    ensures
        r@ == sha1_of(data@),
        r@.len() == 20,
{
    sha1::Sha1::digest(data).to_vec()
}

/// The single lowercase hexadecimal digit for a nibble, as a string slice.
fn hex_digit_str(n: u8) -> (r: &'static str)
    requires
        n < 16,
    ensures
        r@ == seq![hex_digit(n)],
{
    proof {
        reveal_strlit("0");
        reveal_strlit("1");
        reveal_strlit("2");
        reveal_strlit("3");
        reveal_strlit("4");
        reveal_strlit("5");
        reveal_strlit("6");
        reveal_strlit("7");
        reveal_strlit("8");
        reveal_strlit("9");
        reveal_strlit("a");
        reveal_strlit("b");
        reveal_strlit("c");
        reveal_strlit("d");
        reveal_strlit("e");
        reveal_strlit("f");
    }
    if n == 0 {
        "0"
    } else if n == 1 {
        "1"
    } else if n == 2 {
        "2"
    } else if n == 3 {
        "3"
    } else if n == 4 {
        "4"
    } else if n == 5 {
        "5"
    } else if n == 6 {
        "6"
    } else if n == 7 {
        "7"
    } else if n == 8 {
        "8"
    } else if n == 9 {
        "9"
    } else if n == 10 {
        "a"
    } else if n == 11 {
        "b"
    } else if n == 12 {
        "c"
    } else if n == 13 {
        "d"
    } else if n == 14 {
        "e"
    } else {
        "f"
    }
}

/// Render a byte string as lowercase hexadecimal, two digits per byte.
pub fn hex_lower(data: &[u8]) -> (r: String)
    ensures
        r@ == hex_of_bytes(data@),
{
    let mut out = String::new();
    let mut i: usize = 0;
    while i < data.len()
        invariant
            i <= data@.len(),
            out@ == hex_of_bytes(data@.take(i as int)),
        decreases data@.len() - i,
    {
        let b = data[i];
        out.append(hex_digit_str(b / 16));
        out.append(hex_digit_str(b % 16));
        proof {
            let t = data@.take(i + 1 as int);
            assert(t.drop_last() =~= data@.take(i as int));
            assert(t.last() == data@[i as int]);
            assert(out@ =~= hex_of_bytes(t));
        }
        i += 1;
    }
    proof {
        assert(data@.take(data@.len() as int) =~= data@);
    }
    out
}

/// Compute the digest string of the bytes as written to disk: the lowercase
/// hexadecimal SHA-1 of `data`, always re-derived locally, never taken from a
/// remote party.
pub fn sha1_hex(data: &[u8]) -> (r: String)
    ensures
        r@ == sha1_hex_of(data@),
        r@.len() == 40,
{
    let digest = sha1_digest(data);
    proof {
        lemma_hex_len(digest@);
    }
    hex_lower(digest.as_slice())
}

/// Whether a provider-declared digest matches the locally computed one:
/// exact, case-sensitive string equality.
pub fn hash_matches(declared: &String, computed: &String) -> (r: bool)
    ensures
        r == (declared@ == computed@),
{
    *declared == *computed
}

/// A hexadecimal rendering holds two digits per byte.
pub proof fn lemma_hex_len(s: Seq<u8>)
    ensures
        hex_of_bytes(s).len() == 2 * s.len(),
    decreases s.len(),
{
    if s.len() > 0 {
        lemma_hex_len(s.drop_last());
    }
}

} // verus!
