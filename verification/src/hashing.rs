//! Content hashing: the SHA-256 digest, taken on trust from its
//! implementation, and a verified lowercase hex encoding of byte strings.

use sha2::Digest;
use vstd::prelude::*;

verus! {

/// What SHA-256 maps a byte string to; the digest depends on the input bytes
/// alone.
pub uninterp spec fn sha256_of(data: Seq<u8>) -> Seq<u8>;

/// Relies on `sha2::Sha256` through the `Digest` trait: one complete update
/// followed by `finalize` digests exactly the given bytes, and the digest is
/// always 32 bytes long.
#[verifier::external_body]
pub fn sha256_digest(data: &Vec<u8>) -> (r: Vec<u8>)
    ensures
        r@ == sha256_of(data@),
        r@.len() == 32,
{
    let mut hasher = sha2::Sha256::new();
    hasher.update(data.as_slice());
    hasher.finalize().as_slice().to_vec()
}

/// The character for one hex digit, lowercase.
pub open spec fn hex_digit_char(d: u8) -> char {
    if d == 0 {
        '0'
    } else if d == 1 {
        '1'
    } else if d == 2 {
        '2'
    } else if d == 3 {
        '3'
    } else if d == 4 {
        '4'
    } else if d == 5 {
        '5'
    } else if d == 6 {
        '6'
    } else if d == 7 {
        '7'
    } else if d == 8 {
        '8'
    } else if d == 9 {
        '9'
    } else if d == 10 {
        'a'
    } else if d == 11 {
        'b'
    } else if d == 12 {
        'c'
    } else if d == 13 {
        'd'
    } else if d == 14 {
        'e'
    } else {
        'f'
    }
}

/// The lowercase hex encoding of a byte string: two digits per byte, high
/// nibble first.
pub open spec fn hex_of(data: Seq<u8>) -> Seq<char> {
    Seq::new(
        2 * data.len(),
        |i: int|
            if i % 2 == 0 {
                hex_digit_char(data[i / 2] >> 4)
            } else {
                hex_digit_char(data[i / 2] & 15)
            },
    )
}

/// Executable form of `hex_digit_char`.
fn hex_digit_exec(d: u8) -> (c: char)
    requires
        d < 16,
    ensures
        c == hex_digit_char(d),
{
    if d == 0 {
        '0'
    } else if d == 1 {
        '1'
    } else if d == 2 {
        '2'
    } else if d == 3 {
        '3'
    } else if d == 4 {
        '4'
    } else if d == 5 {
        '5'
    } else if d == 6 {
        '6'
    } else if d == 7 {
        '7'
    } else if d == 8 {
        '8'
    } else if d == 9 {
        '9'
    } else if d == 10 {
        'a'
    } else if d == 11 {
        'b'
    } else if d == 12 {
        'c'
    } else if d == 13 {
        'd'
    } else if d == 14 {
        'e'
    } else {
        'f'
    }
}

/// Encode a byte string as lowercase hex.
pub fn to_hex(data: &Vec<u8>) -> (r: String)
    ensures
        r@ == hex_of(data@),
{
    let n = data.len();
    let mut out = String::new();
    let mut i: usize = 0;
    while i < n
        invariant
            0 <= i <= n == data@.len(),
            out@.len() == 2 * i,
            forall|k: int| 0 <= k < 2 * i ==> out@[k] == hex_of(data@)[k],
        decreases n - i,
    {
        let b = data[i];
        assert(b >> 4 < 16 && b & 15 < 16) by (bit_vector);
        let hi = b >> 4;
        let lo = b & 15;
        crate::strutil::push_char(&mut out, hex_digit_exec(hi));
        crate::strutil::push_char(&mut out, hex_digit_exec(lo));
        proof {
            assert((2 * i as int) % 2 == 0 && (2 * i as int + 1) % 2 == 1);
            assert((2 * i as int) / 2 == i as int && (2 * i as int + 1) / 2 == i as int);
        }
        i = i + 1;
    }
    proof {
        assert(out@ =~= hex_of(data@));
    }
    out
}

} // verus!
