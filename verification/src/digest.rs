use vstd::prelude::*;

use sha1::{Digest, Sha1};

verus! {

/// The SHA-1 digest of a byte sequence. The algorithm itself is left
/// unspecified; all that the library relies on is that the digest is a
/// function of the input bytes alone, and that it is 20 bytes long.
pub uninterp spec fn sha1_of(data: Seq<u8>) -> Seq<u8>;

/// The lowercase hexadecimal digit for a nibble value.
pub open spec fn hex_digit(n: int) -> char {
    if n == 0 {
        '0'
    } else if n == 1 {
        '1'
    } else if n == 2 {
        '2'
    } else if n == 3 {
        '3'
    } else if n == 4 {
        '4'
    } else if n == 5 {
        '5'
    } else if n == 6 {
        '6'
    } else if n == 7 {
        '7'
    } else if n == 8 {
        '8'
    } else if n == 9 {
        '9'
    } else if n == 10 {
        'a'
    } else if n == 11 {
        'b'
    } else if n == 12 {
        'c'
    } else if n == 13 {
        'd'
    } else if n == 14 {
        'e'
    } else {
        'f'
    }
}

/// The nibble value of a lowercase hexadecimal digit (16 for any other char).
pub open spec fn hex_val(c: char) -> int {
    if c == '0' {
        0
    } else if c == '1' {
        1
    } else if c == '2' {
        2
    } else if c == '3' {
        3
    } else if c == '4' {
        4
    } else if c == '5' {
        5
    } else if c == '6' {
        6
    } else if c == '7' {
        7
    } else if c == '8' {
        8
    } else if c == '9' {
        9
    } else if c == 'a' {
        10
    } else if c == 'b' {
        11
    } else if c == 'c' {
        12
    } else if c == 'd' {
        13
    } else if c == 'e' {
        14
    } else if c == 'f' {
        15
    } else {
        16
    }
}

/// Lowercase hexadecimal rendering of a byte sequence: two digits per byte,
/// high nibble first.
pub open spec fn hex_of(data: Seq<u8>) -> Seq<char>
    decreases data.len(),
{
    if data.len() == 0 {
        Seq::<char>::empty()
    } else {
        hex_of(data.drop_last()) + seq![
            hex_digit(data.last() as int / 16),
            hex_digit(data.last() as int % 16),
        ]
    }
}

/// The content hash used for screen identity: lowercase hex of the SHA-1
/// digest of the raw bytes.
pub open spec fn hash_spec(data: Seq<u8>) -> Seq<char> {
    hex_of(sha1_of(data))
}

/// Relies on sha1's `Sha1` through the `digest` traits: the digest is a
/// function of the input bytes alone and is 20 bytes long.
#[verifier::external_body]
pub(crate) fn sha1_digest(data: &[u8]) -> (r: Vec<u8>)
    ensures
        r@ == sha1_of(data@),
        r@.len() == 20,
{
    Sha1::new().chain_update(data).finalize().to_vec()
}

/// Relies on `hex::encode`: lowercase hexadecimal, two digits per byte, high
/// nibble first.
#[verifier::external_body]
pub(crate) fn hex_encode(data: &[u8]) -> (r: String)
    ensures
        r@ == hex_of(data@),
{
    hex::encode(data)
}

/// A nibble's hex digit decodes back to the nibble.
proof fn lemma_hex_digit_val(n: int)
    requires
        0 <= n < 16,
    ensures
        hex_val(hex_digit(n)) == n,
{
}

/// Hex rendering is injective: distinct byte sequences render to distinct
/// strings, so two buffers share a hash only if they share a digest.
pub proof fn lemma_hex_of_injective(a: Seq<u8>, b: Seq<u8>)
    requires
        hex_of(a) == hex_of(b),
    ensures
        a == b,
    decreases a.len(),
{
    assert(hex_of(a).len() == 2 * a.len()) by {
        lemma_hex_of_len(a);
    }
    assert(hex_of(b).len() == 2 * b.len()) by {
        lemma_hex_of_len(b);
    }
    if a.len() == 0 {
        assert(a =~= b);
    } else {
        let ha = hex_of(a);
        assert(ha.last() == hex_digit(a.last() as int % 16));
        assert(ha[ha.len() - 2] == hex_digit(a.last() as int / 16));
        assert(ha.last() == hex_digit(b.last() as int % 16));
        assert(ha[ha.len() - 2] == hex_digit(b.last() as int / 16));
        lemma_hex_digit_val(a.last() as int % 16);
        lemma_hex_digit_val(a.last() as int / 16);
        lemma_hex_digit_val(b.last() as int % 16);
        lemma_hex_digit_val(b.last() as int / 16);
        assert(a.last() as int % 16 == b.last() as int % 16);
        assert(a.last() as int / 16 == b.last() as int / 16);
        assert(a.last() == b.last());
        assert(hex_of(a.drop_last()) =~= hex_of(b.drop_last())) by {
            assert(hex_of(a.drop_last()) == ha.take(ha.len() - 2));
            assert(hex_of(b.drop_last()) == ha.take(ha.len() - 2));
        }
        lemma_hex_of_injective(a.drop_last(), b.drop_last());
        assert(a =~= a.drop_last() + seq![a.last()]);
        assert(b =~= b.drop_last() + seq![b.last()]);
    }
}

/// The hex rendering of a byte sequence has two characters per byte.
pub proof fn lemma_hex_of_len(data: Seq<u8>)
    ensures
        hex_of(data).len() == 2 * data.len(),
    decreases data.len(),
{
    if data.len() > 0 {
        lemma_hex_of_len(data.drop_last());
    }
}

/// Hashing is deterministic: identical byte buffers hash identically, and two
/// buffers hash identically exactly when their digests agree.
pub proof fn lemma_hash_deterministic(a: Seq<u8>, b: Seq<u8>)
    ensures
        a == b ==> hash_spec(a) == hash_spec(b),
        hash_spec(a) == hash_spec(b) <==> sha1_of(a) == sha1_of(b),
{
    if hash_spec(a) == hash_spec(b) {
        lemma_hex_of_injective(sha1_of(a), sha1_of(b));
    }
}

} // verus!
