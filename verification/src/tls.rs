//! Key material primitives: hexadecimal encoding, the public-key digest
//! that serves as this instance's fingerprint, and the P-256 operations
//! (key generation, public-key derivation) the identity layer is built on.

use sha2::Digest;
use vstd::prelude::*;

verus! {

/// The lowercase hexadecimal digit for a nibble.
pub open spec fn hex_digit(n: u8) -> char
    recommends
        n < 16,
{
    if n == 0 {
        '0'
    } else if n == 1 {
        '1'
    } else if n == 2 {
        '2'
    } else if n == 3 {
        '3'
    } else if n == 4 {
        '4'
    } else if n == 5 {
        '5'
    } else if n == 6 {
        '6'
    } else if n == 7 {
        '7'
    } else if n == 8 {
        '8'
    } else if n == 9 {
        '9'
    } else if n == 10 {
        'a'
    } else if n == 11 {
        'b'
    } else if n == 12 {
        'c'
    } else if n == 13 {
        'd'
    } else if n == 14 {
        'e'
    } else {
        'f'
    }
}

/// Lowercase hexadecimal encoding: two digits per byte, high nibble first.
pub open spec fn hex_of(bytes: Seq<u8>) -> Seq<char>
    decreases bytes.len(),
{
    if bytes.len() == 0 {
        Seq::<char>::empty()
    } else {
        seq![hex_digit(bytes[0] / 16), hex_digit(bytes[0] % 16)] + hex_of(bytes.drop_first())
    }
}

/// Every byte contributes exactly two digits.
pub proof fn lemma_hex_of_len(bytes: Seq<u8>)
    ensures
        hex_of(bytes).len() == 2 * bytes.len(),
    decreases bytes.len(),
{
    if bytes.len() > 0 {
        lemma_hex_of_len(bytes.drop_first());
    }
}

/// The SHA-256 digest of a byte string, named: it is a function of the
/// input alone, and its value is not restated here.
pub uninterp spec fn digest_of(data: Seq<u8>) -> Seq<u8>;

/// The SEC1-encoded P-256 public key derived from a secret scalar, named:
/// a function of the secret bytes alone.
pub uninterp spec fn pubkey_of(secret: Seq<u8>) -> Seq<u8>;

/// Whether a byte string parses as a P-256 secret key, named: exactly the
/// inputs `p256::SecretKey::from_slice` accepts.
pub uninterp spec fn valid_secret(secret: Seq<u8>) -> bool;

/// Relies on hex::encode: lowercase hexadecimal, two digits per byte,
/// high nibble first.
#[verifier::external_body]
pub fn hex_encode(data: &Vec<u8>) -> (r: String)
    ensures
        r@ == hex_of(data@),
{
    hex::encode(data)
}

/// Relies on sha2::Sha256::digest: a 32-byte digest that depends on the
/// input bytes alone.
#[verifier::external_body]
pub fn sha256(data: &Vec<u8>) -> (r: Vec<u8>)
    ensures
        r@ == digest_of(data@),
        r@.len() == 32,
{
    sha2::Sha256::digest(data.as_slice()).to_vec()
}

/// Relies on p256::SecretKey::from_slice, SecretKey::public_key and
/// PublicKey::to_sec1_bytes: parsing succeeds exactly on valid secret
/// scalars, and the derived public key depends on the secret alone.
#[verifier::external_body]
pub fn get_p256_pubkey(secret: &Vec<u8>) -> (r: Option<Vec<u8>>)
    ensures
        (r is Some) == valid_secret(secret@),
        r matches Some(pk) ==> pk@ == pubkey_of(secret@),
{
    match p256::SecretKey::from_slice(secret.as_slice()) {
        Ok(sk) => Some(sk.public_key().to_sec1_bytes().into_vec()),
        Err(_) => None,
    }
}

/// Relies on p256::SecretKey::random and SecretKey::to_bytes: a fresh key
/// is a nonzero scalar serialised as 32 big-endian bytes, which
/// SecretKey::from_slice accepts back.
#[verifier::external_body]
pub fn generate_secret_key() -> (r: Vec<u8>)
    ensures
        r@.len() == 32,
        valid_secret(r@),
{
    let sk = p256::SecretKey::random(&mut rand_core::OsRng);
    sk.to_bytes().to_vec()
}

/// The fingerprint of a public key: its SHA-256 digest.
pub fn pubkey_to_fingerprint(public: &Vec<u8>) -> (r: Vec<u8>)
    ensures
        r@ == digest_of(public@),
        r@.len() == 32,
{
    sha256(public)
}

/// The hex-encoded fingerprint of a public key, as shown to users and
/// reported by discovery.
pub fn fingerprint_hex(public: &Vec<u8>) -> (r: String)
    ensures
        r@ == hex_of(digest_of(public@)),
        r@.len() == 64,
{
    let digest = pubkey_to_fingerprint(public);
    proof {
        lemma_hex_of_len(digest@);
    }
    hex_encode(&digest)
}

} // verus!
