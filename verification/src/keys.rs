//! Key material: Ed25519 key pairs from `ring`, and their PEM form from `pem`.
//!
//! What stands here is believed, not proved: each function states about a
//! function of `ring` or `pem` what that function's source shows.

use vstd::prelude::*;

verus! {

/// `ring::error::Unspecified`: an error of `ring` that tells no cause. Nothing
/// is known of a value of it.
#[verifier::external_type_specification]
#[verifier::external_body]
pub struct ExUnspecified(ring::error::Unspecified);

/// `ring::error::KeyRejected`: why `ring` did not take a key. Nothing is known
/// of a value of it.
#[verifier::external_type_specification]
#[verifier::external_body]
pub struct ExKeyRejected(ring::error::KeyRejected);

/// `pem::PemError`: why a text holds no PEM block. Nothing is known of a value
/// of it.
#[verifier::external_type_specification]
#[verifier::external_body]
pub struct ExPemError(pem::PemError);

/// The length of an Ed25519 signature, in bytes.
pub const SIGNATURE_LENGTH: usize = 64;

/// The length of an Ed25519 public key, in bytes.
pub const PUBLIC_KEY_LENGTH: usize = 32;

/// The PEM text that `pem::encode` gives for a tag and the bytes under it.
pub uninterp spec fn pem_text(tag: Seq<char>, contents: Seq<u8>) -> Seq<char>;

/// The tag and the bytes that `pem::parse` finds in a text, if it finds any.
pub uninterp spec fn pem_parsed(input: Seq<u8>) -> Option<(Seq<char>, Seq<u8>)>;

/// Whether `ring` accepts a document as an unencrypted PKCS#8 v2 Ed25519
/// private key.
pub uninterp spec fn pkcs8_accepted(document: Seq<u8>) -> bool;

/// The public key of the key pair that an accepted document holds.
pub uninterp spec fn ed25519_public_key(document: Seq<u8>) -> Seq<u8>;

/// The Ed25519 signature of a message under the key pair that an accepted
/// document holds.
pub uninterp spec fn ed25519_signature(document: Seq<u8>, message: Seq<u8>) -> Seq<u8>;

/// Generates an Ed25519 key pair with `ring`'s
/// `Ed25519KeyPair::generate_pkcs8`, from the system's secure random source,
/// and returns it as a PKCS#8 document.
///
/// Trusted, with nothing claimed: the document depends on the random source,
/// and the call fails where that source does.
#[verifier::external_body]
pub(crate) fn generate_pkcs8() -> (document: Result<Vec<u8>, ring::error::Unspecified>) {
    let rng = ring::rand::SystemRandom::new();
    match ring::signature::Ed25519KeyPair::generate_pkcs8(&rng) {
        Ok(document) => Ok(document.as_ref().to_vec()),
        Err(cause) => Err(cause),
    }
}

/// The public key of the key pair that a PKCS#8 document holds, as `ring`'s
/// `Ed25519KeyPair::from_pkcs8` and `KeyPair::public_key` give it.
///
/// Trusted: whether the document is accepted depends on its bytes alone, and
/// so does the public key of an accepted document, which is 32 bytes long.
#[verifier::external_body]
pub(crate) fn public_key_of(document: &[u8]) -> (key: Result<Vec<u8>, ring::error::KeyRejected>)
    ensures
        key is Ok <==> pkcs8_accepted(document@),
        key matches Ok(bytes) ==> (bytes@ == ed25519_public_key(document@) && bytes@.len()
            == PUBLIC_KEY_LENGTH),
{
    match ring::signature::Ed25519KeyPair::from_pkcs8(document) {
        Ok(pair) => Ok(ring::signature::KeyPair::public_key(&pair).as_ref().to_vec()),
        Err(cause) => Err(cause),
    }
}

/// Signs a message with the key pair that a PKCS#8 document holds, as `ring`'s
/// `Ed25519KeyPair::from_pkcs8` and `Ed25519KeyPair::sign` do.
///
/// Trusted: whether the document is accepted depends on its bytes alone.
/// Ed25519 signs without randomness, so the signature depends on the
/// document and the message alone; it is 64 bytes long.
#[verifier::external_body]
pub(crate) fn sign_with(
    document: &[u8],
    message: &[u8],
) -> (signature: Result<Vec<u8>, ring::error::KeyRejected>)
    ensures
        signature is Ok <==> pkcs8_accepted(document@),
        signature matches Ok(bytes) ==> (bytes@ == ed25519_signature(document@, message@)
            && bytes@.len() == SIGNATURE_LENGTH),
{
    match ring::signature::Ed25519KeyPair::from_pkcs8(document) {
        Ok(pair) => Ok(pair.sign(message).as_ref().to_vec()),
        Err(cause) => Err(cause),
    }
}

/// Wraps bytes in PEM with `pem::encode`.
///
/// Trusted: the text depends on the tag and the bytes alone.
#[verifier::external_body]
pub(crate) fn pem_encode(tag: &str, contents: &[u8]) -> (text: String)
    ensures
        text@ == pem_text(tag@, contents@),
{
    pem::encode(&pem::Pem { tag: tag.to_owned(), contents: contents.to_vec() })
}

/// Reads the first PEM block of a text with `pem::parse`.
///
/// Trusted: what is found depends on the text alone.
#[verifier::external_body]
pub(crate) fn pem_parse(input: &[u8]) -> (block: Result<(String, Vec<u8>), pem::PemError>)
    ensures
        match block {
            Ok((tag, contents)) => pem_parsed(input@) == Some((tag@, contents@)),
            Err(_) => pem_parsed(input@) is None,
        },
{
    match pem::parse(input) {
        Ok(block) => Ok((block.tag, block.contents)),
        Err(cause) => Err(cause),
    }
}

} // verus!
