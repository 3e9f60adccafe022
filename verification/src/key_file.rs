//! The key file of a software identity: a fresh Ed25519 key pair as a PKCS#8
//! document in PEM, written and then protected from change.
//!
//! A key is written only after it was seen to load again.

use vstd::prelude::*;
use crate::error::{IdentityError, IdentityErrorView};
use vstd::utf8::encode_utf8;
use crate::keys::{
    generate_pkcs8,
    pem_encode,
    pem_parse,
    pem_parsed,
    pem_text,
    pkcs8_accepted,
    public_key_of,
};
use crate::text::bytes_eq;
use crate::plan::{FsAction, FsActionView, Plan, PlanView};

verus! {

/// The tag under which a private key is wrapped in PEM.
pub const PRIVATE_KEY_TAG: &'static str = "PRIVATE KEY";

/// The PEM form of a PKCS#8 private key.
pub fn encode_pem_private_key(key: &[u8]) -> (text: String)
    ensures
        text@ == pem_text(PRIVATE_KEY_TAG@, key@),
{
    pem_encode(PRIVATE_KEY_TAG, key)
}

/// Whether a document comes back from its own key file: whether the PEM form
/// of the document holds a block with the document in it, and `ring` accepts
/// the document as an Ed25519 key.
pub open spec fn loads_back(document: Seq<u8>) -> bool {
    &&& pkcs8_accepted(document)
    &&& pem_parsed(encode_utf8(pem_text(PRIVATE_KEY_TAG@, document))) matches Some((_, found))
    &&& found == document
}

/// The plan that puts a key file in place: the key in PEM form, written and
/// protected. No key file is planned for a key that would not come back from
/// it, and none where no key could be generated.
pub open spec fn key_file_plan(pem_file: Seq<char>, generated: Option<Seq<u8>>) -> PlanView<()> {
    match generated {
        Some(document) => if loads_back(document) {
            PlanView::done(()).after(FsActionView::ProtectKeyFile { path: pem_file }).after(
                FsActionView::WriteKeyFile {
                    path: pem_file,
                    contents: pem_text(PRIVATE_KEY_TAG@, document),
                },
            )
        } else {
            PlanView::failed(IdentityErrorView::CannotLoadGeneratedKey(pem_file))
        },
        None => PlanView::failed(IdentityErrorView::CannotGenerateKeyPair),
    }
}

/// The document that a key generation gave, if it gave one.
pub open spec fn document_of(
    generated: Result<Vec<u8>, ring::error::Unspecified>,
) -> Option<Seq<u8>> {
    match generated {
        Ok(document) => Some(document@),
        Err(_) => None,
    }
}

/// The plan that puts a key file in place at `pem_file`, for the outcome of a
/// key generation. The key is written only after it was seen to come back
/// from its PEM form as a key that `ring` accepts, so that every identity
/// that is created loads again with the key that was generated for it.
pub fn key_file(
    pem_file: &str,
    generated: Result<Vec<u8>, ring::error::Unspecified>,
) -> (plan: Plan<()>)
    ensures
        plan@ == key_file_plan(pem_file@, document_of(generated)),
{
    match generated {
        Ok(document) => {
            let contents = encode_pem_private_key(document.as_slice());
            let comes_back = match pem_parse(contents.as_str().as_bytes()) {
                Ok((_, found)) => bytes_eq(found.as_slice(), document.as_slice()),
                Err(_) => false,
            };
            let accepted = match public_key_of(document.as_slice()) {
                Ok(_) => true,
                Err(_) => false,
            };
            if comes_back && accepted {
                Plan::done(()).after(FsAction::ProtectKeyFile { path: pem_file.to_owned() }).after(
                    FsAction::WriteKeyFile { path: pem_file.to_owned(), contents },
                )
            } else {
                Plan::failed(IdentityError::CannotLoadGeneratedKey(pem_file.to_owned()))
            }
        },
        Err(cause) => Plan::failed(IdentityError::CannotGenerateKeyPair(cause)),
    }
}

/// Generates an Ed25519 key pair and plans its key file at `pem_file`: the
/// PKCS#8 document in PEM, written and then protected.
///
/// The key comes from the system's random source, so the plan is one of
/// those that [`key_file`] gives.
pub fn generate_key(pem_file: &str) -> (plan: Plan<()>)
    ensures
        exists|generated: Option<Seq<u8>>| plan@ == #[trigger] key_file_plan(pem_file@, generated),
{
    let generated = generate_pkcs8();
    let ghost outcome = document_of(generated);
    let plan = key_file(pem_file, generated);
    assert(plan@ == key_file_plan(pem_file@, outcome));
    plan
}

} // verus!
