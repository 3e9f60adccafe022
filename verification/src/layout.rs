//! Where the registry keeps its files.
//!
//! ```text
//! <root>/identity.json                  the global configuration
//! <root>/identity/<name>/identity.pem   a software identity's private key
//! <root>/identity/<name>/identity.json  a hardware identity's configuration
//! ```

use vstd::prelude::*;
use crate::configuration::{IDENTITY_JSON, IDENTITY_PEM};
use crate::error::{IdentityError, IdentityErrorView};
use crate::paths::{join_path, path_join};

verus! {

/// The directory, under the configuration root, that holds one directory per
/// identity.
pub const IDENTITY_ROOT: &'static str = "identity";

/// The registry's root directory, for a configuration root.
pub open spec fn root_path_under(config_dir: Seq<char>) -> Seq<char> {
    path_join(config_dir, IDENTITY_ROOT@)
}

/// The global configuration's path, for a configuration root.
pub open spec fn json_path_under(config_dir: Seq<char>) -> Seq<char> {
    path_join(config_dir, IDENTITY_JSON@)
}

/// An identity's directory.
pub open spec fn dir_path(root: Seq<char>, name: Seq<char>) -> Seq<char> {
    path_join(root, name)
}

/// An identity's key file.
pub open spec fn pem_path(root: Seq<char>, name: Seq<char>) -> Seq<char> {
    path_join(dir_path(root, name), IDENTITY_PEM@)
}

/// An identity's own configuration.
pub open spec fn json_path(root: Seq<char>, name: Seq<char>) -> Seq<char> {
    path_join(dir_path(root, name), IDENTITY_JSON@)
}

/// Where a legacy key file lies under a home directory.
pub open spec fn legacy_creds_path(home: Seq<char>) -> Seq<char> {
    path_join(path_join(path_join(home, ".dfinity"@), "identity"@), "creds.pem"@)
}

/// The registry's root directory, for a configuration root.
pub fn identity_root_path(config_dfx_dir_path: &str) -> (path: String)
    ensures
        path@ == root_path_under(config_dfx_dir_path@),
{
    join_path(config_dfx_dir_path, IDENTITY_ROOT)
}

/// The global configuration's path, for a configuration root.
pub fn identity_json_path(config_dfx_dir_path: &str) -> (path: String)
    ensures
        path@ == json_path_under(config_dfx_dir_path@),
{
    join_path(config_dfx_dir_path, IDENTITY_JSON)
}

/// An identity's directory under the registry's root.
pub fn identity_dir_path_in(identity_root_path: &str, identity: &str) -> (path: String)
    ensures
        path@ == dir_path(identity_root_path@, identity@),
{
    join_path(identity_root_path, identity)
}

/// An identity's key file under the registry's root.
pub fn identity_pem_path_in(identity_root_path: &str, identity: &str) -> (path: String)
    ensures
        path@ == pem_path(identity_root_path@, identity@),
{
    let dir = identity_dir_path_in(identity_root_path, identity);
    join_path(dir.as_str(), IDENTITY_PEM)
}

/// An identity's own configuration under the registry's root.
pub fn identity_json_path_in(identity_root_path: &str, identity: &str) -> (path: String)
    ensures
        path@ == json_path(identity_root_path@, identity@),
{
    let dir = identity_dir_path_in(identity_root_path, identity);
    join_path(dir.as_str(), IDENTITY_JSON)
}

/// Where a legacy key file lies under the home directory `home`.
pub fn legacy_creds_pem_path(home: &str) -> (path: String)
    ensures
        path@ == legacy_creds_path(home@),
{
    let dfinity = join_path(home, ".dfinity");
    let identity = join_path(dfinity.as_str(), "identity");
    join_path(identity.as_str(), "creds.pem")
}

/// Where a legacy key file would lie, given the home directory. Without a
/// home directory there is no such place.
pub fn get_legacy_creds_pem_path(home: Option<&str>) -> (path: Result<String, IdentityError>)
    ensures
        match home {
            Some(home) => path matches Ok(p) && p@ == legacy_creds_path(home@),
            None => path matches Err(e) && e@ == IdentityErrorView::CannotFindHomeDirectory,
        },
{
    match home {
        Some(home) => Ok(legacy_creds_pem_path(home)),
        None => Err(IdentityError::CannotFindHomeDirectory()),
    }
}

} // verus!
