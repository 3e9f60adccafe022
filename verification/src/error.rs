//! The ways in which work on identities fails.

use vstd::prelude::*;
use crate::text::appended;

verus! {

/// A file-system operation that can fail, named for the error that reports it.
#[derive(Clone, Copy, Debug, PartialEq, Eq)]
pub enum IoOperation {
    ReadConfiguration,
    WriteConfiguration,
    ReadIdentityConfiguration,
    WriteIdentityConfiguration,
    ReadKeyFile,
    WriteKeyFile,
    ProtectKeyFile,
    CopyKeyFile,
    RemoveIdentityFile,
    RemoveIdentityDirectory,
    ListIdentities,
}

/// Why an operation on identities failed.
#[derive(Debug, PartialEq)]
pub enum IdentityError {
    /// Neither a key file nor an identity configuration was found: the
    /// identity's name and the path of the key file that was looked for.
    IdentityDoesNotExist(String, String),
    /// The target of a rename is taken.
    IdentityAlreadyExists(),
    /// The reserved name was given for a new or renamed identity.
    CannotCreateAnonymousIdentity(),
    /// The persisted default identity was to be removed.
    CannotDeleteDefaultIdentity(),
    /// The file system refused a rename: source, target and cause.
    CannotRenameIdentityDirectory(String, String, String),
    /// The file system refused to create a directory: path and cause.
    CannotCreateIdentityDirectory(String, String),
    /// The secure random source or the key generation failed.
    CannotGenerateKeyPair(ring::error::Unspecified),
    /// A key was generated that would not load again from its key file: the
    /// path of the key file, which is not written.
    CannotLoadGeneratedKey(String),
    /// The home directory, under which a legacy key may lie, is unknown.
    CannotFindHomeDirectory(),
    /// The identity's configuration delegates to no hardware module: the
    /// identity's name.
    NoHardwareConfiguration(String),
    /// The identity's key file holds no PEM block: the identity's name.
    CorruptKeyFile(String),
    /// The identity's key file holds no usable Ed25519 key: the identity's
    /// name.
    KeyRejected(String),
    /// The key material that was read for the identity is not of the form
    /// that its files call for: the identity's name.
    UnexpectedKeyMaterial(String),
    /// No PIN was supplied for a key that is held by a hardware module.
    MissingHsmPin(String),
    /// Any other failure of the file system, with the operation and the path.
    Io { operation: IoOperation, path: String, cause: String },
}

pub enum IdentityErrorView {
    IdentityDoesNotExist(Seq<char>, Seq<char>),
    IdentityAlreadyExists,
    CannotCreateAnonymousIdentity,
    CannotDeleteDefaultIdentity,
    CannotRenameIdentityDirectory(Seq<char>, Seq<char>, Seq<char>),
    CannotCreateIdentityDirectory(Seq<char>, Seq<char>),
    CannotGenerateKeyPair,
    CannotLoadGeneratedKey(Seq<char>),
    CannotFindHomeDirectory,
    NoHardwareConfiguration(Seq<char>),
    CorruptKeyFile(Seq<char>),
    KeyRejected(Seq<char>),
    UnexpectedKeyMaterial(Seq<char>),
    MissingHsmPin(Seq<char>),
    Io { operation: IoOperation, path: Seq<char>, cause: Seq<char> },
}

impl View for IdentityError {
    type V = IdentityErrorView;

    open spec fn view(&self) -> IdentityErrorView {
        match self {
            IdentityError::IdentityDoesNotExist(name, path) => IdentityErrorView::IdentityDoesNotExist(
                name@,
                path@,
            ),
            IdentityError::IdentityAlreadyExists() => IdentityErrorView::IdentityAlreadyExists,
            IdentityError::CannotCreateAnonymousIdentity() => IdentityErrorView::CannotCreateAnonymousIdentity,
            IdentityError::CannotDeleteDefaultIdentity() => IdentityErrorView::CannotDeleteDefaultIdentity,
            IdentityError::CannotRenameIdentityDirectory(from, to, cause) => IdentityErrorView::CannotRenameIdentityDirectory(
                from@,
                to@,
                cause@,
            ),
            IdentityError::CannotCreateIdentityDirectory(path, cause) => IdentityErrorView::CannotCreateIdentityDirectory(
                path@,
                cause@,
            ),
            IdentityError::CannotGenerateKeyPair(_) => IdentityErrorView::CannotGenerateKeyPair,
            IdentityError::CannotLoadGeneratedKey(path) => IdentityErrorView::CannotLoadGeneratedKey(
                path@,
            ),
            IdentityError::CannotFindHomeDirectory() => IdentityErrorView::CannotFindHomeDirectory,
            IdentityError::NoHardwareConfiguration(name) => IdentityErrorView::NoHardwareConfiguration(name@),
            IdentityError::CorruptKeyFile(name) => IdentityErrorView::CorruptKeyFile(name@),
            IdentityError::KeyRejected(name) => IdentityErrorView::KeyRejected(name@),
            IdentityError::UnexpectedKeyMaterial(name) => IdentityErrorView::UnexpectedKeyMaterial(
                name@,
            ),
            IdentityError::MissingHsmPin(reason) => IdentityErrorView::MissingHsmPin(reason@),
            IdentityError::Io { operation, path, cause } => IdentityErrorView::Io {
                operation: *operation,
                path: path@,
                cause: cause@,
            },
        }
    }
}

/// How the report of a failed operation begins; the path follows.
pub open spec fn opening(operation: IoOperation) -> Seq<char> {
    match operation {
        IoOperation::ReadConfiguration => "Cannot read configuration file at '"@,
        IoOperation::WriteConfiguration => "Cannot write configuration file at '"@,
        IoOperation::ReadIdentityConfiguration => "Cannot read identity configuration file at '"@,
        IoOperation::WriteIdentityConfiguration => "Cannot write identity configuration file at '"@,
        IoOperation::ReadKeyFile => "Cannot read identity key file at '"@,
        IoOperation::WriteKeyFile => "Cannot write identity key file at '"@,
        IoOperation::ProtectKeyFile => "Cannot protect identity key file at '"@,
        IoOperation::CopyKeyFile => "Cannot copy identity key file at '"@,
        IoOperation::RemoveIdentityFile => "Cannot remove identity file at '"@,
        IoOperation::RemoveIdentityDirectory => "Cannot remove identity directory at '"@,
        IoOperation::ListIdentities => "Cannot list identities at '"@,
    }
}

/// The report of a failed operation on a path: what was tried, and where.
pub open spec fn context_of(operation: IoOperation, path: Seq<char>) -> Seq<char> {
    opening(operation) + path + "'."@
}

/// The message of an error.
pub open spec fn message_of(error: IdentityErrorView) -> Seq<char> {
    match error {
        IdentityErrorView::IdentityDoesNotExist(name, path) => "Identity "@ + name
            + " does not exist at '"@ + path + "'."@,
        IdentityErrorView::IdentityAlreadyExists => "Identity already exists."@,
        IdentityErrorView::CannotCreateAnonymousIdentity => "Cannot create an anonymous identity."@,
        IdentityErrorView::CannotDeleteDefaultIdentity => "Cannot delete the default identity."@,
        IdentityErrorView::CannotRenameIdentityDirectory(from, to, cause) =>
            "Cannot rename identity directory from '"@ + from + "' to '"@ + to + "': "@ + cause,
        IdentityErrorView::CannotCreateIdentityDirectory(path, cause) =>
            "Cannot create identity directory at '"@ + path + "': "@ + cause,
        IdentityErrorView::CannotGenerateKeyPair => "Cannot generate key pair."@,
        IdentityErrorView::CannotLoadGeneratedKey(path) => "Cannot load the key generated for '"@
            + path + "'."@,
        IdentityErrorView::CannotFindHomeDirectory => "Cannot find home directory."@,
        IdentityErrorView::NoHardwareConfiguration(name) =>
            "No hardware configuration for identity "@ + name + "."@,
        IdentityErrorView::CorruptKeyFile(name) => "The key file of identity "@ + name
            + " is corrupt."@,
        IdentityErrorView::KeyRejected(name) => "The key of identity "@ + name
            + " was rejected."@,
        IdentityErrorView::UnexpectedKeyMaterial(name) => "The key material of identity "@ + name
            + " is not what its files call for."@,
        IdentityErrorView::MissingHsmPin(reason) => reason,
        IdentityErrorView::Io { operation, path, cause } => context_of(operation, path) + " "@
            + cause,
    }
}

impl IoOperation {
    /// The report of the failure of this operation on `path`.
    pub fn context(&self, path: &str) -> (report: String)
        ensures
            report@ == context_of(*self, path@),
    {
        let opening = match self {
            IoOperation::ReadConfiguration => "Cannot read configuration file at '",
            IoOperation::WriteConfiguration => "Cannot write configuration file at '",
            IoOperation::ReadIdentityConfiguration => "Cannot read identity configuration file at '",
            IoOperation::WriteIdentityConfiguration => "Cannot write identity configuration file at '",
            IoOperation::ReadKeyFile => "Cannot read identity key file at '",
            IoOperation::WriteKeyFile => "Cannot write identity key file at '",
            IoOperation::ProtectKeyFile => "Cannot protect identity key file at '",
            IoOperation::CopyKeyFile => "Cannot copy identity key file at '",
            IoOperation::RemoveIdentityFile => "Cannot remove identity file at '",
            IoOperation::RemoveIdentityDirectory => "Cannot remove identity directory at '",
            IoOperation::ListIdentities => "Cannot list identities at '",
        };
        let located = appended(opening, path);
        appended(located.as_str(), "'.")
    }

    /// The error for the failure of this operation on `path`, for the cause
    /// that the file system gave.
    pub fn failure(&self, path: &str, cause: String) -> (error: IdentityError)
        ensures
            error@ == (IdentityErrorView::Io { operation: *self, path: path@, cause: cause@ }),
    {
        IdentityError::Io { operation: *self, path: path.to_owned(), cause }
    }
}

impl IdentityError {
    /// The message of this error.
    pub fn message(&self) -> (message: String)
        ensures
            message@ == message_of(self@),
    {
        match self {
            IdentityError::IdentityDoesNotExist(name, path) => {
                let a = appended("Identity ", name.as_str());
                let b = appended(a.as_str(), " does not exist at '");
                let c = appended(b.as_str(), path.as_str());
                appended(c.as_str(), "'.")
            },
            IdentityError::IdentityAlreadyExists() => "Identity already exists.".to_owned(),
            IdentityError::CannotCreateAnonymousIdentity() => "Cannot create an anonymous identity.".to_owned(),
            IdentityError::CannotDeleteDefaultIdentity() => "Cannot delete the default identity.".to_owned(),
            IdentityError::CannotRenameIdentityDirectory(from, to, cause) => {
                let a = appended("Cannot rename identity directory from '", from.as_str());
                let b = appended(a.as_str(), "' to '");
                let c = appended(b.as_str(), to.as_str());
                let d = appended(c.as_str(), "': ");
                appended(d.as_str(), cause.as_str())
            },
            IdentityError::CannotCreateIdentityDirectory(path, cause) => {
                let a = appended("Cannot create identity directory at '", path.as_str());
                let b = appended(a.as_str(), "': ");
                appended(b.as_str(), cause.as_str())
            },
            IdentityError::CannotGenerateKeyPair(_) => "Cannot generate key pair.".to_owned(),
            IdentityError::CannotLoadGeneratedKey(path) => {
                let a = appended("Cannot load the key generated for '", path.as_str());
                appended(a.as_str(), "'.")
            },
            IdentityError::CannotFindHomeDirectory() => "Cannot find home directory.".to_owned(),
            IdentityError::NoHardwareConfiguration(name) => {
                let a = appended("No hardware configuration for identity ", name.as_str());
                appended(a.as_str(), ".")
            },
            IdentityError::CorruptKeyFile(name) => {
                let a = appended("The key file of identity ", name.as_str());
                appended(a.as_str(), " is corrupt.")
            },
            IdentityError::KeyRejected(name) => {
                let a = appended("The key of identity ", name.as_str());
                appended(a.as_str(), " was rejected.")
            },
            IdentityError::UnexpectedKeyMaterial(name) => {
                let a = appended("The key material of identity ", name.as_str());
                appended(a.as_str(), " is not what its files call for.")
            },
            IdentityError::MissingHsmPin(reason) => reason.clone(),
            IdentityError::Io { operation, path, cause } => {
                let a = operation.context(path.as_str());
                let b = appended(a.as_str(), " ");
                appended(b.as_str(), cause.as_str())
            },
        }
    }
}

} // verus!
