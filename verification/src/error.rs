//! Error kinds returned by the synchronization engine.

use vstd::prelude::*;
use vstd::string::StringExecFns;

verus! {

/// An error returned by a pull, push or selection run.
///
/// `AlreadyExists` is deliberately absent: the upsert protocol consumes the
/// backend's already-exists signal (see [`crate::store::CreateError`]) and
/// never surfaces it to callers.
#[derive(Debug, PartialEq, Eq)]
pub enum SyncError {
    /// The store holds no secret under the requested name.
    SecretNotFound { name: String },
    /// The local file to push from does not exist.
    FileNotFound { path: String },
    /// The secret store failed for a reason other than a missing secret.
    BackendError { message: String },
    /// A filesystem read or write failed.
    IoError { message: String },
    /// A non-empty manifest was filtered down to no entries.
    FilterEmpty,
}

impl SyncError {
    /// The characters of the human-readable message for this error.
    pub open spec fn message_spec(&self) -> Seq<char> {
        match self {
            SyncError::SecretNotFound { name } => "secret \""@ + name@ + "\" not found"@,
            SyncError::FileNotFound { path: _ } => {
                "cannot push secret, file does not exist"@
            },
            SyncError::BackendError { message } => message@,
            SyncError::IoError { message } => message@,
            SyncError::FilterEmpty => "no files matching filter"@,
        }
    }

    /// Renders the human-readable message; a missing secret is reported
    /// under its name.
    pub fn message(&self) -> (r: String)
        ensures
            r@ == self.message_spec(),
    {
        match self {
            SyncError::SecretNotFound { name } => {
                let mut s = String::from_str("secret \"");
                s.append(name.as_str());
                s.append("\" not found");
                s
            },
            SyncError::FileNotFound { path: _ } => {
                String::from_str("cannot push secret, file does not exist")
            },
            SyncError::BackendError { message } => message.clone(),
            SyncError::IoError { message } => message.clone(),
            SyncError::FilterEmpty => String::from_str("no files matching filter"),
        }
    }
}

} // verus!
