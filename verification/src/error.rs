//! Error kinds surfaced by the resource layer and by the user layer.
//!
//! Every failure path produces a distinguishable outcome; nothing is
//! swallowed silently.

use vstd::prelude::*;
use vstd::string::StringExecFns;

verus! {

/// Failure of a resource operation.
#[derive(Debug)]
pub enum ResourceIOError {
    /// The per-resource policy denied the operation; the payload names the
    /// operation ("reading" or "writing"). Never retried.
    InsufficientPermissions(String),
    /// `read` or `save` was attempted before a storage handle existed; an
    /// ordering error on the caller's side.
    NotAllocated,
    /// The blob backend could not produce a fresh location; the payload
    /// carries the transport failure.
    AllocationError(String),
    /// The blob backend rejected an upload.
    UploadError(String),
    /// The blob backend rejected a download.
    DownloadError(String),
    /// The metadata store failed; the payload carries the store's failure.
    DatabaseError(String),
    /// `update_resource` was handed a resource that has not been assigned an
    /// identifier yet.
    MissingIdentifier,
}

impl ResourceIOError {
    /// The message that describes this error.
    pub open spec fn spec_message(&self) -> Seq<char> {
        match self {
            ResourceIOError::InsufficientPermissions(op) => "InsufficientPermissions: cannot "@
                + op@ + " resource"@,
            ResourceIOError::NotAllocated => "NotAllocated: no storage handle exists"@,
            ResourceIOError::AllocationError(why) => "AllocationError: "@ + why@,
            ResourceIOError::UploadError(why) => "UploadError: "@ + why@,
            ResourceIOError::DownloadError(why) => "DownloadError: "@ + why@,
            ResourceIOError::DatabaseError(why) => "DatabaseError: "@ + why@,
            ResourceIOError::MissingIdentifier => "MissingIdentifier: resource has no identifier"@,
        }
    }

    /// Renders the error for the caller.
    pub fn message(&self) -> (r: String)
        ensures
            r@ == self.spec_message(),
    {
        match self {
            ResourceIOError::InsufficientPermissions(op) => {
                let mut s = String::from_str("InsufficientPermissions: cannot ");
                s.append(op.as_str());
                s.append(" resource");
                s
            },
            ResourceIOError::NotAllocated => String::from_str(
                "NotAllocated: no storage handle exists",
            ),
            ResourceIOError::AllocationError(why) => {
                let mut s = String::from_str("AllocationError: ");
                s.append(why.as_str());
                s
            },
            ResourceIOError::UploadError(why) => {
                let mut s = String::from_str("UploadError: ");
                s.append(why.as_str());
                s
            },
            ResourceIOError::DownloadError(why) => {
                let mut s = String::from_str("DownloadError: ");
                s.append(why.as_str());
                s
            },
            ResourceIOError::DatabaseError(why) => {
                let mut s = String::from_str("DatabaseError: ");
                s.append(why.as_str());
                s
            },
            ResourceIOError::MissingIdentifier => String::from_str(
                "MissingIdentifier: resource has no identifier",
            ),
        }
    }
}

/// Failure of an authentication operation.
#[derive(Debug)]
pub enum UserError {
    /// The presented password does not match the stored credential. Surfaced
    /// as unauthorized; never reveals whether the username existed.
    MismatchingCredential,
    /// The metadata store failed; the payload carries the store's failure.
    DatabaseError(String),
}

impl UserError {
    /// The message that describes this error.
    pub open spec fn spec_message(&self) -> Seq<char> {
        match self {
            UserError::MismatchingCredential => "MismatchingCredential: cannot login"@,
            UserError::DatabaseError(why) => "DatabaseError: "@ + why@,
        }
    }

    /// Renders the error for the caller.
    pub fn message(&self) -> (r: String)
        ensures
            r@ == self.spec_message(),
    {
        match self {
            UserError::MismatchingCredential => String::from_str(
                "MismatchingCredential: cannot login",
            ),
            UserError::DatabaseError(why) => {
                let mut s = String::from_str("DatabaseError: ");
                s.append(why.as_str());
                s
            },
        }
    }
}

} // verus!
