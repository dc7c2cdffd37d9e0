//! The errors that the library's decisions can end in.

use vstd::prelude::*;

verus! {

/// An error in talking to the Signal service.
#[derive(Clone, Debug)]
pub enum ServiceError {
    /// A response lacked something every response of its kind carries.
    InvalidFrame { reason: &'static str },
    /// The service refused the credentials.
    Unauthorized,
    /// The service answered with a status that has no meaning here.
    UnhandledResponseCode { status: u16, body: String },
    /// The groups service answered with something that is not a group answer.
    GroupsV2Error,
}

/// An error of the client.
#[derive(Clone, Debug)]
pub enum Error {
    /// No account was registered in the store.
    NotYetRegisteredError,
    /// A key that the operation needs is not known.
    MissingKeyError(&'static str),
    /// The account must be linked again before its attributes can be set.
    RelinkNecessary,
    /// Only a primary device may do this.
    NotPrimaryDevice,
    /// The number is no device identifier.
    InvalidDeviceId,
    /// The group is not known.
    UnknownGroup,
    /// A group record of the storage service is malformed or repeated.
    InvalidStorageGroupRecord,
    /// The storage service did not return exactly the records that were asked for.
    IncompleteStorageGroupSnapshot,
    /// Leaving the group kept colliding with other changes to it.
    GroupRevisionConflict,
    /// The group could not be left, or the service did not confirm it.
    InvalidGroupLeaveChange,
    /// The attachment has no checksum, or not the expected one.
    UnexpectedAttachmentChecksum,
    /// The attachment's length is not one that encryption can produce.
    InvalidAttachmentCiphertext,
    /// The key does not have the length of a key.
    InvalidKeyLength,
    /// The attachment is larger than the caller accepts.
    AttachmentSizeLimitExceeded { max_size: usize },
    /// The thread of a message could not be derived.
    UnknownThread,
    /// The service reported an error.
    Service(ServiceError),
}

} // verus!
