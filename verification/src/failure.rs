//! Why a request is refused, and how that shows in the response.

use vstd::prelude::*;

verus! {

/// Status of a request that created its record.
pub const STATUS_CREATED: u16 = 201;

/// Status of a request that succeeded otherwise.
pub const STATUS_OK: u16 = 200;

/// Status of every client error.
pub const STATUS_BAD_REQUEST: u16 = 400;

/// Status of every server error.
pub const STATUS_INTERNAL_ERROR: u16 = 500;

/// The first thing that went wrong with a request. The pipeline fails fast:
/// it never collects a second failure.
#[derive(Clone, Copy, Debug, PartialEq, Eq, Structural)]
pub enum Failure {
    /// Broken framing: a part without a name, a stream that cannot be read,
    /// or metadata that does not deserialize.
    Malformed,
    /// A part with a name that the pipeline does not know.
    UnknownField,
    /// The metadata payload is over `MAX_METADATA_SIZE`.
    MetadataTooLarge,
    /// Text or author name is over its limit.
    FieldTooLong,
    /// An image is over `MAX_IMAGE_SIZE`.
    ImageTooLarge,
    /// An image does not begin with the expected signature.
    WrongFormat,
    /// The request ended without a metadata part.
    MissingMetadata,
    /// The body of a part could not be read.
    ReadFailed,
    /// The image store failed.
    StorageFailed,
    /// The record could not be persisted.
    PersistenceFailed,
}

impl Failure {
    /// Failures that the client caused.
    pub open spec fn is_client_error(self) -> bool {
        !(self is ReadFailed || self is StorageFailed || self is PersistenceFailed)
    }

    /// Client errors that are about a size limit, as opposed to content.
    pub open spec fn is_size_limit(self) -> bool {
        self is MetadataTooLarge || self is FieldTooLong || self is ImageTooLarge
    }

    /// The status that answers this failure: 400 for the client's errors,
    /// 500 for the server's.
    pub open spec fn status_of(self) -> u16 {
        if self.is_client_error() {
            STATUS_BAD_REQUEST
        } else {
            STATUS_INTERNAL_ERROR
        }
    }

    /// The words that the response carries beside the status. They tell a
    /// size limit from malformed content, which share the status 400.
    pub open spec fn reason_of(self) -> Seq<char> {
        if self.is_size_limit() {
            "size limit exceeded"@
        } else if self.is_client_error() {
            "malformed request"@
        } else {
            "internal error"@
        }
    }

    /// Whether the client caused this failure.
    pub fn client_error(self) -> (b: bool)
        ensures
            b == self.is_client_error(),
    {
        match self {
            Failure::ReadFailed | Failure::StorageFailed | Failure::PersistenceFailed => false,
            _ => true,
        }
    }

    /// Whether this failure is about a size limit.
    pub fn size_limit(self) -> (b: bool)
        ensures
            b == self.is_size_limit(),
            b ==> self.is_client_error(),
    {
        match self {
            Failure::MetadataTooLarge | Failure::FieldTooLong | Failure::ImageTooLarge => true,
            _ => false,
        }
    }

    /// The body of the response.
    pub fn reason(self) -> (words: &'static str)
        ensures
            words@ == self.reason_of(),
    {
        if self.size_limit() {
            "size limit exceeded"
        } else if self.client_error() {
            "malformed request"
        } else {
            "internal error"
        }
    }

    /// The status code of the response.
    pub fn status(self) -> (code: u16)
        ensures
            code == self.status_of(),
    {
        if self.client_error() {
            STATUS_BAD_REQUEST
        } else {
            STATUS_INTERNAL_ERROR
        }
    }
}

} // verus!
