//! The ways in which an upload request can fail.
use vstd::prelude::*;

verus! {

/// Why an upload request was refused or aborted.
#[derive(Clone, Copy, Debug, PartialEq, Eq, Structural)]
pub enum UploadError {
    /// The declared body length exceeds the configured ceiling.
    TooLarge,
    /// A ceiling is configured and the request declares no body length.
    LengthRequired,
    /// The content type carries no usable `boundary` parameter.
    MissingBoundary,
    /// The multipart framing is malformed or the body ended early.
    Decode,
    /// A file could not be created, written or closed.
    Io,
    /// The driver reported something the state machine had not asked for.
    OutOfOrder,
}

pub const STATUS_OK: u16 = 200;

pub const STATUS_BAD_REQUEST: u16 = 400;

pub const STATUS_LENGTH_REQUIRED: u16 = 411;

pub const STATUS_PAYLOAD_TOO_LARGE: u16 = 413;

pub const STATUS_INTERNAL_ERROR: u16 = 500;

impl UploadError {
    /// The HTTP status that reports this error: a client error for what the
    /// request itself got wrong, a server error for what went wrong while the
    /// body was being processed.
    pub open spec fn spec_status(self) -> u16 {
        match self {
            UploadError::TooLarge => STATUS_PAYLOAD_TOO_LARGE,
            UploadError::LengthRequired => STATUS_LENGTH_REQUIRED,
            UploadError::MissingBoundary => STATUS_BAD_REQUEST,
            UploadError::Decode => STATUS_INTERNAL_ERROR,
            UploadError::Io => STATUS_INTERNAL_ERROR,
            UploadError::OutOfOrder => STATUS_INTERNAL_ERROR,
        }
    }

    #[verifier::when_used_as_spec(spec_status)]
    pub fn status(self) -> (code: u16)
        ensures
            code == self.spec_status(),
    {
        match self {
            UploadError::TooLarge => STATUS_PAYLOAD_TOO_LARGE,
            UploadError::LengthRequired => STATUS_LENGTH_REQUIRED,
            UploadError::MissingBoundary => STATUS_BAD_REQUEST,
            UploadError::Decode => STATUS_INTERNAL_ERROR,
            UploadError::Io => STATUS_INTERNAL_ERROR,
            UploadError::OutOfOrder => STATUS_INTERNAL_ERROR,
        }
    }
}

} // verus!
