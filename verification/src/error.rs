//! Failure taxonomy of a request and its mapping to HTTP status codes.

use vstd::prelude::*;
use vstd::string::*;

verus! {

/// Status code of a successful response.
pub const STATUS_OK: u16 = 200;

/// Status code of a failure that the caller's input caused.
pub const STATUS_BAD_REQUEST: u16 = 400;

/// Status code of a failure that the caller's input did not cause.
pub const STATUS_INTERNAL_ERROR: u16 = 500;

/// The three classes of failure.
#[derive(Clone, Copy, Debug, PartialEq, Eq, Structural)]
pub enum ErrorClass {
    /// The image handed in cannot be used.
    MalformedInput,
    /// A blur parameter is not acceptable.
    InvalidParameters,
    /// The engine failed for a reason other than the caller's input.
    InternalFailure,
}

impl ErrorClass {
    /// The word for a class in an error body.
    pub open spec fn spec_name(self) -> Seq<char> {
        match self {
            ErrorClass::MalformedInput => "malformed_input"@,
            ErrorClass::InvalidParameters => "invalid_parameters"@,
            ErrorClass::InternalFailure => "internal_failure"@,
        }
    }

    pub fn name(self) -> (name: &'static str)
        ensures
            name@ == self.spec_name(),
    {
        match self {
            ErrorClass::MalformedInput => "malformed_input",
            ErrorClass::InvalidParameters => "invalid_parameters",
            ErrorClass::InternalFailure => "internal_failure",
        }
    }
}

/// The engine call during which an internal failure happened.
#[derive(Clone, Copy, Debug, PartialEq, Eq, Structural)]
pub enum EngineStage {
    Decode,
    Blur,
    Encode,
}

/// Why a request was not answered with a blurred image.
#[derive(Clone, Copy, Debug, PartialEq, Eq, Structural)]
pub enum BlurError {
    /// The request body is not valid base64 text.
    InvalidBase64,
    /// The bytes handed in do not decode to an image with pixels.
    NotAnImage,
    /// The upload could not be stored for reading.
    UnreadableUpload,
    /// The kernel width or height is not a positive odd number.
    InvalidKernel,
    /// The engine has no encoder for the requested output format.
    UnsupportedFormat,
    /// The work failed at the given stage for a reason other than the
    /// caller's input.
    Internal(EngineStage),
}

impl BlurError {
    /// The class a failure belongs to.
    pub open spec fn spec_class(self) -> ErrorClass {
        match self {
            BlurError::InvalidBase64 | BlurError::NotAnImage | BlurError::UnreadableUpload =>
                ErrorClass::MalformedInput,
            BlurError::InvalidKernel | BlurError::UnsupportedFormat => ErrorClass::InvalidParameters,
            BlurError::Internal(_) => ErrorClass::InternalFailure,
        }
    }

    /// The status code that reports a failure: a client error for the first
    /// two classes, a server error for the third.
    pub open spec fn spec_status(self) -> u16 {
        match self.spec_class() {
            ErrorClass::MalformedInput | ErrorClass::InvalidParameters => STATUS_BAD_REQUEST,
            ErrorClass::InternalFailure => STATUS_INTERNAL_ERROR,
        }
    }

    /// The word for a failure in an error body.
    pub open spec fn spec_name(self) -> Seq<char> {
        match self {
            BlurError::InvalidBase64 => "invalid_base64"@,
            BlurError::NotAnImage => "not_an_image"@,
            BlurError::UnreadableUpload => "unreadable_upload"@,
            BlurError::InvalidKernel => "invalid_kernel"@,
            BlurError::UnsupportedFormat => "unsupported_format"@,
            BlurError::Internal(EngineStage::Decode) => "decode_failed"@,
            BlurError::Internal(EngineStage::Blur) => "blur_failed"@,
            BlurError::Internal(EngineStage::Encode) => "encode_failed"@,
        }
    }

    /// The body of an error response: a JSON object that names the class
    /// of the failure and the failure itself.
    pub open spec fn spec_body(self) -> Seq<char> {
        "{\"class\":\""@ + self.spec_class().spec_name() + "\",\"error\":\""@ + self.spec_name()
            + "\"}"@
    }

    #[verifier::when_used_as_spec(spec_class)]
    pub fn class(self) -> (class: ErrorClass)
        ensures
            class == self.spec_class(),
    {
        match self {
            BlurError::InvalidBase64 => ErrorClass::MalformedInput,
            BlurError::NotAnImage => ErrorClass::MalformedInput,
            BlurError::UnreadableUpload => ErrorClass::MalformedInput,
            BlurError::InvalidKernel => ErrorClass::InvalidParameters,
            BlurError::UnsupportedFormat => ErrorClass::InvalidParameters,
            BlurError::Internal(_) => ErrorClass::InternalFailure,
        }
    }

    #[verifier::when_used_as_spec(spec_status)]
    pub fn status(self) -> (status: u16)
        ensures
            status == self.spec_status(),
            status == STATUS_BAD_REQUEST || status == STATUS_INTERNAL_ERROR,
            status == STATUS_BAD_REQUEST <==> self.spec_class() != ErrorClass::InternalFailure,
    {
        match self.class() {
            ErrorClass::MalformedInput => STATUS_BAD_REQUEST,
            ErrorClass::InvalidParameters => STATUS_BAD_REQUEST,
            ErrorClass::InternalFailure => STATUS_INTERNAL_ERROR,
        }
    }

    pub fn name(self) -> (name: &'static str)
        ensures
            name@ == self.spec_name(),
    {
        match self {
            BlurError::InvalidBase64 => "invalid_base64",
            BlurError::NotAnImage => "not_an_image",
            BlurError::UnreadableUpload => "unreadable_upload",
            BlurError::InvalidKernel => "invalid_kernel",
            BlurError::UnsupportedFormat => "unsupported_format",
            BlurError::Internal(EngineStage::Decode) => "decode_failed",
            BlurError::Internal(EngineStage::Blur) => "blur_failed",
            BlurError::Internal(EngineStage::Encode) => "encode_failed",
        }
    }

    /// Writes the body of the error response for this failure.
    pub fn body(self) -> (body: String)
        ensures
            body@ == self.spec_body(),
    {
        let mut body = String::from_str("{\"class\":\"");
        body.append(self.class().name());
        body.append("\",\"error\":\"");
        body.append(self.name());
        body.append("\"}");
        body
    }
}

} // verus!
