//! What passes between the library and its host while a request is served:
//! the work the library asks for, what the host reports back, and the
//! response that ends the request.

use vstd::prelude::*;

use crate::error::{BlurError, STATUS_BAD_REQUEST, STATUS_INTERNAL_ERROR, STATUS_OK};
use crate::params::{BlurSettings, ReadMode};

verus! {

/// The response to a request.
#[derive(Clone, Debug, PartialEq, Eq)]
pub enum Response {
    /// Success of the encoded-body path: the base64 text of the encoded image.
    Text(String),
    /// Success of the multipart path: the encoded image itself.
    Bytes(Vec<u8>),
    /// Failure, with its reason.
    Rejected(BlurError),
}

/// Mathematical value of a [`Response`].
pub enum ResponseView {
    Text(Seq<char>),
    Bytes(Seq<u8>),
    Rejected(BlurError),
}

impl View for Response {
    type V = ResponseView;

    open spec fn view(&self) -> ResponseView {
        match self {
            Response::Text(text) => ResponseView::Text(text@),
            Response::Bytes(bytes) => ResponseView::Bytes(bytes@),
            Response::Rejected(error) => ResponseView::Rejected(*error),
        }
    }
}

impl ResponseView {
    /// The status code of a response: success for an image, else the code
    /// of the failure.
    pub open spec fn status(self) -> u16 {
        match self {
            ResponseView::Text(_) | ResponseView::Bytes(_) => STATUS_OK,
            ResponseView::Rejected(error) => error.spec_status(),
        }
    }

    pub open spec fn is_success(self) -> bool {
        !(self is Rejected)
    }
}

impl Response {
    pub fn status(&self) -> (status: u16)
        ensures
            status == self@.status(),
            status == STATUS_OK <==> self@.is_success(),
            status == STATUS_OK || status == STATUS_BAD_REQUEST || status == STATUS_INTERNAL_ERROR,
    {
        match self {
            Response::Text(_) => STATUS_OK,
            Response::Bytes(_) => STATUS_OK,
            Response::Rejected(error) => error.status(),
        }
    }
}

/// Work that the host performs for the library.
#[derive(Clone, Debug, PartialEq, Eq)]
pub enum Action {
    /// Store the upload in the temporary directory under this file name,
    /// replacing what is there.
    Persist { file_name: String },
    /// Have the engine decode these bytes as an image.
    DecodeBytes { bytes: Vec<u8>, mode: ReadMode },
    /// Have the engine read the image in this file of the temporary directory.
    DecodeFile { file_name: String, mode: ReadMode },
    /// Have the engine blur the decoded image.
    GaussianBlur { settings: BlurSettings },
    /// Have the engine encode the blurred image in this format, into a
    /// buffer reserved with this many bytes.
    Encode { format: String, capacity_hint: usize },
    /// Delete this file of the temporary directory.
    Remove { file_name: String },
}

/// Mathematical value of an [`Action`].
pub enum ActionView {
    Persist { file_name: Seq<char> },
    DecodeBytes { bytes: Seq<u8>, mode: ReadMode },
    DecodeFile { file_name: Seq<char>, mode: ReadMode },
    GaussianBlur { settings: BlurSettings },
    Encode { format: Seq<char>, capacity_hint: usize },
    Remove { file_name: Seq<char> },
}

impl View for Action {
    type V = ActionView;

    open spec fn view(&self) -> ActionView {
        match self {
            Action::Persist { file_name } => ActionView::Persist { file_name: file_name@ },
            Action::DecodeBytes { bytes, mode } => ActionView::DecodeBytes {
                bytes: bytes@,
                mode: *mode,
            },
            Action::DecodeFile { file_name, mode } => ActionView::DecodeFile {
                file_name: file_name@,
                mode: *mode,
            },
            Action::GaussianBlur { settings } => ActionView::GaussianBlur { settings: *settings },
            Action::Encode { format, capacity_hint } => ActionView::Encode {
                format: format@,
                capacity_hint: *capacity_hint,
            },
            Action::Remove { file_name } => ActionView::Remove { file_name: file_name@ },
        }
    }
}

impl ActionView {
    /// The temporary file that an action touches, if it touches one.
    pub open spec fn file(self) -> Option<Seq<char>> {
        match self {
            ActionView::Persist { file_name } => Some(file_name),
            ActionView::DecodeFile { file_name, .. } => Some(file_name),
            ActionView::Remove { file_name } => Some(file_name),
            _ => None,
        }
    }
}

/// Why a piece of work failed, as far as the library tells failures apart.
#[derive(Clone, Copy, Debug, PartialEq, Eq, Structural)]
pub enum Failure {
    /// The engine has no encoder for the format it was asked for.
    NoEncoder,
    /// Anything else.
    Other,
}

/// What the host reports after performing an [`Action`].
#[derive(Clone, Debug, PartialEq, Eq)]
pub enum Event {
    /// The upload is stored.
    Persisted,
    /// The engine decoded an image of this many columns and rows. An image
    /// without pixels is how the engine reports bytes that are no image.
    Decoded { width: i32, height: i32 },
    /// The engine blurred the image.
    Blurred,
    /// The engine encoded the image to these bytes.
    Encoded { bytes: Vec<u8> },
    /// The temporary file is gone, or could not be deleted.
    Removed,
    /// The work failed.
    Failed(Failure),
}

/// Mathematical value of an [`Event`].
pub enum EventView {
    Persisted,
    Decoded { width: i32, height: i32 },
    Blurred,
    Encoded { bytes: Seq<u8> },
    Removed,
    Failed(Failure),
}

impl View for Event {
    type V = EventView;

    open spec fn view(&self) -> EventView {
        match self {
            Event::Persisted => EventView::Persisted,
            Event::Decoded { width, height } => EventView::Decoded {
                width: *width,
                height: *height,
            },
            Event::Blurred => EventView::Blurred,
            Event::Encoded { bytes } => EventView::Encoded { bytes: bytes@ },
            Event::Removed => EventView::Removed,
            Event::Failed(failure) => EventView::Failed(*failure),
        }
    }
}

/// True of the dimensions of an image that has pixels.
pub open spec fn has_pixels(width: i32, height: i32) -> bool {
    width > 0 && height > 0
}

} // verus!
