//! Decision logic of an image-blurring HTTP service.
//!
//! The service accepts an image either as base64 text or as a multipart
//! upload, has an outside engine decode, blur and encode it, and answers with
//! the encoded result. This crate holds everything the service decides: the
//! parameter model and its validation, the order of the outside work, the
//! lifetime of the temporary upload file, and the classification of failures.
//! The host performs the outside work and reports back what happened.

pub mod codec;
pub mod error;
pub mod laws;
pub mod params;
pub mod protocol;
pub mod routes;
pub mod session;
pub mod upload;

pub use crate::error::{BlurError, EngineStage, ErrorClass};
pub use crate::params::{Blur, BlurDefaults, BlurSettings, BorderMode, Kernel, ReadMode, Sigma};
pub use crate::protocol::{Action, Event, Failure, Response};
pub use crate::routes::{handler_for, rocket, Handler, MediaType, Method, Route};
pub use crate::session::{blur, blur_decoded, blur_form, Phase, Session, Step, Transfer};
pub use crate::upload::temp_file_name;
