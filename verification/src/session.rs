//! The course of one request, from its arrival to its response.
//!
//! A request is served in turns. The library says what is to be done next,
//! the host does it and reports what happened, and the library decides on
//! the report. [`blur`] and [`blur_form`] open a request, [`Session::step`]
//! takes each report, and the request ends when a [`Step::Finish`] hands out
//! the response.

use vstd::prelude::*;

use crate::codec::{
    base64_decoded, base64_encoded, can_encode, decode_text, encodable, encode_bytes,
};
use crate::error::{BlurError, EngineStage};
use crate::params::{
    default_format, Blur, BlurDefaults, BlurSettings, BlurView, ReadMode, OUTPUT_BUFFER_HINT,
};
use crate::protocol::{
    has_pixels, Action, ActionView, Event, EventView, Failure, Response, ResponseView,
};
use crate::upload::{temp_file_name, temp_name};

verus! {

/// The two ways in which an image reaches the engine.
#[derive(Clone, Copy, Debug, PartialEq, Eq, Structural)]
pub enum Transfer {
    /// The image arrived as text and is handed over in memory.
    InMemory,
    /// The image arrived as an upload and is handed over in a temporary
    /// file, named after the request's identifier.
    TempFile { request_id: u64 },
}

/// The work a session is waiting for.
#[derive(Clone, Debug, PartialEq, Eq)]
pub enum Phase {
    /// The upload is being stored.
    Persisting,
    /// The engine is decoding the image.
    Decoding,
    /// The engine is blurring the image.
    Blurring,
    /// The engine is encoding the image.
    Encoding,
    /// The temporary file is being deleted; the response is ready.
    Removing(Response),
}

/// Mathematical value of a [`Phase`].
pub enum PhaseView {
    Persisting,
    Decoding,
    Blurring,
    Encoding,
    Removing(ResponseView),
}

impl View for Phase {
    type V = PhaseView;

    open spec fn view(&self) -> PhaseView {
        match self {
            Phase::Persisting => PhaseView::Persisting,
            Phase::Decoding => PhaseView::Decoding,
            Phase::Blurring => PhaseView::Blurring,
            Phase::Encoding => PhaseView::Encoding,
            Phase::Removing(response) => PhaseView::Removing(response@),
        }
    }
}

/// A request that is being served. The sessions that this library hands
/// out are in one of the states that [`SessionView::wf`] describes.
#[derive(Clone, Debug, PartialEq, Eq)]
pub struct Session {
    pub transfer: Transfer,
    pub settings: BlurSettings,
    pub format: String,
    pub phase: Phase,
}

/// Mathematical value of a [`Session`].
pub struct SessionView {
    pub transfer: Transfer,
    pub settings: BlurSettings,
    pub format: Seq<char>,
    pub phase: PhaseView,
}

impl View for Session {
    type V = SessionView;

    open spec fn view(&self) -> SessionView {
        SessionView {
            transfer: self.transfer,
            settings: self.settings,
            format: self.format@,
            phase: self.phase@,
        }
    }
}

/// What the library decides in one turn.
#[derive(Clone, Debug, PartialEq, Eq)]
pub enum Step {
    /// The request goes on: the host performs the action and reports back
    /// to the session.
    Continue(Session, Action),
    /// The request is over: the host sends the response.
    Finish(Response),
}

/// Mathematical value of a [`Step`].
pub enum StepView {
    Continue(SessionView, ActionView),
    Finish(ResponseView),
}

impl View for Step {
    type V = StepView;

    open spec fn view(&self) -> StepView {
        match self {
            Step::Continue(session, action) => StepView::Continue(session@, action@),
            Step::Finish(response) => StepView::Finish(response@),
        }
    }
}

impl SessionView {
    /// The states that a request passes through. The kernel handed to the
    /// engine is acceptable; a request served in memory never waits for a
    /// file; and base64 text is no response of the multipart path.
    pub open spec fn wf(self) -> bool {
        &&& self.settings.kernel.spec_is_valid()
        &&& match self.transfer {
            Transfer::InMemory => self.phase is Decoding || self.phase is Blurring
                || self.phase is Encoding,
            Transfer::TempFile { .. } => self.phase matches PhaseView::Removing(response)
                ==> !(response is Text),
        }
    }

    /// The same request, waiting for other work.
    pub open spec fn enter(self, phase: PhaseView) -> SessionView {
        SessionView { phase, ..self }
    }

    /// Ends the request with a response. Where a temporary file was asked
    /// for, the file is deleted first.
    pub open spec fn conclude(self, response: ResponseView) -> StepView {
        match self.transfer {
            Transfer::InMemory => StepView::Finish(response),
            Transfer::TempFile { request_id } => StepView::Continue(
                self.enter(PhaseView::Removing(response)),
                ActionView::Remove { file_name: temp_name(request_id) },
            ),
        }
    }

    /// Ends the request with a failure.
    pub open spec fn fail(self, error: BlurError) -> StepView {
        self.conclude(ResponseView::Rejected(error))
    }

    /// Ends the request with the encoded image: as it is on the multipart
    /// path, as base64 text on the encoded-body path. Text too long to be
    /// allocated is an internal failure.
    pub open spec fn deliver(self, bytes: Seq<u8>) -> StepView {
        match self.transfer {
            Transfer::InMemory => if encodable(bytes) {
                self.conclude(ResponseView::Text(base64_encoded(bytes)))
            } else {
                self.fail(BlurError::Internal(EngineStage::Encode))
            },
            Transfer::TempFile { .. } => self.conclude(ResponseView::Bytes(bytes)),
        }
    }

    /// The decision on a report. A report other than the success of the
    /// work waited for counts as the failure of that work, and any failure
    /// ends the request.
    pub open spec fn next(self, event: EventView) -> StepView {
        match self.phase {
            PhaseView::Persisting => match (self.transfer, event) {
                (Transfer::TempFile { request_id }, EventView::Persisted) => StepView::Continue(
                    self.enter(PhaseView::Decoding),
                    ActionView::DecodeFile {
                        file_name: temp_name(request_id),
                        mode: ReadMode::Unchanged,
                    },
                ),
                _ => self.fail(BlurError::UnreadableUpload),
            },
            PhaseView::Decoding => match event {
                EventView::Decoded { width, height } => if has_pixels(width, height) {
                    StepView::Continue(
                        self.enter(PhaseView::Blurring),
                        ActionView::GaussianBlur { settings: self.settings },
                    )
                } else {
                    self.fail(BlurError::NotAnImage)
                },
                _ => self.fail(BlurError::Internal(EngineStage::Decode)),
            },
            PhaseView::Blurring => match event {
                EventView::Blurred => StepView::Continue(
                    self.enter(PhaseView::Encoding),
                    ActionView::Encode { format: self.format, capacity_hint: OUTPUT_BUFFER_HINT },
                ),
                _ => self.fail(BlurError::Internal(EngineStage::Blur)),
            },
            PhaseView::Encoding => match event {
                EventView::Encoded { bytes } => self.deliver(bytes),
                EventView::Failed(Failure::NoEncoder) => if self.transfer is TempFile {
                    self.fail(BlurError::UnsupportedFormat)
                } else {
                    self.fail(BlurError::Internal(EngineStage::Encode))
                },
                _ => self.fail(BlurError::Internal(EngineStage::Encode)),
            },
            PhaseView::Removing(response) => StepView::Finish(response),
        }
    }
}

/// How the encoded-body path opens, given what the request text decodes to:
/// text that is no base64 is rejected, and bytes go to the engine's decoder
/// with the fixed settings.
pub open spec fn start_encoded_body(decoded: Option<Seq<u8>>) -> StepView {
    match decoded {
        None => StepView::Finish(ResponseView::Rejected(BlurError::InvalidBase64)),
        Some(bytes) => StepView::Continue(
            SessionView {
                transfer: Transfer::InMemory,
                settings: BlurSettings::spec_fixed(),
                format: default_format(),
                phase: PhaseView::Decoding,
            },
            ActionView::DecodeBytes { bytes, mode: ReadMode::Color },
        ),
    }
}

/// How the multipart path opens: a form with an unacceptable kernel is
/// rejected before anything is stored, any other has its upload stored
/// under the request's own file name.
pub open spec fn start_multipart(form: BlurView, request_id: u64) -> StepView {
    if form.kernel().spec_is_valid() {
        StepView::Continue(
            SessionView {
                transfer: Transfer::TempFile { request_id },
                settings: form.settings(),
                format: form.format,
                phase: PhaseView::Persisting,
            },
            ActionView::Persist { file_name: temp_name(request_id) },
        )
    } else {
        StepView::Finish(ResponseView::Rejected(BlurError::InvalidKernel))
    }
}

/// Base64 text handed out as a response reads back to the bytes that the
/// engine's encoder reported.
pub open spec fn reads_back(step: StepView, event: EventView) -> bool {
    step matches StepView::Finish(ResponseView::Text(text)) ==> (event matches EventView::Encoded {
        bytes,
    } && base64_decoded(text) == Some(bytes))
}

/// Opens a request of the encoded-body path, whose body is the base64 text
/// of an image.
pub fn blur(data: String) -> (step: Step)
    ensures
        step@ == start_encoded_body(base64_decoded(data@)),
{
    match decode_text(&data) {
        Ok(bytes) => blur_decoded(Some(bytes)),
        Err(_) => blur_decoded(None),
    }
}

/// Opens a request of the encoded-body path whose text has been decoded:
/// to `None` where it was no base64.
pub fn blur_decoded(decoded: Option<Vec<u8>>) -> (step: Step)
    ensures
        step@ == start_encoded_body(
            match decoded {
                Some(bytes) => Some(bytes@),
                None => None,
            },
        ),
{
    match decoded {
        None => Step::Finish(Response::Rejected(BlurError::InvalidBase64)),
        Some(bytes) => {
            let defaults = BlurDefaults::standard();
            Step::Continue(
                Session {
                    transfer: Transfer::InMemory,
                    settings: BlurSettings::fixed(),
                    format: defaults.format,
                    phase: Phase::Decoding,
                },
                Action::DecodeBytes { bytes, mode: ReadMode::Color },
            )
        },
    }
}

/// Opens a request of the multipart path. The identifier tells this
/// request's temporary file from those of the other requests in flight.
pub fn blur_form(form: Blur, request_id: u64) -> (step: Step)
    ensures
        step@ == start_multipart(form@, request_id),
{
    if form.kernel().is_valid() {
        let settings = form.settings();
        Step::Continue(
            Session {
                transfer: Transfer::TempFile { request_id },
                settings,
                format: form.format,
                phase: Phase::Persisting,
            },
            Action::Persist { file_name: temp_file_name(request_id) },
        )
    } else {
        Step::Finish(Response::Rejected(BlurError::InvalidKernel))
    }
}

impl Session {
    fn enter(self, phase: Phase) -> (session: Session)
        ensures
            session@ == self@.enter(phase@),
    {
        Session { transfer: self.transfer, settings: self.settings, format: self.format, phase }
    }

    fn conclude(self, response: Response) -> (step: Step)
        ensures
            step@ == self@.conclude(response@),
    {
        match self.transfer {
            Transfer::InMemory => Step::Finish(response),
            Transfer::TempFile { request_id } => {
                let file_name = temp_file_name(request_id);
                Step::Continue(self.enter(Phase::Removing(response)), Action::Remove { file_name })
            },
        }
    }

    fn fail(self, error: BlurError) -> (step: Step)
        ensures
            step@ == self@.fail(error),
    {
        self.conclude(Response::Rejected(error))
    }

    fn deliver(self, bytes: Vec<u8>) -> (step: Step)
        ensures
            step@ == self@.deliver(bytes@),
            step@ matches StepView::Finish(ResponseView::Text(text)) ==> base64_decoded(text)
                == Some(bytes@),
    {
        match self.transfer {
            Transfer::InMemory => {
                if can_encode(&bytes) {
                    let text = encode_bytes(&bytes);
                    self.conclude(Response::Text(text))
                } else {
                    self.fail(BlurError::Internal(EngineStage::Encode))
                }
            },
            Transfer::TempFile { .. } => self.conclude(Response::Bytes(bytes)),
        }
    }

    /// Takes the host's report on the work last asked for and decides what
    /// comes next.
    pub fn step(self, event: Event) -> (step: Step)
        ensures
            step@ == self@.next(event@),
            self@.wf() ==> reads_back(step@, event@),
    {
        match self.phase {
            Phase::Persisting => match (self.transfer, event) {
                (Transfer::TempFile { request_id }, Event::Persisted) => {
                    let file_name = temp_file_name(request_id);
                    Step::Continue(
                        self.enter(Phase::Decoding),
                        Action::DecodeFile { file_name, mode: ReadMode::Unchanged },
                    )
                },
                _ => self.fail(BlurError::UnreadableUpload),
            },
            Phase::Decoding => match event {
                Event::Decoded { width, height } => {
                    if width > 0 && height > 0 {
                        let settings = self.settings;
                        Step::Continue(
                            self.enter(Phase::Blurring),
                            Action::GaussianBlur { settings },
                        )
                    } else {
                        self.fail(BlurError::NotAnImage)
                    }
                },
                _ => self.fail(BlurError::Internal(EngineStage::Decode)),
            },
            Phase::Blurring => match event {
                Event::Blurred => {
                    let format = self.format.clone();
                    Step::Continue(
                        self.enter(Phase::Encoding),
                        Action::Encode { format, capacity_hint: OUTPUT_BUFFER_HINT },
                    )
                },
                _ => self.fail(BlurError::Internal(EngineStage::Blur)),
            },
            Phase::Encoding => match event {
                Event::Encoded { bytes } => self.deliver(bytes),
                Event::Failed(Failure::NoEncoder) => match self.transfer {
                    Transfer::TempFile { .. } => self.fail(BlurError::UnsupportedFormat),
                    Transfer::InMemory => self.fail(BlurError::Internal(EngineStage::Encode)),
                },
                _ => self.fail(BlurError::Internal(EngineStage::Encode)),
            },
            Phase::Removing(response) => Step::Finish(response),
        }
    }
}

} // verus!
