//! What holds of every request, whatever the host reports.
//!
//! A request is followed through a whole exchange: the library's first
//! decision, then one decision for each report of the host. The laws below
//! speak of the work asked for during such an exchange and of the response
//! that ends it.

use vstd::prelude::*;

use crate::codec::{base64_encoded, encodable};
use crate::error::{BlurError, STATUS_BAD_REQUEST};
use crate::params::{
    default_format, positive_odd, BlurSettings, BlurView, ReadMode, OUTPUT_BUFFER_HINT,
};
use crate::protocol::{has_pixels, ActionView, EventView, ResponseView};
use crate::session::{
    start_encoded_body, start_multipart, PhaseView, SessionView, StepView, Transfer,
};
use crate::upload::{lemma_temp_name_injective, temp_name};

verus! {

/// What an exchange amounts to: the work asked for, in order, and the
/// response, if the exchange got that far.
pub struct Trace {
    pub actions: Seq<ActionView>,
    pub response: Option<ResponseView>,
}

/// The exchange that begins with the given decision and goes on with the
/// given reports, one for each piece of work. Reports after the response
/// are not read.
pub open spec fn run(step: StepView, events: Seq<EventView>) -> Trace
    decreases events.len(),
{
    match step {
        StepView::Finish(response) => Trace { actions: Seq::empty(), response: Some(response) },
        StepView::Continue(session, action) => if events.len() == 0 {
            Trace { actions: seq![action], response: None }
        } else {
            let rest = run(session.next(events[0]), events.skip(1));
            Trace { actions: seq![action] + rest.actions, response: rest.response }
        },
    }
}

/// The exchange of an encoded-body request whose text decodes as given.
pub open spec fn encoded_body_exchange(decoded: Option<Seq<u8>>, events: Seq<EventView>) -> Trace {
    run(start_encoded_body(decoded), events)
}

/// The exchange of a multipart request.
pub open spec fn multipart_exchange(
    form: BlurView,
    request_id: u64,
    events: Seq<EventView>,
) -> Trace {
    run(start_multipart(form, request_id), events)
}

/// The greatest number of reports that a session still takes.
pub open spec fn turns_left(session: SessionView) -> nat {
    let cleanup: nat = if session.transfer is TempFile {
        1
    } else {
        0
    };
    match session.phase {
        PhaseView::Persisting => 4 + cleanup,
        PhaseView::Decoding => 3 + cleanup,
        PhaseView::Blurring => 2 + cleanup,
        PhaseView::Encoding => 1 + cleanup,
        PhaseView::Removing(_) => 1,
    }
}

/// The exchange asks for no file but the given one.
pub open spec fn keeps_to(trace: Trace, file: Seq<char>) -> bool {
    forall|i: int|
        0 <= i < trace.actions.len() ==> ((#[trigger] trace.actions[i]).file() matches Some(name)
            ==> name == file)
}

/// The exchange asks for no file at all.
pub open spec fn touches_no_file(trace: Trace) -> bool {
    forall|i: int| 0 <= i < trace.actions.len() ==> (#[trigger] trace.actions[i]).file() is None
}

/// An exchange that keeps to one temporary file and leaves nothing behind:
/// it asks for no other file, stores the upload as the first thing it asks
/// for or not at all, deletes the file as the last thing it asks for and
/// not before, and gives no response until then.
pub open spec fn tidy(trace: Trace, file: Seq<char>) -> bool {
    &&& keeps_to(trace, file)
    &&& forall|i: int|
        0 <= i < trace.actions.len() && (#[trigger] trace.actions[i]) is Persist ==> i == 0
    &&& forall|i: int|
        0 <= i < trace.actions.len() && (#[trigger] trace.actions[i]) is Remove ==> i
            == trace.actions.len() - 1
    &&& trace.response is Some ==> trace.actions.len() > 0 && trace.actions.last()
        == (ActionView::Remove { file_name: file })
}

/// The engine did all three pieces of its work: it decoded an image with
/// pixels, blurred it and encoded it.
pub open spec fn engine_succeeded(
    decoded: EventView,
    blurred: EventView,
    encoded: EventView,
) -> bool {
    &&& decoded matches EventView::Decoded { width, height } && has_pixels(width, height)
    &&& blurred is Blurred
    &&& encoded is Encoded
}

/// Both paths open a request in one of its proper states.
pub proof fn lemma_start_is_wf(decoded: Option<Seq<u8>>, form: BlurView, request_id: u64)
    ensures
        start_encoded_body(decoded) matches StepView::Continue(session, _) ==> session.wf(),
        start_multipart(form, request_id) matches StepView::Continue(session, _) ==> session.wf(),
{
}

/// The states of a request are closed under the library's decisions, which
/// change neither the way of transfer nor the parameters, and never ask
/// for an upload to be stored again.
pub proof fn lemma_next_keeps_wf(session: SessionView, event: EventView)
    requires
        session.wf(),
    ensures
        session.next(event) matches StepView::Continue(after, action) ==> after.wf()
            && after.transfer == session.transfer && after.settings == session.settings
            && after.format == session.format && !(action is Persist),
{
}

/// From any state of a multipart request on, the exchange is tidy, and it
/// reaches its response once the host has made as many reports as the
/// session can still take.
proof fn lemma_run_tidy(
    session: SessionView,
    action: ActionView,
    events: Seq<EventView>,
    request_id: u64,
)
    requires
        session.wf(),
        session.transfer == (Transfer::TempFile { request_id }),
        action.file() matches Some(name) ==> name == temp_name(request_id),
        session.phase is Removing <==> action is Remove,
    ensures
        tidy(run(StepView::Continue(session, action), events), temp_name(request_id)),
        events.len() >= turns_left(session) ==> run(
            StepView::Continue(session, action),
            events,
        ).response is Some,
    decreases events.len(),
{
    let file = temp_name(request_id);
    let trace = run(StepView::Continue(session, action), events);
    if events.len() > 0 {
        let after = session.next(events[0]);
        let rest = run(after, events.skip(1));
        assert(trace.actions =~= seq![action] + rest.actions);
        match after {
            StepView::Finish(_) => {
                assert(rest.actions =~= Seq::empty());
            },
            StepView::Continue(later, then) => {
                lemma_next_keeps_wf(session, events[0]);
                lemma_run_tidy(later, then, events.skip(1), request_id);
                assert(tidy(rest, file));
                assert(rest.actions[0] == then);
                assert forall|i: int| 0 < i < trace.actions.len() implies trace.actions[i]
                    == rest.actions[i - 1] by {}
                if trace.response is Some {
                    assert(trace.actions.last() == rest.actions.last());
                }
            },
        }
    }
}

/// From any state of an encoded-body request on, the exchange asks for no
/// file and reaches its response once the host has made as many reports as
/// the session can still take.
proof fn lemma_run_in_memory(session: SessionView, action: ActionView, events: Seq<EventView>)
    requires
        session.wf(),
        session.transfer == Transfer::InMemory,
        action.file() is None,
    ensures
        touches_no_file(run(StepView::Continue(session, action), events)),
        events.len() >= turns_left(session) ==> run(
            StepView::Continue(session, action),
            events,
        ).response is Some,
    decreases events.len(),
{
    let trace = run(StepView::Continue(session, action), events);
    if events.len() > 0 {
        let after = session.next(events[0]);
        let rest = run(after, events.skip(1));
        assert(trace.actions =~= seq![action] + rest.actions);
        match after {
            StepView::Finish(_) => {
                assert(rest.actions =~= Seq::empty());
            },
            StepView::Continue(later, then) => {
                lemma_next_keeps_wf(session, events[0]);
                lemma_run_in_memory(later, then, events.skip(1));
                assert forall|i: int| 0 < i < trace.actions.len() implies trace.actions[i]
                    == rest.actions[i - 1] by {}
            },
        }
    }
}

/// Cleanup is guaranteed. Whatever the form and whatever the host reports
/// during a multipart request, either the library asks for nothing at all,
/// or it first asks for the upload to be stored under the request's own
/// name, asks for no other file afterwards, and gives no response before it
/// has asked for that file to be deleted, which is the last thing it asks
/// for.
pub proof fn lemma_upload_is_removed(form: BlurView, request_id: u64, events: Seq<EventView>)
    ensures
        ({
            let trace = multipart_exchange(form, request_id, events);
            let file = temp_name(request_id);
            trace.actions.len() == 0 || (tidy(trace, file) && trace.actions[0]
                == ActionView::Persist { file_name: file })
        }),
{
    match start_multipart(form, request_id) {
        StepView::Continue(session, action) => {
            lemma_run_tidy(session, action, events, request_id);
            if events.len() > 0 {
                let rest = run(session.next(events[0]), events.skip(1));
                assert((seq![action] + rest.actions)[0] == action);
            }
        },
        StepView::Finish(_) => {},
    }
}

/// Requests in flight keep apart: two multipart requests with different
/// identifiers never ask for the same file, whatever their forms and
/// whatever is reported to either.
pub proof fn lemma_requests_keep_apart(
    form_a: BlurView,
    id_a: u64,
    events_a: Seq<EventView>,
    form_b: BlurView,
    id_b: u64,
    events_b: Seq<EventView>,
)
    requires
        id_a != id_b,
    ensures
        ({
            let a = multipart_exchange(form_a, id_a, events_a);
            let b = multipart_exchange(form_b, id_b, events_b);
            forall|i: int, j: int|
                0 <= i < a.actions.len() && 0 <= j < b.actions.len() && (
                #[trigger] a.actions[i]).file() is Some ==> a.actions[i].file() != (
                #[trigger] b.actions[j]).file()
        }),
{
    if temp_name(id_a) == temp_name(id_b) {
        lemma_temp_name_injective(id_a, id_b);
    }
    lemma_upload_is_removed(form_a, id_a, events_a);
    lemma_upload_is_removed(form_b, id_b, events_b);
}

/// A multipart request is over after five reports at most.
pub proof fn lemma_multipart_ends(form: BlurView, request_id: u64, events: Seq<EventView>)
    requires
        events.len() >= 5,
    ensures
        multipart_exchange(form, request_id, events).response is Some,
{
    match start_multipart(form, request_id) {
        StepView::Continue(session, action) => {
            lemma_run_tidy(session, action, events, request_id);
        },
        StepView::Finish(_) => {},
    }
}

/// An encoded-body request never asks for a file, and is over after three
/// reports at most.
pub proof fn lemma_encoded_body_stays_in_memory(decoded: Option<Seq<u8>>, events: Seq<EventView>)
    ensures
        touches_no_file(encoded_body_exchange(decoded, events)),
        events.len() >= 3 ==> encoded_body_exchange(decoded, events).response is Some,
{
    match start_encoded_body(decoded) {
        StepView::Continue(session, action) => {
            lemma_run_in_memory(session, action, events);
        },
        StepView::Finish(_) => {},
    }
}

/// A kernel with a side that is not a positive odd number makes the
/// request a client error: it is rejected at once, nothing is stored and
/// no work is asked of the engine.
pub proof fn lemma_unacceptable_kernel_is_client_error(
    form: BlurView,
    request_id: u64,
    events: Seq<EventView>,
)
    requires
        !positive_odd(form.ksize_width as int) || !positive_odd(form.ksize_height as int),
    ensures
        multipart_exchange(form, request_id, events) == (Trace {
            actions: Seq::empty(),
            response: Some(ResponseView::Rejected(BlurError::InvalidKernel)),
        }),
        ResponseView::Rejected(BlurError::InvalidKernel).status() == STATUS_BAD_REQUEST,
{
}

/// A kernel width of zero, or any even width, makes the request a client
/// error.
pub proof fn lemma_even_width_is_client_error(
    form: BlurView,
    request_id: u64,
    events: Seq<EventView>,
)
    requires
        form.ksize_width == 0 || form.ksize_width % 2 == 0,
    ensures
        multipart_exchange(form, request_id, events).actions.len() == 0,
        multipart_exchange(form, request_id, events).response matches Some(response)
            && response == ResponseView::Rejected(BlurError::InvalidKernel) && response.status()
            == STATUS_BAD_REQUEST,
{
    lemma_unacceptable_kernel_is_client_error(form, request_id, events);
}

/// On the encoded-body path an image is answered exactly when the engine
/// did all of its work and the base64 text of its output can be allocated,
/// and the answer is then that text.
pub proof fn lemma_encoded_body_success_is_earned(image: Seq<u8>, events: Seq<EventView>)
    requires
        events.len() >= 3,
    ensures
        encoded_body_exchange(Some(image), events).response matches Some(response) && (
        response.is_success() <==> engine_succeeded(events[0], events[1], events[2]) && encodable(
            events[2]->bytes,
        )) && (response.is_success() ==> response == ResponseView::Text(
            base64_encoded(events[2]->bytes),
        )),
{
    reveal_with_fuel(run, 5);
    assert(events.skip(1)[0] == events[1]);
    assert(events.skip(1).skip(1)[0] == events[2]);
}

/// On the multipart path an image is answered exactly when the upload was
/// stored and the engine did all of its work, and the answer is then the
/// encoder's output.
pub proof fn lemma_multipart_success_is_earned(
    form: BlurView,
    request_id: u64,
    events: Seq<EventView>,
)
    requires
        form.kernel().spec_is_valid(),
        events.len() >= 5,
    ensures
        multipart_exchange(form, request_id, events).response matches Some(response) && (
        response.is_success() <==> events[0] is Persisted && engine_succeeded(
            events[1],
            events[2],
            events[3],
        )) && (response.is_success() ==> response == ResponseView::Bytes(events[3]->bytes)),
{
    reveal_with_fuel(run, 7);
    assert(events.skip(1)[0] == events[1]);
    assert(events.skip(1).skip(1)[0] == events[2]);
    assert(events.skip(1).skip(1).skip(1)[0] == events[3]);
    assert(events.skip(1).skip(1).skip(1).skip(1)[0] == events[4]);
}

/// The encoded-body path, when everything succeeds. Whatever the image and
/// whatever the engine makes of it, the engine is asked to decode the
/// request's bytes in colour, to blur with the fixed settings and to encode
/// as PNG, and the response is the base64 text of the encoder's output.
pub proof fn lemma_encoded_body_success(
    image: Seq<u8>,
    width: i32,
    height: i32,
    encoded: Seq<u8>,
)
    requires
        has_pixels(width, height),
        encodable(encoded),
    ensures
        encoded_body_exchange(
            Some(image),
            seq![
                EventView::Decoded { width, height },
                EventView::Blurred,
                EventView::Encoded { bytes: encoded },
            ],
        ) == (Trace {
            actions: seq![
                ActionView::DecodeBytes { bytes: image, mode: ReadMode::Color },
                ActionView::GaussianBlur { settings: BlurSettings::spec_fixed() },
                ActionView::Encode { format: default_format(), capacity_hint: OUTPUT_BUFFER_HINT },
            ],
            response: Some(ResponseView::Text(base64_encoded(encoded))),
        }),
{
    reveal_with_fuel(run, 5);
    let events = seq![
        EventView::Decoded { width, height },
        EventView::Blurred,
        EventView::Encoded { bytes: encoded },
    ];
    assert(events.skip(1)[0] == events[1]);
    assert(events.skip(1).skip(1)[0] == events[2]);
    let trace = encoded_body_exchange(Some(image), events);
    assert(trace.actions =~= seq![
        ActionView::DecodeBytes { bytes: image, mode: ReadMode::Color },
        ActionView::GaussianBlur { settings: BlurSettings::spec_fixed() },
        ActionView::Encode { format: default_format(), capacity_hint: OUTPUT_BUFFER_HINT },
    ]);
}

/// The multipart path, when everything succeeds. For every form with an
/// acceptable kernel, the upload is stored under the request's own name and
/// read from there as stored, the engine is asked to blur with the form's
/// kernel and deviations and to encode in the form's format, the file is
/// deleted, and the response is the encoder's output, byte for byte.
pub proof fn lemma_multipart_success(
    form: BlurView,
    request_id: u64,
    width: i32,
    height: i32,
    encoded: Seq<u8>,
)
    requires
        positive_odd(form.ksize_width as int),
        positive_odd(form.ksize_height as int),
        has_pixels(width, height),
    ensures
        multipart_exchange(
            form,
            request_id,
            seq![
                EventView::Persisted,
                EventView::Decoded { width, height },
                EventView::Blurred,
                EventView::Encoded { bytes: encoded },
                EventView::Removed,
            ],
        ) == (Trace {
            actions: seq![
                ActionView::Persist { file_name: temp_name(request_id) },
                ActionView::DecodeFile {
                    file_name: temp_name(request_id),
                    mode: ReadMode::Unchanged,
                },
                ActionView::GaussianBlur { settings: form.settings() },
                ActionView::Encode { format: form.format, capacity_hint: OUTPUT_BUFFER_HINT },
                ActionView::Remove { file_name: temp_name(request_id) },
            ],
            response: Some(ResponseView::Bytes(encoded)),
        }),
{
    reveal_with_fuel(run, 7);
    let events = seq![
        EventView::Persisted,
        EventView::Decoded { width, height },
        EventView::Blurred,
        EventView::Encoded { bytes: encoded },
        EventView::Removed,
    ];
    assert(events.skip(1)[0] == events[1]);
    assert(events.skip(1).skip(1)[0] == events[2]);
    assert(events.skip(1).skip(1).skip(1)[0] == events[3]);
    assert(events.skip(1).skip(1).skip(1).skip(1)[0] == events[4]);
    let trace = multipart_exchange(form, request_id, events);
    assert(trace.actions =~= seq![
        ActionView::Persist { file_name: temp_name(request_id) },
        ActionView::DecodeFile { file_name: temp_name(request_id), mode: ReadMode::Unchanged },
        ActionView::GaussianBlur { settings: form.settings() },
        ActionView::Encode { format: form.format, capacity_hint: OUTPUT_BUFFER_HINT },
        ActionView::Remove { file_name: temp_name(request_id) },
    ]);
}

} // verus!
