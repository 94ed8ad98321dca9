use blur_service::{
    blur, blur_decoded, Action, BlurError, BlurSettings, BorderMode, EngineStage, Event, Failure,
    Kernel, Phase, ReadMode, Response, Session, Sigma, Step, Transfer,
};

const RED_PNG_BASE64: &str = "iVBORw0KGgoAAAANSUhEUgAAAAoAAAAKCAIAAAACUFjqAAAAEklEQVR42mP4z8CABzGMSmNDALfKY53W1e90AAAAAElFTkSuQmCC";

const RED_PNG: [u8; 75] = [
    137, 80, 78, 71, 13, 10, 26, 10, 0, 0, 0, 13, 73, 72, 68, 82, 0, 0, 0, 10, 0, 0, 0, 10, 8, 2,
    0, 0, 0, 2, 80, 88, 234, 0, 0, 0, 18, 73, 68, 65, 84, 120, 218, 99, 248, 207, 192, 128, 7, 49,
    140, 74, 99, 67, 0, 183, 202, 99, 157, 214, 213, 239, 116, 0, 0, 0, 0, 73, 69, 78, 68, 174,
    66, 96, 130,
];

fn fixed_settings() -> BlurSettings {
    BlurSettings {
        kernel: Kernel { width: 45, height: 45 },
        sigma_x: Sigma { bits: 0 },
        sigma_y: Sigma { bits: 0 },
        border: BorderMode::Default,
    }
}

fn go_on(step: Step) -> (Session, Action) {
    match step {
        Step::Continue(session, action) => (session, action),
        Step::Finish(response) => panic!("the request ended early with {:?}", response),
    }
}

fn in_memory(phase: Phase) -> Session {
    Session {
        transfer: Transfer::InMemory,
        settings: fixed_settings(),
        format: ".png".to_string(),
        phase,
    }
}

#[test]
fn solid_red_png_comes_back_as_base64_of_a_png_of_the_same_size() {
    let (session, action) = go_on(blur(RED_PNG_BASE64.to_string()));
    assert_eq!(action, Action::DecodeBytes { bytes: RED_PNG.to_vec(), mode: ReadMode::Color });

    let (session, action) = go_on(session.step(Event::Decoded { width: 10, height: 10 }));
    assert_eq!(action, Action::GaussianBlur { settings: fixed_settings() });

    let (session, action) = go_on(session.step(Event::Blurred));
    assert_eq!(action, Action::Encode { format: ".png".to_string(), capacity_hint: 52_428_800 });

    // A constant colour is its own blur, so the engine encodes the same picture.
    let text = match session.step(Event::Encoded { bytes: RED_PNG.to_vec() }) {
        Step::Finish(Response::Text(text)) => text,
        other => panic!("expected base64 text, got {:?}", other),
    };
    assert_eq!(text, RED_PNG_BASE64);
    let png = base64::decode(&text).unwrap();
    assert_eq!(&png[0..8], &[0x89, b'P', b'N', b'G', b'\r', b'\n', 0x1a, b'\n']);
    assert_eq!(&png[12..16], b"IHDR");
    assert_eq!(u32::from_be_bytes([png[16], png[17], png[18], png[19]]), 10);
    assert_eq!(u32::from_be_bytes([png[20], png[21], png[22], png[23]]), 10);
}

#[test]
fn request_text_is_decoded_before_it_reaches_the_engine() {
    let (session, action) = go_on(blur("aGVsbG8=".to_string()));
    assert_eq!(action, Action::DecodeBytes { bytes: b"hello".to_vec(), mode: ReadMode::Color });
    assert_eq!(session, in_memory(Phase::Decoding));
}

#[test]
fn encoder_output_is_answered_as_base64_text() {
    let step = in_memory(Phase::Encoding).step(Event::Encoded { bytes: b"hello".to_vec() });
    assert_eq!(step, Step::Finish(Response::Text("aGVsbG8=".to_string())));
    let step = in_memory(Phase::Encoding).step(Event::Encoded { bytes: vec![0xfb, 0xff] });
    assert_eq!(step, Step::Finish(Response::Text("+/8=".to_string())));
}

#[test]
fn empty_encoder_output_is_answered_as_empty_text() {
    let step = in_memory(Phase::Encoding).step(Event::Encoded { bytes: Vec::new() });
    assert_eq!(step, Step::Finish(Response::Text(String::new())));
}

#[test]
fn text_that_is_no_base64_is_a_client_error() {
    for text in ["not base64!", "aGVsbG8=\n", "a", "=aaa", "aGVs bG8=", "aGV$bG8="] {
        let step = blur(text.to_string());
        assert_eq!(step, Step::Finish(Response::Rejected(BlurError::InvalidBase64)));
    }
    assert_eq!(Response::Rejected(BlurError::InvalidBase64).status(), 400);
}

#[test]
fn empty_text_decodes_to_no_bytes() {
    let (_, action) = go_on(blur(String::new()));
    assert_eq!(action, Action::DecodeBytes { bytes: Vec::new(), mode: ReadMode::Color });
}

#[test]
fn decoded_text_opens_the_request_with_the_fixed_settings() {
    let (session, action) = go_on(blur_decoded(Some(vec![1, 2, 3])));
    assert_eq!(action, Action::DecodeBytes { bytes: vec![1, 2, 3], mode: ReadMode::Color });
    assert_eq!(session.transfer, Transfer::InMemory);
    assert_eq!(session.settings, fixed_settings());
    assert_eq!(session.format, ".png");
    assert_eq!(
        blur_decoded(None),
        Step::Finish(Response::Rejected(BlurError::InvalidBase64))
    );
}

#[test]
fn bytes_that_are_no_image_are_a_client_error() {
    for (width, height) in [(0, 0), (0, 10), (10, 0), (-1, 5)] {
        let step = in_memory(Phase::Decoding).step(Event::Decoded { width, height });
        assert_eq!(step, Step::Finish(Response::Rejected(BlurError::NotAnImage)));
    }
    assert_eq!(Response::Rejected(BlurError::NotAnImage).status(), 400);
}

#[test]
fn engine_failures_are_server_errors() {
    let cases = [
        (Phase::Decoding, EngineStage::Decode),
        (Phase::Blurring, EngineStage::Blur),
        (Phase::Encoding, EngineStage::Encode),
    ];
    for (phase, stage) in cases {
        for failure in [Failure::Other, Failure::NoEncoder] {
            let step = in_memory(phase.clone()).step(Event::Failed(failure));
            let expected = Response::Rejected(BlurError::Internal(stage));
            assert_eq!(expected.status(), 500);
            assert_eq!(step, Step::Finish(expected));
        }
    }
}

#[test]
fn a_report_out_of_turn_counts_as_a_failure() {
    let step = in_memory(Phase::Decoding).step(Event::Blurred);
    assert_eq!(step, Step::Finish(Response::Rejected(BlurError::Internal(EngineStage::Decode))));
    let step = in_memory(Phase::Blurring).step(Event::Encoded { bytes: vec![1] });
    assert_eq!(step, Step::Finish(Response::Rejected(BlurError::Internal(EngineStage::Blur))));
    let step = in_memory(Phase::Encoding).step(Event::Removed);
    assert_eq!(step, Step::Finish(Response::Rejected(BlurError::Internal(EngineStage::Encode))));
}

#[test]
fn encoded_body_request_never_asks_for_a_file() {
    let (session, first) = go_on(blur(RED_PNG_BASE64.to_string()));
    let (session, second) = go_on(session.step(Event::Decoded { width: 10, height: 10 }));
    let (_, third) = go_on(session.step(Event::Blurred));
    for action in [first, second, third] {
        let touches_file = matches!(
            action,
            Action::Persist { .. } | Action::DecodeFile { .. } | Action::Remove { .. }
        );
        assert!(!touches_file);
    }
}
