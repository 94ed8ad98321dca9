use blur_service::{
    handler_for, rocket, Blur, BlurDefaults, BlurError, BlurSettings, BorderMode, EngineStage,
    ErrorClass, Handler, Kernel, MediaType, Method, Response, Route, Sigma,
};

#[test]
fn service_mounts_both_handlers_on_post_blur() {
    let routes = rocket();
    let expected = vec![
        Route {
            method: Method::Post,
            path: "/blur".to_string(),
            format: MediaType::Form,
            handler: Handler::EncodedBody,
        },
        Route {
            method: Method::Post,
            path: "/blur".to_string(),
            format: MediaType::FormData,
            handler: Handler::Multipart,
        },
    ];
    assert_eq!(routes, expected);
}

#[test]
fn media_type_chooses_the_handler() {
    let routes = rocket();
    assert_eq!(
        handler_for(&routes, Method::Post, "/blur", MediaType::Form),
        Some(Handler::EncodedBody)
    );
    assert_eq!(
        handler_for(&routes, Method::Post, "/blur", MediaType::FormData),
        Some(Handler::Multipart)
    );
    assert_eq!(handler_for(&routes, Method::Post, "/blur", MediaType::Other), None);
    assert_eq!(handler_for(&routes, Method::Get, "/blur", MediaType::Form), None);
    assert_eq!(handler_for(&routes, Method::Put, "/blur", MediaType::FormData), None);
    assert_eq!(handler_for(&routes, Method::Post, "/", MediaType::Form), None);
    assert_eq!(handler_for(&routes, Method::Post, "/blur/", MediaType::Form), None);
    assert_eq!(handler_for(&Vec::new(), Method::Post, "/blur", MediaType::Form), None);
}

#[test]
fn first_answering_route_wins() {
    let routes = vec![
        Route {
            method: Method::Get,
            path: "/a".to_string(),
            format: MediaType::Other,
            handler: Handler::Multipart,
        },
        Route {
            method: Method::Get,
            path: "/a".to_string(),
            format: MediaType::Other,
            handler: Handler::EncodedBody,
        },
    ];
    assert_eq!(handler_for(&routes, Method::Get, "/a", MediaType::Other), Some(Handler::Multipart));
}

#[test]
fn optional_form_fields_take_the_named_defaults() {
    let defaults = BlurDefaults::standard();
    assert_eq!(f64::from_bits(defaults.sigma_y.to_bits()), 0.0);
    assert_eq!(defaults.format, ".png");

    let form = Blur::new(3, 5, Sigma::from_bits(0.5f64.to_bits()), None, None);
    assert_eq!(form.ksize_width, 3);
    assert_eq!(form.ksize_height, 5);
    assert_eq!(f64::from_bits(form.sigma_x.to_bits()), 0.5);
    assert_eq!(form.sigma_y, Sigma::zero());
    assert_eq!(form.sigma_y.to_bits(), 0.0f64.to_bits());
    assert_eq!(form.format, ".png");
}

#[test]
fn given_form_fields_are_kept() {
    let sigma_y = Sigma::from_bits((-3.75f64).to_bits());
    let form = Blur::new(9, 11, Sigma::zero(), Some(sigma_y), Some(".webp".to_string()));
    assert_eq!(form.sigma_y, sigma_y);
    assert_eq!(f64::from_bits(form.sigma_y.to_bits()), -3.75);
    assert_eq!(form.format, ".webp");
    assert_eq!(form.kernel(), Kernel { width: 9, height: 11 });
    assert_eq!(
        form.settings(),
        BlurSettings {
            kernel: Kernel { width: 9, height: 11 },
            sigma_x: Sigma::zero(),
            sigma_y,
            border: BorderMode::Default,
        }
    );
}

#[test]
fn encoded_body_path_has_fixed_settings() {
    assert_eq!(Kernel::fixed(), Kernel { width: 45, height: 45 });
    assert!(Kernel::fixed().is_valid());
    let settings = BlurSettings::fixed();
    assert_eq!(settings.kernel, Kernel { width: 45, height: 45 });
    assert_eq!(f64::from_bits(settings.sigma_x.to_bits()), 0.0);
    assert_eq!(f64::from_bits(settings.sigma_y.to_bits()), 0.0);
    assert_eq!(settings.border, BorderMode::Default);
}

#[test]
fn failures_fall_into_three_classes() {
    let cases = [
        (BlurError::InvalidBase64, ErrorClass::MalformedInput, 400, "invalid_base64"),
        (BlurError::NotAnImage, ErrorClass::MalformedInput, 400, "not_an_image"),
        (BlurError::UnreadableUpload, ErrorClass::MalformedInput, 400, "unreadable_upload"),
        (BlurError::InvalidKernel, ErrorClass::InvalidParameters, 400, "invalid_kernel"),
        (BlurError::UnsupportedFormat, ErrorClass::InvalidParameters, 400, "unsupported_format"),
        (BlurError::Internal(EngineStage::Decode), ErrorClass::InternalFailure, 500, "decode_failed"),
        (BlurError::Internal(EngineStage::Blur), ErrorClass::InternalFailure, 500, "blur_failed"),
        (BlurError::Internal(EngineStage::Encode), ErrorClass::InternalFailure, 500, "encode_failed"),
    ];
    for (error, class, status, name) in cases {
        assert_eq!(error.class(), class);
        assert_eq!(error.status(), status);
        assert_eq!(error.name(), name);
        assert_eq!(Response::Rejected(error).status(), status);
    }
    assert_eq!(ErrorClass::MalformedInput.name(), "malformed_input");
    assert_eq!(ErrorClass::InvalidParameters.name(), "invalid_parameters");
    assert_eq!(ErrorClass::InternalFailure.name(), "internal_failure");
}

#[test]
fn error_body_is_a_json_object() {
    assert_eq!(
        BlurError::InvalidKernel.body(),
        "{\"class\":\"invalid_parameters\",\"error\":\"invalid_kernel\"}"
    );
    assert_eq!(
        BlurError::Internal(EngineStage::Blur).body(),
        "{\"class\":\"internal_failure\",\"error\":\"blur_failed\"}"
    );
    assert_eq!(
        BlurError::InvalidBase64.body(),
        "{\"class\":\"malformed_input\",\"error\":\"invalid_base64\"}"
    );
}

#[test]
fn images_are_answered_with_success() {
    assert_eq!(Response::Text("aGk=".to_string()).status(), 200);
    assert_eq!(Response::Bytes(Vec::new()).status(), 200);
}
