use radiko_recorder::auth::RadikoAuthHandler;
use radiko_recorder::errors::{ProtocolFault, RadikoError, ValidationFault};
use radiko_recorder::response::AuthResponse;

fn response(status: u16, headers: &[(&str, &str)]) -> AuthResponse {
    AuthResponse {
        status,
        headers: headers
            .iter()
            .map(|(k, v)| (k.to_string(), v.to_string()))
            .collect(),
        body: String::new(),
    }
}

fn good_step1() -> AuthResponse {
    // header names lowercased, as an HTTP client that normalizes them
    // would hand them over; the lookup must not care
    response(
        200,
        &[
            ("x-radiko-authtoken", "tok_abc123"),
            ("x-radiko-keylength", "8"),
            ("x-radiko-keyoffset", "0"),
        ],
    )
}

#[test]
fn invalid_area_id_fails_before_any_io() {
    let r = RadikoAuthHandler::new("JP48");
    assert!(matches!(
        r,
        Err(RadikoError::Validation(ValidationFault::BadAreaId))
    ));
}

#[test]
fn initial_headers_carry_placeholders_and_area() {
    let h = RadikoAuthHandler::new("JP13").unwrap();
    let pairs = h.request_headers();
    assert!(pairs.contains(&("X-Radiko-AuthToken".to_string(), String::new())));
    assert!(pairs.contains(&("X-Radiko-Partialkey".to_string(), String::new())));
    assert!(pairs.contains(&("X-Radiko-AreaId".to_string(), "JP13".to_string())));
    assert!(pairs.contains(&("X-Radiko-App".to_string(), "pc_html5".to_string())));
    assert!(!pairs.iter().any(|(k, _)| k == "Connection"));
}

#[test]
fn missing_auth_token_is_a_protocol_error_and_blocks_step2() {
    let mut h = RadikoAuthHandler::new("JP13").unwrap();
    let resp = response(200, &[("x-radiko-keylength", "8"), ("x-radiko-keyoffset", "0")]);
    let r = h.apply_step1(&resp);
    assert!(matches!(
        r,
        Err(RadikoError::Protocol(ProtocolFault::MissingAuthToken))
    ));
    assert!(!h.is_established());
    // the placeholders were never touched
    assert!(h.headers.auth_token.is_none());
    assert!(h.headers.partial_key.is_none());
}

#[test]
fn non_success_status_is_a_transport_error() {
    let mut h = RadikoAuthHandler::new("JP13").unwrap();
    let mut resp = good_step1();
    resp.status = 403;
    resp.body = "denied".to_string();
    let r = h.apply_step1(&resp);
    match r {
        Err(RadikoError::Transport { status, body }) => {
            assert_eq!(status, 403);
            assert_eq!(body, "denied");
        }
        other => panic!("expected a transport error, got {:?}", other.is_ok()),
    }
    assert!(!h.is_established());
}

#[test]
fn missing_or_malformed_key_headers_are_protocol_errors() {
    let cases: &[(&[(&str, &str)], ProtocolFault)] = &[
        (
            &[("x-radiko-authtoken", "t"), ("x-radiko-keyoffset", "0")],
            ProtocolFault::MissingKeyLength,
        ),
        (
            &[("x-radiko-authtoken", "t"), ("x-radiko-keylength", "8")],
            ProtocolFault::MissingKeyOffset,
        ),
        (
            &[
                ("x-radiko-authtoken", "t"),
                ("x-radiko-keylength", "abc"),
                ("x-radiko-keyoffset", "0"),
            ],
            ProtocolFault::MalformedKeyLength,
        ),
        (
            &[
                ("x-radiko-authtoken", "t"),
                ("x-radiko-keylength", ""),
                ("x-radiko-keyoffset", "0"),
            ],
            ProtocolFault::MalformedKeyLength,
        ),
        (
            &[
                ("x-radiko-authtoken", "t"),
                ("x-radiko-keylength", "8"),
                ("x-radiko-keyoffset", "1x"),
            ],
            ProtocolFault::MalformedKeyOffset,
        ),
        (
            &[
                ("x-radiko-authtoken", "t"),
                ("x-radiko-keylength", "10"),
                ("x-radiko-keyoffset", "35"),
            ],
            ProtocolFault::KeyOutOfBounds,
        ),
        (
            // a parseable but absurdly large value fails the bounds
            // check, not the parse
            &[
                ("x-radiko-authtoken", "t"),
                ("x-radiko-keylength", "1000000000"),
                ("x-radiko-keyoffset", "0"),
            ],
            ProtocolFault::KeyOutOfBounds,
        ),
        (
            // past nineteen digits it is no longer decimal text the
            // protocol accepts
            &[
                ("x-radiko-authtoken", "t"),
                ("x-radiko-keylength", "99999999999999999999"),
                ("x-radiko-keyoffset", "0"),
            ],
            ProtocolFault::MalformedKeyLength,
        ),
    ];
    for (headers, fault) in cases {
        let mut h = RadikoAuthHandler::new("JP13").unwrap();
        let r = h.apply_step1(&response(200, headers));
        match r {
            Err(RadikoError::Protocol(f)) => assert_eq!(f, *fault),
            _ => panic!("expected protocol fault {:?}", fault),
        }
        assert!(!h.is_established());
    }
}

#[test]
fn successful_handshake_holds_exact_credentials() {
    let mut h = RadikoAuthHandler::new("JP13").unwrap();
    h.apply_step1(&good_step1()).unwrap();
    assert!(!h.is_established());
    h.apply_step2(&response(204, &[])).unwrap();
    assert!(h.is_established());

    let headers = h.get_authenticated_headers();
    assert_eq!(headers.auth_token.as_deref(), Some("tok_abc123"));
    // offset 0, length 8: base64 of the first eight secret bytes
    assert_eq!(headers.partial_key.as_deref(), Some("YmNkMTUxMDc="));
    assert_eq!(headers.area_id, "JP13");

    let pairs = h.request_headers();
    assert!(pairs.contains(&("X-Radiko-AuthToken".to_string(), "tok_abc123".to_string())));
    assert!(pairs.contains(&(
        "X-Radiko-Partialkey".to_string(),
        "YmNkMTUxMDc=".to_string()
    )));
}

#[test]
fn step1_accepts_server_chosen_window() {
    let mut h = RadikoAuthHandler::new("JP27").unwrap();
    let resp = response(
        200,
        &[
            ("X-Radiko-AUTHTOKEN", "t2"),
            ("X-Radiko-KeyLength", "3"),
            ("X-Radiko-KeyOffset", "3"),
        ],
    );
    h.apply_step1(&resp).unwrap();
    // bytes 3..6 are "151"
    assert_eq!(h.headers.partial_key.as_deref(), Some("MTUx"));
}

#[test]
fn step2_failure_fails_the_session() {
    let mut h = RadikoAuthHandler::new("JP13").unwrap();
    h.apply_step1(&good_step1()).unwrap();
    let r = h.apply_step2(&response(500, &[]));
    match r {
        Err(RadikoError::Transport { status, .. }) => assert_eq!(status, 500),
        _ => panic!("expected a transport error"),
    }
    assert!(!h.is_established());
}

#[test]
fn error_predicates_and_labels() {
    let v = RadikoError::Validation(ValidationFault::BadAreaId);
    let t = RadikoError::Transport {
        status: 502,
        body: String::new(),
    };
    let p = RadikoError::Protocol(ProtocolFault::MissingAuthToken);
    let s = RadikoError::Sink { code: 1 };
    assert!(v.is_validation() && !v.is_transport());
    assert!(t.is_transport() && !t.is_protocol());
    assert!(p.is_protocol() && !p.is_sink());
    assert!(s.is_sink() && !s.is_validation());
    assert_eq!(v.label(), "validation error");
    assert_eq!(t.label(), "transport error");
    assert_eq!(p.label(), "protocol error");
    assert_eq!(s.label(), "sink error");
}
