use radiko_recorder::auth::RadikoAuthHandler;
use radiko_recorder::errors::{RadikoError, ValidationFault};
use radiko_recorder::player::{check_capture_status, output_file_name, RadikoPlayer};
use radiko_recorder::response::AuthResponse;
use radiko_recorder::timefmt::{add_minutes_clock, format_datetime, parse_datetime14, LocalDateTime};

fn established_player(area: &str) -> RadikoPlayer {
    let mut h = RadikoAuthHandler::new(area).unwrap();
    let step1 = AuthResponse {
        status: 200,
        headers: vec![
            ("x-radiko-authtoken".to_string(), "tok_xyz".to_string()),
            ("x-radiko-keylength".to_string(), "8".to_string()),
            ("x-radiko-keyoffset".to_string(), "0".to_string()),
        ],
        body: String::new(),
    };
    h.apply_step1(&step1).unwrap();
    let step2 = AuthResponse {
        status: 200,
        headers: vec![],
        body: String::new(),
    };
    h.apply_step2(&step2).unwrap();
    RadikoPlayer::new(area, &h)
}

#[test]
fn parse_accepts_exact_fourteen_digit_timestamps() {
    let t = parse_datetime14("20240101000000").unwrap();
    assert_eq!(
        t,
        LocalDateTime { year: 2024, month: 1, day: 1, hour: 0, minute: 0, second: 0 }
    );
    let t2 = parse_datetime14("19991231235959").unwrap();
    assert_eq!(t2.year, 1999);
    assert_eq!(t2.second, 59);
}

#[test]
fn parse_rejects_wrong_length_digits_and_ranges() {
    for bad in [
        "2024010100000",    // thirteen digits
        "202401010000000",  // fifteen digits
        "2024a101000000",   // a non-digit
        "20241301000000",   // month 13
        "20240001000000",   // month 0
        "20240100000000",   // day 0
        "20240132000000",   // day 32
        "20240101240000",   // hour 24
        "20240101006000",   // minute 60
        "20240101000060",   // second 60
        "",
    ] {
        assert!(
            matches!(
                parse_datetime14(bad),
                Err(RadikoError::Validation(ValidationFault::BadStartTime))
            ),
            "expected {} to be rejected",
            bad
        );
    }
}

#[test]
fn format_writes_fourteen_digits_zero_padded() {
    let t = LocalDateTime { year: 7, month: 3, day: 9, hour: 4, minute: 5, second: 6 };
    assert_eq!(format_datetime(&t), "00070309040506");
    let u = parse_datetime14("20240101000000").unwrap();
    assert_eq!(format_datetime(&u), "20240101000000");
}

#[test]
fn adding_minutes_rolls_over_calendar_boundaries() {
    let eve = parse_datetime14("20231231235900").unwrap();
    let past = add_minutes_clock(&eve, 2).unwrap();
    assert_eq!(format_datetime(&past), "20240101000100");

    // 2024 is a leap year, 2023 is not
    let leap = parse_datetime14("20240228233000").unwrap();
    assert_eq!(
        format_datetime(&add_minutes_clock(&leap, 120).unwrap()),
        "20240229013000"
    );
    let plain = parse_datetime14("20230228233000").unwrap();
    assert_eq!(
        format_datetime(&add_minutes_clock(&plain, 120).unwrap()),
        "20230301013000"
    );
}

#[test]
fn nonexistent_day_is_rejected_by_the_calendar() {
    // February 30th fits the wire format's ranges but no calendar
    let t = parse_datetime14("20240230120000").unwrap();
    assert!(add_minutes_clock(&t, 1).is_none());
}

#[test]
fn one_hour_window_formats_into_the_playlist_url() {
    let player = established_player("JP13");
    let start = parse_datetime14("20240101000000").unwrap();
    let (url, header) = player.prepare_recording("TBS", &start, 60).unwrap();
    assert_eq!(
        url,
        "https://radiko.jp/v2/api/ts/playlist.m3u8?station_id=TBS&l=15&ft=20240101000000&to=20240101010000"
    );
    assert_eq!(header, "X-RADIKO-AUTHTOKEN: tok_xyz");
}

#[test]
fn recording_rejects_bad_station_and_duration() {
    let player = established_player("JP13");
    let start = parse_datetime14("20240101000000").unwrap();
    assert!(matches!(
        player.prepare_recording("tbs", &start, 60),
        Err(RadikoError::Validation(ValidationFault::BadStationId))
    ));
    assert!(matches!(
        player.prepare_recording("TBS", &start, 0),
        Err(RadikoError::Validation(ValidationFault::NonPositiveDuration))
    ));
    assert!(matches!(
        player.prepare_recording("TBS", &start, -5),
        Err(RadikoError::Validation(ValidationFault::NonPositiveDuration))
    ));
}

#[test]
fn recording_rejects_a_window_past_the_wire_format() {
    let player = established_player("JP13");
    let start = parse_datetime14("99991231235900").unwrap();
    assert!(matches!(
        player.prepare_recording("TBS", &start, 60),
        Err(RadikoError::Validation(ValidationFault::BadStartTime))
    ));
}

#[test]
fn playback_headers_add_keep_alive() {
    let player = established_player("JP27");
    assert!(player.headers.keep_alive);
    assert_eq!(player.headers.auth_token.as_deref(), Some("tok_xyz"));
    let pairs = player.headers.to_pairs();
    assert!(pairs.contains(&("Connection".to_string(), "keep-alive".to_string())));
}

#[test]
fn station_directory_url_embeds_the_area() {
    let player = established_player("JP27");
    assert_eq!(
        player.station_list_url(),
        "https://radiko.jp/v3/station/list/JP27.xml"
    );
}

#[test]
fn output_name_and_capture_status() {
    let now = parse_datetime14("20240615123045").unwrap();
    assert_eq!(output_file_name("TBS", &now), "TBS_20240615123045.aac");
    assert!(check_capture_status(0).is_ok());
    assert!(matches!(
        check_capture_status(1),
        Err(RadikoError::Sink { code: 1 })
    ));
    assert!(matches!(
        check_capture_status(-9),
        Err(RadikoError::Sink { code: -9 })
    ));
}
