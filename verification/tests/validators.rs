use radiko_recorder::validate::{is_valid_area_id, is_valid_station_id};

#[test]
fn area_ids_one_through_fortyseven_are_accepted() {
    for n in 1..=47 {
        let id = format!("JP{}", n);
        assert!(is_valid_area_id(&id), "expected {} to be accepted", id);
    }
}

#[test]
fn area_ids_outside_the_range_are_rejected() {
    for bad in ["JP0", "JP48", "JP99", "JP100", "JP-1"] {
        assert!(!is_valid_area_id(bad), "expected {} to be rejected", bad);
    }
}

#[test]
fn area_ids_with_wrong_shape_are_rejected() {
    for bad in ["jp13", "Jp13", "JP", "J13", "XX13", "JP013", "JP1 ", " JP1", "JP1a", ""] {
        assert!(!is_valid_area_id(bad), "expected {} to be rejected", bad);
    }
}

#[test]
fn station_ids_accept_uppercase_alphanumerics_only() {
    for good in ["TBS", "QRR", "LFR", "ABC123", "7", "X"] {
        assert!(is_valid_station_id(good), "expected {} to be accepted", good);
    }
}

#[test]
fn station_ids_reject_empty_lowercase_and_symbols() {
    for bad in ["", "tbs", "Tbs", "TBS-FM", "TBS FM", "TBS_", "ＴＢＳ", "あ"] {
        assert!(!is_valid_station_id(bad), "expected {} to be rejected", bad);
    }
}
