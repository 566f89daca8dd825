use mouse2joy::devices::{scan_filter, select_device, DeviceInfo};
use mouse2joy::errors::Mouse2JoyError;
use mouse2joy::events::EV_REL;
use mouse2joy::selection::{parse_selection, select_index_if_single};

fn mouse(name: &str) -> DeviceInfo {
    DeviceInfo { name: Some(name.to_string()), event_types: vec![0, 1, EV_REL, 4] }
}

fn keyboard(name: &str) -> DeviceInfo {
    DeviceInfo { name: Some(name.to_string()), event_types: vec![0, 1, 4, 17] }
}

#[test]
fn selection_accepts_numbers_in_range() {
    assert_eq!(parse_selection(b"3", 1, 5), Some(3));
    assert_eq!(parse_selection(b"1", 1, 5), Some(1));
    assert_eq!(parse_selection(b"5", 1, 5), Some(5));
    assert_eq!(parse_selection(b" 2\n", 1, 5), Some(2));
    assert_eq!(parse_selection(b"\t4 \r\n", 1, 5), Some(4));
    assert_eq!(parse_selection(b"+4", 1, 5), Some(4));
    assert_eq!(parse_selection(b"007", 1, 9), Some(7));
}

#[test]
fn selection_rejects_out_of_range_numbers() {
    // inputs outside [1, count] never select a device
    assert_eq!(parse_selection(b"0", 1, 5), None);
    assert_eq!(parse_selection(b"6", 1, 5), None);
    assert_eq!(parse_selection(b"100", 1, 5), None);
}

#[test]
fn selection_rejects_non_numeric_input() {
    assert_eq!(parse_selection(b"abc", 1, 5), None);
    assert_eq!(parse_selection(b"", 1, 5), None);
    assert_eq!(parse_selection(b"   \n", 1, 5), None);
    assert_eq!(parse_selection(b"2x", 1, 5), None);
    assert_eq!(parse_selection(b"-2", 1, 5), None);
    assert_eq!(parse_selection(b"+", 1, 5), None);
    assert_eq!(parse_selection(b"2 3", 1, 5), None);
    assert_eq!(parse_selection(b"99999999999999999999999999", 1, 5), None);
}

#[test]
fn single_candidate_selected_without_prompt() {
    let devices = vec![mouse("only mouse")];
    let kept = scan_filter(devices).unwrap();
    assert_eq!(kept.len(), 1);
    assert_eq!(select_index_if_single(kept.len()), Some(1));
    let (chosen, rest) = select_device(kept, 1);
    assert_eq!(chosen.name.as_deref(), Some("only mouse"));
    assert!(rest.is_empty());
}

#[test]
fn several_candidates_require_a_prompt() {
    assert_eq!(select_index_if_single(2), None);
    assert_eq!(select_index_if_single(0), None);
}

#[test]
fn no_candidates_is_fatal() {
    assert_eq!(scan_filter(vec![]).unwrap_err(), Mouse2JoyError::NoMouseError);
    let no_mice = vec![keyboard("kbd one"), keyboard("kbd two")];
    assert_eq!(scan_filter(no_mice).unwrap_err(), Mouse2JoyError::NoMouseError);
}

#[test]
fn scan_filter_keeps_qualifying_devices_in_order() {
    let devices = vec![mouse("first"), keyboard("kbd"), mouse("second")];
    let kept = scan_filter(devices).unwrap();
    assert_eq!(kept.len(), 2);
    assert_eq!(kept[0].name.as_deref(), Some("first"));
    assert_eq!(kept[1].name.as_deref(), Some("second"));
}

#[test]
fn select_device_removes_only_the_chosen_one() {
    let devices = vec![mouse("a"), mouse("b"), mouse("c")];
    let (chosen, rest) = select_device(devices, 2);
    assert_eq!(chosen.name.as_deref(), Some("b"));
    assert_eq!(rest.len(), 2);
    assert_eq!(rest[0].name.as_deref(), Some("a"));
    assert_eq!(rest[1].name.as_deref(), Some("c"));
}

#[test]
fn supports_relative_looks_for_the_relative_event_type() {
    assert!(mouse("m").supports_relative());
    assert!(!keyboard("k").supports_relative());
    let empty = DeviceInfo { name: None, event_types: vec![] };
    assert!(!empty.supports_relative());
}

#[test]
fn display_name_falls_back_when_unnamed() {
    let named = mouse("Optical Mouse");
    assert_eq!(named.display_name(), "Optical Mouse");
    let unnamed = DeviceInfo { name: None, event_types: vec![EV_REL] };
    assert_eq!(unnamed.display_name(), "Unknown Device");
}
