use rustvision::hotkeys::{EdgeDetector, HotkeyBinding, KeyTarget};
use rustvision::keys::{key_is_down, KeySnapshot};
use rustvision::label::format_key;

#[test]
fn raw_state_with_the_high_bit_is_down() {
    assert!(key_is_down(i16::MIN));
    assert!(key_is_down(-32767));
    assert!(key_is_down(-1));
    assert!(!key_is_down(0));
    assert!(!key_is_down(1));
    assert!(!key_is_down(i16::MAX));
}

#[test]
fn snapshot_records_keys_by_code() {
    let mut keys = KeySnapshot::all_up();
    assert!(!keys.is_down(0x42));
    keys.set_down(0x42, true);
    assert!(keys.is_down(0x42));
    assert!(!keys.is_down(0x41));
    keys.set_down(0x42, false);
    assert!(!keys.is_down(0x42));
    keys.set_down(256, true);
    keys.set_down(-1, true);
    assert!(!keys.is_down(256));
    assert!(!keys.is_down(-1));
    assert!(!keys.is_down(i32::MAX));
}

#[test]
fn scan_gives_the_lowest_code_that_is_down() {
    let mut keys = KeySnapshot::all_up();
    assert_eq!(keys.first_key_down(), None);
    keys.set_down(0x90, true);
    keys.set_down(0x42, true);
    assert_eq!(keys.first_key_down(), Some(0x42));
    keys.set_down(8, true);
    assert_eq!(keys.first_key_down(), Some(8));
}

#[test]
fn scan_skips_codes_outside_its_range() {
    let mut keys = KeySnapshot::all_up();
    keys.set_down(0, true);
    keys.set_down(1, true);
    keys.set_down(7, true);
    keys.set_down(255, true);
    assert_eq!(keys.first_key_down(), None);
    keys.set_down(254, true);
    assert_eq!(keys.first_key_down(), Some(254));
}

#[test]
fn capture_binds_the_toggle_key_and_disarms() {
    let mut binding = HotkeyBinding::new();
    assert_eq!(binding.toggle_key, 0x78);
    assert_eq!(binding.auto_key, 0x79);
    binding.arm(KeyTarget::Toggle);
    assert_eq!(binding.waiting_for_key, Some(KeyTarget::Toggle));
    let mut keys = KeySnapshot::all_up();
    keys.set_down(0x42, true);
    assert!(binding.capture(&keys));
    assert_eq!(binding.toggle_key, 0x42);
    assert_eq!(binding.auto_key, 0x79);
    assert_eq!(binding.waiting_for_key, None);
}

#[test]
fn capture_binds_the_auto_key() {
    let mut binding = HotkeyBinding::new();
    binding.arm(KeyTarget::Auto);
    let mut keys = KeySnapshot::all_up();
    keys.set_down(0x20, true);
    assert!(binding.capture(&keys));
    assert_eq!(binding.toggle_key, 0x78);
    assert_eq!(binding.auto_key, 0x20);
    assert_eq!(binding.waiting_for_key, None);
}

#[test]
fn capture_waits_while_no_key_is_down() {
    let mut binding = HotkeyBinding::new();
    binding.arm(KeyTarget::Auto);
    let keys = KeySnapshot::all_up();
    for _ in 0..5 {
        assert!(!binding.capture(&keys));
        assert_eq!(binding.waiting_for_key, Some(KeyTarget::Auto));
        assert_eq!(binding.auto_key, 0x79);
    }
}

#[test]
fn capture_without_arming_changes_nothing() {
    let mut binding = HotkeyBinding::new();
    let mut keys = KeySnapshot::all_up();
    keys.set_down(0x42, true);
    assert!(!binding.capture(&keys));
    assert_eq!(binding.toggle_key, 0x78);
    assert_eq!(binding.auto_key, 0x79);
    assert_eq!(binding.waiting_for_key, None);
}

#[test]
fn held_key_fires_at_the_first_tick_only() {
    let mut detector = EdgeDetector::new();
    let mut events = Vec::new();
    for _ in 0..10 {
        events.push(detector.sample(true));
    }
    let mut expected = vec![false; 10];
    expected[0] = true;
    assert_eq!(events, expected);
}

#[test]
fn released_and_pressed_again_fires_again() {
    let mut detector = EdgeDetector::new();
    let samples = [false, true, true, false, false, true, false, true, true];
    let events: Vec<bool> = samples.iter().map(|s| detector.sample(*s)).collect();
    assert_eq!(events, vec![false, true, false, false, false, true, false, true, false]);
    assert!(detector.last_down);
}

#[test]
fn function_keys_are_labelled_by_number() {
    assert_eq!(format_key(0x70), "F1");
    assert_eq!(format_key(0x78), "F9");
    assert_eq!(format_key(0x79), "F10");
    assert_eq!(format_key(0x87), "F24");
}

#[test]
fn named_and_character_keys_are_labelled() {
    assert_eq!(format_key(0x08), "BACK");
    assert_eq!(format_key(0x20), "SPACE");
    assert_eq!(format_key(0x30), "0");
    assert_eq!(format_key(0x39), "9");
    assert_eq!(format_key(0x41), "A");
    assert_eq!(format_key(0x42), "B");
    assert_eq!(format_key(0x5A), "Z");
}

#[test]
fn other_keys_are_labelled_in_hex() {
    assert_eq!(format_key(0), "0x0");
    assert_eq!(format_key(0x09), "0x9");
    assert_eq!(format_key(0x1B), "0x1B");
    assert_eq!(format_key(0x3A), "0x3A");
    assert_eq!(format_key(0x5B), "0x5B");
    assert_eq!(format_key(0x6F), "0x6F");
    assert_eq!(format_key(0x88), "0x88");
    assert_eq!(format_key(0xFE), "0xFE");
    assert_eq!(format_key(0x1234), "0x1234");
    assert_eq!(format_key(i32::MAX), "0x7FFFFFFF");
    assert_eq!(format_key(-1), "0xFFFFFFFF");
    assert_eq!(format_key(i32::MIN), "0x80000000");
}
