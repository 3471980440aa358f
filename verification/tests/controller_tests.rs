use rustvision::activation::{DeviceOutcome, DevicePlan};
use rustvision::controller::AppState;
use rustvision::hotkeys::KeyTarget;
use rustvision::keys::KeySnapshot;
use rustvision::ramp::RampTable;

fn samples() -> [u16; 256] {
    let mut samples = [0u16; 256];
    for i in 0..256 {
        samples[i] = (i as u16) * 257;
    }
    samples
}

fn units(text: &str) -> Vec<u16> {
    text.encode_utf16().collect()
}

fn keys_with(codes: &[i32]) -> KeySnapshot {
    let mut keys = KeySnapshot::all_up();
    for code in codes {
        keys.set_down(*code, true);
    }
    keys
}

/// Holds the session that a request asks for with a display that always
/// answers, and counts the writes it takes.
fn carry_out(state: &mut AppState, request: Option<bool>, writes: &mut usize) {
    if let Some(active) = request {
        let plan = state.activation.plan_update(active, &samples());
        if let DevicePlan::Session { read_first, write } = plan {
            let current = if read_first { Some(RampTable { levels: [11u16; 768] }) } else { None };
            if write.is_some() {
                *writes += 1;
            }
            let outcome = DeviceOutcome::Completed { current, write_rejected: false };
            state.activation.update_gamma(active, &outcome);
        }
    }
}

#[test]
fn state_starts_at_the_defaults() {
    let state = AppState::default();
    assert!(!state.activation.is_active);
    assert!(state.activation.original_ramp.is_none());
    assert_eq!(state.binding.toggle_key, 0x78);
    assert_eq!(state.binding.auto_key, 0x79);
    assert_eq!(state.binding.waiting_for_key, None);
    assert!(!state.sampler.toggle.last_down);
    assert!(!state.sampler.auto.last_down);
    assert!(!state.auto_mode.enabled);
    assert_eq!(state.auto_mode.target_process, "RustClient.exe");
    assert_eq!(state.auto_mode.last_check_ms, 0);
}

#[test]
fn toggle_key_switches_once_per_press() {
    let mut state = AppState::default();
    let mut writes = 0;
    let down = keys_with(&[0x78]);
    let up = KeySnapshot::all_up();
    let request = state.handle_keys(&down);
    assert_eq!(request, Some(true));
    carry_out(&mut state, request, &mut writes);
    assert!(state.activation.is_active);
    for _ in 0..5 {
        assert_eq!(state.handle_keys(&down), None);
    }
    assert_eq!(state.handle_keys(&up), None);
    let request = state.handle_keys(&down);
    assert_eq!(request, Some(false));
    carry_out(&mut state, request, &mut writes);
    assert!(!state.activation.is_active);
    assert_eq!(writes, 2);
}

#[test]
fn manual_toggle_is_ignored_in_auto_mode() {
    let mut state = AppState::default();
    assert_eq!(state.set_auto_mode(true), None);
    assert!(state.auto_mode.enabled);
    let request = state.handle_keys(&keys_with(&[0x78]));
    assert_eq!(request, None);
    assert!(!state.activation.is_active);
    assert!(state.auto_mode.enabled);
    assert!(state.sampler.toggle.last_down);
}

#[test]
fn auto_key_turns_auto_mode_over() {
    let mut state = AppState::default();
    let down = keys_with(&[0x79]);
    let up = KeySnapshot::all_up();
    assert_eq!(state.handle_keys(&down), None);
    assert!(state.auto_mode.enabled);
    assert_eq!(state.handle_keys(&down), None);
    assert!(state.auto_mode.enabled);
    assert_eq!(state.handle_keys(&up), None);
    assert_eq!(state.handle_keys(&down), Some(false));
    assert!(!state.auto_mode.enabled);
}

#[test]
fn both_keys_at_once_outside_auto_mode() {
    let mut state = AppState::default();
    let request = state.handle_keys(&keys_with(&[0x78, 0x79]));
    assert_eq!(request, Some(true));
    assert!(state.auto_mode.enabled);
}

#[test]
fn foreground_sequence_drives_activation() {
    let mut state = AppState::default();
    state.set_target_process("Target.exe".to_string());
    state.set_auto_mode(true);
    let mut writes = 0;
    let mut now = 0u64;
    let mut seen = Vec::new();
    for name in ["a.exe", "target.exe", "target.exe", "b.exe"] {
        now += 301;
        assert!(state.poll_due(now));
        let path = units(&format!("\\Device\\HarddiskVolume1\\bin\\{}", name));
        let request = state.poll_foreground(now, &path);
        carry_out(&mut state, request, &mut writes);
        seen.push(state.activation.is_active);
    }
    assert_eq!(seen, vec![false, true, true, false]);
    assert_eq!(writes, 2);
}

#[test]
fn undetermined_foreground_restores() {
    let mut state = AppState::default();
    state.set_auto_mode(true);
    let mut writes = 0;
    let request = state.poll_foreground(1000, &units("C:\\rustclient.EXE"));
    assert_eq!(request, Some(true));
    carry_out(&mut state, request, &mut writes);
    assert!(state.activation.is_active);
    let request = state.poll_foreground(2000, &Vec::new());
    assert_eq!(request, Some(false));
    carry_out(&mut state, request, &mut writes);
    assert!(!state.activation.is_active);
}

#[test]
fn poll_waits_for_the_interval() {
    let mut state = AppState::default();
    assert!(!state.poll_due(1000));
    assert_eq!(state.poll_foreground(1000, &units("RustClient.exe")), None);
    assert_eq!(state.auto_mode.last_check_ms, 0);
    state.set_auto_mode(true);
    assert!(!state.poll_due(0));
    assert!(!state.poll_due(300));
    assert!(state.poll_due(301));
    assert_eq!(state.poll_foreground(301, &units("RustClient.exe")), Some(true));
    assert_eq!(state.auto_mode.last_check_ms, 301);
    assert!(!state.poll_due(601));
    assert_eq!(state.poll_foreground(601, &units("other.exe")), None);
    assert_eq!(state.auto_mode.last_check_ms, 301);
    assert!(!state.poll_due(100));
    assert!(state.poll_due(602));
}

#[test]
fn leaving_auto_mode_restores_in_the_same_tick() {
    let mut state = AppState::default();
    let mut writes = 0;
    state.set_auto_mode(true);
    let request = state.poll_foreground(500, &units("RustClient.exe"));
    carry_out(&mut state, request, &mut writes);
    assert!(state.activation.is_active);
    let request = state.handle_keys(&keys_with(&[0x79]));
    assert_eq!(request, Some(false));
    carry_out(&mut state, request, &mut writes);
    assert!(!state.activation.is_active);
    assert!(!state.auto_mode.enabled);
    assert!(!state.poll_due(5000));
}

#[test]
fn switching_auto_mode_off_asks_to_restore() {
    let mut state = AppState::default();
    assert_eq!(state.set_auto_mode(false), None);
    assert_eq!(state.set_auto_mode(true), None);
    assert_eq!(state.set_auto_mode(true), None);
    assert_eq!(state.set_auto_mode(false), Some(false));
    assert!(!state.auto_mode.enabled);
}

#[test]
fn armed_capture_takes_the_tick() {
    let mut state = AppState::default();
    state.arm_capture(KeyTarget::Toggle);
    assert_eq!(state.handle_keys(&KeySnapshot::all_up()), None);
    assert_eq!(state.binding.waiting_for_key, Some(KeyTarget::Toggle));
    let request = state.handle_keys(&keys_with(&[0x42, 0x79]));
    assert_eq!(request, None);
    assert_eq!(state.binding.toggle_key, 0x42);
    assert_eq!(state.binding.waiting_for_key, None);
    assert!(!state.auto_mode.enabled);
    assert!(!state.sampler.toggle.last_down);
    assert!(!state.sampler.auto.last_down);
    let request = state.handle_keys(&keys_with(&[0x42]));
    assert_eq!(request, Some(true));
}
