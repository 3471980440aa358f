use rustvision::process::{find_file_name, get_foreground_process, is_target_process};

fn units(text: &str) -> Vec<u16> {
    text.encode_utf16().collect()
}

#[test]
fn file_name_follows_the_last_backslash() {
    let path = units("\\Device\\HarddiskVolume3\\Games\\Target.exe");
    assert_eq!(find_file_name(&path), path.len() - "Target.exe".len());
    assert_eq!(get_foreground_process(&path), "Target.exe");
}

#[test]
fn path_without_separator_is_the_name() {
    assert_eq!(find_file_name(&units("notepad.exe")), 0);
    assert_eq!(get_foreground_process(&units("notepad.exe")), "notepad.exe");
}

#[test]
fn empty_path_gives_an_empty_name() {
    assert_eq!(find_file_name(&Vec::new()), 0);
    assert_eq!(get_foreground_process(&Vec::new()), "");
}

#[test]
fn path_ending_in_a_separator_gives_an_empty_name() {
    let path = units("C:\\Games\\");
    assert_eq!(find_file_name(&path), path.len());
    assert_eq!(get_foreground_process(&path), "");
}

#[test]
fn names_outside_ascii_are_decoded() {
    let path = units("C:\\Игры\\Игра😀.exe");
    assert_eq!(get_foreground_process(&path), "Игра😀.exe");
}

#[test]
fn lone_surrogates_become_the_replacement_marker() {
    let mut path = units("C:\\a");
    path.push(0xD83D);
    path.push(0x62);
    path.push(0xDE00);
    path.push(0xD83D);
    assert_eq!(get_foreground_process(&path), "a\u{FFFD}b\u{FFFD}\u{FFFD}");
}

#[test]
fn names_match_without_regard_to_case() {
    assert!(is_target_process("target.exe", "Target.exe"));
    assert!(is_target_process("TARGET.EXE", "target.exe"));
    assert!(is_target_process("Target.exe", "Target.exe"));
    assert!(is_target_process("ИГРА.exe", "игра.EXE"));
    assert!(!is_target_process("a.exe", "Target.exe"));
    assert!(!is_target_process("target.exe ", "target.exe"));
}

#[test]
fn undetermined_process_matches_nothing() {
    assert!(!is_target_process("", "Target.exe"));
    assert!(!is_target_process("", ""));
}
