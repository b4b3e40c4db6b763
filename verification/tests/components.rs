//! Component-level checks: identity allocation, screen-content search, the
//! input-callback result, and virtual-environment command building.

use terminal_share::callback::CallbackResult;
use terminal_share::ids::TerminalIdAllocator;
use terminal_share::screen::ScreenState;
use terminal_share::venv::{
    ActivateScript, VenvSettings, activate_script_candidates, activate_script_name,
    activation_command,
};

#[test]
fn test_allocator_is_monotonic_and_fresh() {
    let mut alloc = TerminalIdAllocator::new();
    let a = alloc.fresh();
    let b = alloc.fresh();
    let c = alloc.fresh();
    assert_eq!((a, b, c), (0, 1, 2));
    assert!(a < b && b < c);
}

#[test]
fn test_is_handled() {
    assert!(CallbackResult::Handled(true).is_handled());
    assert!(CallbackResult::Handled(false).is_handled());
    assert!(!CallbackResult::Unhandled.is_handled());
}

#[test]
fn test_contains_text_finds_infix() {
    let s = ScreenState {
        cells: b"prompt> --ABC-- done".to_vec(),
    };
    assert!(s.contains_text(b"--ABC--"));
    assert!(s.contains_text(b"prompt>"));
    assert!(s.contains_text(b" done"));
    assert!(!s.contains_text(b"--XYZ--"));
}

#[test]
fn test_contains_text_empty_pattern() {
    let s = ScreenState {
        cells: b"anything".to_vec(),
    };
    assert!(s.contains_text(b""));
    let blank = ScreenState { cells: Vec::new() };
    assert!(blank.contains_text(b""));
}

#[test]
fn test_contains_text_pattern_longer_than_screen() {
    let s = ScreenState {
        cells: b"ab".to_vec(),
    };
    assert!(!s.contains_text(b"abc"));
}

#[test]
fn test_contains_text_exact_and_overlapping() {
    let s = ScreenState {
        cells: b"aaab".to_vec(),
    };
    assert!(s.contains_text(b"aaab"));
    assert!(s.contains_text(b"aab"));
    assert!(!s.contains_text(b"abb"));
}

#[test]
fn test_screen_duplicate_is_equal() {
    let s = ScreenState {
        cells: b"copy me".to_vec(),
    };
    let d = s.duplicate();
    assert_eq!(s, d);
}

#[test]
fn test_activate_script_names() {
    assert_eq!(activate_script_name(ActivateScript::Sh), b"activate".to_vec());
    assert_eq!(
        activate_script_name(ActivateScript::Csh),
        b"activate.csh".to_vec()
    );
    assert_eq!(
        activate_script_name(ActivateScript::Fish),
        b"activate.fish".to_vec()
    );
    assert_eq!(
        activate_script_name(ActivateScript::Nushell),
        b"activate.nu".to_vec()
    );
}

#[test]
fn test_activate_script_candidates_paths() {
    let settings = VenvSettings {
        activate_script: ActivateScript::Sh,
        directories: vec![b".env".to_vec(), b".venv".to_vec()],
    };
    let wd = b"/root".to_vec();
    let candidates = activate_script_candidates(&settings, Some(&wd));
    assert_eq!(
        candidates,
        vec![
            b"/root/.env/bin/activate".to_vec(),
            b"/root/.venv/bin/activate".to_vec(),
        ]
    );
}

#[test]
fn test_activate_script_candidates_default_root() {
    // An unresolved working directory anchors the search at the root.
    let settings = VenvSettings {
        activate_script: ActivateScript::Fish,
        directories: vec![b"venv".to_vec()],
    };
    let candidates = activate_script_candidates(&settings, None);
    assert_eq!(candidates, vec![b"//venv/bin/activate.fish".to_vec()]);
}

#[test]
fn test_activation_command_bytes() {
    let cmd = activation_command(&b"/root/.venv/bin/activate".to_vec());
    assert_eq!(cmd, b"source /root/.venv/bin/activate\n".to_vec());
}
