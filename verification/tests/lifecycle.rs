//! The one-time bring-up.

use v8core::{
    auto_ensures_init, is_initialized, platform_new, v8_get_current_platform, v8_initialize,
    v8_initialize_platform, v8_version, BringUp, InitRequest, Lifecycle, PlatformOpaque,
};

#[test]
fn a_fresh_process_is_not_initialized() {
    let state = Lifecycle::new();
    assert!(!is_initialized(&state));
    assert!(!state.platform_installed());
    assert!(state.may_install_platform());
    assert!(!state.permits(InitRequest::Initialize));
    assert!(state.permits(InitRequest::AutoEnsure));
}

#[test]
fn installing_a_platform_hands_its_bits_to_the_engine() {
    let mut state = Lifecycle::new();
    let (token, _refs) = platform_new((0x10, 0x20));
    assert_eq!(v8_initialize_platform(&mut state, token), (0x10, 0x20));
    assert!(state.platform_installed());
    assert!(!state.may_install_platform());
    assert!(!is_initialized(&state));
    assert!(state.permits(InitRequest::Initialize));
    assert!(!state.permits(InitRequest::AutoEnsure));
}

#[test]
fn initialize_brings_the_engine_up_once() {
    let mut state = Lifecycle::new();
    v8_initialize_platform(&mut state, PlatformOpaque::from((1, 2)));
    assert_eq!(v8_initialize(&mut state), BringUp::Initialize);
    assert!(is_initialized(&state));
    let mut bring_ups = 1;
    for _ in 0..100 {
        if v8_initialize(&mut state) != BringUp::Nothing {
            bring_ups += 1;
        }
        assert!(is_initialized(&state));
    }
    assert_eq!(bring_ups, 1);
}

#[test]
fn auto_ensure_brings_the_engine_up_once() {
    let mut state = Lifecycle::new();
    assert_eq!(auto_ensures_init(&mut state), BringUp::DefaultPlatformThenInitialize);
    assert!(is_initialized(&state));
    assert!(state.platform_installed());
    assert_eq!(auto_ensures_init(&mut state), BringUp::Nothing);
    assert_eq!(auto_ensures_init(&mut state), BringUp::Nothing);
    assert!(is_initialized(&state));
}

#[test]
fn requests_of_both_kinds_share_one_bring_up() {
    let mut state = Lifecycle::new();
    let requests = [
        InitRequest::AutoEnsure,
        InitRequest::Initialize,
        InitRequest::AutoEnsure,
        InitRequest::Initialize,
        InitRequest::Initialize,
    ];
    let mut actions = Vec::new();
    for request in requests {
        assert!(state.permits(request));
        let action = match request {
            InitRequest::Initialize => v8_initialize(&mut state),
            InitRequest::AutoEnsure => auto_ensures_init(&mut state),
        };
        assert!(is_initialized(&state));
        actions.push(action);
    }
    assert_eq!(
        actions,
        vec![
            BringUp::DefaultPlatformThenInitialize,
            BringUp::Nothing,
            BringUp::Nothing,
            BringUp::Nothing,
            BringUp::Nothing,
        ]
    );
}

#[test]
fn auto_ensure_after_initialize_does_nothing() {
    let mut state = Lifecycle::new();
    v8_initialize_platform(&mut state, PlatformOpaque::from((1, 2)));
    assert_eq!(v8_initialize(&mut state), BringUp::Initialize);
    assert!(state.permits(InitRequest::AutoEnsure));
    assert_eq!(auto_ensures_init(&mut state), BringUp::Nothing);
    assert!(is_initialized(&state));
}

#[test]
fn is_initialized_changes_nothing() {
    let mut state = Lifecycle::new();
    for _ in 0..3 {
        assert!(!is_initialized(&state));
    }
    assert_eq!(auto_ensures_init(&mut state), BringUp::DefaultPlatformThenInitialize);
    for _ in 0..3 {
        assert!(is_initialized(&state));
    }
}

#[test]
fn current_platform_is_one_more_owner() {
    let mut state = Lifecycle::new();
    let (token, mut refs) = platform_new((0x10, 0x20));
    v8_initialize_platform(&mut state, token);
    v8_initialize(&mut state);
    assert_eq!(refs.count(), 1);
    let current = v8_get_current_platform(&state, &mut refs);
    assert_eq!(current, PlatformOpaque::from((0x10, 0x20)));
    assert_eq!(refs.count(), 2);
    assert!(refs.holds(&current));
    let again = v8_get_current_platform(&state, &mut refs);
    assert_eq!(again, current);
    assert_eq!(refs.count(), 3);
}

#[test]
fn version_is_a_view_of_the_bytes() {
    let version = String::from("12.0.267.8");
    let view = v8_version(&version);
    assert_eq!(view.len(), 10);
    assert_eq!(&*view, "12.0.267.8".as_bytes());
    assert_eq!(&view[..2], &[b'1', b'2']);
}

#[test]
fn version_may_be_empty_or_not_ascii() {
    assert_eq!(v8_version("").len(), 0);
    let view = v8_version("é");
    assert_eq!(&*view, &[0xc3u8, 0xa9][..]);
}
