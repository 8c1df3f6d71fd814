use plippet::injector::{
    auto_from_env, capture_target, char_to_keysym, parse_xdotool_window_id, paste, resolve,
    next_step, token_path, validate_typeable, CaptureError, Environment, KeyEvent, PasteBackend,
    PasteError, PasteKeys, PasteMode, PastePlan, PasteProgress, PasteStep, PasteTarget,
    KEYSYM_CONTROL_L, KEYSYM_SHIFT_L, KEYSYM_V,
};

/// Helper: assume a Wayland session and supply the desktop hint.
fn wl(desktop: Option<&str>) -> (PasteBackend, String) {
    auto_from_env(desktop, Some("wayland"), Some("wayland-0"))
}

fn env(desktop: Option<&str>, session: Option<&str>, display: Option<&str>) -> Environment {
    Environment {
        desktop: desktop.map(|s| s.to_string()),
        session_type: session.map(|s| s.to_string()),
        wayland_display: display.map(|s| s.to_string()),
    }
}

#[test]
fn auto_wayland_unset_desktop_picks_wtype() {
    let (backend, reason) = wl(None);
    assert_eq!(backend, PasteBackend::Wtype);
    assert!(reason.contains("unset"), "{reason}");
}

#[test]
fn auto_wayland_empty_desktop_picks_wtype() {
    let (backend, reason) = wl(Some(""));
    assert_eq!(backend, PasteBackend::Wtype);
    assert!(reason.contains("unset"), "{reason}");
}

#[test]
fn auto_gnome_picks_portal() {
    assert_eq!(wl(Some("GNOME")).0, PasteBackend::Portal);
    // colon-separated chain (real GNOME session value)
    assert_eq!(wl(Some("GNOME-Classic:GNOME:")).0, PasteBackend::Portal);
}

#[test]
fn auto_kde_picks_portal() {
    assert_eq!(wl(Some("KDE")).0, PasteBackend::Portal);
    assert_eq!(wl(Some("Plasma")).0, PasteBackend::Portal);
    assert_eq!(wl(Some("KWin")).0, PasteBackend::Portal);
}

#[test]
fn auto_is_case_insensitive() {
    assert_eq!(wl(Some("gnome")).0, PasteBackend::Portal);
    assert_eq!(wl(Some("kde")).0, PasteBackend::Portal);
    assert_eq!(wl(Some("PLASMA")).0, PasteBackend::Portal);
}

#[test]
fn auto_sway_picks_wtype() {
    assert_eq!(wl(Some("sway")).0, PasteBackend::Wtype);
    assert_eq!(wl(Some("Hyprland")).0, PasteBackend::Wtype);
    assert_eq!(wl(Some("river")).0, PasteBackend::Wtype);
}

#[test]
fn auto_reason_echoes_raw_desktop_value() {
    let (_, reason) = wl(Some("GNOME-Classic:GNOME:"));
    assert!(reason.contains("GNOME-Classic:GNOME:"), "{reason}");
}

#[test]
fn auto_x11_picks_xdotool_regardless_of_desktop() {
    let (backend, reason) = auto_from_env(Some("XFCE"), Some("x11"), None);
    assert_eq!(backend, PasteBackend::Xdotool);
    assert!(reason.contains("X11"), "{reason}");
    // even for desktops that would otherwise resolve to portal, X11 wins
    assert_eq!(auto_from_env(Some("GNOME"), Some("x11"), None).0, PasteBackend::Xdotool);
}

#[test]
fn auto_no_env_at_all_falls_back_to_x11() {
    let (backend, _) = auto_from_env(None, None, None);
    assert_eq!(backend, PasteBackend::Xdotool);
}

#[test]
fn auto_wayland_display_alone_is_wayland() {
    // session_type unset but WAYLAND_DISPLAY set → treat as Wayland.
    assert_eq!(auto_from_env(Some("GNOME"), None, Some("wayland-0")).0, PasteBackend::Portal);
}

#[test]
fn auto_reasons_are_exact() {
    assert_eq!(auto_from_env(Some("XFCE"), Some("x11"), None).1, "X11 session (XDG_SESSION_TYPE=x11)");
    assert_eq!(auto_from_env(None, None, None).1, "X11 session (no Wayland signals)");
    assert_eq!(wl(None).1, "Wayland session, XDG_CURRENT_DESKTOP unset");
    assert_eq!(wl(Some("sway")).1, "Wayland session, XDG_CURRENT_DESKTOP=sway");
    assert_eq!(auto_from_env(None, None, Some("")).0, PasteBackend::Xdotool);
    assert_eq!(auto_from_env(Some("KDE"), Some("Wayland"), None).0, PasteBackend::Portal);
}

#[test]
fn parse_xdotool_window_id_trims_output() {
    assert_eq!(parse_xdotool_window_id(b"12345678\n"), Some("12345678".to_string()));
}

#[test]
fn parse_xdotool_window_id_rejects_empty_output() {
    assert_eq!(parse_xdotool_window_id(b"  \n"), None);
}

#[test]
fn paste_keys_ctrl_v_uses_only_control_modifier() {
    let (modifiers, key) = PasteKeys::CtrlV.keysyms();
    assert_eq!(modifiers, &[KEYSYM_CONTROL_L]);
    assert_eq!(key, KEYSYM_V);
}

#[test]
fn paste_keys_ctrl_shift_v_includes_shift() {
    let (modifiers, key) = PasteKeys::CtrlShiftV.keysyms();
    assert_eq!(modifiers, &[KEYSYM_CONTROL_L, KEYSYM_SHIFT_L]);
    assert_eq!(key, KEYSYM_V);
}

#[test]
fn paste_keys_wtype_args_match_combo() {
    assert_eq!(PasteKeys::CtrlV.wtype_args(), &["-M", "ctrl", "-k", "v", "-m", "ctrl"]);
    assert_eq!(
        PasteKeys::CtrlShiftV.wtype_args(),
        &["-M", "ctrl", "-M", "shift", "-k", "v", "-m", "shift", "-m", "ctrl"]
    );
}

#[test]
fn paste_keys_xdotool_strings() {
    assert_eq!(PasteKeys::CtrlV.xdotool_key(), "ctrl+v");
    assert_eq!(PasteKeys::CtrlShiftV.xdotool_key(), "ctrl+shift+v");
}

#[test]
fn keysym_for_ascii_letters() {
    assert_eq!(char_to_keysym('a'), Some(0x61));
    assert_eq!(char_to_keysym('z'), Some(0x7a));
    assert_eq!(char_to_keysym('A'), Some(0x41));
    assert_eq!(char_to_keysym('Z'), Some(0x5a));
}

#[test]
fn keysym_for_ascii_digits_and_symbols() {
    assert_eq!(char_to_keysym('0'), Some(0x30));
    assert_eq!(char_to_keysym('9'), Some(0x39));
    assert_eq!(char_to_keysym('!'), Some(0x21));
    assert_eq!(char_to_keysym(' '), Some(0x20));
    assert_eq!(char_to_keysym('~'), Some(0x7e));
}

#[test]
fn keysym_for_whitespace_specials() {
    assert_eq!(char_to_keysym('\n'), Some(0xff0d));
    assert_eq!(char_to_keysym('\t'), Some(0xff09));
}

#[test]
fn keysym_rejects_unsupported_chars() {
    assert_eq!(char_to_keysym('é'), None);
    assert_eq!(char_to_keysym('🙂'), None);
    assert_eq!(char_to_keysym('\u{7f}'), None); // DEL
    assert_eq!(char_to_keysym('\u{1f}'), None); // unit separator
}

#[test]
fn validate_typeable_accepts_pure_ascii() {
    validate_typeable("Hello, World!\nLine 2\twith tab.").unwrap();
}

#[test]
fn validate_typeable_rejects_non_ascii_with_position() {
    let err = validate_typeable("Hello, café").unwrap_err().message();
    assert!(err.contains("'é'"), "{err}");
    // "Hello, café" — é is char index 10 (H=0, e=1, …, f=9, é=10).
    assert!(err.contains("position 10"), "{err}");
}

#[test]
fn validate_typeable_accepts_empty() {
    validate_typeable("").unwrap();
}

#[test]
fn unsupported_char_message_is_exact() {
    let err = validate_typeable("ab\u{1f}c").unwrap_err();
    assert_eq!(err, PasteError::UnsupportedChar { ch: '\u{1f}', position: 2 });
    assert_eq!(
        err.message(),
        "character '\\u{1f}' (U+001F) at position 2 is not supported in type mode; use --paste-mode chord or remove the character from the snippet"
    );
    let err = validate_typeable("🙂").unwrap_err();
    assert!(err.message().starts_with("character '🙂' (U+1F642) at position 0"));
}

#[test]
fn resolve_never_returns_auto() {
    let e = env(Some("GNOME"), Some("wayland"), None);
    assert_eq!(resolve(PasteBackend::Auto, &e), PasteBackend::Portal);
    assert_eq!(resolve(PasteBackend::Wtype, &e), PasteBackend::Wtype);
    assert_eq!(resolve(PasteBackend::Auto, &env(None, None, None)), PasteBackend::Xdotool);
    assert!(capture_target(PasteBackend::Auto, &env(None, None, None)));
    assert!(!capture_target(PasteBackend::Auto, &e));
    assert!(capture_target(PasteBackend::Xdotool, &e));
}

fn command_of(d: &PasteStep) -> (String, Vec<String>) {
    match d {
        PasteStep::Command { program, args } => (program.to_string(), args.clone()),
        _ => panic!("expected a command"),
    }
}

fn wait_of(d: &PasteStep) -> u64 {
    match d {
        PasteStep::Wait { ms } => *ms,
        _ => panic!("expected a wait"),
    }
}

fn portal_of(d: &PasteStep) -> (Vec<KeyEvent>, u64) {
    match d {
        PasteStep::Portal { events, pause_ms } => (events.clone(), *pause_ms),
        _ => panic!("expected portal events"),
    }
}

#[test]
fn plan_chord_commands() {
    let e = env(None, None, None);
    let target = PasteTarget::from_xdotool_output(b"4242\n").unwrap();
    let plan = paste(PasteBackend::Xdotool, PasteKeys::CtrlShiftV, PasteMode::Chord, Some(&target), "x", &e);
    assert_eq!(plan.steps.len(), 3);
    assert_eq!(
        command_of(&plan.steps[0]),
        ("xdotool".to_string(), vec!["windowactivate".to_string(), "--sync".to_string(), "4242".to_string()])
    );
    assert_eq!(wait_of(&plan.steps[1]), 50);
    assert_eq!(command_of(&plan.steps[2]), ("xdotool".to_string(), vec!["key".to_string(), "ctrl+shift+v".to_string()]));
    assert!(plan.outcome.is_ok());

    let plan = paste(PasteBackend::Wtype, PasteKeys::CtrlV, PasteMode::Chord, Some(&target), "x", &e);
    assert_eq!(plan.steps.len(), 2);
    assert_eq!(wait_of(&plan.steps[0]), 500);
    let (p, a) = command_of(&plan.steps[1]);
    assert_eq!(p, "wtype");
    assert_eq!(a, vec!["-M", "ctrl", "-k", "v", "-m", "ctrl"]);
}

#[test]
fn plan_type_commands() {
    let e = env(None, None, None);
    let plan = paste(PasteBackend::Auto, PasteKeys::CtrlV, PasteMode::Type, None, "-a b", &e);
    assert_eq!(plan.steps.len(), 2);
    assert_eq!(wait_of(&plan.steps[0]), 50);
    let (p, a) = command_of(&plan.steps[1]);
    assert_eq!(p, "xdotool");
    assert_eq!(a, vec!["type", "--delay", "5", "--", "-a b"]);
    let plan = paste(PasteBackend::Wtype, PasteKeys::CtrlV, PasteMode::Type, None, "hi", &e);
    assert_eq!(command_of(&plan.steps[1]), ("wtype".to_string(), vec!["--".to_string(), "hi".to_string()]));
}

#[test]
fn plan_type_mode_reports_untypeable_text() {
    let e = env(None, None, None);
    let target = PasteTarget::from_xdotool_output(b"9").unwrap();
    let plan = paste(PasteBackend::Xdotool, PasteKeys::CtrlV, PasteMode::Type, Some(&target), "café", &e);
    assert_eq!(plan.steps.len(), 2);
    assert_eq!(wait_of(&plan.steps[1]), 50);
    assert_eq!(plan.outcome.unwrap_err(), PasteError::UnsupportedChar { ch: 'é', position: 3 });
}

#[test]
fn plan_portal_events() {
    let e = env(Some("KDE"), Some("wayland"), None);
    let plan = paste(PasteBackend::Auto, PasteKeys::CtrlShiftV, PasteMode::Chord, None, "", &e);
    assert_eq!(wait_of(&plan.steps[0]), 500);
    let press = |k| KeyEvent { keysym: k, pressed: true };
    let release = |k| KeyEvent { keysym: k, pressed: false };
    let (events, pause_ms) = portal_of(&plan.steps[1]);
    assert_eq!(pause_ms, 10);
    assert_eq!(
        events,
        vec![
            press(KEYSYM_CONTROL_L),
            press(KEYSYM_SHIFT_L),
            press(KEYSYM_V),
            release(KEYSYM_V),
            release(KEYSYM_SHIFT_L),
            release(KEYSYM_CONTROL_L),
        ]
    );
    let plan = paste(PasteBackend::Portal, PasteKeys::CtrlV, PasteMode::Type, None, "A\n", &e);
    let (events, pause_ms) = portal_of(&plan.steps[1]);
    assert_eq!(pause_ms, 3);
    assert_eq!(events, vec![press(0x41), release(0x41), press(0xff0d), release(0xff0d)]);
}

#[test]
fn paste_steps_stop_at_the_first_failure() {
    let e = env(None, None, None);
    let target = PasteTarget::from_xdotool_output(b"7").unwrap();
    let plan: PastePlan = paste(PasteBackend::Xdotool, PasteKeys::CtrlV, PasteMode::Chord, Some(&target), "", &e);
    assert!(matches!(next_step(&plan, 0, true), PasteProgress::Perform(0)));
    // The focus command failed: nothing else runs.
    assert!(matches!(next_step(&plan, 1, false), PasteProgress::StepFailed));
    assert!(matches!(next_step(&plan, 1, true), PasteProgress::Perform(1)));
    assert!(matches!(next_step(&plan, 2, true), PasteProgress::Perform(2)));
    assert!(matches!(next_step(&plan, 3, false), PasteProgress::StepFailed));
    assert!(matches!(next_step(&plan, 3, true), PasteProgress::Finished(Ok(()))));
    let plan = paste(PasteBackend::Wtype, PasteKeys::CtrlV, PasteMode::Type, None, "é", &e);
    assert!(matches!(
        next_step(&plan, 1, true),
        PasteProgress::Finished(Err(PasteError::UnsupportedChar { ch: 'é', position: 0 }))
    ));
}

#[test]
fn capture_outcomes() {
    let t = PasteTarget::from_capture(true, "exit status: 0", b"123\n").unwrap();
    assert_eq!(t.window_id(), "123");
    let e = PasteTarget::from_capture(false, "exit status: 1", b"123\n").unwrap_err();
    assert_eq!(e.message(), "xdotool getactivewindow exited with status exit status: 1");
    let e = PasteTarget::from_capture(true, "exit status: 0", b"  \n").unwrap_err();
    assert!(matches!(e, CaptureError::NoWindowId));
    assert_eq!(e.message(), "xdotool getactivewindow returned no window id");
}

#[test]
fn target_from_output() {
    assert!(PasteTarget::from_xdotool_output(b" \t\n").is_none());
    assert_eq!(PasteTarget::from_xdotool_output(b" 77 \n").unwrap().window_id(), "77");
}

#[test]
fn token_lives_next_to_the_config() {
    assert_eq!(token_path(Some("/c")).unwrap(), "/c/plippet/portal_token");
    assert!(token_path(None).is_err());
    assert_eq!(plippet::injector::token_from_file("  tok\n"), "tok");
}
