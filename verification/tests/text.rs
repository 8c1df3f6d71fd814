use plippet::text::{decimal_string, hex_string, is_blank_str, trim_str};
use plippet::tools::{is_gnome_or_kde_desktop, session_kind_from_env, SessionKind};

#[test]
fn trim_removes_unicode_whitespace() {
    assert_eq!(trim_str(" \u{2003}a b\t\n"), "a b");
    assert_eq!(trim_str("   "), "");
    assert!(is_blank_str("\u{85}\u{a0} "));
    assert!(!is_blank_str(" x "));
}

#[test]
fn numbers_format() {
    assert_eq!(decimal_string(0), "0");
    assert_eq!(decimal_string(1907), "1907");
    assert_eq!(hex_string(0xe9, 4), "00E9");
    assert_eq!(hex_string(0x1f642, 4), "1F642");
}

#[test]
fn session_detection() {
    assert_eq!(session_kind_from_env(Some("wayland"), None), SessionKind::Wayland);
    assert_eq!(session_kind_from_env(Some("X11"), Some("wayland-0")), SessionKind::X11);
    assert_eq!(session_kind_from_env(Some("tty"), Some("wayland-1")), SessionKind::Wayland);
    assert_eq!(session_kind_from_env(None, None), SessionKind::X11);
    assert!(is_gnome_or_kde_desktop(Some("ubuntu:GNOME")));
    assert!(!is_gnome_or_kde_desktop(Some("XFCE")));
    assert!(!is_gnome_or_kde_desktop(None));
    assert_eq!(SessionKind::X11.label(), "X11");
}

#[test]
fn execute_bits_make_a_file_executable() {
    assert!(plippet::tools::is_executable_mode(0o755));
    assert!(plippet::tools::is_executable_mode(0o100));
    assert!(plippet::tools::is_executable_mode(0o001));
    assert!(!plippet::tools::is_executable_mode(0o644));
    assert!(!plippet::tools::is_executable_mode(0o100644 & !0o111));
}
