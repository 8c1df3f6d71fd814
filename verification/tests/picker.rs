use plippet::cli::{
    after_pick, backend_summary, config_summary, find_snippet, lookup_for_insert, lookup_selected,
    picker_options, picker_summary, snippet_lines, strict_outcome, tool_report,
};
use plippet::config::{Config, SnippetConfig};
use plippet::injector::PasteBackend;
use plippet::picker::{
    auto_picker_order, auto_picker_reason, first_installed, parse_picker_output, picker_input,
    ExternalPicker, PickerChoice, PickerKind,
};
use plippet::picker::PickerChoice::{Builtin, External};
use plippet::tools::SessionKind;

fn body(key: &str, name: &str, body: &str) -> SnippetConfig {
    SnippetConfig { key: key.into(), name: name.into(), body: Some(body.into()), command: None }
}

fn sample() -> Config {
    Config { snippet: vec![body("sig", "Email signoff", "x"), body("addr", "Address", "y")] }
}

#[test]
fn picker_commands() {
    let (p, a) = ExternalPicker::new(PickerKind::Rofi).command();
    assert_eq!((p, a), ("rofi", vec!["-dmenu"]));
    let (p, a) = ExternalPicker::new(PickerKind::Bemenu).command();
    assert_eq!(p, "bemenu");
    assert!(a.is_empty());
    assert_eq!(ExternalPicker::new(PickerKind::Fuzzel).command(), ("fuzzel", vec!["--dmenu"]));
    assert_eq!(ExternalPicker::new(PickerKind::Wofi).kind(), PickerKind::Wofi);
}

#[test]
fn picker_is_fed_one_line_per_snippet() {
    let options = picker_options(&sample());
    assert_eq!(picker_input(&options), "sig\tEmail signoff\naddr\tAddress");
    assert_eq!(picker_input(&[]), "");
    assert_eq!(snippet_lines(&sample()), vec!["sig\tEmail signoff", "addr\tAddress"]);
}

#[test]
fn picked_line_gives_its_key() {
    assert_eq!(parse_picker_output(b"addr\tAddress\n"), Some("addr".to_string()));
    assert_eq!(parse_picker_output(b"  sig\n"), Some("sig".to_string()));
    assert_eq!(parse_picker_output(b"\n"), None);
    assert_eq!(parse_picker_output(b""), None);
    let cfg = sample();
    let key = parse_picker_output(b"addr\tAddress\n").unwrap();
    assert_eq!(lookup_selected(&cfg, &key).unwrap(), 1);
}

#[test]
fn lookups_report_missing_keys() {
    let cfg = sample();
    assert_eq!(find_snippet(&cfg, "sig"), Some(0));
    assert_eq!(find_snippet(&cfg, "nope"), None);
    assert_eq!(lookup_for_insert(&cfg, "addr").unwrap(), 1);
    assert_eq!(lookup_for_insert(&cfg, "x").unwrap_err().message(), "snippet not found: x");
    assert_eq!(lookup_selected(&cfg, "y").unwrap_err().message(), "selected snippet key not found: y");
}

#[test]
fn tool_report_pads_names() {
    let r = tool_report("required tools", &["wl-copy", "x"], &[true, false]);
    assert_eq!(r.lines, vec!["required tools:", "  wl-copy  ok", "  x        missing"]);
    assert_eq!(r.missing, vec!["x"]);
    assert_eq!(strict_outcome(true, &r.missing), Err("required tools missing: x".to_string()));
    assert_eq!(strict_outcome(false, &r.missing), Ok(()));
    assert_eq!(strict_outcome(true, &vec![]), Ok(()));
    assert_eq!(
        strict_outcome(true, &vec!["a".to_string(), "b".to_string()]),
        Err("required tools missing: a, b".to_string())
    );
}

#[test]
fn check_summary_lines() {
    assert_eq!(config_summary(2, "/c/s.toml"), "config ok: 2 snippets (/c/s.toml)");
    assert_eq!(
        backend_summary(PasteBackend::Wtype, "why"),
        "paste backend (auto resolves to): Wtype  [why]"
    );
}

#[test]
fn auto_picker_prefers_wlroots_pickers() {
    let order = auto_picker_order(SessionKind::Wayland, false, true);
    assert_eq!(
        order,
        vec![
            External(PickerKind::Fuzzel),
            External(PickerKind::Wofi),
            External(PickerKind::Bemenu),
            External(PickerKind::Rofi),
            Builtin
        ]
    );
    assert_eq!(auto_picker_order(SessionKind::Wayland, true, true), vec![Builtin, External(PickerKind::Rofi)]);
    assert_eq!(auto_picker_order(SessionKind::X11, false, true), vec![External(PickerKind::Rofi), Builtin]);
    assert_eq!(auto_picker_order(SessionKind::Wayland, true, false), vec![External(PickerKind::Rofi)]);
    assert_eq!(auto_picker_order(SessionKind::X11, true, false), vec![External(PickerKind::Rofi)]);
    assert_eq!(auto_picker_order(SessionKind::Wayland, false, false).len(), 4);
    assert_eq!(first_installed(&order, &[false, true, true, false, true]), Some(External(PickerKind::Wofi)));
    assert_eq!(first_installed(&order, &[false, false, false, false, true]), Some(Builtin));
    assert_eq!(first_installed(&order, &[false, false, false, false, false]), None);
    assert_eq!(PickerKind::Bemenu.name(), "Bemenu");
    assert_eq!(Builtin.name(), "Builtin");
}

#[test]
fn picker_check_line() {
    let reason = auto_picker_reason(SessionKind::X11, false);
    assert_eq!(reason, "X11 session");
    assert_eq!(
        picker_summary(Some(PickerChoice::External(PickerKind::Rofi)), reason),
        "picker (auto resolves to): Rofi  [X11 session]"
    );
    assert_eq!(picker_summary(None, "r"), "picker (auto resolves to): <none installed>  [r]");
}

#[test]
fn pick_request_and_answer() {
    let options = picker_options(&sample());
    let req = ExternalPicker::new(PickerKind::Wofi).request(&options);
    assert_eq!(req.program, "wofi");
    assert_eq!(req.args, vec!["--dmenu"]);
    assert_eq!(req.input, "sig\tEmail signoff\naddr\tAddress");
    assert_eq!(ExternalPicker::answer(b" addr\tAddress \n"), Some("addr".to_string()));
    assert_eq!(ExternalPicker::answer(b" \t \n"), None);
}

#[test]
fn cancelled_pick_selects_nothing() {
    let cfg = sample();
    assert_eq!(after_pick(&cfg, None).unwrap(), None);
    assert_eq!(after_pick(&cfg, Some("addr".to_string())).unwrap(), Some(1));
    assert_eq!(
        after_pick(&cfg, Some("zzz".to_string())).unwrap_err().message(),
        "selected snippet key not found: zzz"
    );
}
