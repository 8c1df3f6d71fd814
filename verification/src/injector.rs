//! Choosing how a snippet reaches the focused window: which paste backend
//! `auto` resolves to, and the exact commands or portal key events that
//! deliver the snippet.

use vstd::prelude::*;

use crate::config::{join_path, join_path_str, ConfigError};
use crate::text::{
    char_debug, char_debug_text, chars_of, concat, decimal, decimal_string, hex, hex_string, trim, trim_str,
    utf8_lossy, decode_lossy, zero_pad,
};
use crate::tools::{gnome_or_kde_spec, is_gnome_or_kde_desktop, opt_view, session_kind_from_env, session_kind_spec, SessionKind};

verus! {

/// How the paste keystroke is synthesised.
#[derive(Debug, Clone, Copy, PartialEq, Eq, Structural)]
pub enum PasteBackend {
    /// Heuristic: portal on GNOME/KDE, wtype on other Wayland setups,
    /// xdotool on X11.
    Auto,
    /// virtual-keyboard-unstable-v1 via the `wtype` binary (wlroots Wayland).
    Wtype,
    /// XDG Desktop Portal RemoteDesktop (GNOME / KDE / wlroots Wayland).
    Portal,
    /// X11 paste via the `xdotool` binary.
    Xdotool,
}

/// Which key combination is synthesised for "paste".
#[derive(Debug, Clone, Copy, PartialEq, Eq, Structural)]
pub enum PasteKeys {
    /// Ctrl+V, the paste shortcut of GUI text inputs.
    CtrlV,
    /// Ctrl+Shift+V, the paste shortcut of Linux terminals.
    CtrlShiftV,
}

/// How the snippet reaches the focused window.
#[derive(Debug, Clone, Copy, PartialEq, Eq, Structural)]
pub enum PasteMode {
    /// Synthesise the paste shortcut.
    Chord,
    /// Type each character; printable ASCII, newline and tab only.
    Type,
}

/// The X11 window that had focus before the picker opened.
#[derive(Debug)]
pub struct PasteTarget {
    x11_window_id: String,
}

/// The session variables the `auto` backend is chosen from:
/// `XDG_CURRENT_DESKTOP`, `XDG_SESSION_TYPE` and `WAYLAND_DISPLAY`.
#[derive(Debug)]
pub struct Environment {
    pub desktop: Option<String>,
    pub session_type: Option<String>,
    pub wayland_display: Option<String>,
}

/// One key event sent through the portal.
#[derive(Debug, Clone, Copy, PartialEq, Eq, Structural)]
pub struct KeyEvent {
    pub keysym: i32,
    pub pressed: bool,
}

/// One step of a paste.
#[derive(Debug)]
pub enum PasteStep {
    /// Run `program` with `args`; a failing exit status is an error.
    Command { program: &'static str, args: Vec<String> },
    /// Wait `ms` milliseconds.
    Wait { ms: u64 },
    /// Send `events` in order through a portal RemoteDesktop session,
    /// pausing `pause_ms` milliseconds after each.
    Portal { events: Vec<KeyEvent>, pause_ms: u64 },
}

/// Why a snippet cannot be delivered.
#[derive(Debug, Clone, Copy, PartialEq, Eq, Structural)]
pub enum PasteError {
    /// Type mode cannot type `ch`, found at character position `position`.
    UnsupportedChar { ch: char, position: usize },
}

/// Everything a paste does: its `steps`, performed in order (see
/// [`next_step`]), and, once all of them succeeded, its `outcome`.
#[derive(Debug)]
pub struct PastePlan {
    pub steps: Vec<PasteStep>,
    pub outcome: Result<(), PasteError>,
}

/// Where a paste stands.
#[derive(Debug, Clone, Copy)]
pub enum PasteProgress {
    /// Perform the step with this index next.
    Perform(usize),
    /// The last step performed failed: the paste fails with its error and
    /// no later step runs.
    StepFailed,
    /// Every step succeeded: the paste ends with this outcome.
    Finished(Result<(), PasteError>),
}

/// X11 keysym of the left Control key.
pub const KEYSYM_CONTROL_L: i32 = 0xffe3;

/// X11 keysym of the left Shift key.
pub const KEYSYM_SHIFT_L: i32 = 0xffe1;

/// X11 keysym of the `v` key.
pub const KEYSYM_V: i32 = 0x0076;

// ---------------------------------------------------------------------------
// Choosing the backend
// ---------------------------------------------------------------------------

impl Environment {
    /// `XDG_CURRENT_DESKTOP`, by its view.
    pub open spec fn desktop_view(&self) -> Option<Seq<char>> {
        match self.desktop {
            Some(s) => Some(s@),
            None => None,
        }
    }

    /// `XDG_SESSION_TYPE`, by its view.
    pub open spec fn session_type_view(&self) -> Option<Seq<char>> {
        match self.session_type {
            Some(s) => Some(s@),
            None => None,
        }
    }

    /// `WAYLAND_DISPLAY`, by its view.
    pub open spec fn wayland_display_view(&self) -> Option<Seq<char>> {
        match self.wayland_display {
            Some(s) => Some(s@),
            None => None,
        }
    }
}

/// The backend `auto` resolves to.
pub open spec fn auto_backend(
    desktop: Option<Seq<char>>,
    session_type: Option<Seq<char>>,
    wayland_display: Option<Seq<char>>,
) -> PasteBackend {
    match session_kind_spec(session_type, wayland_display) {
        SessionKind::X11 => PasteBackend::Xdotool,
        SessionKind::Wayland => {
            let raw = match desktop {
                Some(d) => d,
                None => Seq::empty(),
            };
            if raw.len() > 0 && gnome_or_kde_spec(Some(raw)) {
                PasteBackend::Portal
            } else {
                PasteBackend::Wtype
            }
        },
    }
}

/// The one-line reason given for the backend `auto` resolves to.
pub open spec fn auto_reason(
    desktop: Option<Seq<char>>,
    session_type: Option<Seq<char>>,
    wayland_display: Option<Seq<char>>,
) -> Seq<char> {
    match session_kind_spec(session_type, wayland_display) {
        SessionKind::X11 => match session_type {
            Some(s) => "X11 session (XDG_SESSION_TYPE="@ + s + ")"@,
            None => "X11 session (no Wayland signals)"@,
        },
        SessionKind::Wayland => {
            let raw = match desktop {
                Some(d) => d,
                None => Seq::empty(),
            };
            if raw.len() == 0 {
                "Wayland session, XDG_CURRENT_DESKTOP unset"@
            } else {
                "Wayland session, XDG_CURRENT_DESKTOP="@ + raw
            }
        },
    }
}

/// The backend that `backend` stands for in `env`.
pub open spec fn resolved_backend(backend: PasteBackend, env: Environment) -> PasteBackend {
    if backend == PasteBackend::Auto {
        auto_backend(env.desktop_view(), env.session_type_view(), env.wayland_display_view())
    } else {
        backend
    }
}

/// The backend `auto` picks from the session variables, with a one-line
/// reason that echoes the values it went by.
pub fn auto_from_env(
    desktop: Option<&str>,
    session_type: Option<&str>,
    wayland_display: Option<&str>,
) -> (r: (PasteBackend, String))
    ensures
        r.0 == auto_backend(opt_view(desktop), opt_view(session_type), opt_view(wayland_display)),
        r.1@ == auto_reason(opt_view(desktop), opt_view(session_type), opt_view(wayland_display)),
{
    match session_kind_from_env(session_type, wayland_display) {
        SessionKind::X11 => {
            let reason = match session_type {
                Some(s) => {
                    let mut r = String::from_str("X11 session (XDG_SESSION_TYPE=");
                    r.append(s);
                    r.append(")");
                    r
                },
                None => String::from_str("X11 session (no Wayland signals)"),
            };
            (PasteBackend::Xdotool, reason)
        },
        SessionKind::Wayland => {
            let raw: &str = match desktop {
                Some(d) => d,
                None => "",
            };
            proof {
                reveal_strlit("");
            }
            if raw.is_empty() {
                return (PasteBackend::Wtype, String::from_str("Wayland session, XDG_CURRENT_DESKTOP unset"));
            }
            let mut reason = String::from_str("Wayland session, XDG_CURRENT_DESKTOP=");
            reason.append(raw);
            if is_gnome_or_kde_desktop(Some(raw)) {
                (PasteBackend::Portal, reason)
            } else {
                (PasteBackend::Wtype, reason)
            }
        },
    }
}

/// Borrows the string inside an option.
fn opt_str(o: &Option<String>) -> (r: Option<&str>)
    ensures
        opt_view(r) == match o {
            Some(s) => Some(s@),
            None => None::<Seq<char>>,
        },
{
    match o {
        Some(s) => Some(s.as_str()),
        None => None,
    }
}

/// The concrete backend `backend` stands for in `env`; never `Auto`.
pub fn resolve(backend: PasteBackend, env: &Environment) -> (r: PasteBackend)
    ensures
        r == resolved_backend(backend, *env),
        r != PasteBackend::Auto,
{
    match backend {
        PasteBackend::Auto => {
            let (b, _) = auto_from_env(
                opt_str(&env.desktop),
                opt_str(&env.session_type),
                opt_str(&env.wayland_display),
            );
            b
        },
        explicit => explicit,
    }
}

/// Whether a paste with `backend` must first record the focused X11
/// window: only when it resolves to xdotool.
pub fn capture_target(backend: PasteBackend, env: &Environment) -> (r: bool)
    ensures
        r == (resolved_backend(backend, *env) == PasteBackend::Xdotool),
{
    resolve(backend, env) == PasteBackend::Xdotool
}

// ---------------------------------------------------------------------------
// The paste chord
// ---------------------------------------------------------------------------

/// The views of a sequence of strings.
pub open spec fn string_views(v: Seq<String>) -> Seq<Seq<char>> {
    v.map_values(|s: String| s@)
}

/// The views of a sequence of string slices.
pub open spec fn str_views(v: Seq<&'static str>) -> Seq<Seq<char>> {
    v.map_values(|s: &'static str| s@)
}

impl PasteKeys {
    /// The modifier keysyms, pressed in this order before the main key.
    pub open spec fn modifiers(self) -> Seq<i32> {
        match self {
            PasteKeys::CtrlV => seq![KEYSYM_CONTROL_L],
            PasteKeys::CtrlShiftV => seq![KEYSYM_CONTROL_L, KEYSYM_SHIFT_L],
        }
    }

    /// The arguments that make `wtype` type this chord.
    pub open spec fn wtype_args_spec(self) -> Seq<Seq<char>> {
        match self {
            PasteKeys::CtrlV => seq!["-M"@, "ctrl"@, "-k"@, "v"@, "-m"@, "ctrl"@],
            PasteKeys::CtrlShiftV => seq![
                "-M"@,
                "ctrl"@,
                "-M"@,
                "shift"@,
                "-k"@,
                "v"@,
                "-m"@,
                "shift"@,
                "-m"@,
                "ctrl"@,
            ],
        }
    }

    /// The `xdotool key` argument for this chord.
    pub open spec fn xdotool_key_spec(self) -> Seq<char> {
        match self {
            PasteKeys::CtrlV => "ctrl+v"@,
            PasteKeys::CtrlShiftV => "ctrl+shift+v"@,
        }
    }

    /// `(modifier_keysyms, main_keysym)`: the modifiers are pressed in order
    /// before the main key and released in reverse order after it.
    pub fn keysyms(self) -> (r: (Vec<i32>, i32))
        ensures
            r.0@ == self.modifiers(),
            r.1 == KEYSYM_V,
    {
        match self {
            PasteKeys::CtrlV => (vec![KEYSYM_CONTROL_L], KEYSYM_V),
            PasteKeys::CtrlShiftV => (vec![KEYSYM_CONTROL_L, KEYSYM_SHIFT_L], KEYSYM_V),
        }
    }

    /// The arguments for `wtype`.
    pub fn wtype_args(self) -> (r: Vec<&'static str>)
        ensures
            str_views(r@) == self.wtype_args_spec(),
    {
        let r = match self {
            PasteKeys::CtrlV => vec!["-M", "ctrl", "-k", "v", "-m", "ctrl"],
            PasteKeys::CtrlShiftV => vec!["-M", "ctrl", "-M", "shift", "-k", "v", "-m", "shift", "-m", "ctrl"],
        };
        proof {
            assert(str_views(r@) == self.wtype_args_spec());
        }
        r
    }

    /// The `xdotool key` argument.
    pub fn xdotool_key(self) -> (r: &'static str)
        ensures
            r@ == self.xdotool_key_spec(),
    {
        match self {
            PasteKeys::CtrlV => "ctrl+v",
            PasteKeys::CtrlShiftV => "ctrl+shift+v",
        }
    }
}

// ---------------------------------------------------------------------------
// Type mode
// ---------------------------------------------------------------------------

/// The X11 keysym type mode sends for `c`: Return for `'\n'`, Tab for
/// `'\t'`, the character itself for printable ASCII (`' '` to `'~'`);
/// nothing for any other character.
pub open spec fn keysym_of(c: char) -> Option<i32> {
    if c == '\n' {
        Some(0xff0d)
    } else if c == '\t' {
        Some(0xff09)
    } else if ' ' <= c && c <= '~' {
        Some(c as i32)
    } else {
        None
    }
}

/// Type mode can type every character of `text`.
pub open spec fn typeable(text: Seq<char>) -> bool {
    forall|i: int| 0 <= i < text.len() ==> (#[trigger] keysym_of(text[i])) is Some
}

/// Position `p` holds the first character of `text` that type mode cannot
/// type.
pub open spec fn first_untypeable(text: Seq<char>, p: int) -> bool {
    &&& 0 <= p < text.len()
    &&& keysym_of(text[p]) is None
    &&& forall|i: int| 0 <= i < p ==> (#[trigger] keysym_of(text[i])) is Some
}

/// The X11 keysym to type `c` with, if type mode supports it.
pub fn char_to_keysym(c: char) -> (r: Option<i32>)
    ensures
        r == keysym_of(c),
{
    if c == '\n' {
        Some(0xff0d)
    } else if c == '\t' {
        Some(0xff09)
    } else if ' ' <= c && c <= '~' {
        Some((c as u32) as i32)
    } else {
        None
    }
}

/// Checks that type mode can type all of `text`; otherwise names the first
/// character it cannot type and its position.
pub fn validate_typeable(text: &str) -> (r: Result<(), PasteError>)
    ensures
        r is Ok <==> typeable(text@),
        r matches Err(PasteError::UnsupportedChar { ch, position }) ==> first_untypeable(
            text@,
            position as int,
        ) && ch == text@[position as int],
{
    let v = chars_of(text);
    let mut i: usize = 0;
    while i < v.len()
        invariant
            v@ == text@,
            i <= v@.len(),
            forall|k: int| 0 <= k < i ==> (#[trigger] keysym_of(v@[k])) is Some,
        decreases v.len() - i,
    {
        if char_to_keysym(v[i]).is_none() {
            return Err(PasteError::UnsupportedChar { ch: v[i], position: i });
        }
        i = i + 1;
    }
    Ok(())
}

impl PasteError {
    /// The text shown to the user for this error.
    pub open spec fn text(self) -> Seq<char> {
        match self {
            PasteError::UnsupportedChar { ch, position } => "character "@ + char_debug_text(ch)
                + " (U+"@ + zero_pad(hex(ch as nat), 4) + ") at position "@ + decimal(
                position as nat,
            ) + " is not supported in type mode; use --paste-mode chord or remove the character from the snippet"@,
        }
    }

    /// The text shown to the user for this error.
    pub fn message(&self) -> (r: String)
        ensures
            r@ == self.text(),
    {
        match self {
            PasteError::UnsupportedChar { ch, position } => {
                let mut r = String::from_str("character ");
                let d = char_debug(*ch);
                r.append(d.as_str());
                r.append(" (U+");
                let h = hex_string((*ch as u32) as u64, 4);
                r.append(h.as_str());
                r.append(") at position ");
                let p = decimal_string(*position as u64);
                r.append(p.as_str());
                r.append(
                    " is not supported in type mode; use --paste-mode chord or remove the character from the snippet",
                );
                r
            },
        }
    }
}

// ---------------------------------------------------------------------------
// The paste plan
// ---------------------------------------------------------------------------

/// Portal events for a chord: press the modifiers in order, press and
/// release the main key, release the modifiers in reverse order.
pub open spec fn chord_events(modifiers: Seq<i32>, key: i32) -> Seq<KeyEvent> {
    modifiers.map_values(|m: i32| KeyEvent { keysym: m, pressed: true })
        + seq![KeyEvent { keysym: key, pressed: true }, KeyEvent { keysym: key, pressed: false }]
        + modifiers.reverse().map_values(|m: i32| KeyEvent { keysym: m, pressed: false })
}

/// Portal events that type `text`: each character's keysym pressed, then
/// released, character by character.
pub open spec fn typed_events(text: Seq<char>) -> Seq<KeyEvent> {
    Seq::new(
        2 * text.len(),
        |i: int| KeyEvent { keysym: keysym_of(text[i / 2])->0, pressed: i % 2 == 0 },
    )
}

/// `d` runs `program` with `args`.
pub open spec fn runs(d: PasteStep, program: Seq<char>, args: Seq<Seq<char>>) -> bool {
    d matches PasteStep::Command { program: p, args: a } && p@ == program && string_views(a@) == args
}

/// `d` sends `events` through the portal with `pause` ms after each.
pub open spec fn sends(d: PasteStep, events: Seq<KeyEvent>, pause: u64) -> bool {
    d matches PasteStep::Portal { events: e, pause_ms } && e@ == events && pause_ms == pause
}

/// `d` is how a resolved `backend` delivers `text` in `mode` with `keys`.
pub open spec fn delivers(
    d: PasteStep,
    backend: PasteBackend,
    keys: PasteKeys,
    mode: PasteMode,
    text: Seq<char>,
) -> bool {
    match (mode, backend) {
        (PasteMode::Chord, PasteBackend::Wtype) => runs(d, "wtype"@, keys.wtype_args_spec()),
        (PasteMode::Chord, PasteBackend::Xdotool) => runs(
            d,
            "xdotool"@,
            seq!["key"@, keys.xdotool_key_spec()],
        ),
        (PasteMode::Chord, _) => sends(d, chord_events(keys.modifiers(), KEYSYM_V), 10),
        (PasteMode::Type, PasteBackend::Wtype) => runs(d, "wtype"@, seq!["--"@, text]),
        (PasteMode::Type, PasteBackend::Xdotool) => runs(
            d,
            "xdotool"@,
            seq!["type"@, "--delay"@, "5"@, "--"@, text],
        ),
        (PasteMode::Type, _) => sends(d, typed_events(text), 3),
    }
}

impl PasteTarget {
    /// The X11 window id.
    pub closed spec fn id(&self) -> Seq<char> {
        self.x11_window_id@
    }

    /// The X11 window id, as `xdotool` prints it.
    pub fn window_id(&self) -> (r: &str)
        ensures
            r@ == self.id(),
    {
        self.x11_window_id.as_str()
    }
}

/// The view of an optional target.
pub open spec fn target_id(target: Option<&PasteTarget>) -> Option<Seq<char>> {
    match target {
        Some(t) => Some(t.id()),
        None => None,
    }
}

/// An owned copy of `s`.
fn string_of(s: &str) -> (r: String)
    ensures
        r@ == s@,
{
    String::from_str(s)
}

/// The portal events of the chord `keys`.
fn chord_portal_events(keys: PasteKeys) -> (r: Vec<KeyEvent>)
    ensures
        r@ == chord_events(keys.modifiers(), KEYSYM_V),
{
    let (mods, key) = keys.keysyms();
    let mut r: Vec<KeyEvent> = Vec::new();
    let n = mods.len();
    let mut i: usize = 0;
    while i < n
        invariant
            n == mods@.len(),
            mods@ == keys.modifiers(),
            i <= n,
            r@ == mods@.take(i as int).map_values(|m: i32| KeyEvent { keysym: m, pressed: true }),
        decreases n - i,
    {
        r.push(KeyEvent { keysym: mods[i], pressed: true });
        proof {
            assert(mods@.take(i + 1) == mods@.take(i as int).push(mods@[i as int]));
        }
        i = i + 1;
    }
    proof {
        assert(mods@.take(n as int) == mods@);
    }
    let ghost pressed = r@;
    r.push(KeyEvent { keysym: key, pressed: true });
    r.push(KeyEvent { keysym: key, pressed: false });
    let ghost mid = r@;
    let mut j: usize = n;
    while j > 0
        invariant
            n == mods@.len(),
            mods@ == keys.modifiers(),
            j <= n,
            r@ == mid + mods@.reverse().take(n - j).map_values(
                |m: i32| KeyEvent { keysym: m, pressed: false },
            ),
        decreases j,
    {
        r.push(KeyEvent { keysym: mods[j - 1], pressed: false });
        proof {
            let rev = mods@.reverse();
            assert(rev[n - j] == mods@[j - 1]);
            assert(rev.take(n - j + 1) == rev.take(n - j).push(rev[n - j]));
        }
        j = j - 1;
    }
    proof {
        assert(mods@.reverse().take(n as int) == mods@.reverse());
    }
    r
}

/// The portal events that type `text`.
fn typed_portal_events(text: &str) -> (r: Vec<KeyEvent>)
    requires
        typeable(text@),
    ensures
        r@ == typed_events(text@),
{
    let v = chars_of(text);
    let mut r: Vec<KeyEvent> = Vec::new();
    let mut i: usize = 0;
    while i < v.len()
        invariant
            v@ == text@,
            typeable(text@),
            i <= v@.len(),
            r@ == typed_events(text@.take(i as int)),
        decreases v.len() - i,
    {
        let k = char_to_keysym(v[i]);
        let ks = match k {
            Some(x) => x,
            None => {
                proof {
                    assert(keysym_of(text@[i as int]) is Some);
                }
                0
            },
        };
        r.push(KeyEvent { keysym: ks, pressed: true });
        r.push(KeyEvent { keysym: ks, pressed: false });
        proof {
            let t = text@.take(i + 1);
            assert forall|m: int| 0 <= m < 2 * t.len() implies r@[m] == typed_events(t)[m] by {
                if m < 2 * i {
                    assert(t[m / 2] == text@.take(i as int)[m / 2]);
                }
            }
            assert(r@ == typed_events(t));
        }
        i = i + 1;
    }
    proof {
        assert(text@.take(v@.len() as int) == text@);
    }
    r
}

/// `r` is the plan for pasting `text` with `backend`, `keys` and `mode`
/// into the window recorded as `target` (its id), in the session `env`.
pub open spec fn plans_paste(
    r: PastePlan,
    backend: PasteBackend,
    keys: PasteKeys,
    mode: PasteMode,
    target: Option<Seq<char>>,
    text: Seq<char>,
    env: Environment,
) -> bool {
    let b = resolved_backend(backend, env);
    let focus = b == PasteBackend::Xdotool && target is Some;
    let head: int = if focus {
        2
    } else {
        1
    };
    let deliver = mode == PasteMode::Chord || typeable(text);
    &&& r.steps@.len() == head + (if deliver {
        1int
    } else {
        0int
    })
    &&& focus ==> runs(r.steps@[0], "xdotool"@, seq!["windowactivate"@, "--sync"@, target->0])
    &&& r.steps@[head - 1] matches PasteStep::Wait { ms } && ms == (if b == PasteBackend::Xdotool {
        50u64
    } else {
        500u64
    })
    &&& deliver ==> r.outcome is Ok && delivers(r.steps@[head], b, keys, mode, text)
    &&& !deliver ==> (r.outcome matches Err(PasteError::UnsupportedChar { ch, position })
        && first_untypeable(text, position as int) && ch == text[position as int])
}

/// Plans a paste of `text` into the focused window.
///
/// With xdotool the recorded `target` window is first re-activated
/// (`xdotool windowactivate --sync <id>`) and the plan waits 50 ms; with
/// wtype or the portal it waits 500 ms for the compositor to hand focus
/// back. Chord mode then synthesises `keys`; type mode types `text`, which
/// must be typeable: otherwise there is no delivery step and the outcome is
/// the error for its first untypeable character.
pub fn paste(
    backend: PasteBackend,
    keys: PasteKeys,
    mode: PasteMode,
    target: Option<&PasteTarget>,
    text: &str,
    env: &Environment,
) -> (r: PastePlan)
    ensures
        plans_paste(r, backend, keys, mode, target_id(target), text@, *env),
{
    let resolved = resolve(backend, env);
    let mut steps: Vec<PasteStep> = Vec::new();
    if resolved == PasteBackend::Xdotool {
        match target {
            Some(t) => {
                let args = vec![string_of("windowactivate"), string_of("--sync"), string_of(t.window_id())];
                proof {
                    assert(string_views(args@) == seq!["windowactivate"@, "--sync"@, t.id()]);
                }
                steps.push(PasteStep::Command { program: "xdotool", args });
            },
            None => {},
        }
        steps.push(PasteStep::Wait { ms: 50 });
    } else {
        steps.push(PasteStep::Wait { ms: 500 });
    }
    let delivery = match mode {
        PasteMode::Chord => match resolved {
            PasteBackend::Wtype => {
                let a = keys.wtype_args();
                let mut args: Vec<String> = Vec::new();
                let mut i: usize = 0;
                while i < a.len()
                    invariant
                        i <= a@.len(),
                        string_views(args@) == str_views(a@).take(i as int),
                    decreases a.len() - i,
                {
                    args.push(string_of(a[i]));
                    proof {
                        assert(str_views(a@).take(i + 1) == str_views(a@).take(i as int).push(a@[i as int]@));
                    }
                    i = i + 1;
                }
                proof {
                    assert(str_views(a@).take(a@.len() as int) == str_views(a@));
                }
                Ok(PasteStep::Command { program: "wtype", args })
            },
            PasteBackend::Xdotool => {
                let args = vec![string_of("key"), string_of(keys.xdotool_key())];
                proof {
                    assert(string_views(args@) == seq!["key"@, keys.xdotool_key_spec()]);
                }
                Ok(PasteStep::Command { program: "xdotool", args })
            },
            _ => Ok(PasteStep::Portal { events: chord_portal_events(keys), pause_ms: 10 }),
        },
        PasteMode::Type => match validate_typeable(text) {
            Err(e) => Err(e),
            Ok(()) => match resolved {
                PasteBackend::Wtype => {
                    let args = vec![string_of("--"), string_of(text)];
                    proof {
                        assert(string_views(args@) == seq!["--"@, text@]);
                    }
                    Ok(PasteStep::Command { program: "wtype", args })
                },
                PasteBackend::Xdotool => {
                    let args = vec![
                        string_of("type"),
                        string_of("--delay"),
                        string_of("5"),
                        string_of("--"),
                        string_of(text),
                    ];
                    proof {
                        assert(string_views(args@) == seq!["type"@, "--delay"@, "5"@, "--"@, text@]);
                    }
                    Ok(PasteStep::Command { program: "xdotool", args })
                },
                _ => Ok(PasteStep::Portal { events: typed_portal_events(text), pause_ms: 3 }),
            },
        },
    };
    let outcome = match delivery {
        Ok(d) => {
            steps.push(d);
            Ok(())
        },
        Err(e) => Err(e),
    };
    PastePlan { steps, outcome }
}

/// What a paste does next, once the first `done` steps of `plan` ran and
/// the last of them (if any) succeeded (`last_ok`) or failed: a failure
/// stops the paste; otherwise the next step runs, and after the last one
/// the paste ends with the plan's outcome.
pub fn next_step(plan: &PastePlan, done: usize, last_ok: bool) -> (r: PasteProgress)
    requires
        done <= plan.steps@.len(),
    ensures
        done > 0 && !last_ok ==> r == PasteProgress::StepFailed,
        (done == 0 || last_ok) && done < plan.steps@.len() ==> r == PasteProgress::Perform(done),
        (done == 0 || last_ok) && done == plan.steps@.len() ==> r == PasteProgress::Finished(
            plan.outcome,
        ),
{
    if done > 0 && !last_ok {
        PasteProgress::StepFailed
    } else if done < plan.steps.len() {
        PasteProgress::Perform(done)
    } else {
        PasteProgress::Finished(plan.outcome)
    }
}

// ---------------------------------------------------------------------------
// The X11 window and the portal token
// ---------------------------------------------------------------------------

/// The window id in the output of `xdotool getactivewindow`: the decoded
/// output without surrounding whitespace, `None` when nothing is left.
pub open spec fn window_id_of(stdout: Seq<u8>) -> Option<Seq<char>> {
    let t = trim(utf8_lossy(stdout));
    if t.len() == 0 {
        None
    } else {
        Some(t)
    }
}

/// The window id printed by `xdotool getactivewindow`.
pub fn parse_xdotool_window_id(stdout: &[u8]) -> (r: Option<String>)
    ensures
        match r {
            Some(s) => window_id_of(stdout@) == Some(s@),
            None => window_id_of(stdout@) is None,
        },
{
    let raw = decode_lossy(stdout);
    let trimmed = trim_str(raw.as_str());
    if trimmed.as_str().is_empty() {
        None
    } else {
        Some(trimmed)
    }
}

impl PasteTarget {
    /// The target named by the output of `xdotool getactivewindow`, if it
    /// names one.
    pub fn from_xdotool_output(stdout: &[u8]) -> (r: Option<PasteTarget>)
        ensures
            match r {
                Some(t) => window_id_of(stdout@) == Some(t.id()),
                None => window_id_of(stdout@) is None,
            },
    {
        match parse_xdotool_window_id(stdout) {
            Some(id) => Some(PasteTarget { x11_window_id: id }),
            None => None,
        }
    }
}

/// Why the focused X11 window could not be recorded.
#[derive(Debug)]
pub enum CaptureError {
    /// `xdotool getactivewindow` failed with this exit status.
    Failed { status: String },
    /// `xdotool getactivewindow` printed no window id.
    NoWindowId,
}

impl CaptureError {
    /// The text shown to the user for this error.
    pub open spec fn text(&self) -> Seq<char> {
        match self {
            CaptureError::Failed { status } => "xdotool getactivewindow exited with status "@
                + status@,
            CaptureError::NoWindowId => "xdotool getactivewindow returned no window id"@,
        }
    }

    /// The text shown to the user for this error.
    pub fn message(&self) -> (r: String)
        ensures
            r@ == self.text(),
    {
        match self {
            CaptureError::Failed { status } => concat(
                "xdotool getactivewindow exited with status ",
                status.as_str(),
            ),
            CaptureError::NoWindowId => String::from_str("xdotool getactivewindow returned no window id"),
        }
    }
}

impl PasteTarget {
    /// The window recorded by a run of `xdotool getactivewindow` that
    /// exited successfully (`success`) or with `status`, printing `stdout`:
    /// a failed run is an error with its status; a successful one names the
    /// window its output gives, or is an error when it gives none.
    pub fn from_capture(success: bool, status: &str, stdout: &[u8]) -> (r: Result<PasteTarget, CaptureError>)
        ensures
            !success ==> (r matches Err(CaptureError::Failed { status: s }) && s@ == status@),
            success && window_id_of(stdout@) is None ==> (r matches Err(CaptureError::NoWindowId)),
            success && window_id_of(stdout@) is Some ==> (r matches Ok(t) && window_id_of(stdout@)
                == Some(t.id())),
    {
        if !success {
            return Err(CaptureError::Failed { status: String::from_str(status) });
        }
        match PasteTarget::from_xdotool_output(stdout) {
            Some(t) => Ok(t),
            None => Err(CaptureError::NoWindowId),
        }
    }
}

/// Where the portal's restore token is kept: `<dir>/plippet/portal_token`
/// under the user configuration directory.
pub fn token_path(config_dir: Option<&str>) -> (r: Result<String, ConfigError>)
    ensures
        config_dir is None ==> r == Err::<String, ConfigError>(ConfigError::NoConfigDir),
        config_dir matches Some(d) ==> (r matches Ok(p) && p@ == join_path(
            join_path(d@, "plippet"@),
            "portal_token"@,
        )),
{
    match config_dir {
        None => Err(ConfigError::NoConfigDir),
        Some(d) => {
            let p = join_path_str(d, "plippet");
            Ok(join_path_str(p.as_str(), "portal_token"))
        },
    }
}

/// The restore token stored in the token file's contents: the contents
/// without surrounding whitespace.
pub fn token_from_file(contents: &str) -> (r: String)
    ensures
        r@ == trim(contents@),
{
    trim_str(contents)
}

// ---------------------------------------------------------------------------
// Laws of backend choice and key events
// ---------------------------------------------------------------------------

/// In an X11 session `auto` is xdotool, whatever the desktop.
pub proof fn lemma_x11_session_uses_xdotool(
    desktop: Option<Seq<char>>,
    session_type: Option<Seq<char>>,
    wayland_display: Option<Seq<char>>,
)
    requires
        session_kind_spec(session_type, wayland_display) == SessionKind::X11,
    ensures
        auto_backend(desktop, session_type, wayland_display) == PasteBackend::Xdotool,
{
}

/// The choice of `auto` ignores the ASCII case of `XDG_CURRENT_DESKTOP`:
/// two values that agree after lower-casing pick the same backend.
pub proof fn lemma_auto_ignores_desktop_case(
    d1: Seq<char>,
    d2: Seq<char>,
    session_type: Option<Seq<char>>,
    wayland_display: Option<Seq<char>>,
)
    requires
        crate::text::lower_seq(d1) == crate::text::lower_seq(d2),
    ensures
        auto_backend(Some(d1), session_type, wayland_display) == auto_backend(
            Some(d2),
            session_type,
            wayland_display,
        ),
{
    crate::text::lemma_lower_len(d1);
    crate::text::lemma_lower_len(d2);
}

/// A chord's portal events are balanced: event `i` presses the key that
/// event `len - 1 - i` releases, so every key pressed is released, in
/// reverse order, and nothing stays held.
pub proof fn lemma_chord_events_balanced(modifiers: Seq<i32>, key: i32)
    ensures
        ({
            let e = chord_events(modifiers, key);
            &&& e.len() == 2 * modifiers.len() + 2
            &&& forall|i: int| 0 <= i < modifiers.len() + 1 ==> {
                &&& (#[trigger] e[i]).pressed
                &&& !e[e.len() - 1 - i].pressed
                &&& e[i].keysym == e[e.len() - 1 - i].keysym
            }
        }),
{
    let n = modifiers.len();
    let e = chord_events(modifiers, key);
    let a = modifiers.map_values(|m: i32| KeyEvent { keysym: m, pressed: true });
    let b = seq![KeyEvent { keysym: key, pressed: true }, KeyEvent { keysym: key, pressed: false }];
    let c = modifiers.reverse().map_values(|m: i32| KeyEvent { keysym: m, pressed: false });
    assert(e == a + b + c);
    assert forall|i: int| 0 <= i < n + 1 implies {
        &&& (#[trigger] e[i]).pressed
        &&& !e[e.len() - 1 - i].pressed
        &&& e[i].keysym == e[e.len() - 1 - i].keysym
    } by {
        if i < n {
            assert(e[i] == a[i]);
            let j = e.len() - 1 - i;
            assert(e[j] == c[j - n - 2]);
            assert(modifiers.reverse()[j - n - 2] == modifiers[n - 1 - (j - n - 2)]);
        } else {
            assert(e[i] == b[0]);
            assert(e[e.len() - 1 - i] == b[1]);
        }
    }
}


/// A chord pasted through the portal presses exactly the modifiers that
/// were asked for: Ctrl for ctrl-v, Ctrl then Shift for ctrl-shift-v, then
/// presses and releases `v` and releases the modifiers in reverse order,
/// pausing 10 ms after each event.
pub proof fn lemma_portal_chord_presses_requested_keys(
    r: PastePlan,
    backend: PasteBackend,
    keys: PasteKeys,
    target: Option<Seq<char>>,
    text: Seq<char>,
    env: Environment,
)
    requires
        plans_paste(r, backend, keys, PasteMode::Chord, target, text, env),
        resolved_backend(backend, env) == PasteBackend::Portal,
    ensures
        r.steps@.len() == 2,
        r.outcome is Ok,
        r.steps@[1] matches PasteStep::Portal { events, pause_ms } && pause_ms == 10 && events@ == (
        if keys == PasteKeys::CtrlV {
            seq![
                KeyEvent { keysym: 0xffe3, pressed: true },
                KeyEvent { keysym: 0x76, pressed: true },
                KeyEvent { keysym: 0x76, pressed: false },
                KeyEvent { keysym: 0xffe3, pressed: false },
            ]
        } else {
            seq![
                KeyEvent { keysym: 0xffe3, pressed: true },
                KeyEvent { keysym: 0xffe1, pressed: true },
                KeyEvent { keysym: 0x76, pressed: true },
                KeyEvent { keysym: 0x76, pressed: false },
                KeyEvent { keysym: 0xffe1, pressed: false },
                KeyEvent { keysym: 0xffe3, pressed: false },
            ]
        }),
{
    let m = keys.modifiers();
    let e = chord_events(m, KEYSYM_V);
    if keys == PasteKeys::CtrlV {
        assert(m.reverse() =~= m);
        assert(e =~= seq![
            KeyEvent { keysym: 0xffe3, pressed: true },
            KeyEvent { keysym: 0x76, pressed: true },
            KeyEvent { keysym: 0x76, pressed: false },
            KeyEvent { keysym: 0xffe3, pressed: false },
        ]);
    } else {
        assert(m.reverse() =~= seq![KEYSYM_SHIFT_L, KEYSYM_CONTROL_L]);
        assert(e =~= seq![
            KeyEvent { keysym: 0xffe3, pressed: true },
            KeyEvent { keysym: 0xffe1, pressed: true },
            KeyEvent { keysym: 0x76, pressed: true },
            KeyEvent { keysym: 0x76, pressed: false },
            KeyEvent { keysym: 0xffe1, pressed: false },
            KeyEvent { keysym: 0xffe3, pressed: false },
        ]);
    }
}

/// A chord pasted with wtype or xdotool runs the tool with exactly the
/// requested keys: `wtype -M ctrl [-M shift] -k v [-m shift] -m ctrl`, or
/// `xdotool key ctrl+v` / `xdotool key ctrl+shift+v`.
pub proof fn lemma_command_chord_uses_requested_keys(
    r: PastePlan,
    backend: PasteBackend,
    keys: PasteKeys,
    target: Option<Seq<char>>,
    text: Seq<char>,
    env: Environment,
)
    requires
        plans_paste(r, backend, keys, PasteMode::Chord, target, text, env),
    ensures
        ({
            let b = resolved_backend(backend, env);
            let d = r.steps@.last();
            &&& r.outcome is Ok
            &&& b == PasteBackend::Wtype ==> runs(
                d,
                "wtype"@,
                if keys == PasteKeys::CtrlV {
                    seq!["-M"@, "ctrl"@, "-k"@, "v"@, "-m"@, "ctrl"@]
                } else {
                    seq!["-M"@, "ctrl"@, "-M"@, "shift"@, "-k"@, "v"@, "-m"@, "shift"@, "-m"@, "ctrl"@]
                },
            )
            &&& b == PasteBackend::Xdotool ==> runs(
                d,
                "xdotool"@,
                seq![
                    "key"@,
                    if keys == PasteKeys::CtrlV {
                        "ctrl+v"@
                    } else {
                        "ctrl+shift+v"@
                    },
                ],
            )
        }),
{
}

/// Type mode through the portal presses and releases one key per
/// character, in order: Return for a line break, Tab for a tab, and the
/// character's own code for printable ASCII, pausing 3 ms after each event.
pub proof fn lemma_portal_types_each_character(
    r: PastePlan,
    backend: PasteBackend,
    keys: PasteKeys,
    target: Option<Seq<char>>,
    text: Seq<char>,
    env: Environment,
)
    requires
        plans_paste(r, backend, keys, PasteMode::Type, target, text, env),
        resolved_backend(backend, env) == PasteBackend::Portal,
        forall|i: int|
            0 <= i < text.len() ==> (#[trigger] text[i] == '\n' || text[i] == '\t' || (' ' <= text[i]
                && text[i] <= '~')),
    ensures
        r.outcome is Ok,
        r.steps@[1] matches PasteStep::Portal { events, pause_ms } && pause_ms == 3 && events@.len()
            == 2 * text.len() && forall|i: int|
            0 <= i < text.len() ==> {
                let k: i32 = if text[i] == '\n' {
                    0xff0d
                } else if text[i] == '\t' {
                    0xff09
                } else {
                    text[i] as i32
                };
                &&& #[trigger] events@[2 * i] == KeyEvent { keysym: k, pressed: true }
                &&& events@[2 * i + 1] == KeyEvent { keysym: k, pressed: false }
            },
{
    assert forall|i: int| 0 <= i < text.len() implies (#[trigger] keysym_of(text[i])) is Some by {
        assert(text[i] == '\n' || text[i] == '\t' || (' ' <= text[i] && text[i] <= '~'));
    }
    let e = typed_events(text);
    assert forall|i: int| 0 <= i < text.len() implies {
        let k: i32 = if text[i] == '\n' {
            0xff0d
        } else if text[i] == '\t' {
            0xff09
        } else {
            text[i] as i32
        };
        &&& #[trigger] e[2 * i] == KeyEvent { keysym: k, pressed: true }
        &&& e[2 * i + 1] == KeyEvent { keysym: k, pressed: false }
    } by {
        assert((2 * i) / 2 == i);
        assert((2 * i + 1) / 2 == i);
        assert((2 * i) % 2 == 0);
        assert((2 * i + 1) % 2 == 1);
        assert(text[i] == '\n' || text[i] == '\t' || (' ' <= text[i] && text[i] <= '~'));
    }
}

/// An explicit backend is used as given, whatever the session: only
/// `auto` looks at the environment, and it never stays `auto`.
pub proof fn lemma_explicit_backend_kept(backend: PasteBackend, env: Environment)
    ensures
        backend != PasteBackend::Auto ==> resolved_backend(backend, env) == backend,
        resolved_backend(backend, env) != PasteBackend::Auto,
{
}

} // verus!
