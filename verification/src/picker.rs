//! External dmenu-style pickers: how each is started, what it is fed, and
//! how its answer is read back into a snippet key.

use vstd::prelude::*;

use crate::tools::SessionKind;
use crate::text::{chars_of, decode_lossy, push_char, string_from_range, trim, trim_str, utf8_lossy};

verus! {

/// The external picker programs plippet can drive.
#[derive(Debug, Clone, Copy, PartialEq, Eq, Structural)]
pub enum PickerKind {
    Fuzzel,
    Wofi,
    Rofi,
    Bemenu,
}

/// One line offered in the picker: `key<TAB>name`.
#[derive(Debug)]
pub struct PickerOption {
    pub label: String,
}

/// A failure while running a picker.
#[derive(Debug)]
pub struct PickError {
    pub message: String,
}

/// Something that lets the user choose among `options`; `Ok(None)` when the
/// user cancels, else the key of the chosen option.
pub trait Picker {
    /// Shows `options` and returns the chosen key, `None` on cancel.
    fn pick(&self, options: &[PickerOption]) -> Result<Option<String>, PickError>;
}

/// A dmenu-style picker program.
#[derive(Debug)]
pub struct ExternalPicker {
    kind: PickerKind,
}

impl PickerKind {
    /// The program to start.
    pub open spec fn program_spec(self) -> Seq<char> {
        match self {
            PickerKind::Fuzzel => "fuzzel"@,
            PickerKind::Wofi => "wofi"@,
            PickerKind::Rofi => "rofi"@,
            PickerKind::Bemenu => "bemenu"@,
        }
    }

    /// The arguments that put it in dmenu mode.
    pub open spec fn args_spec(self) -> Seq<Seq<char>> {
        match self {
            PickerKind::Fuzzel => seq!["--dmenu"@],
            PickerKind::Wofi => seq!["--dmenu"@],
            PickerKind::Rofi => seq!["-dmenu"@],
            PickerKind::Bemenu => seq![],
        }
    }
}

impl ExternalPicker {
    /// The picker program this picker runs.
    pub closed spec fn kind_spec(&self) -> PickerKind {
        self.kind
    }

    /// A picker that runs the program of `kind`.
    pub fn new(kind: PickerKind) -> (r: Self)
        ensures
            r.kind_spec() == kind,
    {
        Self { kind }
    }

    /// The kind of picker program.
    pub fn kind(&self) -> (r: PickerKind)
        ensures
            r == self.kind_spec(),
    {
        self.kind
    }

    /// The program and arguments to start.
    pub fn command(&self) -> (r: (&'static str, Vec<&'static str>))
        ensures
            r.0@ == self.kind_spec().program_spec(),
            r.1@.map_values(|a: &'static str| a@) == self.kind_spec().args_spec(),
    {
        let r = match self.kind {
            PickerKind::Fuzzel => ("fuzzel", vec!["--dmenu"]),
            PickerKind::Wofi => ("wofi", vec!["--dmenu"]),
            PickerKind::Rofi => ("rofi", vec!["-dmenu"]),
            PickerKind::Bemenu => ("bemenu", Vec::new()),
        };
        proof {
            assert(r.1@.map_values(|a: &'static str| a@) == self.kind_spec().args_spec());
        }
        r
    }
}

// ---------------------------------------------------------------------------
// Feeding the picker and reading its answer
// ---------------------------------------------------------------------------

/// `lines` joined with `'\n'` between them.
pub open spec fn join_lines(lines: Seq<Seq<char>>) -> Seq<char>
    decreases lines.len(),
{
    if lines.len() == 0 {
        Seq::empty()
    } else if lines.len() == 1 {
        lines[0]
    } else {
        join_lines(lines.drop_last()) + seq!['\n'] + lines.last()
    }
}

/// The labels of `options`.
pub open spec fn labels(options: Seq<PickerOption>) -> Seq<Seq<char>> {
    options.map_values(|o: PickerOption| o.label@)
}

/// What the picker reads on its standard input: one label per line.
pub fn picker_input(options: &[PickerOption]) -> (r: String)
    ensures
        r@ == join_lines(labels(options@)),
{
    let mut r = String::new();
    let n = options.len();
    let mut i: usize = 0;
    while i < n
        invariant
            n == options@.len(),
            i <= n,
            r@ == join_lines(labels(options@).take(i as int)),
        decreases n - i,
    {
        let ghost before = labels(options@).take(i as int);
        if i > 0 {
            push_char(&mut r, '\n');
        }
        r.append(options[i].label.as_str());
        proof {
            let after = labels(options@).take(i + 1);
            assert(after.drop_last() == before);
            assert(after.last() == options@[i as int].label@);
            if i == 0 {
                assert(r@ == after[0]);
            }
        }
        i = i + 1;
    }
    proof {
        assert(labels(options@).take(n as int) == labels(options@));
    }
    r
}

/// The part of `s` before its first tab (all of `s` when it has none).
pub open spec fn before_tab(s: Seq<char>) -> Seq<char>
    decreases s.len(),
{
    if s.len() == 0 {
        s
    } else if s[0] == '\t' {
        Seq::empty()
    } else {
        seq![s[0]] + before_tab(s.drop_first())
    }
}

/// The key the picker's output selects: the trimmed output up to its
/// first tab, or `None` when the trimmed output is empty (the user
/// cancelled).
pub open spec fn selected_key(stdout: Seq<u8>) -> Option<Seq<char>> {
    let t = trim(utf8_lossy(stdout));
    if t.len() == 0 {
        None
    } else {
        Some(before_tab(t))
    }
}

/// The part before the first tab is the prefix up to position `k` when
/// `k` holds the first tab (or is the end).
proof fn lemma_before_tab_at(s: Seq<char>, k: int)
    requires
        0 <= k <= s.len(),
        forall|i: int| 0 <= i < k ==> #[trigger] s[i] != '\t',
        k == s.len() || s[k] == '\t',
    ensures
        before_tab(s) == s.take(k),
    decreases k,
{
    if k == 0 {
        if s.len() == 0 {
            assert(s.take(0) == s);
        } else {
            assert(s.take(0) == Seq::<char>::empty());
        }
    } else {
        let t = s.drop_first();
        assert forall|i: int| 0 <= i < k - 1 implies #[trigger] t[i] != '\t' by {
            assert(t[i] == s[i + 1]);
        }
        lemma_before_tab_at(t, k - 1);
        assert(seq![s[0]] + t.take(k - 1) == s.take(k));
    }
}

/// The key selected by the picker's output, or `None` when the user
/// cancelled.
pub fn parse_picker_output(stdout: &[u8]) -> (r: Option<String>)
    ensures
        match r {
            Some(k) => selected_key(stdout@) == Some(k@),
            None => selected_key(stdout@) is None,
        },
{
    let raw = decode_lossy(stdout);
    let selected = trim_str(raw.as_str());
    let v = chars_of(selected.as_str());
    if v.len() == 0 {
        return None;
    }
    let mut k: usize = 0;
    while k < v.len() && v[k] != '\t'
        invariant
            k <= v@.len(),
            forall|i: int| 0 <= i < k ==> #[trigger] v@[i] != '\t',
        decreases v.len() - k,
    {
        k = k + 1;
    }
    proof {
        lemma_before_tab_at(v@, k as int);
        assert(v@.subrange(0, k as int) == v@.take(k as int));
    }
    Some(string_from_range(&v, 0, k))
}

/// One run of a picker program: the program, its arguments, and the text
/// fed on its standard input.
#[derive(Debug)]
pub struct PickRequest {
    pub program: &'static str,
    pub args: Vec<&'static str>,
    pub input: String,
}

impl ExternalPicker {
    /// How this picker is run over `options`: its program in dmenu mode,
    /// fed one label per line.
    pub fn request(&self, options: &[PickerOption]) -> (r: PickRequest)
        ensures
            r.program@ == self.kind_spec().program_spec(),
            r.args@.map_values(|a: &'static str| a@) == self.kind_spec().args_spec(),
            r.input@ == join_lines(labels(options@)),
    {
        let (program, args) = self.command();
        PickRequest { program, args, input: picker_input(options) }
    }

    /// The outcome of a run from what the picker wrote on its standard
    /// output: `None` when the user cancelled (nothing but whitespace),
    /// else the trimmed output up to its first tab.
    pub fn answer(stdout: &[u8]) -> (r: Option<String>)
        ensures
            match r {
                Some(k) => selected_key(stdout@) == Some(k@),
                None => selected_key(stdout@) is None,
            },
    {
        parse_picker_output(stdout)
    }
}

// ---------------------------------------------------------------------------
// Choosing a picker automatically
// ---------------------------------------------------------------------------

impl PickerKind {
    /// The picker's name as `check` prints it.
    pub open spec fn name_spec(self) -> Seq<char> {
        match self {
            PickerKind::Fuzzel => "Fuzzel"@,
            PickerKind::Wofi => "Wofi"@,
            PickerKind::Rofi => "Rofi"@,
            PickerKind::Bemenu => "Bemenu"@,
        }
    }

    /// The picker's name as `check` prints it.
    pub fn name(self) -> (r: &'static str)
        ensures
            r@ == self.name_spec(),
    {
        match self {
            PickerKind::Fuzzel => "Fuzzel",
            PickerKind::Wofi => "Wofi",
            PickerKind::Rofi => "Rofi",
            PickerKind::Bemenu => "Bemenu",
        }
    }
}

/// A picker `--picker auto` can choose: the built-in one (in builds with
/// the snippet-manager window) or an external program.
#[derive(Debug, Clone, Copy, PartialEq, Eq, Structural)]
pub enum PickerChoice {
    Builtin,
    External(PickerKind),
}

impl PickerChoice {
    /// The choice's name as `check` prints it.
    pub open spec fn name_spec(self) -> Seq<char> {
        match self {
            PickerChoice::Builtin => "Builtin"@,
            PickerChoice::External(k) => k.name_spec(),
        }
    }

    /// The choice's name as `check` prints it.
    pub fn name(self) -> (r: &'static str)
        ensures
            r@ == self.name_spec(),
    {
        match self {
            PickerChoice::Builtin => "Builtin",
            PickerChoice::External(k) => k.name(),
        }
    }
}

/// The pickers `--picker auto` tries, in order. On wlroots Wayland:
/// fuzzel, wofi, bemenu, rofi, then the built-in picker; on GNOME or KDE
/// Wayland (no layer-shell): the built-in picker, then rofi; on X11: rofi,
/// then the built-in picker. The built-in picker is left out when
/// `builtin` is false (a build without the snippet-manager window).
pub open spec fn auto_order(session: SessionKind, gnome_or_kde: bool, builtin: bool) -> Seq<
    PickerChoice,
> {
    let b: Seq<PickerChoice> = if builtin {
        seq![PickerChoice::Builtin]
    } else {
        Seq::empty()
    };
    match session {
        SessionKind::Wayland => if gnome_or_kde {
            b + seq![PickerChoice::External(PickerKind::Rofi)]
        } else {
            seq![
                PickerChoice::External(PickerKind::Fuzzel),
                PickerChoice::External(PickerKind::Wofi),
                PickerChoice::External(PickerKind::Bemenu),
                PickerChoice::External(PickerKind::Rofi),
            ] + b
        },
        SessionKind::X11 => seq![PickerChoice::External(PickerKind::Rofi)] + b,
    }
}

/// The pickers `--picker auto` tries, in order; `builtin` tells whether
/// this build has the built-in picker.
pub fn auto_picker_order(session: SessionKind, gnome_or_kde: bool, builtin: bool) -> (r: Vec<
    PickerChoice,
>)
    ensures
        r@ == auto_order(session, gnome_or_kde, builtin),
{
    let mut r: Vec<PickerChoice> = Vec::new();
    match session {
        SessionKind::Wayland => if gnome_or_kde {
            if builtin {
                r.push(PickerChoice::Builtin);
            }
            r.push(PickerChoice::External(PickerKind::Rofi));
        } else {
            r.push(PickerChoice::External(PickerKind::Fuzzel));
            r.push(PickerChoice::External(PickerKind::Wofi));
            r.push(PickerChoice::External(PickerKind::Bemenu));
            r.push(PickerChoice::External(PickerKind::Rofi));
            if builtin {
                r.push(PickerChoice::Builtin);
            }
        },
        SessionKind::X11 => {
            r.push(PickerChoice::External(PickerKind::Rofi));
            if builtin {
                r.push(PickerChoice::Builtin);
            }
        },
    }
    proof {
        assert(r@ == auto_order(session, gnome_or_kde, builtin));
    }
    r
}

/// The one-line reason `check` gives for the order `--picker auto` uses.
pub open spec fn auto_picker_reason_spec(session: SessionKind, gnome_or_kde: bool) -> Seq<char> {
    match session {
        SessionKind::Wayland => if gnome_or_kde {
            "GNOME/KDE Wayland session, no layer-shell"@
        } else {
            "wlroots Wayland session"@
        },
        SessionKind::X11 => "X11 session"@,
    }
}

/// The one-line reason `check` gives for the order `--picker auto` uses.
pub fn auto_picker_reason(session: SessionKind, gnome_or_kde: bool) -> (r: &'static str)
    ensures
        r@ == auto_picker_reason_spec(session, gnome_or_kde),
{
    match session {
        SessionKind::Wayland => if gnome_or_kde {
            "GNOME/KDE Wayland session, no layer-shell"
        } else {
            "wlroots Wayland session"
        },
        SessionKind::X11 => "X11 session",
    }
}

/// The first candidate that is installed: whatever is installed first
/// wins.
pub fn first_installed(candidates: &[PickerChoice], installed: &[bool]) -> (r: Option<PickerChoice>)
    requires
        candidates@.len() == installed@.len(),
    ensures
        match r {
            Some(k) => exists|i: int|
                0 <= i < candidates@.len() && installed@[i] && candidates@[i] == k && forall|j: int|
                    0 <= j < i ==> !#[trigger] installed@[j],
            None => forall|j: int| 0 <= j < installed@.len() ==> !#[trigger] installed@[j],
        },
{
    let mut i: usize = 0;
    while i < candidates.len()
        invariant
            candidates@.len() == installed@.len(),
            i <= candidates@.len(),
            forall|j: int| 0 <= j < i ==> !#[trigger] installed@[j],
        decreases candidates.len() - i,
    {
        if installed[i] {
            return Some(candidates[i]);
        }
        i = i + 1;
    }
    None
}


/// The built-in picker only adds itself to the order: without it, `auto`
/// tries the same external pickers in the same order; with it, the
/// built-in picker comes first on GNOME/KDE Wayland and last elsewhere.
pub proof fn lemma_builtin_only_adds_itself(session: SessionKind, gnome_or_kde: bool)
    ensures
        auto_order(session, gnome_or_kde, true) == (if session == SessionKind::Wayland
            && gnome_or_kde {
            seq![PickerChoice::Builtin] + auto_order(session, gnome_or_kde, false)
        } else {
            auto_order(session, gnome_or_kde, false).push(PickerChoice::Builtin)
        }),
        forall|i: int|
            0 <= i < auto_order(session, gnome_or_kde, false).len() ==> #[trigger] auto_order(
                session,
                gnome_or_kde,
                false,
            )[i] != PickerChoice::Builtin,
{
    let o = auto_order(session, gnome_or_kde, false);
    assert(o =~= (match session {
        SessionKind::Wayland => if gnome_or_kde {
            seq![PickerChoice::External(PickerKind::Rofi)]
        } else {
            seq![
                PickerChoice::External(PickerKind::Fuzzel),
                PickerChoice::External(PickerKind::Wofi),
                PickerChoice::External(PickerKind::Bemenu),
                PickerChoice::External(PickerKind::Rofi),
            ]
        },
        SessionKind::X11 => seq![PickerChoice::External(PickerKind::Rofi)],
    }));
    assert(auto_order(session, gnome_or_kde, true) =~= (if session == SessionKind::Wayland
        && gnome_or_kde {
        seq![PickerChoice::Builtin] + o
    } else {
        o.push(PickerChoice::Builtin)
    }));
}

/// The external pickers `auto` tries: on wlroots Wayland fuzzel, wofi,
/// bemenu, then rofi; on GNOME/KDE Wayland and on X11 only rofi (which
/// works there through XWayland or natively).
pub proof fn lemma_external_picker_order(session: SessionKind, gnome_or_kde: bool)
    ensures
        auto_order(session, gnome_or_kde, false) == (if session == SessionKind::Wayland
            && !gnome_or_kde {
            seq![
                PickerChoice::External(PickerKind::Fuzzel),
                PickerChoice::External(PickerKind::Wofi),
                PickerChoice::External(PickerKind::Bemenu),
                PickerChoice::External(PickerKind::Rofi),
            ]
        } else {
            seq![PickerChoice::External(PickerKind::Rofi)]
        }),
{
    assert(auto_order(session, gnome_or_kde, false) =~= (if session == SessionKind::Wayland
        && !gnome_or_kde {
        seq![
            PickerChoice::External(PickerKind::Fuzzel),
            PickerChoice::External(PickerKind::Wofi),
            PickerChoice::External(PickerKind::Bemenu),
            PickerChoice::External(PickerKind::Rofi),
        ]
    } else {
        seq![PickerChoice::External(PickerKind::Rofi)]
    }));
}

/// Distinct pickers have distinct names, each its variant's name.
pub proof fn lemma_picker_names(a: PickerChoice, b: PickerChoice)
    ensures
        a != b ==> a.name_spec() != b.name_spec(),
        PickerChoice::Builtin.name_spec() == "Builtin"@,
        PickerChoice::External(PickerKind::Fuzzel).name_spec() == "Fuzzel"@,
        PickerChoice::External(PickerKind::Wofi).name_spec() == "Wofi"@,
        PickerChoice::External(PickerKind::Rofi).name_spec() == "Rofi"@,
        PickerChoice::External(PickerKind::Bemenu).name_spec() == "Bemenu"@,
{
    reveal_strlit("Builtin");
    reveal_strlit("Fuzzel");
    reveal_strlit("Wofi");
    reveal_strlit("Rofi");
    reveal_strlit("Bemenu");
    if a != b {
        if a.name_spec().len() == b.name_spec().len() {
            assert(a.name_spec()[0] != b.name_spec()[0]);
        }
    }
}

} // verus!
