//! Recognising the desktop session from its environment variables.

use vstd::prelude::*;

use crate::text::{
    ascii_lower, ascii_lower_char, chars_of, contains_lowered, contains_seq, lower_seq,
};

verus! {

/// The kind of graphical session plippet runs in.
#[derive(Debug, Clone, Copy, PartialEq, Eq, Structural)]
pub enum SessionKind {
    Wayland,
    X11,
}

/// The view of an optional string value.
pub open spec fn opt_view(o: Option<&str>) -> Option<Seq<char>> {
    match o {
        Some(s) => Some(s@),
        None => None,
    }
}

/// `s` equals `word` (given in lower case), ignoring ASCII case.
pub open spec fn is_word(s: Seq<char>, word: Seq<char>) -> bool {
    lower_seq(s) == word
}

/// The session kind from `XDG_SESSION_TYPE` and `WAYLAND_DISPLAY`.
///
/// An explicit `wayland` or `x11` session type (in any ASCII case) decides;
/// otherwise a non-empty `WAYLAND_DISPLAY` means Wayland, and anything else
/// is taken for X11.
pub open spec fn session_kind_spec(
    session_type: Option<Seq<char>>,
    wayland_display: Option<Seq<char>>,
) -> SessionKind {
    if session_type matches Some(t) && is_word(t, "wayland"@) {
        SessionKind::Wayland
    } else if session_type matches Some(t) && is_word(t, "x11"@) {
        SessionKind::X11
    } else if wayland_display matches Some(d) && d.len() > 0 {
        SessionKind::Wayland
    } else {
        SessionKind::X11
    }
}

/// `XDG_CURRENT_DESKTOP` names GNOME or KDE: it contains `GNOME`, `KDE`,
/// `Plasma` or `KWin`, in any ASCII case.
pub open spec fn gnome_or_kde_spec(desktop: Option<Seq<char>>) -> bool {
    match desktop {
        Some(d) => {
            ||| contains_seq(lower_seq(d), "gnome"@)
            ||| contains_seq(lower_seq(d), "kde"@)
            ||| contains_seq(lower_seq(d), "plasma"@)
            ||| contains_seq(lower_seq(d), "kwin"@)
        },
        None => false,
    }
}

/// Whether `s` equals the lower-case `word`, ignoring ASCII case.
fn equals_word(s: &str, word: &str) -> (r: bool)
    ensures
        r == is_word(s@, word@),
{
    let v = chars_of(s);
    let w = chars_of(word);
    if v.len() != w.len() {
        proof {
            assert(lower_seq(s@).len() == v@.len());
        }
        return false;
    }
    let mut i: usize = 0;
    while i < v.len()
        invariant
            v@ == s@,
            w@ == word@,
            v@.len() == w@.len(),
            i <= v@.len(),
            forall|k: int| 0 <= k < i ==> ascii_lower(#[trigger] v@[k]) == w@[k],
        decreases v.len() - i,
    {
        if ascii_lower_char(v[i]) != w[i] {
            proof {
                assert(lower_seq(s@)[i as int] != word@[i as int]);
            }
            return false;
        }
        i = i + 1;
    }
    proof {
        assert(lower_seq(s@) == word@);
    }
    true
}

/// The session kind from `XDG_SESSION_TYPE` and `WAYLAND_DISPLAY`.
pub fn session_kind_from_env(
    session_type: Option<&str>,
    wayland_display: Option<&str>,
) -> (r: SessionKind)
    ensures
        r == session_kind_spec(opt_view(session_type), opt_view(wayland_display)),
{
    proof {
        reveal_strlit("wayland");
        reveal_strlit("x11");
    }
    if let Some(t) = session_type {
        if equals_word(t, "wayland") {
            return SessionKind::Wayland;
        }
        if equals_word(t, "x11") {
            return SessionKind::X11;
        }
    }
    match wayland_display {
        Some(d) if !d.is_empty() => SessionKind::Wayland,
        _ => SessionKind::X11,
    }
}

/// Whether the desktop named by `XDG_CURRENT_DESKTOP` is GNOME or KDE.
pub fn is_gnome_or_kde_desktop(desktop: Option<&str>) -> (r: bool)
    ensures
        r == gnome_or_kde_spec(opt_view(desktop)),
{
    match desktop {
        None => false,
        Some(d) => {
            let v = chars_of(d);
            let gnome = chars_of("gnome");
            let kde = chars_of("kde");
            let plasma = chars_of("plasma");
            let kwin = chars_of("kwin");
            contains_lowered(&v, &gnome) || contains_lowered(&v, &kde) || contains_lowered(
                &v,
                &plasma,
            ) || contains_lowered(&v, &kwin)
        },
    }
}

/// Whether a file with Unix permission bits `mode` is executable: some
/// execute bit (owner, group or other) is set.
pub fn is_executable_mode(mode: u32) -> (r: bool)
    ensures
        r == (mode & 0o111u32 != 0),
{
    mode & 0o111u32 != 0
}

impl SessionKind {
    /// The name shown for this session kind.
    pub fn label(&self) -> (r: &'static str)
        ensures
            *self == SessionKind::Wayland ==> r@ == "Wayland"@,
            *self == SessionKind::X11 ==> r@ == "X11"@,
    {
        match self {
            SessionKind::Wayland => "Wayland",
            SessionKind::X11 => "X11",
        }
    }
}

} // verus!
