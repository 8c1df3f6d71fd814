//! The snippet manager's editing state: drafts of snippets, fresh unique
//! keys, and what each editing action does to the list, the selection,
//! the unsaved-changes flag and the status line. Drawing the window and
//! touching the disk are left to the caller.

use vstd::prelude::*;

use crate::config::{
    key_used_before, snippet_ok, snippets_valid, Config, ConfigError, SnippetConfig,
};
use crate::text::{
    concat, decimal, decimal_string, is_blank, is_space, lemma_decimal_injective,
    lemma_decimal_nonempty,
};

verus! {

// ---------------------------------------------------------------------------
// Fresh keys
// ---------------------------------------------------------------------------

/// The `n`-th placeholder key: `new` for the first, then `new-2`,
/// `new-3`, …
pub open spec fn new_key(n: nat) -> Seq<char> {
    if n <= 1 {
        "new"@
    } else {
        "new-"@ + decimal(n)
    }
}

/// The views of a sequence of strings.
pub open spec fn key_views(keys: Seq<String>) -> Seq<Seq<char>> {
    keys.map_values(|k: String| k@)
}

/// `k` is one of `keys`.
pub open spec fn key_taken(keys: Seq<String>, k: Seq<char>) -> bool {
    exists|i: int| 0 <= i < keys.len() && (#[trigger] keys[i])@ == k
}

/// `n` is the first placeholder number whose key is free.
pub open spec fn first_free(keys: Seq<String>, n: nat) -> bool {
    &&& n >= 1
    &&& !key_taken(keys, new_key(n))
    &&& forall|m: nat| 1 <= m < n ==> key_taken(keys, #[trigger] new_key(m))
}

/// Placeholder keys are distinct.
pub proof fn lemma_new_key_injective(a: nat, b: nat)
    requires
        a >= 1,
        b >= 1,
        new_key(a) == new_key(b),
    ensures
        a == b,
{
    reveal_strlit("new");
    reveal_strlit("new-");
    let p = "new-"@;
    if a >= 2 && b >= 2 {
        assert((p + decimal(a)).skip(4) == decimal(a));
        assert((p + decimal(b)).skip(4) == decimal(b));
        lemma_decimal_injective(a, b);
    } else if a >= 2 {
        assert(new_key(a).len() >= 4 + 1) by {
            lemma_decimal_nonempty(a);
        }
    } else if b >= 2 {
        assert(new_key(b).len() >= 4 + 1) by {
            lemma_decimal_nonempty(b);
        }
    }
}

/// Whether `k` is one of `keys`.
fn is_taken(keys: &[String], k: &String) -> (r: bool)
    ensures
        r == key_taken(keys@, k@),
{
    let mut i: usize = 0;
    while i < keys.len()
        invariant
            i <= keys@.len(),
            forall|j: int| 0 <= j < i ==> (#[trigger] keys@[j])@ != k@,
        decreases keys.len() - i,
    {
        if keys[i] == *k {
            return true;
        }
        i = i + 1;
    }
    false
}

/// Some placeholder key within the `u32` counter's range is free: one of
/// `new`, `new-2`, …, `new-4294967295`.
pub open spec fn has_free_key(keys: Seq<String>) -> bool {
    exists|m: nat| 1 <= m <= u32::MAX && !key_taken(keys, #[trigger] new_key(m))
}

/// The first `k` placeholder keys.
pub open spec fn placeholder_set(k: nat) -> Set<Seq<char>>
    decreases k,
{
    if k == 0 {
        Set::empty()
    } else {
        placeholder_set((k - 1) as nat).insert(new_key(k))
    }
}

/// The first `k` placeholder keys are `k` distinct keys.
proof fn lemma_placeholder_set(k: nat)
    ensures
        placeholder_set(k).finite(),
        placeholder_set(k).len() == k,
        forall|s: Seq<char>|
            #[trigger] placeholder_set(k).contains(s) <==> exists|m: nat| 1 <= m <= k && s == new_key(m),
    decreases k,
{
    if k > 0 {
        let k1 = (k - 1) as nat;
        lemma_placeholder_set(k1);
        if placeholder_set(k1).contains(new_key(k)) {
            let m = choose|m: nat| 1 <= m <= k1 && new_key(k) == new_key(m);
            lemma_new_key_injective(m, k);
        }
        assert forall|s: Seq<char>| #[trigger] placeholder_set(k).contains(s) <==> exists|m: nat|
            1 <= m <= k && s == new_key(m) by {
            if s == new_key(k) {
            } else if placeholder_set(k).contains(s) {
                assert(placeholder_set(k1).contains(s));
            } else {
                if exists|m: nat| 1 <= m <= k && s == new_key(m) {
                    let m = choose|m: nat| 1 <= m <= k && s == new_key(m);
                    assert(m <= k1);
                    assert(placeholder_set(k1).contains(s));
                }
            }
        }
    }
}

/// A list of fewer than `u32::MAX` keys leaves a placeholder key free:
/// there are more placeholder keys than keys.
pub proof fn lemma_short_list_has_free_key(keys: Seq<String>)
    requires
        keys.len() < u32::MAX,
    ensures
        has_free_key(keys),
{
    if !has_free_key(keys) {
        let k: nat = u32::MAX as nat;
        lemma_placeholder_set(k);
        let ks = key_views(keys).to_set();
        vstd::seq_lib::seq_to_set_is_finite(key_views(keys));
        key_views(keys).lemma_cardinality_of_set();
        assert forall|s: Seq<char>| placeholder_set(k).contains(s) implies ks.contains(s) by {
            let m = choose|m: nat| 1 <= m <= k && s == new_key(m);
            assert(key_taken(keys, new_key(m)));
            let i = choose|i: int| 0 <= i < keys.len() && (#[trigger] keys[i])@ == new_key(m);
            assert(key_views(keys)[i] == s);
        }
        vstd::set_lib::lemma_len_subset(placeholder_set(k), ks);
    }
}

/// The first placeholder key not among `existing`: `new`, else `new-2`,
/// `new-3`, … (holes are filled first).
pub fn next_new_key(existing: &[String]) -> (r: String)
    requires
        has_free_key(existing@),
    ensures
        !key_taken(existing@, r@),
        exists|n: nat| first_free(existing@, n) && r@ == new_key(n),
{
    proof {
        reveal_strlit("new");
    }
    let first = String::from_str("new");
    if !is_taken(existing, &first) {
        proof {
            assert(first_free(existing@, 1));
        }
        return first;
    }
    let mut n: u32 = 2;
    loop
        invariant
            2 <= n <= u32::MAX,
            has_free_key(existing@),
            forall|m: nat| 1 <= m < n ==> key_taken(existing@, #[trigger] new_key(m)),
        decreases u32::MAX - n,
    {
        let digits = decimal_string(n as u64);
        let candidate = concat("new-", digits.as_str());
        proof {
            assert(candidate@ == new_key(n as nat));
        }
        if !is_taken(existing, &candidate) {
            proof {
                assert(first_free(existing@, n as nat));
            }
            return candidate;
        }
        proof {
            let m = choose|m: nat| 1 <= m <= u32::MAX && !key_taken(existing@, #[trigger] new_key(m));
            if m <= n {
                if m < n {
                    assert(key_taken(existing@, new_key(m)));
                }
            }
            assert(n + 1 <= u32::MAX);
        }
        n = n + 1;
    }
}

// ---------------------------------------------------------------------------
// Drafts
// ---------------------------------------------------------------------------

/// Which text a draft delivers.
#[derive(Debug, Clone, Copy, PartialEq, Eq, Structural)]
pub enum DraftKind {
    Body,
    Command,
}

/// A snippet being edited. Both text buffers are kept, so switching the
/// kind back and forth loses nothing; only the buffer of the current kind
/// is saved.
#[derive(Debug)]
pub struct SnippetDraft {
    pub key: String,
    pub name: String,
    pub kind: DraftKind,
    pub body: String,
    pub command: String,
}

/// The view of an optional string.
pub open spec fn opt_string(o: Option<String>) -> Option<Seq<char>> {
    match o {
        Some(s) => Some(s@),
        None => None,
    }
}

impl SnippetDraft {
    /// The snippet this draft saves as: key and name as they are, and the
    /// buffer of the current kind as body or command.
    pub open spec fn saved(self) -> SnippetConfig {
        SnippetConfig {
            key: self.key,
            name: self.name,
            body: if self.kind == DraftKind::Body {
                Some(self.body)
            } else {
                None
            },
            command: if self.kind == DraftKind::Command {
                Some(self.command)
            } else {
                None
            },
        }
    }

    /// This draft is how `s` opens in the editor: a body snippet (or one
    /// with neither text) opens as a body draft, a command snippet as a
    /// command draft; the buffer of the other kind starts empty.
    pub open spec fn opens(self, s: SnippetConfig) -> bool {
        &&& self.key == s.key
        &&& self.name == s.name
        &&& match (s.body, s.command) {
            (Some(b), _) => self.kind == DraftKind::Body && self.body == b && self.command@.len()
                == 0,
            (None, Some(c)) => self.kind == DraftKind::Command && self.command == c
                && self.body@.len() == 0,
            (None, None) => self.kind == DraftKind::Body && self.body@.len() == 0
                && self.command@.len() == 0,
        }
    }

    /// A draft of `s`.
    pub fn from_config(s: &SnippetConfig) -> (d: SnippetDraft)
        ensures
            d.opens(*s),
    {
        let (kind, body, command) = match (&s.body, &s.command) {
            (Some(b), _) => (DraftKind::Body, b.clone(), String::new()),
            (_, Some(c)) => (DraftKind::Command, String::new(), c.clone()),
            _ => (DraftKind::Body, String::new(), String::new()),
        };
        SnippetDraft { key: s.key.clone(), name: s.name.clone(), kind, body, command }
    }

    /// The snippet this draft saves as.
    pub fn to_config(&self) -> (c: SnippetConfig)
        ensures
            c == self.saved(),
    {
        SnippetConfig {
            key: self.key.clone(),
            name: self.name.clone(),
            body: if self.kind == DraftKind::Body {
                Some(self.body.clone())
            } else {
                None
            },
            command: if self.kind == DraftKind::Command {
                Some(self.command.clone())
            } else {
                None
            },
        }
    }

    /// A fresh body draft whose key is the first placeholder key not among
    /// `existing_keys`, and whose name is that key.
    pub fn new_unique(existing_keys: &[String]) -> (d: SnippetDraft)
        requires
            has_free_key(existing_keys@),
        ensures
            exists|n: nat| first_free(existing_keys@, n) && d.key@ == new_key(n),
            d.name@ == d.key@,
            d.kind == DraftKind::Body,
            d.body@ == Seq::<char>::empty(),
            d.command@ == Seq::<char>::empty(),
    {
        let key = next_new_key(existing_keys);
        let name = key.clone();
        SnippetDraft { key, name, kind: DraftKind::Body, body: String::new(), command: String::new() }
    }
}

/// Opening a snippet that has exactly one of body and command in the
/// editor and saving it again gives back the same snippet.
pub proof fn lemma_draft_round_trip(s: SnippetConfig, d: SnippetDraft)
    requires
        s.body.is_some() != s.command.is_some(),
        d.opens(s),
    ensures
        d.saved() == s,
{
}

/// Switching a draft's kind never touches either buffer: saving it as a
/// body saves its body buffer, saving it as a command saves its command
/// buffer, whatever kinds it had in between.
pub proof fn lemma_kind_switch_keeps_buffers(d: SnippetDraft, kind: DraftKind)
    ensures
        ({
            let e = SnippetDraft { kind, ..d };
            &&& kind == DraftKind::Body ==> e.saved().body == Some(d.body) && e.saved().command
                is None
            &&& kind == DraftKind::Command ==> e.saved().command == Some(d.command)
                && e.saved().body is None
        }),
{
}

// ---------------------------------------------------------------------------
// The editor state
// ---------------------------------------------------------------------------

/// The status line.
#[derive(Debug)]
pub enum Status {
    Idle,
    Saved,
    Error(String),
}

/// The confirmation dialog on screen, if any.
#[derive(Debug, Clone, Copy, PartialEq, Eq, Structural)]
pub enum Modal {
    /// No dialog.
    Hidden,
    ConfirmDelete(usize),
    ConfirmRevert,
    ConfirmClose,
}

/// The snippet manager's state.
#[derive(Debug)]
pub struct SnippetApp {
    pub path: String,
    pub snippets: Vec<SnippetDraft>,
    pub selected: Option<usize>,
    pub dirty: bool,
    pub status: Status,
    pub modal: Modal,
    pub confirmed_close: bool,
}

/// The snippets a list of drafts saves as.
pub open spec fn saved_all(drafts: Seq<SnippetDraft>) -> Seq<SnippetConfig> {
    drafts.map_values(|d: SnippetDraft| d.saved())
}

/// `drafts` is how the snippets of `snips` open in the editor.
pub open spec fn opened_all(drafts: Seq<SnippetDraft>, snips: Seq<SnippetConfig>) -> bool {
    &&& drafts.len() == snips.len()
    &&& forall|i: int| 0 <= i < drafts.len() ==> (#[trigger] drafts[i]).opens(snips[i])
}

/// The keys of `drafts`.
pub open spec fn draft_keys(drafts: Seq<SnippetDraft>) -> Seq<String> {
    drafts.map_values(|d: SnippetDraft| d.key)
}

impl SnippetApp {
    /// The state after loading: `loaded` is what reading the file at
    /// `path` gave, the error's text on failure. On success every snippet
    /// opens as a draft and the first is selected; on failure the list is
    /// empty and the status shows the error.
    pub fn load(path: String, loaded: Result<Config, String>) -> (r: SnippetApp)
        ensures
            r.path == path,
            match loaded {
                Ok(cfg) => opened_all(r.snippets@, cfg.snippet@) && r.status is Idle,
                Err(m) => r.snippets@.len() == 0 && r.status == Status::Error(m),
            },
            r.selected == (if r.snippets@.len() == 0 {
                None
            } else {
                Some(0usize)
            }),
            !r.dirty,
            r.modal == Modal::Hidden,
            !r.confirmed_close,
    {
        let (snippets, status) = match loaded {
            Ok(cfg) => {
                let mut v: Vec<SnippetDraft> = Vec::new();
                let n = cfg.snippet.len();
                let mut i: usize = 0;
                while i < n
                    invariant
                        n == cfg.snippet@.len(),
                        i <= n,
                        opened_all(v@, cfg.snippet@.take(i as int)),
                    decreases n - i,
                {
                    v.push(SnippetDraft::from_config(&cfg.snippet[i]));
                    i = i + 1;
                }
                proof {
                    assert(cfg.snippet@.take(n as int) == cfg.snippet@);
                }
                (v, Status::Idle)
            },
            Err(e) => (Vec::new(), Status::Error(e)),
        };
        let selected = if snippets.len() == 0 {
            None
        } else {
            Some(0)
        };
        SnippetApp {
            path,
            snippets,
            selected,
            dirty: false,
            status,
            modal: Modal::Hidden,
            confirmed_close: false,
        }
    }

    /// The configuration the drafts save as.
    pub fn current_config(&self) -> (c: Config)
        ensures
            c.snippet@ == saved_all(self.snippets@),
    {
        let mut v: Vec<SnippetConfig> = Vec::new();
        let n = self.snippets.len();
        let mut i: usize = 0;
        while i < n
            invariant
                n == self.snippets@.len(),
                i <= n,
                v@ == saved_all(self.snippets@.take(i as int)),
            decreases n - i,
        {
            v.push(self.snippets[i].to_config());
            proof {
                assert(saved_all(self.snippets@.take(i + 1)) == saved_all(
                    self.snippets@.take(i as int),
                ).push(self.snippets@[i as int].saved()));
            }
            i = i + 1;
        }
        proof {
            assert(self.snippets@.take(n as int) == self.snippets@);
        }
        Config { snippet: v }
    }

    /// Checks the configuration the drafts save as.
    pub fn validate(&self) -> (r: Result<(), ConfigError>)
        ensures
            r is Ok <==> snippets_valid(saved_all(self.snippets@)),
            r matches Err(e) ==> exists|i: int|
                crate::config::first_fault_at(saved_all(self.snippets@), i) && e
                    == crate::config::snippet_error(saved_all(self.snippets@), i),
    {
        self.current_config().validate()
    }

    /// Whether Save (and "Save & quit") may be offered: exactly when the
    /// drafts pass validation.
    pub fn can_save(&self) -> (r: bool)
        ensures
            r == snippets_valid(saved_all(self.snippets@)),
    {
        self.validate().is_ok()
    }

    /// Marks unsaved changes; a "saved" status goes back to idle.
    pub fn mark_dirty(&mut self)
        ensures
            final(self).dirty,
            final(self).status == (match old(self).status {
                Status::Saved => Status::Idle,
                s => s,
            }),
            final(self).path == old(self).path,
            final(self).snippets == old(self).snippets,
            final(self).selected == old(self).selected,
            final(self).modal == old(self).modal,
            final(self).confirmed_close == old(self).confirmed_close,
    {
        self.dirty = true;
        if matches!(self.status, Status::Saved) {
            self.status = Status::Idle;
        }
    }
}

/// The status after `mark_dirty`.
pub open spec fn dirty_status(s: Status) -> Status {
    match s {
        Status::Saved => Status::Idle,
        other => other,
    }
}

/// The selection after deleting row `idx`: the deleted row loses the
/// selection, later rows move up by one.
pub open spec fn selection_after_delete(selected: Option<usize>, idx: usize) -> Option<usize> {
    match selected {
        Some(sel) => if sel == idx {
            None
        } else if sel > idx {
            Some((sel - 1) as usize)
        } else {
            Some(sel)
        },
        None => None,
    }
}

/// A placeholder key is never blank: it starts with `n`.
proof fn lemma_new_key_not_blank(n: nat)
    ensures
        !is_blank(new_key(n)),
{
    reveal_strlit("new");
    reveal_strlit("new-");
    assert(new_key(n)[0] == 'n');
    assert(!is_space(new_key(n)[0]));
}

impl SnippetApp {
    /// Adds a fresh body snippet with the first free placeholder key (and
    /// that key as its name), selects it and marks the state dirty. A valid
    /// list stays valid.
    pub fn add_snippet(&mut self)
        requires
            has_free_key(draft_keys(old(self).snippets@)),
        ensures
            final(self).snippets@.len() == old(self).snippets@.len() + 1,
            final(self).snippets@.drop_last() == old(self).snippets@,
            ({
                let d = final(self).snippets@.last();
                &&& exists|n: nat| first_free(draft_keys(old(self).snippets@), n) && d.key@ == new_key(n)
                &&& d.name@ == d.key@
                &&& d.kind == DraftKind::Body
                &&& d.body@.len() == 0
                &&& d.command@.len() == 0
            }),
            final(self).selected == Some(old(self).snippets@.len() as usize),
            final(self).dirty,
            final(self).status == dirty_status(old(self).status),
            final(self).path == old(self).path,
            final(self).modal == old(self).modal,
            final(self).confirmed_close == old(self).confirmed_close,
            snippets_valid(saved_all(old(self).snippets@)) ==> snippets_valid(
                saved_all(final(self).snippets@),
            ),
    {
        let ghost old_drafts = self.snippets@;
        let mut keys: Vec<String> = Vec::new();
        let n = self.snippets.len();
        let mut i: usize = 0;
        while i < n
            invariant
                n == self.snippets@.len(),
                self.snippets@ == old_drafts,
                i <= n,
                keys@ == draft_keys(old_drafts.take(i as int)),
            decreases n - i,
        {
            keys.push(self.snippets[i].key.clone());
            proof {
                assert(draft_keys(old_drafts.take(i + 1)) == draft_keys(old_drafts.take(i as int)).push(
                    old_drafts[i as int].key,
                ));
            }
            i = i + 1;
        }
        proof {
            assert(old_drafts.take(n as int) == old_drafts);
        }
        let d = SnippetDraft::new_unique(keys.as_slice());
        self.snippets.push(d);
        self.selected = Some(self.snippets.len() - 1);
        self.mark_dirty();
        proof {
            let new_drafts = self.snippets@;
            assert(new_drafts.drop_last() == old_drafts);
            let olds = saved_all(old_drafts);
            let news = saved_all(new_drafts);
            if snippets_valid(olds) {
                assert forall|k: int| 0 <= k < news.len() implies #[trigger] snippet_ok(news, k) by {
                    if k < n {
                        assert(news[k] == olds[k]);
                        assert(snippet_ok(olds, k));
                        if key_used_before(news, k) {
                            let j = choose|j: int| 0 <= j < k && (#[trigger] news[j]).key@ == news[k].key@;
                            assert(news[j] == olds[j]);
                        }
                    } else {
                        let last = new_drafts.last();
                        assert(news[k] == last.saved());
                        let m = choose|m: nat| first_free(draft_keys(old_drafts), m) && last.key@ == new_key(m);
                        lemma_new_key_not_blank(m);
                        if key_used_before(news, k) {
                            let j = choose|j: int| 0 <= j < k && (#[trigger] news[j]).key@ == news[k].key@;
                            assert(news[j] == olds[j]);
                            assert(draft_keys(old_drafts)[j] == old_drafts[j].key);
                            assert(key_taken(draft_keys(old_drafts), new_key(m)));
                        }
                    }
                }
            }
        }
    }

    /// Deletes row `idx` (nothing happens when there is no such row),
    /// adjusts the selection and marks the state dirty.
    pub fn delete_snippet(&mut self, idx: usize)
        ensures
            idx >= old(self).snippets@.len() ==> *final(self) == *old(self),
            idx < old(self).snippets@.len() ==> {
                &&& final(self).snippets@ == old(self).snippets@.remove(idx as int)
                &&& final(self).selected == selection_after_delete(old(self).selected, idx)
                &&& final(self).dirty
                &&& final(self).status == dirty_status(old(self).status)
            },
            final(self).path == old(self).path,
            final(self).modal == old(self).modal,
            final(self).confirmed_close == old(self).confirmed_close,
    {
        if idx >= self.snippets.len() {
            return;
        }
        self.snippets.remove(idx);
        match self.selected {
            Some(sel) => {
                if sel == idx {
                    self.selected = None;
                } else if sel > idx {
                    self.selected = Some(sel - 1);
                }
            },
            None => {},
        }
        self.mark_dirty();
    }

    /// Starts a save: when the drafts are valid, returns the configuration
    /// to write to `path` (then report the outcome with `finish_save`);
    /// otherwise nothing is written and the status shows why.
    pub fn save(&mut self) -> (r: Option<Config>)
        ensures
            r is Some <==> snippets_valid(saved_all(old(self).snippets@)),
            r matches Some(c) ==> c.snippet@ == saved_all(old(self).snippets@)
                && final(self).status == old(self).status,
            r is None ==> exists|i: int|
                crate::config::first_fault_at(saved_all(old(self).snippets@), i) && (final(self).status matches Status::Error(m) && m@ == "not saved: "@
                    + crate::config::snippet_error(saved_all(old(self).snippets@), i).text()),
            final(self).path == old(self).path,
            final(self).snippets == old(self).snippets,
            final(self).selected == old(self).selected,
            final(self).dirty == old(self).dirty,
            final(self).modal == old(self).modal,
            final(self).confirmed_close == old(self).confirmed_close,
    {
        let cfg = self.current_config();
        match cfg.validate() {
            Err(e) => {
                let m = e.message();
                self.status = Status::Error(concat("not saved: ", m.as_str()));
                None
            },
            Ok(()) => Some(cfg),
        }
    }

    /// Records how writing the file went: on success the changes are no
    /// longer unsaved and the status says so; on failure the status shows
    /// the error and the changes stay unsaved.
    pub fn finish_save(&mut self, result: Result<(), String>)
        ensures
            match result {
                Ok(()) => !final(self).dirty && final(self).status is Saved,
                Err(m) => final(self).dirty == old(self).dirty && (final(self).status matches Status::Error(t) && t@ == "save failed: "@ + m@),
            },
            final(self).path == old(self).path,
            final(self).snippets == old(self).snippets,
            final(self).selected == old(self).selected,
            final(self).modal == old(self).modal,
            final(self).confirmed_close == old(self).confirmed_close,
    {
        match result {
            Ok(()) => {
                self.dirty = false;
                self.status = Status::Saved;
            },
            Err(m) => {
                self.status = Status::Error(concat("save failed: ", m.as_str()));
            },
        }
    }

    /// Discards the drafts for what reading the file again gave
    /// (`reloaded`), as `load` would set them up; the changes are no longer
    /// unsaved.
    pub fn revert(&mut self, reloaded: Result<Config, String>)
        ensures
            match reloaded {
                Ok(cfg) => opened_all(final(self).snippets@, cfg.snippet@) && final(self).status is Idle,
                Err(m) => final(self).snippets@.len() == 0 && final(self).status == Status::Error(m),
            },
            final(self).selected == (if final(self).snippets@.len() == 0 {
                None
            } else {
                Some(0usize)
            }),
            !final(self).dirty,
            final(self).path == old(self).path,
            final(self).modal == old(self).modal,
            final(self).confirmed_close == old(self).confirmed_close,
    {
        let fresh = Self::load(self.path.clone(), reloaded);
        self.snippets = fresh.snippets;
        self.selected = fresh.selected;
        self.dirty = false;
        self.status = fresh.status;
    }
}

// ---------------------------------------------------------------------------
// Dialogs, closing and the status line
// ---------------------------------------------------------------------------

/// What the user did with the dialog on screen this frame.
#[derive(Debug, Clone, Copy, PartialEq, Eq, Structural)]
pub enum ModalAnswer {
    /// The main button: "Delete", "Discard & reload" or "Save & quit".
    Confirm,
    /// "Discard & quit" (only the close dialog has it).
    Discard,
    /// "Cancel".
    Cancel,
    /// No button was pressed.
    Pending,
}

/// What the caller must do after a dialog answer.
#[derive(Debug, Clone, Copy, PartialEq, Eq, Structural)]
pub enum ModalAction {
    Nothing,
    /// Read the file again and pass the outcome to `revert`.
    Reload,
    /// Run a save (`save`, write, `finish_save`), then call
    /// `after_close_save`.
    SaveThenClose,
    /// Close the window.
    Close,
}

/// How the status line looks.
#[derive(Debug, Clone, Copy, PartialEq, Eq, Structural)]
pub enum Tone {
    Good,
    Bad,
}

/// The state of everything but the list, the selection and the status:
/// what dialog-only answers leave alone.
pub open spec fn same_frame(a: SnippetApp, b: SnippetApp) -> bool {
    &&& a.path == b.path
    &&& a.snippets == b.snippets
    &&& a.selected == b.selected
    &&& a.dirty == b.dirty
    &&& a.status == b.status
}

/// The text of a key in the list (`(empty key)`) or the editor heading
/// (`(empty)`): the key itself unless it is empty.
pub fn display_key(key: &str, placeholder: &str) -> (r: String)
    ensures
        r@ == (if key@.len() == 0 {
            placeholder@
        } else {
            key@
        }),
{
    if key.is_empty() {
        String::from_str(placeholder)
    } else {
        String::from_str(key)
    }
}

impl SnippetApp {
    /// The window was asked to close. With unsaved changes (and no
    /// confirmed close yet) the close is cancelled and the close dialog
    /// opens; returns whether the close must be cancelled.
    pub fn close_requested(&mut self) -> (cancel: bool)
        ensures
            cancel == (!old(self).confirmed_close && old(self).dirty),
            final(self).modal == (if cancel {
                Modal::ConfirmClose
            } else {
                old(self).modal
            }),
            same_frame(*final(self), *old(self)),
            final(self).confirmed_close == old(self).confirmed_close,
    {
        if !self.confirmed_close && self.dirty {
            self.modal = Modal::ConfirmClose;
            true
        } else {
            false
        }
    }

    /// The revert button: with unsaved changes it asks first (returns
    /// `false`); otherwise the caller reloads at once (returns `true`).
    pub fn request_revert(&mut self) -> (reload_now: bool)
        ensures
            reload_now == !old(self).dirty,
            final(self).modal == (if reload_now {
                old(self).modal
            } else {
                Modal::ConfirmRevert
            }),
            same_frame(*final(self), *old(self)),
            final(self).confirmed_close == old(self).confirmed_close,
    {
        if self.dirty {
            self.modal = Modal::ConfirmRevert;
            false
        } else {
            true
        }
    }

    /// The delete button of row `idx`: asks for confirmation.
    pub fn request_delete(&mut self, idx: usize)
        ensures
            final(self).modal == Modal::ConfirmDelete(idx),
            same_frame(*final(self), *old(self)),
            final(self).confirmed_close == old(self).confirmed_close,
    {
        self.modal = Modal::ConfirmDelete(idx);
    }

    /// Applies the user's answer to the dialog on screen.
    ///
    /// Delete: "Delete" deletes the row and closes the dialog. Revert:
    /// "Discard & reload" closes the dialog and asks for a reload. Close:
    /// "Save & quit" asks for a save before closing, "Discard & quit"
    /// confirms the close. "Cancel" closes any dialog; no answer keeps it.
    pub fn answer_modal(&mut self, answer: ModalAnswer) -> (act: ModalAction)
        ensures
            ({
                let m = old(self).modal;
                match m {
                    Modal::Hidden => act == ModalAction::Nothing && *final(self) == *old(self),
                    Modal::ConfirmDelete(idx) => match answer {
                        ModalAnswer::Confirm => {
                            &&& act == ModalAction::Nothing
                            &&& final(self).modal == Modal::Hidden
                            &&& final(self).confirmed_close == old(self).confirmed_close
                            &&& idx < old(self).snippets@.len() ==> final(self).snippets@
                                == old(self).snippets@.remove(idx as int) && final(self).selected
                                == selection_after_delete(old(self).selected, idx) && final(
                                self).dirty && final(self).status == dirty_status(old(self).status)
                            &&& idx >= old(self).snippets@.len() ==> same_frame(
                                *final(self),
                                *old(self),
                            )
                        },
                        ModalAnswer::Cancel => act == ModalAction::Nothing && final(self).modal
                            == Modal::Hidden && same_frame(*final(self), *old(self)),
                        _ => act == ModalAction::Nothing && *final(self) == *old(self),
                    },
                    Modal::ConfirmRevert => match answer {
                        ModalAnswer::Confirm => act == ModalAction::Reload && final(self).modal
                            == Modal::Hidden && same_frame(*final(self), *old(self)),
                        ModalAnswer::Cancel => act == ModalAction::Nothing && final(self).modal
                            == Modal::Hidden && same_frame(*final(self), *old(self)),
                        _ => act == ModalAction::Nothing && *final(self) == *old(self),
                    },
                    Modal::ConfirmClose => match answer {
                        ModalAnswer::Confirm => act == ModalAction::SaveThenClose && final(
                            self).modal == Modal::Hidden && same_frame(*final(self), *old(self)),
                        ModalAnswer::Discard => act == ModalAction::Close && final(self).modal
                            == Modal::Hidden && final(self).confirmed_close && same_frame(
                            *final(self),
                            *old(self),
                        ),
                        ModalAnswer::Cancel => act == ModalAction::Nothing && final(self).modal
                            == Modal::Hidden && same_frame(*final(self), *old(self)),
                        ModalAnswer::Pending => act == ModalAction::Nothing && *final(self)
                            == *old(self),
                    },
                }
            }),
            !(old(self).modal == Modal::ConfirmClose && answer == ModalAnswer::Discard)
                ==> final(self).confirmed_close == old(self).confirmed_close,
            final(self).path == old(self).path,
    {
        match self.modal {
            Modal::Hidden => ModalAction::Nothing,
            Modal::ConfirmDelete(idx) => match answer {
                ModalAnswer::Confirm => {
                    self.delete_snippet(idx);
                    self.modal = Modal::Hidden;
                    ModalAction::Nothing
                },
                ModalAnswer::Cancel => {
                    self.modal = Modal::Hidden;
                    ModalAction::Nothing
                },
                _ => ModalAction::Nothing,
            },
            Modal::ConfirmRevert => match answer {
                ModalAnswer::Confirm => {
                    self.modal = Modal::Hidden;
                    ModalAction::Reload
                },
                ModalAnswer::Cancel => {
                    self.modal = Modal::Hidden;
                    ModalAction::Nothing
                },
                _ => ModalAction::Nothing,
            },
            Modal::ConfirmClose => match answer {
                ModalAnswer::Confirm => {
                    self.modal = Modal::Hidden;
                    ModalAction::SaveThenClose
                },
                ModalAnswer::Discard => {
                    self.modal = Modal::Hidden;
                    self.confirmed_close = true;
                    ModalAction::Close
                },
                ModalAnswer::Cancel => {
                    self.modal = Modal::Hidden;
                    ModalAction::Nothing
                },
                ModalAnswer::Pending => ModalAction::Nothing,
            },
        }
    }

    /// After "Save & quit" ran its save: if nothing is left unsaved the
    /// close is confirmed (returns `true`: close now); otherwise the save
    /// failed and the close dialog stays up.
    pub fn after_close_save(&mut self) -> (close_now: bool)
        ensures
            close_now == !old(self).dirty,
            close_now ==> final(self).confirmed_close && final(self).modal == old(self).modal,
            !close_now ==> final(self).modal == Modal::ConfirmClose && final(self).confirmed_close
                == old(self).confirmed_close,
            same_frame(*final(self), *old(self)),
    {
        if !self.dirty {
            self.confirmed_close = true;
            true
        } else {
            self.modal = Modal::ConfirmClose;
            false
        }
    }

    /// The status line: "✓ Saved", the error, or the live validation
    /// result ("✓ N snippets, valid" or the first problem).
    pub fn status_line(&self) -> (r: (Tone, String))
        ensures
            match self.status {
                Status::Saved => r.0 == Tone::Good && r.1@ == "\u{2713} Saved"@,
                Status::Error(m) => r.0 == Tone::Bad && r.1@ == "\u{2717} "@ + m@,
                Status::Idle => if snippets_valid(saved_all(self.snippets@)) {
                    r.0 == Tone::Good && r.1@ == "\u{2713} "@ + decimal(self.snippets@.len())
                        + " snippet"@ + (if self.snippets@.len() == 1 {
                        ""@
                    } else {
                        "s"@
                    }) + ", valid"@
                } else {
                    r.0 == Tone::Bad && exists|i: int|
                        crate::config::first_fault_at(saved_all(self.snippets@), i) && r.1@
                            == "\u{2717} "@ + crate::config::snippet_error(
                            saved_all(self.snippets@),
                            i,
                        ).text()
                },
            },
    {
        match &self.status {
            Status::Saved => (Tone::Good, String::from_str("\u{2713} Saved")),
            Status::Error(m) => (Tone::Bad, concat("\u{2717} ", m.as_str())),
            Status::Idle => match self.validate() {
                Ok(()) => {
                    let n = self.snippets.len();
                    let mut t = String::from_str("\u{2713} ");
                    let digits = decimal_string(n as u64);
                    t.append(digits.as_str());
                    t.append(" snippet");
                    let ghost before = t@;
                    if n != 1 {
                        t.append("s");
                    } else {
                        proof {
                            reveal_strlit("");
                            assert(before + ""@ == before);
                        }
                    }
                    t.append(", valid");
                    (Tone::Good, t)
                },
                Err(e) => {
                    let m = e.message();
                    (Tone::Bad, concat("\u{2717} ", m.as_str()))
                },
            },
        }
    }
}

impl SnippetApp {
    /// Selects row `idx` of the list.
    pub fn select(&mut self, idx: usize)
        ensures
            final(self).selected == Some(idx),
            final(self).path == old(self).path,
            final(self).snippets == old(self).snippets,
            final(self).dirty == old(self).dirty,
            final(self).status == old(self).status,
            final(self).modal == old(self).modal,
            final(self).confirmed_close == old(self).confirmed_close,
    {
        self.selected = Some(idx);
    }

    /// The row the editor pane shows: the selection, if it names a row; a
    /// selection past the end of the list is dropped.
    pub fn editing_index(&mut self) -> (r: Option<usize>)
        ensures
            match old(self).selected {
                Some(i) => if i < old(self).snippets@.len() {
                    r == Some(i) && final(self).selected == Some(i)
                } else {
                    r is None && final(self).selected is None
                },
                None => r is None && final(self).selected is None,
            },
            final(self).path == old(self).path,
            final(self).snippets == old(self).snippets,
            final(self).dirty == old(self).dirty,
            final(self).status == old(self).status,
            final(self).modal == old(self).modal,
            final(self).confirmed_close == old(self).confirmed_close,
    {
        match self.selected {
            Some(i) => {
                if i < self.snippets.len() {
                    Some(i)
                } else {
                    self.selected = None;
                    None
                }
            },
            None => None,
        }
    }
}

} // verus!
