//! What the commands compute: the picker lines, finding the chosen
//! snippet, and the tool report of `check`.

use vstd::prelude::*;
use vstd::string::StringSliceAdditionalSpecFns;

use crate::config::{key_used_before, snippet_ok, Config, SnippetConfig};
use crate::injector::PasteBackend;
use crate::picker::{before_tab, selected_key, PickerChoice, PickerOption};
use crate::text::{
    concat, decimal, decimal_string, is_blank, is_space, push_char, trim, trim_end, trim_start, utf8_lossy,
};

verus! {

/// The line shown for a snippet by `list` and offered by `pick`:
/// `key<TAB>name`.
pub open spec fn line_of(s: SnippetConfig) -> Seq<char> {
    s.key@ + seq!['\t'] + s.name@
}

/// The line for snippet `s`.
pub fn snippet_line(s: &SnippetConfig) -> (r: String)
    ensures
        r@ == line_of(*s),
{
    let mut r = String::from_str(s.key.as_str());
    push_char(&mut r, '\t');
    r.append(s.name.as_str());
    r
}

/// One line per snippet, in file order.
pub fn snippet_lines(config: &Config) -> (r: Vec<String>)
    ensures
        r@.len() == config.snippet@.len(),
        forall|i: int| 0 <= i < r@.len() ==> (#[trigger] r@[i])@ == line_of(config.snippet@[i]),
{
    let mut r: Vec<String> = Vec::new();
    let n = config.snippet.len();
    let mut i: usize = 0;
    while i < n
        invariant
            n == config.snippet@.len(),
            i <= n,
            r@.len() == i,
            forall|k: int| 0 <= k < i ==> (#[trigger] r@[k])@ == line_of(config.snippet@[k]),
        decreases n - i,
    {
        r.push(snippet_line(&config.snippet[i]));
        i = i + 1;
    }
    r
}

/// The picker options, one per snippet, labelled with its line.
pub fn picker_options(config: &Config) -> (r: Vec<PickerOption>)
    ensures
        r@.len() == config.snippet@.len(),
        forall|i: int| 0 <= i < r@.len() ==> (#[trigger] r@[i]).label@ == line_of(config.snippet@[i]),
{
    let lines = snippet_lines(config);
    let mut r: Vec<PickerOption> = Vec::new();
    let n = lines.len();
    let mut i: usize = 0;
    while i < n
        invariant
            n == lines@.len(),
            n == config.snippet@.len(),
            forall|k: int| 0 <= k < n ==> (#[trigger] lines@[k])@ == line_of(config.snippet@[k]),
            i <= n,
            r@.len() == i,
            forall|k: int| 0 <= k < i ==> (#[trigger] r@[k]).label@ == line_of(config.snippet@[k]),
        decreases n - i,
    {
        r.push(PickerOption { label: lines[i].clone() });
        i = i + 1;
    }
    r
}

// ---------------------------------------------------------------------------
// Finding a snippet by key
// ---------------------------------------------------------------------------

/// Snippet `i` is the first one whose key is `key`.
pub open spec fn first_with_key(snips: Seq<SnippetConfig>, key: Seq<char>, i: int) -> bool {
    &&& 0 <= i < snips.len()
    &&& snips[i].key@ == key
    &&& forall|j: int| 0 <= j < i ==> (#[trigger] snips[j]).key@ != key
}

/// No snippet has key `key`.
pub open spec fn no_key(snips: Seq<SnippetConfig>, key: Seq<char>) -> bool {
    forall|j: int| 0 <= j < snips.len() ==> (#[trigger] snips[j]).key@ != key
}

/// The position of the first snippet whose key is `key`.
pub fn find_snippet(config: &Config, key: &str) -> (r: Option<usize>)
    ensures
        match r {
            Some(i) => first_with_key(config.snippet@, key@, i as int),
            None => no_key(config.snippet@, key@),
        },
{
    let k = String::from_str(key);
    let n = config.snippet.len();
    let mut i: usize = 0;
    while i < n
        invariant
            n == config.snippet@.len(),
            k@ == key@,
            i <= n,
            forall|j: int| 0 <= j < i ==> (#[trigger] config.snippet@[j]).key@ != key@,
        decreases n - i,
    {
        if config.snippet[i].key == k {
            return Some(i);
        }
        i = i + 1;
    }
    None
}

/// Why a command found no snippet.
#[derive(Debug)]
pub enum LookupError {
    /// `insert` was given a key no snippet has.
    NotFound { key: String },
    /// The picker returned a key no snippet has.
    SelectedNotFound { key: String },
}

impl LookupError {
    /// The text shown to the user for this error.
    pub open spec fn text(&self) -> Seq<char> {
        match self {
            LookupError::NotFound { key } => "snippet not found: "@ + key@,
            LookupError::SelectedNotFound { key } => "selected snippet key not found: "@ + key@,
        }
    }

    /// The text shown to the user for this error.
    pub fn message(&self) -> (r: String)
        ensures
            r@ == self.text(),
    {
        match self {
            LookupError::NotFound { key } => concat("snippet not found: ", key.as_str()),
            LookupError::SelectedNotFound { key } => concat(
                "selected snippet key not found: ",
                key.as_str(),
            ),
        }
    }
}

/// The snippet `insert <key>` copies: the first with that key.
pub fn lookup_for_insert(config: &Config, key: &str) -> (r: Result<usize, LookupError>)
    ensures
        match r {
            Ok(i) => first_with_key(config.snippet@, key@, i as int),
            Err(LookupError::NotFound { key: k }) => k@ == key@ && no_key(config.snippet@, key@),
            Err(_) => false,
        },
{
    match find_snippet(config, key) {
        Some(i) => Ok(i),
        None => Err(LookupError::NotFound { key: String::from_str(key) }),
    }
}

/// The snippet chosen in the picker: the first with the selected key.
pub fn lookup_selected(config: &Config, key: &str) -> (r: Result<usize, LookupError>)
    ensures
        match r {
            Ok(i) => first_with_key(config.snippet@, key@, i as int),
            Err(LookupError::SelectedNotFound { key: k }) => k@ == key@ && no_key(
                config.snippet@,
                key@,
            ),
            Err(_) => false,
        },
{
    match find_snippet(config, key) {
        Some(i) => Ok(i),
        None => Err(LookupError::SelectedNotFound { key: String::from_str(key) }),
    }
}

/// What `pick` does with the picker's answer: a cancelled pick (`None`)
/// copies nothing (`Ok(None)`); a chosen key selects the first snippet with
/// that key, or fails when no snippet has it.
pub fn after_pick(config: &Config, chosen: Option<String>) -> (r: Result<Option<usize>, LookupError>)
    ensures
        chosen is None ==> r matches Ok(None),
        chosen matches Some(k) ==> match r {
            Ok(Some(i)) => first_with_key(config.snippet@, k@, i as int),
            Err(LookupError::SelectedNotFound { key: e }) => e@ == k@ && no_key(
                config.snippet@,
                k@,
            ),
            _ => false,
        },
{
    match chosen {
        None => Ok(None),
        Some(k) => match lookup_selected(config, k.as_str()) {
            Ok(i) => Ok(Some(i)),
            Err(e) => Err(e),
        },
    }
}

// ---------------------------------------------------------------------------
// Picking a line selects its snippet
// ---------------------------------------------------------------------------

/// A tab-free key followed by a tab reads back as the key.
proof fn lemma_before_tab_prefix(key: Seq<char>, rest: Seq<char>)
    requires
        forall|i: int| 0 <= i < key.len() ==> #[trigger] key[i] != '\t',
    ensures
        before_tab(key + seq!['\t'] + rest) == key,
    decreases key.len(),
{
    let s = key + seq!['\t'] + rest;
    if key.len() == 0 {
        assert(s[0] == '\t');
    } else {
        let k2 = key.drop_first();
        assert forall|i: int| 0 <= i < k2.len() implies #[trigger] k2[i] != '\t' by {
            assert(k2[i] == key[i + 1]);
        }
        lemma_before_tab_prefix(k2, rest);
        assert(s.drop_first() == k2 + seq!['\t'] + rest);
        assert(seq![key[0]] + k2 == key);
    }
}

/// Trimming the start keeps a sequence that starts with a non-space.
proof fn lemma_trim_start_keeps(s: Seq<char>)
    requires
        s.len() > 0,
        !is_space(s[0]),
    ensures
        trim_start(s) == s,
{
}

/// Trimming the end keeps every character up to a non-space one.
proof fn lemma_trim_end_keeps(s: Seq<char>, q: int)
    requires
        0 <= q < s.len(),
        !is_space(s[q]),
    ensures
        q < trim_end(s).len() <= s.len(),
        trim_end(s) == s.take(trim_end(s).len() as int),
    decreases s.len(),
{
    if s.len() > 0 && is_space(s.last()) {
        let t = s.drop_last();
        lemma_trim_end_keeps(t, q);
        assert(t.take(trim_end(t).len() as int) == s.take(trim_end(t).len() as int));
    } else {
        assert(s.take(s.len() as int) == s);
    }
}

/// A non-blank sequence has a non-space character.
proof fn lemma_not_blank_witness(s: Seq<char>) -> (q: int)
    requires
        !is_blank(s),
    ensures
        0 <= q < s.len(),
        !is_space(s[q]),
{
    choose|q: int| 0 <= q < s.len() && !is_space(s[q])
}

/// Choosing a snippet's line in the picker selects that snippet: in a
/// valid configuration, the key read back from snippet `i`'s line (the
/// trimmed line up to its first tab) finds snippet `i`. It holds for keys
/// without a tab that do not start with whitespace.
pub proof fn lemma_picked_line_finds_its_snippet(config: Config, i: int)
    requires
        config.valid(),
        0 <= i < config.snippet@.len(),
        forall|c: int| 0 <= c < config.snippet@[i].key@.len() ==> #[trigger] config.snippet@[i].key@[c]
            != '\t',
        config.snippet@[i].key@.len() > 0,
        !is_space(config.snippet@[i].key@[0]),
    ensures
        first_with_key(config.snippet@, before_tab(trim(line_of(config.snippet@[i]))), i),
{
    let snips = config.snippet@;
    let s = snips[i];
    assert(snippet_ok(snips, i));
    let key = s.key@;
    let name = s.name@;
    let line = line_of(s);
    assert(key.len() > 0);
    assert(line[0] == key[0]);
    lemma_trim_start_keeps(line);
    let q = lemma_not_blank_witness(name);
    assert(line[key.len() + 1 + q] == name[q]);
    lemma_trim_end_keeps(line, key.len() + 1 + q);
    let t = trim(line);
    let rest = t.subrange(key.len() + 1int, t.len() as int);
    assert forall|c: int| 0 <= c < t.len() implies #[trigger] t[c] == (key + seq!['\t'] + rest)[c] by {
        if c < key.len() {
            assert(t[c] == line[c]);
        } else if c == key.len() {
            assert(t[c] == line[c]);
        }
    }
    assert(t == key + seq!['\t'] + rest);
    lemma_before_tab_prefix(key, rest);
    assert forall|j: int| 0 <= j < i implies (#[trigger] snips[j]).key@ != key by {
        if snips[j].key@ == key {
            assert(key_used_before(snips, i));
        }
    }
}

// ---------------------------------------------------------------------------
// The `check` report
// ---------------------------------------------------------------------------

impl PasteBackend {
    /// The backend's name as `check` prints it.
    pub open spec fn name_spec(self) -> Seq<char> {
        match self {
            PasteBackend::Auto => "Auto"@,
            PasteBackend::Wtype => "Wtype"@,
            PasteBackend::Portal => "Portal"@,
            PasteBackend::Xdotool => "Xdotool"@,
        }
    }

    /// The backend's name as `check` prints it.
    pub fn name(self) -> (r: &'static str)
        ensures
            r@ == self.name_spec(),
    {
        match self {
            PasteBackend::Auto => "Auto",
            PasteBackend::Wtype => "Wtype",
            PasteBackend::Portal => "Portal",
            PasteBackend::Xdotool => "Xdotool",
        }
    }
}

/// The `config ok` line of `check`.
pub fn config_summary(count: usize, path: &str) -> (r: String)
    ensures
        r@ == "config ok: "@ + decimal(count as nat) + " snippets ("@ + path@ + ")"@,
{
    let mut r = String::from_str("config ok: ");
    let d = decimal_string(count as u64);
    r.append(d.as_str());
    r.append(" snippets (");
    r.append(path);
    r.append(")");
    r
}

/// The `paste backend` line of `check`.
pub fn backend_summary(backend: PasteBackend, reason: &str) -> (r: String)
    ensures
        r@ == "paste backend (auto resolves to): "@ + backend.name_spec() + "  ["@ + reason@ + "]"@,
{
    let mut r = String::from_str("paste backend (auto resolves to): ");
    r.append(backend.name());
    r.append("  [");
    r.append(reason);
    r.append("]");
    r
}

/// The label `check` prints for the picker `--picker auto` resolves to.
pub open spec fn picker_label(choice: Option<PickerChoice>) -> Seq<char> {
    match choice {
        Some(c) => c.name_spec(),
        None => "<none installed>"@,
    }
}

/// The `picker` line of `check`.
pub fn picker_summary(choice: Option<PickerChoice>, reason: &str) -> (r: String)
    ensures
        r@ == "picker (auto resolves to): "@ + picker_label(choice) + "  ["@ + reason@ + "]"@,
{
    let mut r = String::from_str("picker (auto resolves to): ");
    match choice {
        Some(c) => r.append(c.name()),
        None => r.append("<none installed>"),
    }
    r.append("  [");
    r.append(reason);
    r.append("]");
    r
}

/// The width the tool names are padded to: the longest name, counted in
/// bytes (as `str::len` counts them).
pub open spec fn name_width(names: Seq<&'static str>) -> nat
    decreases names.len(),
{
    if names.len() == 0 {
        0
    } else {
        let w = name_width(names.drop_last());
        let l = (names.last().spec_bytes().len() as usize) as nat;
        if l > w {
            l
        } else {
            w
        }
    }
}

/// `name` padded with spaces up to `width` characters.
pub open spec fn padded(name: Seq<char>, width: nat) -> Seq<char> {
    if name.len() < width {
        name + Seq::new((width - name.len()) as nat, |i: int| ' ')
    } else {
        name
    }
}

/// The report line of one tool.
pub open spec fn tool_line(name: Seq<char>, width: nat, present: bool) -> Seq<char> {
    "  "@ + padded(name, width) + (if present {
        "  ok"@
    } else {
        "  missing"@
    })
}

/// The lines and missing tools of one section of the tool report.
pub struct ToolReport {
    pub lines: Vec<String>,
    pub missing: Vec<String>,
}

/// The names of `names` whose tool is absent, in order.
pub open spec fn missing_names(names: Seq<&'static str>, present: Seq<bool>) -> Seq<Seq<char>>
    decreases names.len(),
{
    if names.len() == 0 {
        Seq::empty()
    } else {
        let rest = missing_names(names.drop_last(), present);
        if present[names.len() - 1] {
            rest
        } else {
            rest.push(names.last()@)
        }
    }
}

/// One section of the tool report: the `header:` line, then a line per
/// tool with its name padded to the longest name and `ok` or `missing`;
/// also the names of the missing tools.
pub fn tool_report(header: &str, names: &[&'static str], present: &[bool]) -> (r: ToolReport)
    requires
        names@.len() == present@.len(),
    ensures
        r.lines@.len() == names@.len() + 1,
        r.lines@[0]@ == header@ + ":"@,
        forall|i: int| 0 <= i < names@.len() ==> (#[trigger] r.lines@[i + 1])@ == tool_line(
            names@[i]@,
            name_width(names@),
            present@[i],
        ),
        r.missing@.map_values(|m: String| m@) == missing_names(names@, present@),
{
    let n = names.len();
    let mut width: usize = 0;
    let mut i: usize = 0;
    while i < n
        invariant
            n == names@.len(),
            i <= n,
            width == name_width(names@.take(i as int)),
        decreases n - i,
    {
        let l = names[i].len();
        proof {
            assert(names@.take(i + 1).drop_last() == names@.take(i as int));
            assert(names@.take(i + 1).last() == names@[i as int]);
        }
        if l > width {
            width = l;
        }
        i = i + 1;
    }
    proof {
        assert(names@.take(n as int) == names@);
    }
    let mut lines: Vec<String> = Vec::new();
    lines.push(concat(header, ":"));
    let mut missing: Vec<String> = Vec::new();
    let mut j: usize = 0;
    while j < n
        invariant
            n == names@.len(),
            n == present@.len(),
            j <= n,
            width == name_width(names@),
            lines@.len() == j + 1,
            lines@[0]@ == header@ + ":"@,
            forall|k: int| 0 <= k < j ==> (#[trigger] lines@[k + 1])@ == tool_line(
                names@[k]@,
                width as nat,
                present@[k],
            ),
            missing@.map_values(|m: String| m@) == missing_names(names@.take(j as int), present@),
        decreases n - j,
    {
        let name = names[j];
        let mut line = String::from_str("  ");
        line.append(name);
        let cl = name.unicode_len();
        let mut p: usize = cl;
        let ghost base = line@;
        while p < width
            invariant
                cl == name@.len(),
                cl <= p,
                p <= width || p == cl,
                line@ == base + Seq::new((p - cl) as nat, |x: int| ' '),
            decreases width - p,
        {
            push_char(&mut line, ' ');
            p = p + 1;
            assert(line@ == base + Seq::new((p - cl) as nat, |x: int| ' '));
        }
        proof {
            if cl >= width {
                assert(line@ == base);
            }
            assert(base == "  "@ + name@);
        }
        if present[j] {
            line.append("  ok");
        } else {
            line.append("  missing");
            missing.push(String::from_str(name));
        }
        proof {
            assert(line@ == tool_line(name@, width as nat, present@[j as int]));
            assert(names@.take(j + 1).drop_last() == names@.take(j as int));
            assert(names@.take(j + 1).last() == name);
        }
        lines.push(line);
        j = j + 1;
    }
    proof {
        assert(names@.take(n as int) == names@);
    }
    ToolReport { lines, missing }
}

/// `items` joined with `sep` between them.
pub open spec fn join_with(items: Seq<Seq<char>>, sep: Seq<char>) -> Seq<char>
    decreases items.len(),
{
    if items.len() == 0 {
        Seq::empty()
    } else if items.len() == 1 {
        items[0]
    } else {
        join_with(items.drop_last(), sep) + sep + items.last()
    }
}

/// The outcome of `check`: with `strict`, missing required tools fail it
/// with `required tools missing: a, b`; otherwise it passes.
pub fn strict_outcome(strict: bool, missing: &Vec<String>) -> (r: Result<(), String>)
    ensures
        (strict && missing@.len() > 0) ==> (r matches Err(m) && m@ == "required tools missing: "@
            + join_with(missing@.map_values(|x: String| x@), ", "@)),
        !(strict && missing@.len() > 0) ==> r is Ok,
{
    if !strict || missing.len() == 0 {
        return Ok(());
    }
    let ghost items = missing@.map_values(|x: String| x@);
    let mut joined = String::new();
    let mut i: usize = 0;
    while i < missing.len()
        invariant
            items == missing@.map_values(|x: String| x@),
            i <= missing@.len(),
            joined@ == join_with(items.take(i as int), ", "@),
        decreases missing.len() - i,
    {
        if i > 0 {
            joined.append(", ");
        }
        joined.append(missing[i].as_str());
        proof {
            let after = items.take(i + 1);
            assert(after.drop_last() == items.take(i as int));
            if i == 0 {
                assert(joined@ == after[0]);
            }
        }
        i = i + 1;
    }
    proof {
        assert(items.take(missing@.len() as int) == items);
    }
    Err(concat("required tools missing: ", joined.as_str()))
}


/// The key read back from a picker line: a line `key<TAB>name` followed by
/// a line break trims to the line itself, whose part before the first tab
/// is the key (for a key without tabs that does not start with
/// whitespace, and a name that is not blank).
proof fn lemma_line_reads_back(key: Seq<char>, name: Seq<char>)
    requires
        key.len() > 0,
        !is_space(key[0]),
        forall|c: int| 0 <= c < key.len() ==> #[trigger] key[c] != '\t',
        !is_blank(name),
    ensures
        trim(key + seq!['\t'] + name + seq!['\n']).len() > 0,
        before_tab(trim(key + seq!['\t'] + name + seq!['\n'])) == key,
{
    let line = key + seq!['\t'] + name;
    let out = line + seq!['\n'];
    assert(out[0] == key[0]);
    lemma_trim_start_keeps(out);
    assert(out.drop_last() == line);
    assert(trim_end(out) == trim_end(line));
    let q = lemma_not_blank_witness(name);
    assert(line[key.len() + 1 + q] == name[q]);
    lemma_trim_end_keeps(line, key.len() + 1 + q);
    let t = trim_end(line);
    assert(trim(out) == t);
    let rest = t.subrange(key.len() + 1int, t.len() as int);
    assert forall|c: int| 0 <= c < t.len() implies #[trigger] t[c] == (key + seq!['\t'] + rest)[c] by {
        if c < key.len() {
            assert(t[c] == line[c]);
        } else if c == key.len() {
            assert(t[c] == line[c]);
        }
    }
    assert(t == key + seq!['\t'] + rest);
    lemma_before_tab_prefix(key, rest);
}

/// Reading back a picker line gives its key: when the picker prints the
/// line `key<TAB>name` and a line break, the selected key is exactly `key`
/// (for a key without tabs that does not start with whitespace, and a
/// name that is not blank, as in a valid configuration).
pub proof fn lemma_picker_reads_back_key(key: Seq<char>, name: Seq<char>, stdout: Seq<u8>)
    requires
        key.len() > 0,
        !is_space(key[0]),
        forall|c: int| 0 <= c < key.len() ==> #[trigger] key[c] != '\t',
        !is_blank(name),
        utf8_lossy(stdout) == key + seq!['\t'] + name + seq!['\n'],
    ensures
        selected_key(stdout) == Some(key),
{
    lemma_line_reads_back(key, name);
}

/// Distinct backends have distinct names, each its variant's name, as
/// `check` prints it.
pub proof fn lemma_backend_names(a: PasteBackend, b: PasteBackend)
    ensures
        a != b ==> a.name_spec() != b.name_spec(),
        PasteBackend::Auto.name_spec() == "Auto"@,
        PasteBackend::Wtype.name_spec() == "Wtype"@,
        PasteBackend::Portal.name_spec() == "Portal"@,
        PasteBackend::Xdotool.name_spec() == "Xdotool"@,
{
    reveal_strlit("Auto");
    reveal_strlit("Wtype");
    reveal_strlit("Portal");
    reveal_strlit("Xdotool");
    if a != b {
        if a.name_spec().len() == b.name_spec().len() {
            assert(a.name_spec()[0] != b.name_spec()[0]);
        }
    }
}

} // verus!
