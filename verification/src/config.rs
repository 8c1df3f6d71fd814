//! The snippet configuration: its data model, the rules a valid file obeys,
//! and the location of the file under the user's configuration directory.

use vstd::prelude::*;

use crate::text::{concat, is_blank, is_blank_str};

verus! {

/// One snippet of the configuration file.
///
/// A valid snippet has a non-blank `key` that no other snippet uses, a
/// non-blank `name`, and exactly one of `body` (copied verbatim) or
/// `command` (run through `sh -c`, its output copied).
#[derive(Debug)]
pub struct SnippetConfig {
    pub key: String,
    pub name: String,
    pub body: Option<String>,
    pub command: Option<String>,
}

/// The whole configuration file: its snippets, in file order.
#[derive(Debug)]
pub struct Config {
    pub snippet: Vec<SnippetConfig>,
}

/// Why a configuration is refused.
#[derive(Debug)]
pub enum ConfigError {
    /// A snippet's key is empty or whitespace only.
    EmptyKey,
    /// The snippet with this key has an empty or whitespace-only name.
    EmptyName { key: String },
    /// A second snippet uses this key.
    DuplicateKey { key: String },
    /// The snippet with this key defines both a body and a command.
    BothBodyAndCommand { key: String },
    /// The snippet with this key defines neither a body nor a command.
    NeitherBodyNorCommand { key: String },
    /// The user's configuration directory could not be determined.
    NoConfigDir,
    /// There is no configuration file at `path`.
    NotFound { path: String },
    /// The file at `path` could not be read (the system's reason is the
    /// cause the caller attaches).
    ReadFailed { path: String },
    /// The file at `path` is not valid TOML for a configuration (the
    /// parser's reason is the cause the caller attaches).
    ParseFailed { path: String },
}

// ---------------------------------------------------------------------------
// The validity rules
// ---------------------------------------------------------------------------

/// A snippet before position `i` has the same key as snippet `i`.
pub open spec fn key_used_before(snips: Seq<SnippetConfig>, i: int) -> bool {
    exists|j: int| 0 <= j < i && (#[trigger] snips[j]).key@ == snips[i].key@
}

/// Snippet `i` passes every rule, given the snippets before it.
pub open spec fn snippet_ok(snips: Seq<SnippetConfig>, i: int) -> bool {
    &&& !is_blank(snips[i].key@)
    &&& !is_blank(snips[i].name@)
    &&& !key_used_before(snips, i)
    &&& snips[i].body.is_some() != snips[i].command.is_some()
}

/// Every snippet passes every rule: keys and names are non-blank, keys are
/// unique, and each snippet has exactly one of body and command.
pub open spec fn snippets_valid(snips: Seq<SnippetConfig>) -> bool {
    forall|i: int| 0 <= i < snips.len() ==> #[trigger] snippet_ok(snips, i)
}

/// The error reported for snippet `i`, checked in the order key, name,
/// key uniqueness, then body/command.
pub open spec fn snippet_error(snips: Seq<SnippetConfig>, i: int) -> ConfigError {
    let s = snips[i];
    if is_blank(s.key@) {
        ConfigError::EmptyKey
    } else if is_blank(s.name@) {
        ConfigError::EmptyName { key: s.key }
    } else if key_used_before(snips, i) {
        ConfigError::DuplicateKey { key: s.key }
    } else if s.body.is_some() {
        ConfigError::BothBodyAndCommand { key: s.key }
    } else {
        ConfigError::NeitherBodyNorCommand { key: s.key }
    }
}

/// Snippet `i` is the first one that breaks a rule.
pub open spec fn first_fault_at(snips: Seq<SnippetConfig>, i: int) -> bool {
    &&& 0 <= i < snips.len()
    &&& forall|j: int| 0 <= j < i ==> #[trigger] snippet_ok(snips, j)
    &&& !snippet_ok(snips, i)
}

impl Config {
    /// The configuration obeys every rule.
    pub open spec fn valid(&self) -> bool {
        snippets_valid(self.snippet@)
    }

    /// Checks the configuration.
    ///
    /// Returns `Ok(())` exactly when every snippet obeys the rules; otherwise
    /// the error describes the first snippet that breaks one.
    pub fn validate(&self) -> (r: Result<(), ConfigError>)
        ensures
            r is Ok <==> self.valid(),
            r matches Err(e) ==> exists|i: int|
                first_fault_at(self.snippet@, i) && e == snippet_error(self.snippet@, i),
    {
        let ghost snips = self.snippet@;
        let mut keys: Vec<String> = Vec::new();
        let n = self.snippet.len();
        let mut i: usize = 0;
        while i < n
            invariant
                n == snips.len(),
                snips == self.snippet@,
                i <= n,
                keys@.len() == i,
                forall|j: int| 0 <= j < i ==> (#[trigger] keys@[j])@ == snips[j].key@,
                forall|j: int| 0 <= j < i ==> #[trigger] snippet_ok(snips, j),
            decreases n - i,
        {
            let s = &self.snippet[i];
            if is_blank_str(s.key.as_str()) {
                proof {
                    assert(first_fault_at(snips, i as int));
                }
                return Err(ConfigError::EmptyKey);
            }
            if is_blank_str(s.name.as_str()) {
                proof {
                    assert(first_fault_at(snips, i as int));
                }
                return Err(ConfigError::EmptyName { key: s.key.clone() });
            }
            let mut k: usize = 0;
            let mut dup = false;
            while k < i
                invariant
                    n == snips.len(),
                    snips == self.snippet@,
                    i < n,
                    k <= i,
                    keys@.len() == i,
                    *s == snips[i as int],
                    forall|j: int| 0 <= j < i ==> (#[trigger] keys@[j])@ == snips[j].key@,
                    dup == (exists|j: int| 0 <= j < k && (#[trigger] snips[j]).key@ == s.key@),
                decreases i - k,
            {
                if keys[k] == s.key {
                    proof {
                        assert(snips[k as int].key@ == s.key@);
                    }
                    dup = true;
                }
                k = k + 1;
            }
            if dup {
                proof {
                    assert(key_used_before(snips, i as int));
                    assert(first_fault_at(snips, i as int));
                }
                return Err(ConfigError::DuplicateKey { key: s.key.clone() });
            }
            match (&s.body, &s.command) {
                (Some(_), Some(_)) => {
                    proof {
                        assert(first_fault_at(snips, i as int));
                    }
                    return Err(ConfigError::BothBodyAndCommand { key: s.key.clone() });
                },
                (None, None) => {
                    proof {
                        assert(first_fault_at(snips, i as int));
                    }
                    return Err(ConfigError::NeitherBodyNorCommand { key: s.key.clone() });
                },
                _ => {},
            }
            proof {
                assert(snippet_ok(snips, i as int));
            }
            keys.push(s.key.clone());
            i = i + 1;
        }
        Ok(())
    }
}

// ---------------------------------------------------------------------------
// Error text
// ---------------------------------------------------------------------------

impl ConfigError {
    /// The text shown to the user for this error.
    pub open spec fn text(&self) -> Seq<char> {
        match self {
            ConfigError::EmptyKey => "snippet key cannot be empty"@,
            ConfigError::EmptyName { key } => "snippet '"@ + key@ + "' has an empty name"@,
            ConfigError::DuplicateKey { key } => "duplicate snippet key: "@ + key@,
            ConfigError::BothBodyAndCommand { key } =>
                "snippet '"@ + key@ + "' must not define both body and command"@,
            ConfigError::NeitherBodyNorCommand { key } =>
                "snippet '"@ + key@ + "' must define either body or command"@,
            ConfigError::NoConfigDir => "could not determine user config directory"@,
            ConfigError::NotFound { path } => "config file not found:\n  "@ + path@
                + "\n\nCreate it with:\n  mkdir -p ~/.config/plippet\n  cp examples/snippets.toml ~/.config/plippet/snippets.toml"@,
            ConfigError::ReadFailed { path } => "failed to read config at "@ + path@,
            ConfigError::ParseFailed { path } => "failed to parse TOML config at "@ + path@,
        }
    }

    /// The text shown to the user for this error.
    pub fn message(&self) -> (r: String)
        ensures
            r@ == self.text(),
    {
        match self {
            ConfigError::EmptyKey => String::from_str("snippet key cannot be empty"),
            ConfigError::EmptyName { key } => {
                let mut r = concat("snippet '", key.as_str());
                r.append("' has an empty name");
                r
            },
            ConfigError::DuplicateKey { key } => concat("duplicate snippet key: ", key.as_str()),
            ConfigError::BothBodyAndCommand { key } => {
                let mut r = concat("snippet '", key.as_str());
                r.append("' must not define both body and command");
                r
            },
            ConfigError::NeitherBodyNorCommand { key } => {
                let mut r = concat("snippet '", key.as_str());
                r.append("' must define either body or command");
                r
            },
            ConfigError::NoConfigDir => String::from_str("could not determine user config directory"),
            ConfigError::NotFound { path } => {
                let mut r = concat("config file not found:\n  ", path.as_str());
                r.append(
                    "\n\nCreate it with:\n  mkdir -p ~/.config/plippet\n  cp examples/snippets.toml ~/.config/plippet/snippets.toml",
                );
                r
            },
            ConfigError::ReadFailed { path } => concat("failed to read config at ", path.as_str()),
            ConfigError::ParseFailed { path } => concat("failed to parse TOML config at ", path.as_str()),
        }
    }
}

// ---------------------------------------------------------------------------
// Where the file lives
// ---------------------------------------------------------------------------

/// `base` joined with the relative component `comp`, as `PathBuf::push`
/// does on Unix: a separator is put between them unless `base` is empty or
/// already ends with one.
pub open spec fn join_path(base: Seq<char>, comp: Seq<char>) -> Seq<char> {
    if base.len() == 0 {
        comp
    } else if base.last() == '/' {
        base + comp
    } else {
        base + seq!['/'] + comp
    }
}

/// `base` joined with the relative component `comp`.
pub fn join_path_str(base: &str, comp: &str) -> (r: String)
    ensures
        r@ == join_path(base@, comp@),
{
    let n = base.unicode_len();
    if n == 0 {
        String::from_str(comp)
    } else if base.get_char(n - 1) == '/' {
        concat(base, comp)
    } else {
        let mut r = concat(base, "/");
        proof {
            reveal_strlit("/");
        }
        r.append(comp);
        r
    }
}

/// The configuration file inside the user configuration directory `dir`:
/// `<dir>/plippet/snippets.toml`.
pub open spec fn config_file_in(dir: Seq<char>) -> Seq<char> {
    join_path(join_path(dir, "plippet"@), "snippets.toml"@)
}

impl Config {
    /// The default configuration file, given the user configuration
    /// directory (`None` when it cannot be determined).
    pub fn default_path(config_dir: Option<&str>) -> (r: Result<String, ConfigError>)
        ensures
            config_dir is None ==> r == Err::<String, ConfigError>(ConfigError::NoConfigDir),
            config_dir matches Some(d) ==> (r matches Ok(p) && p@ == config_file_in(d@)),
    {
        match config_dir {
            None => Err(ConfigError::NoConfigDir),
            Some(d) => {
                let p = join_path_str(d, "plippet");
                Ok(join_path_str(p.as_str(), "snippets.toml"))
            },
        }
    }
}

} // verus!
