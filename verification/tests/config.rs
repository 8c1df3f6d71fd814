use plippet::config::{Config, ConfigError, SnippetConfig};

fn text(v: &toml::Table, field: &str) -> Option<String> {
    v.get(field).and_then(|x| x.as_str()).map(|s| s.to_string())
}

/// Builds a configuration from TOML source, one `[[snippet]]` table per
/// snippet.
fn parse(toml_src: &str) -> Config {
    let table: toml::Table = toml::from_str(toml_src).unwrap();
    let mut snippet = Vec::new();
    if let Some(items) = table.get("snippet").and_then(|v| v.as_array()) {
        for item in items {
            let t = item.as_table().unwrap();
            snippet.push(SnippetConfig {
                key: text(t, "key").unwrap(),
                name: text(t, "name").unwrap(),
                body: text(t, "body"),
                command: text(t, "command"),
            });
        }
    }
    Config { snippet }
}

fn body(key: &str, name: &str, body: &str) -> SnippetConfig {
    SnippetConfig { key: key.into(), name: name.into(), body: Some(body.into()), command: None }
}

#[test]
fn validates_body_snippet() {
    let cfg = parse(
        r#"
        [[snippet]]
        key = "sig"
        name = "Signoff"
        body = "Best,\nJ"
        "#,
    );
    cfg.validate().unwrap();
}

#[test]
fn validates_command_snippet() {
    let cfg = parse(
        r#"
        [[snippet]]
        key = "today"
        name = "Today"
        command = "date +%Y-%m-%d"
        "#,
    );
    cfg.validate().unwrap();
}

#[test]
fn rejects_empty_key() {
    let cfg = parse(
        r#"
        [[snippet]]
        key = ""
        name = "x"
        body = "y"
        "#,
    );
    let err = cfg.validate().unwrap_err().message();
    assert!(err.contains("key cannot be empty"), "{err}");
}

#[test]
fn rejects_empty_name() {
    let cfg = parse(
        r#"
        [[snippet]]
        key = "k"
        name = ""
        body = "y"
        "#,
    );
    let err = cfg.validate().unwrap_err().message();
    assert!(err.contains("empty name"), "{err}");
}

#[test]
fn rejects_duplicate_keys() {
    let cfg = parse(
        r#"
        [[snippet]]
        key = "k"
        name = "a"
        body = "x"

        [[snippet]]
        key = "k"
        name = "b"
        body = "y"
        "#,
    );
    let err = cfg.validate().unwrap_err().message();
    assert!(err.contains("duplicate snippet key"), "{err}");
}

#[test]
fn rejects_both_body_and_command() {
    let cfg = parse(
        r#"
        [[snippet]]
        key = "k"
        name = "a"
        body = "x"
        command = "echo hi"
        "#,
    );
    let err = cfg.validate().unwrap_err().message();
    assert!(err.contains("must not define both"), "{err}");
}

#[test]
fn rejects_neither_body_nor_command() {
    let cfg = parse(
        r#"
        [[snippet]]
        key = "k"
        name = "a"
        "#,
    );
    let err = cfg.validate().unwrap_err().message();
    assert!(err.contains("must define either"), "{err}");
}

#[test]
fn default_path_ends_with_plippet_snippets_toml() {
    let dirs = directories::BaseDirs::new().unwrap();
    let dir = dirs.config_dir().to_str().unwrap().to_string();
    let path = Config::default_path(Some(dir.as_str())).unwrap();
    let path = std::path::PathBuf::from(path);
    let suffix = std::path::Path::new("plippet").join("snippets.toml");
    assert!(
        path.ends_with(&suffix),
        "{} should end with {}",
        path.display(),
        suffix.display()
    );
}

#[test]
fn default_path_joins_components_like_pathbuf() {
    assert_eq!(Config::default_path(Some("/home/u/.config")).unwrap(), "/home/u/.config/plippet/snippets.toml");
    assert_eq!(Config::default_path(Some("/home/u/.config/")).unwrap(), "/home/u/.config/plippet/snippets.toml");
    assert_eq!(Config::default_path(Some("")).unwrap(), "plippet/snippets.toml");
    let err = Config::default_path(None).unwrap_err();
    assert!(matches!(err, ConfigError::NoConfigDir));
    assert_eq!(err.message(), "could not determine user config directory");
}

#[test]
fn whitespace_only_key_and_name_are_empty() {
    let cfg = Config { snippet: vec![body(" \t\u{a0}", "n", "x")] };
    assert!(matches!(cfg.validate(), Err(ConfigError::EmptyKey)));
    let cfg = Config { snippet: vec![body("k", "\u{3000}\n", "x")] };
    assert_eq!(cfg.validate().unwrap_err().message(), "snippet 'k' has an empty name");
}

#[test]
fn first_fault_is_reported() {
    let cfg = Config {
        snippet: vec![
            body("a", "A", "x"),
            SnippetConfig { key: "b".into(), name: "B".into(), body: None, command: None },
            body("a", "again", "y"),
        ],
    };
    assert_eq!(cfg.validate().unwrap_err().message(), "snippet 'b' must define either body or command");
    let cfg = Config { snippet: vec![body("a", "A", "x"), body("a", "B", "y")] };
    assert_eq!(cfg.validate().unwrap_err().message(), "duplicate snippet key: a");
    let cfg = Config {
        snippet: vec![SnippetConfig {
            key: "k".into(),
            name: "n".into(),
            body: Some("x".into()),
            command: Some("y".into()),
        }],
    };
    assert_eq!(cfg.validate().unwrap_err().message(), "snippet 'k' must not define both body and command");
}

#[test]
fn empty_config_is_valid() {
    Config { snippet: vec![] }.validate().unwrap();
}

#[test]
fn load_errors_name_the_path() {
    let err = ConfigError::NotFound { path: "/c/does-not-exist.toml".to_string() }.message();
    assert!(err.contains("config file not found"), "{err}");
    assert!(err.contains("/c/does-not-exist.toml"), "{err}");
    assert!(err.contains("mkdir -p ~/.config/plippet"), "{err}");
    let err = ConfigError::ParseFailed { path: "/c/bad.toml".to_string() }.message();
    assert_eq!(err, "failed to parse TOML config at /c/bad.toml");
    let err = ConfigError::ReadFailed { path: "/c/x".to_string() }.message();
    assert_eq!(err, "failed to read config at /c/x");
}
