use voice_journal::config::{
    config_path_from, config_path_with, default_config_text, expand_tilde, expand_tilde_with,
    finish, finish_with, Config, ConfigError,
};
use voice_journal::discovery::{discovery_path_with, DiscoveryError};

#[test]
fn default_config_has_toggle_hotkey_and_documents_path() {
    let c = Config::default();
    assert_eq!(c.hotkey, "Ctrl+Alt+KeyJ");
    assert!(c.journal_path.ends_with("Documents/VoiceJournal.md"));
}

#[test]
fn finish_accepts_valid_fields() {
    let c = finish("Cmd+Shift+Space".into(), "/tmp/j.md".into()).unwrap();
    assert_eq!(c.hotkey, "Cmd+Shift+Space");
    assert_eq!(c.journal_path, "/tmp/j.md");
}

#[test]
fn rejects_empty_hotkey() {
    assert!(matches!(
        finish("  ".into(), "/tmp/j.md".into()).unwrap_err(),
        ConfigError::EmptyHotkey
    ));
}

#[test]
fn expands_tilde() {
    let expanded = expand_tilde("~/x/y.md");
    assert!(expanded.ends_with("x/y.md"));
    assert!(!expanded.starts_with('~'));
}

#[test]
fn explicit_config_path_overrides_default() {
    let path = config_path_from(Some("/tmp/custom.toml")).unwrap();
    assert_eq!(path, "/tmp/custom.toml");
    let default_like = config_path_from(Some("")).unwrap();
    assert!(default_like.ends_with("voice-journal/config.toml"));
}

#[test]
fn expansion_against_a_given_home() {
    assert_eq!(expand_tilde_with("~", Some("/home/a")), "/home/a");
    assert_eq!(expand_tilde_with("~/j.md", Some("/home/a")), "/home/a/j.md");
    assert_eq!(expand_tilde_with("~/j.md", Some("/home/a/")), "/home/a/j.md");
    assert_eq!(expand_tilde_with("~//etc/j.md", Some("/home/a")), "/etc/j.md");
    assert_eq!(expand_tilde_with("~bob/j.md", Some("/home/a")), "~bob/j.md");
    assert_eq!(expand_tilde_with("~/j.md", None), "~/j.md");
    assert_eq!(expand_tilde_with("/abs/j.md", Some("/home/a")), "/abs/j.md");
}

#[test]
fn config_path_with_directory_and_override() {
    assert_eq!(
        config_path_with(None, Some("/Users/a/Library/Application Support")).unwrap(),
        "/Users/a/Library/Application Support/voice-journal/config.toml"
    );
    assert_eq!(config_path_with(Some("x.toml"), None).unwrap(), "x.toml");
    assert!(matches!(
        config_path_with(Some(""), None),
        Err(ConfigError::NoHome)
    ));
}

#[test]
fn finish_with_expands_journal_path() {
    let c = finish_with("Ctrl+Alt+KeyJ".into(), "~/Documents/VoiceJournal.md".into(), Some("/home/a")).unwrap();
    assert_eq!(c.journal_path, "/home/a/Documents/VoiceJournal.md");
    assert!(matches!(
        finish_with("\t\n".into(), "x".into(), None),
        Err(ConfigError::EmptyHotkey)
    ));
}

#[test]
fn default_config_file_text() {
    let text = default_config_text();
    assert_eq!(
        text,
        "# Global toggle hotkey (global-hotkey key syntax).\nhotkey = \"Ctrl+Alt+KeyJ\"\n\n# Journal destination. ~ is expanded.\njournal_path = \"~/Documents/VoiceJournal.md\"\n"
    );
}

#[test]
fn config_errors_describe_themselves() {
    assert_eq!(ConfigError::EmptyHotkey.describe(), "hotkey must not be empty");
    assert_eq!(ConfigError::NoHome.describe(), "cannot determine home directory");
    assert_eq!(ConfigError::Toml("bad".into()).describe(), "invalid config: bad");
    assert_eq!(ConfigError::Io("gone".into()).describe(), "config io error: gone");
}

#[test]
fn discovery_path_below_home() {
    assert_eq!(
        discovery_path_with(Some("/Users/a")).unwrap(),
        "/Users/a/Library/Application Support/TypeWhisper/api-discovery.json"
    );
    assert!(matches!(discovery_path_with(None), Err(DiscoveryError::NoHome)));
}

#[test]
fn missing_discovery_message_names_the_path() {
    assert_eq!(
        DiscoveryError::Missing("/x.json".into()).describe(),
        "TypeWhisper discovery file not found at /x.json — is TypeWhisper running with the API server enabled?"
    );
}

#[test]
fn expanding_twice_is_expanding_once() {
    for input in ["~", "~/j.md", "~//etc/j.md", "/abs", "rel/j.md", "~x"] {
        let once = expand_tilde_with(input, Some("/home/a"));
        assert_eq!(expand_tilde_with(&once, Some("/home/a")), once, "input {input:?}");
    }
}
