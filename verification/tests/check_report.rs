use voice_journal::api::ApiError;
use voice_journal::check::{config_failed, journal_parent, report};
use voice_journal::config::{Config, ConfigError};
use voice_journal::discovery::{Discovery, DiscoveryError};

fn config(hotkey: &str) -> Config {
    Config {
        hotkey: hotkey.into(),
        journal_path: "/tmp/j/journal.md".into(),
    }
}

fn missing() -> Result<Discovery, DiscoveryError> {
    Err(DiscoveryError::Missing("/tmp/no-such-discovery.json".into()))
}

#[test]
fn report_for_healthy_setup_is_ok() {
    let r = report("/tmp/c.toml", &config("Ctrl+Alt+KeyJ"), Ok(()), None, missing(), None);
    assert!(r.ok, "unexpected lines: {:?}", r.lines);
    assert_eq!(r.lines[0], "config: ok (/tmp/c.toml)");
    assert_eq!(r.lines[1], "journal: ok (/tmp/j/journal.md)");
    assert_eq!(r.lines[2], "hotkey: Ctrl+Alt+KeyJ");
    assert!(r.lines.iter().any(|l| {
        let lower = l.to_lowercase();
        lower.contains("typewhisper") || lower.contains("discovery")
    }));
}

#[test]
fn report_for_unloadable_config_is_not_ok() {
    let r = config_failed(&ConfigError::Toml("expected `=`".into()));
    assert!(!r.ok);
    assert_eq!(r.lines, vec!["config: error: invalid config: expected `=`".to_string()]);
}

#[test]
fn report_warns_on_missing_discovery() {
    let r = report("/tmp/c.toml", &config("Ctrl+Alt+KeyJ"), Ok(()), None, missing(), None);
    assert!(r.ok, "unexpected lines: {:?}", r.lines);
    assert!(r.lines[3].starts_with("discovery: warning: TypeWhisper discovery file not found"));
}

#[test]
fn report_shows_discovered_port_and_token() {
    let d = Discovery {
        port: 9123,
        token: Some("secret".into()),
        version: None,
    };
    let r = report(
        "/tmp/c.toml",
        &config("Ctrl+Alt+KeyJ"),
        Ok(()),
        None,
        Ok(d),
        Some(Err(ApiError::Unavailable("refused".into()))),
    );
    assert!(r.ok, "unexpected lines: {:?}", r.lines);
    assert_eq!(r.lines[3], "discovery: ok (port 9123, token set)");
    assert_eq!(r.lines[4], "api: warning: TypeWhisper API unavailable: refused");
}

#[test]
fn journal_error_is_not_ok() {
    let r = report(
        "/tmp/c.toml",
        &config("Ctrl+Alt+KeyJ"),
        Err("Is a directory (os error 21)".into()),
        None,
        missing(),
        None,
    );
    assert!(!r.ok);
    assert_eq!(
        r.lines[1],
        "journal: error: cannot append to /tmp/j/journal.md: Is a directory (os error 21)"
    );
}

#[test]
fn report_shows_live_api() {
    let d = Discovery {
        port: 4000,
        token: Some(String::new()),
        version: Some(1),
    };
    let r = report("/tmp/c.toml", &config("Ctrl+Alt+KeyJ"), Ok(()), None, Ok(d), Some(Ok(())));
    assert!(r.ok);
    assert_eq!(r.lines[3], "discovery: ok (port 4000, token not set)");
    assert_eq!(r.lines[4], "api: ok (port 4000 /v1/status)");
}

#[test]
fn report_rejects_blank_hotkey() {
    let r = report("/tmp/c.toml", &config("  "), Ok(()), None, missing(), None);
    assert!(!r.ok);
    assert_eq!(
        r.lines[2],
        "hotkey: error: hotkey must not be empty (example: Ctrl+Alt+KeyJ)"
    );
}

#[test]
fn unparseable_hotkey_is_not_ok() {
    let r = report(
        "/tmp/c.toml",
        &config("Shift+Ctrl"),
        Ok(()),
        Some(Err("bad key".into())),
        missing(),
        None,
    );
    assert!(!r.ok);
    assert_eq!(
        r.lines[2],
        "hotkey: error: cannot parse \"Shift+Ctrl\": bad key (accepted syntax example: Ctrl+Alt+KeyJ)"
    );
}

#[test]
fn journal_parent_falls_back_to_current_directory() {
    assert_eq!(journal_parent("/tmp/j/journal.md"), "/tmp/j");
    assert_eq!(journal_parent("notes/journal.md"), "notes");
    assert_eq!(journal_parent("journal.md"), ".");
    assert_eq!(journal_parent("/"), ".");
    assert_eq!(journal_parent(""), ".");
    assert_eq!(journal_parent("/journal.md"), "/");
}
