//! Configuration: the global hotkey and the journal's path, their
//! defaults, `~` expansion, and where the configuration file lives.
//!
//! Reading TOML and touching the file system is the program's part; this
//! module holds what it decides once the text has been read.
use crate::path::{join_path, joined};
use crate::text::{blank, chars_of, is_blank, opt_view, string_of};
use vstd::prelude::*;

verus! {

#[derive(Debug, Clone, PartialEq)]
pub struct Config {
    /// Global toggle hotkey, in `global-hotkey` syntax.
    pub hotkey: String,
    /// The journal file, with `~` expanded.
    pub journal_path: String,
}

#[derive(Debug)]
pub enum ConfigError {
    EmptyHotkey,
    Io(String),
    Toml(String),
    NoHome,
}

pub open spec fn config_error_text(e: ConfigError) -> Seq<char> {
    match e {
        ConfigError::EmptyHotkey => "hotkey must not be empty"@,
        ConfigError::Io(m) => "config io error: "@ + m@,
        ConfigError::Toml(m) => "invalid config: "@ + m@,
        ConfigError::NoHome => "cannot determine home directory"@,
    }
}

impl ConfigError {
    /// The human-readable text of the error.
    pub fn describe(&self) -> (s: String)
        ensures
            s@ == config_error_text(*self),
    {
        let mut s = String::new();
        match self {
            ConfigError::EmptyHotkey => s.push_str("hotkey must not be empty"),
            ConfigError::Io(m) => {
                s.push_str("config io error: ");
                s.push_str(m.as_str());
            },
            ConfigError::Toml(m) => {
                s.push_str("invalid config: ");
                s.push_str(m.as_str());
            },
            ConfigError::NoHome => s.push_str("cannot determine home directory"),
        }
        s
    }
}

/// The user's home directory: `dirs::home_dir`, as text. It depends on the
/// environment (`$HOME`, the password database), so nothing is stated of it.
/// A directory whose name is not UTF-8 comes back with its invalid bytes
/// replaced by U+FFFD, as `to_string_lossy` does.
#[verifier::external_body]
pub(crate) fn home_dir() -> Option<String> {
    dirs::home_dir().map(|p| p.to_string_lossy().into_owned())
}

/// The user's configuration directory: `dirs::config_dir`, as text. It
/// depends on the environment, so nothing is stated of it. A name that is
/// not UTF-8 is converted as in `home_dir`.
#[verifier::external_body]
fn config_dir() -> Option<String> {
    dirs::config_dir().map(|p| p.to_string_lossy().into_owned())
}

pub open spec fn default_hotkey_text() -> Seq<char> {
    "Ctrl+Alt+KeyJ"@
}

pub open spec fn default_journal_text() -> Seq<char> {
    "~/Documents/VoiceJournal.md"@
}

/// The hotkey used when the configuration names none.
pub fn default_hotkey() -> (s: String)
    ensures
        s@ == default_hotkey_text(),
{
    let mut s = String::new();
    s.push_str("Ctrl+Alt+KeyJ");
    s
}

/// The journal path used when the configuration names none, unexpanded.
pub fn default_journal_text_value() -> (s: String)
    ensures
        s@ == default_journal_text(),
{
    let mut s = String::new();
    s.push_str("~/Documents/VoiceJournal.md");
    s
}

/// `input` with a leading `~` or `~/` replaced by the home directory
/// `home`; left as it is when there is no home directory.
pub open spec fn expanded(input: Seq<char>, home: Option<Seq<char>>) -> Seq<char> {
    match home {
        Some(h) => if input == seq!['~'] {
            h
        } else if input.len() >= 2 && input[0] == '~' && input[1] == '/' {
            joined(h, input.skip(2))
        } else {
            input
        },
        None => input,
    }
}

/// `~` expansion against a given home directory.
pub fn expand_tilde_with(input: &str, home: Option<&str>) -> (s: String)
    ensures
        s@ == expanded(input@, opt_view(home)),
{
    let cs = chars_of(input);
    match home {
        Some(h) => {
            if cs.len() == 1 && cs[0] == '~' {
                assert(input@ =~= seq!['~']);
                let mut s = String::new();
                s.push_str(h);
                return s;
            }
            if cs.len() >= 2 && cs[0] == '~' && cs[1] == '/' {
                let rest = string_of(&cs, 2, cs.len());
                assert(rest@ =~= input@.skip(2));
                return join_path(h, rest.as_str());
            }
            assert(input@ != seq!['~']);
            let mut s = String::new();
            s.push_str(input);
            s
        },
        None => {
            let mut s = String::new();
            s.push_str(input);
            s
        },
    }
}

/// `~` expansion against the user's home directory.
pub fn expand_tilde(input: &str) -> (s: String)
    ensures
        exists|home: Option<Seq<char>>| s@ == expanded(input@, home),
{
    let home = home_dir();
    match &home {
        Some(h) => expand_tilde_with(input, Some(h.as_str())),
        None => expand_tilde_with(input, None),
    }
}

/// The default journal path, expanded against the user's home directory.
pub fn default_journal_path() -> (s: String)
    ensures
        exists|home: Option<Seq<char>>| s@ == expanded(default_journal_text(), home),
{
    let raw = default_journal_text_value();
    expand_tilde(raw.as_str())
}

impl Default for Config {
    fn default() -> (c: Self)
        ensures
            c.hotkey@ == default_hotkey_text(),
            exists|home: Option<Seq<char>>| c.journal_path@ == expanded(default_journal_text(), home),
    {
        Config { hotkey: default_hotkey(), journal_path: default_journal_path() }
    }
}

/// The configuration given its two fields as read, and the home
/// directory: a blank hotkey is rejected; the journal path is expanded.
pub open spec fn finished(hotkey: Seq<char>, journal_path: Seq<char>, home: Option<Seq<char>>) -> Option<(Seq<char>, Seq<char>)> {
    if blank(hotkey) {
        None
    } else {
        Some((hotkey, expanded(journal_path, home)))
    }
}

/// Validates the fields read from a configuration file against a given
/// home directory.
pub fn finish_with(hotkey: String, journal_path: String, home: Option<&str>) -> (r: Result<Config, ConfigError>)
    ensures
        blank(hotkey@) ==> r matches Err(ConfigError::EmptyHotkey),
        !blank(hotkey@) ==> (r matches Ok(c) && Some((c.hotkey@, c.journal_path@)) == finished(
            hotkey@,
            journal_path@,
            opt_view(home),
        )),
{
    if is_blank(hotkey.as_str()) {
        return Err(ConfigError::EmptyHotkey);
    }
    let path = expand_tilde_with(journal_path.as_str(), home);
    Ok(Config { hotkey, journal_path: path })
}

/// Validates the fields read from a configuration file: a blank hotkey is
/// rejected, and `~` in the journal path is expanded.
pub fn finish(hotkey: String, journal_path: String) -> (r: Result<Config, ConfigError>)
    ensures
        blank(hotkey@) ==> r matches Err(ConfigError::EmptyHotkey),
        !blank(hotkey@) ==> (r matches Ok(c) && exists|home: Option<Seq<char>>|
            Some((c.hotkey@, c.journal_path@)) == #[trigger] finished(hotkey@, journal_path@, home)),
{
    let home = home_dir();
    match &home {
        Some(h) => finish_with(hotkey, journal_path, Some(h.as_str())),
        None => finish_with(hotkey, journal_path, None),
    }
}

/// Where the configuration file is: `env_value` when it is set and not
/// empty, else `voice-journal/config.toml` in the configuration directory.
pub open spec fn config_location(env_value: Option<Seq<char>>, config_dir: Option<Seq<char>>) -> Option<Seq<char>> {
    match env_value {
        Some(p) if p.len() > 0 => Some(p),
        _ => match config_dir {
            Some(d) => Some(joined(joined(d, "voice-journal"@), "config.toml"@)),
            None => None,
        },
    }
}

/// The configuration file's path given the override and the
/// configuration directory; `NoHome` when neither gives one.
pub fn config_path_with(env_value: Option<&str>, config_dir: Option<&str>) -> (r: Result<String, ConfigError>)
    ensures
        match config_location(opt_view(env_value), opt_view(config_dir)) {
            Some(p) => r matches Ok(s) && s@ == p,
            None => r matches Err(ConfigError::NoHome),
        },
{
    match env_value {
        Some(v) => {
            let cs = chars_of(v);
            if cs.len() > 0 {
                let mut s = String::new();
                s.push_str(v);
                return Ok(s);
            }
        },
        None => {},
    }
    match config_dir {
        Some(d) => {
            let dir = join_path(d, "voice-journal");
            Ok(join_path(dir.as_str(), "config.toml"))
        },
        None => Err(ConfigError::NoHome),
    }
}

/// The configuration file's path: `env_value` (the `VOICE_JOURNAL_CONFIG`
/// variable) when set and not empty, else in the user's configuration
/// directory.
pub fn config_path_from(env_value: Option<&str>) -> (r: Result<String, ConfigError>)
    ensures
        match env_value {
            Some(v) => v@.len() > 0 ==> (r matches Ok(s) && s@ == v@),
            None => true,
        },
        exists|dir: Option<Seq<char>>|
            match #[trigger] config_location(opt_view(env_value), dir) {
                Some(p) => r matches Ok(s) && s@ == p,
                None => r matches Err(ConfigError::NoHome),
            },
{
    let dir = config_dir();
    match &dir {
        Some(d) => config_path_with(env_value, Some(d.as_str())),
        None => config_path_with(env_value, None),
    }
}

pub open spec fn default_config_file() -> Seq<char> {
    "# Global toggle hotkey (global-hotkey key syntax).\nhotkey = \""@ + default_hotkey_text()
        + "\"\n\n# Journal destination. ~ is expanded.\njournal_path = \""@
        + default_journal_text() + "\"\n"@
}

/// The text of a newly created configuration file, with comments and the
/// default values.
pub fn default_config_text() -> (s: String)
    ensures
        s@ == default_config_file(),
{
    let mut s = String::new();
    s.push_str("# Global toggle hotkey (global-hotkey key syntax).\nhotkey = \"");
    s.push_str("Ctrl+Alt+KeyJ");
    s.push_str("\"\n\n# Journal destination. ~ is expanded.\njournal_path = \"");
    s.push_str("~/Documents/VoiceJournal.md");
    s.push_str("\"\n");
    s
}

/// The default file's fields come back as the default configuration: the
/// hotkey is accepted unchanged and the journal path is expanded as
/// `Config::default` expands it.
pub proof fn law_default_fields_give_default_config(home: Option<Seq<char>>)
    ensures
        finished(default_hotkey_text(), default_journal_text(), home) == Some(
            (default_hotkey_text(), expanded(default_journal_text(), home)),
        ),
{
    reveal_strlit("Ctrl+Alt+KeyJ");
    assert(!crate::text::is_ws(default_hotkey_text()[0]));
}

/// Expanding twice is expanding once, for a home directory that is not
/// empty and does not itself begin with `~`.
pub proof fn law_expansion_is_idempotent(input: Seq<char>, home: Seq<char>)
    requires
        home.len() > 0,
        home[0] != '~',
    ensures
        expanded(expanded(input, Some(home)), Some(home)) == expanded(input, Some(home)),
{
    let once = expanded(input, Some(home));
    if input == seq!['~'] {
        assert(once == home);
        assert(once != seq!['~']);
    } else if input.len() >= 2 && input[0] == '~' && input[1] == '/' {
        let rest = input.skip(2);
        if rest.len() > 0 && rest[0] == '/' {
            assert(once == rest);
            assert(once != seq!['~']);
        } else if home.last() != '/' {
            assert(once == home + seq!['/'] + rest);
            assert(once[0] == home[0]);
            assert(once != seq!['~']);
        } else {
            assert(once == home + rest);
            assert(once[0] == home[0]);
            assert(once != seq!['~']);
        }
    }
}

} // verus!
