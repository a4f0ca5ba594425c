//! The headless `--check` report: one line per check, and whether the
//! setup is usable. A missing or unreachable TypeWhisper is a warning, not
//! a failure.
//!
//! The program performs the checks (reading the configuration, probing the
//! journal, reading the discovery file, calling the API); this module turns
//! their outcomes into the report.
use crate::api::{api_error_text, ApiError};
use crate::config::{config_error_text, Config, ConfigError};
use crate::discovery::{discovery_error_text, Discovery, DiscoveryError};
use crate::text::{blank, debug_quoted, debug_str, dec, is_blank, push_decimal};
use vstd::prelude::*;

verus! {

#[derive(Debug)]
pub struct Report {
    pub lines: Vec<String>,
    pub ok: bool,
}

/// The lines of `r`, as text.
pub open spec fn lines_of(r: Report) -> Seq<Seq<char>> {
    r.lines@.map_values(|l: String| l@)
}

/// The report when the configuration could not be loaded: nothing else is
/// checked.
pub fn config_failed(error: &ConfigError) -> (r: Report)
    ensures
        lines_of(r) == seq!["config: error: "@ + config_error_text(*error)],
        !r.ok,
{
    let mut line = String::new();
    line.push_str("config: error: ");
    let text = error.describe();
    line.push_str(text.as_str());
    let mut lines: Vec<String> = Vec::new();
    lines.push(line);
    let r = Report { lines, ok: false };
    assert(lines_of(r) =~= seq!["config: error: "@ + config_error_text(*error)]);
    r
}

pub open spec fn journal_line(path: Seq<char>, outcome: Result<(), Seq<char>>) -> Seq<char> {
    match outcome {
        Ok(()) => "journal: ok ("@ + path + ")"@,
        Err(e) => "journal: error: cannot append to "@ + path + ": "@ + e,
    }
}

/// `hotkey_check` is the outcome of parsing the hotkey with the platform's
/// hotkey parser, where the platform has one.
pub open spec fn hotkey_line(hotkey: Seq<char>, hotkey_check: Option<Result<(), Seq<char>>>) -> Seq<char> {
    if blank(hotkey) {
        "hotkey: error: hotkey must not be empty (example: Ctrl+Alt+KeyJ)"@
    } else {
        match hotkey_check {
            Some(Err(e)) => "hotkey: error: cannot parse "@ + debug_quoted(hotkey) + ": "@ + e
                + " (accepted syntax example: Ctrl+Alt+KeyJ)"@,
            _ => "hotkey: "@ + hotkey,
        }
    }
}

/// Whether the token is worth reporting as set.
pub open spec fn token_set(token: Option<String>) -> bool {
    token matches Some(t) && t@.len() > 0
}

pub open spec fn discovery_lines(
    discovery: Result<Discovery, DiscoveryError>,
    api: Option<Result<(), ApiError>>,
) -> Seq<Seq<char>> {
    match discovery {
        Ok(d) => {
            let port = dec(d.port as nat);
            let first = "discovery: ok (port "@ + port + ", token "@ + (if token_set(d.token) {
                "set"@
            } else {
                "not set"@
            }) + ")"@;
            match api {
                Some(Ok(())) => seq![first, "api: ok (port "@ + port + " /v1/status)"@],
                Some(Err(e)) => seq![first, "api: warning: "@ + api_error_text(e)],
                None => seq![first],
            }
        },
        Err(e) => seq!["discovery: warning: "@ + discovery_error_text(e)],
    }
}

/// The setup is usable: the journal can be appended to and the hotkey is
/// accepted. What TypeWhisper's discovery file or API said plays no part.
pub open spec fn check_ok(journal_ok: bool, hotkey: Seq<char>, hotkey_check: Option<Result<(), Seq<char>>>) -> bool {
    journal_ok && !blank(hotkey) && !(hotkey_check matches Some(Err(_)))
}

pub open spec fn opt_outcome(o: Option<Result<(), String>>) -> Option<Result<(), Seq<char>>> {
    match o {
        Some(Ok(())) => Some(Ok(())),
        Some(Err(e)) => Some(Err(e@)),
        None => None,
    }
}

pub open spec fn outcome(o: Result<(), String>) -> Result<(), Seq<char>> {
    match o {
        Ok(()) => Ok(()),
        Err(e) => Err(e@),
    }
}

/// The report for a loaded configuration: `journal` is the outcome of
/// probing the journal (with the error's text), `hotkey_check` that of the
/// platform's hotkey parser (`None` where there is none), `discovery` that
/// of reading the discovery file, and `api` that of probing the API's
/// status endpoint (reported only when the discovery file was read).
pub fn report(
    config_path: &str,
    config: &Config,
    journal: Result<(), String>,
    hotkey_check: Option<Result<(), String>>,
    discovery: Result<Discovery, DiscoveryError>,
    api: Option<Result<(), ApiError>>,
) -> (r: Report)
    ensures
        lines_of(r) == seq![
            "config: ok ("@ + config_path@ + ")"@,
            journal_line(config.journal_path@, outcome(journal)),
            hotkey_line(config.hotkey@, opt_outcome(hotkey_check)),
        ] + discovery_lines(discovery, api),
        r.ok == check_ok(journal is Ok, config.hotkey@, opt_outcome(hotkey_check)),
{
    let ghost journal_spec = outcome(journal);
    let ghost check_spec = opt_outcome(hotkey_check);
    let ghost discovery_spec = discovery;
    let ghost api_spec = api;
    let mut lines: Vec<String> = Vec::new();
    let mut ok = true;

    let mut line = String::new();
    line.push_str("config: ok (");
    line.push_str(config_path);
    line.push_str(")");
    lines.push(line);

    let mut line = String::new();
    match &journal {
        Ok(()) => {
            line.push_str("journal: ok (");
            line.push_str(config.journal_path.as_str());
            line.push_str(")");
        },
        Err(e) => {
            line.push_str("journal: error: cannot append to ");
            line.push_str(config.journal_path.as_str());
            line.push_str(": ");
            line.push_str(e.as_str());
            ok = false;
        },
    }
    assert(line@ =~= journal_line(config.journal_path@, journal_spec));
    lines.push(line);

    let mut line = String::new();
    if is_blank(config.hotkey.as_str()) {
        line.push_str("hotkey: error: hotkey must not be empty (example: Ctrl+Alt+KeyJ)");
        ok = false;
    } else {
        match &hotkey_check {
            Some(Err(e)) => {
                line.push_str("hotkey: error: cannot parse ");
                let quoted = debug_str(config.hotkey.as_str());
                line.push_str(quoted.as_str());
                line.push_str(": ");
                line.push_str(e.as_str());
                line.push_str(" (accepted syntax example: Ctrl+Alt+KeyJ)");
                ok = false;
            },
            _ => {
                line.push_str("hotkey: ");
                line.push_str(config.hotkey.as_str());
            },
        }
    }
    assert(line@ =~= hotkey_line(config.hotkey@, check_spec));
    lines.push(line);

    match discovery {
        Ok(d) => {
            let mut port = String::new();
            push_decimal(&mut port, d.port as u64);
            let mut line = String::new();
            line.push_str("discovery: ok (port ");
            line.push_str(port.as_str());
            line.push_str(", token ");
            let set = match &d.token {
                Some(t) => !t.as_str().is_empty(),
                None => false,
            };
            if set {
                line.push_str("set");
            } else {
                line.push_str("not set");
            }
            line.push_str(")");
            lines.push(line);
            match api {
                Some(Ok(())) => {
                    let mut line = String::new();
                    line.push_str("api: ok (port ");
                    line.push_str(port.as_str());
                    line.push_str(" /v1/status)");
                    lines.push(line);
                },
                Some(Err(e)) => {
                    let mut line = String::new();
                    line.push_str("api: warning: ");
                    let text = e.describe();
                    line.push_str(text.as_str());
                    lines.push(line);
                },
                None => {},
            }
        },
        Err(e) => {
            let mut line = String::new();
            line.push_str("discovery: warning: ");
            let text = e.describe();
            line.push_str(text.as_str());
            lines.push(line);
        },
    }
    let r = Report { lines, ok };
    assert(lines_of(r) =~= seq![
        "config: ok ("@ + config_path@ + ")"@,
        journal_line(config.journal_path@, journal_spec),
        hotkey_line(config.hotkey@, check_spec),
    ] + discovery_lines(discovery_spec, api_spec));
    r
}

/// What `std::path::Path::parent` gives for the path `path`: the path
/// without its last component, `None` for a root or an empty path. It
/// depends on the text alone.
pub uninterp spec fn path_parent(path: Seq<char>) -> Option<Seq<char>>;

/// `Path::parent` on a path given as text. The parent of a path that is
/// text is text too, so the conversion back loses nothing.
#[verifier::external_body]
fn parent_of(path: &str) -> (r: Option<String>)
    ensures
        match path_parent(path@) {
            None => r is None,
            Some(p) => r matches Some(s) && s@ == p,
        },
{
    std::path::Path::new(path).parent().map(|p| p.to_string_lossy().into_owned())
}

/// The directory a journal at `journal_path` goes in: its parent, or the
/// current directory (`.`) where it has none or an empty one.
pub open spec fn journal_dir(journal_path: Seq<char>) -> Seq<char> {
    match path_parent(journal_path) {
        Some(p) => if p.len() > 0 {
            p
        } else {
            "."@
        },
        None => "."@,
    }
}

/// The directory in which the journal at `journal_path` is created.
pub fn journal_parent(journal_path: &str) -> (r: String)
    ensures
        r@ == journal_dir(journal_path@),
{
    match parent_of(journal_path) {
        Some(p) => {
            if !p.as_str().is_empty() {
                return p;
            }
        },
        None => {},
    }
    proof {
        reveal_strlit(".");
    }
    let mut here = String::new();
    here.push_str(".");
    here
}

/// The discovery line says `token set` exactly when the discovery file
/// holds a token that is not empty; with no token, or an empty one, it
/// says `token not set`. The port is shown in decimal either way.
pub proof fn law_discovery_line_reports_the_token(
    d: Discovery,
    api: Option<Result<(), ApiError>>,
)
    ensures
        discovery_lines(Ok(d), api).len() >= 1,
        d.token is None ==> discovery_lines(Ok(d), api)[0] == "discovery: ok (port "@ + dec(
            d.port as nat,
        ) + ", token not set)"@,
        d.token matches Some(t) && t@.len() == 0 ==> discovery_lines(Ok(d), api)[0]
            == "discovery: ok (port "@ + dec(d.port as nat) + ", token not set)"@,
        d.token matches Some(t) && t@.len() > 0 ==> discovery_lines(Ok(d), api)[0]
            == "discovery: ok (port "@ + dec(d.port as nat) + ", token set)"@,
{
    reveal_strlit(", token ");
    reveal_strlit("set");
    reveal_strlit("not set");
    reveal_strlit(")");
    reveal_strlit(", token set)");
    reveal_strlit(", token not set)");
    let head = "discovery: ok (port "@ + dec(d.port as nat);
    assert(head + ", token "@ + "set"@ + ")"@ =~= head + ", token set)"@);
    assert(head + ", token "@ + "not set"@ + ")"@ =~= head + ", token not set)"@);
}

} // verus!
