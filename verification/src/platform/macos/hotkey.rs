//! Hotkey parsing with `global-hotkey`, with an error that shows the
//! accepted syntax.
use crate::text::{debug_quoted, debug_str};
use global_hotkey::hotkey::HotKey;
use vstd::prelude::*;

verus! {

#[verifier::external_type_specification]
#[verifier::external_body]
pub struct ExHotKey(HotKey);

/// A hotkey in the accepted syntax, shown when one is rejected.
pub const EXAMPLE: &'static str = "Ctrl+Alt+KeyJ";

pub open spec fn example_text() -> Seq<char> {
    "Ctrl+Alt+KeyJ"@
}

/// What `global-hotkey` makes of the hotkey text `spec`: the hotkey it
/// parses (built by `HotKey::new`, so its id is the modifier bits and the
/// key code), or the `Display` text of its parse error. Both depend on the
/// text alone, for the macOS target this module is written for (elsewhere
/// `CmdOrCtrl` maps to Control instead of Meta; acceptance and error texts
/// are the same on every target).
pub uninterp spec fn hotkey_parsed(spec: Seq<char>) -> Result<HotKey, Seq<char>>;

/// `HotKey::from_str`, with the parse error as its `Display` text: the
/// hotkey or the error text that `hotkey_parsed` names.
#[verifier::external_body]
fn hotkey_from_str(spec: &str) -> (r: Result<HotKey, String>)
    ensures
        match hotkey_parsed(spec@) {
            Ok(h) => r == Ok::<HotKey, String>(h),
            Err(t) => r matches Err(e) && e@ == t,
        },
{
    <HotKey as std::str::FromStr>::from_str(spec).map_err(|e| e.to_string())
}

/// The message for a hotkey that `global-hotkey` rejected with `error`.
pub open spec fn invalid_hotkey_text(spec: Seq<char>, error: Seq<char>) -> Seq<char> {
    "invalid hotkey "@ + debug_quoted(spec) + ": "@ + error + " (accepted example: "@
        + example_text() + ")"@
}

/// The message for a rejected hotkey.
pub fn invalid_hotkey(spec: &str, error: &str) -> (s: String)
    ensures
        s@ == invalid_hotkey_text(spec@, error@),
{
    let mut s = String::new();
    s.push_str("invalid hotkey ");
    let quoted = debug_str(spec);
    s.push_str(quoted.as_str());
    s.push_str(": ");
    s.push_str(error);
    s.push_str(" (accepted example: ");
    s.push_str(EXAMPLE);
    s.push_str(")");
    s
}

/// Parses a hotkey in `global-hotkey` syntax; a rejected one comes back
/// with a message that quotes it and shows an accepted example.
pub fn parse(spec: &str) -> (r: Result<HotKey, String>)
    ensures
        match hotkey_parsed(spec@) {
            Ok(h) => r == Ok::<HotKey, String>(h),
            Err(t) => r matches Err(m) && m@ == invalid_hotkey_text(spec@, t),
        },
{
    match hotkey_from_str(spec) {
        Ok(hotkey) => Ok(hotkey),
        Err(e) => {
            let message = invalid_hotkey(spec, e.as_str());
            Err(message)
        },
    }
}

/// The text of `global-hotkey`'s parse error for `spec`, or `None` when it
/// accepts the hotkey.
pub fn syntax_error(spec: &str) -> (r: Option<String>)
    ensures
        match hotkey_parsed(spec@) {
            Ok(_) => r is None,
            Err(t) => r matches Some(e) && e@ == t,
        },
{
    match hotkey_from_str(spec) {
        Ok(_) => None,
        Err(e) => Some(e),
    }
}

} // verus!
