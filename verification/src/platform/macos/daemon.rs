//! The daemon's decisions around the engine: when the worker builds a
//! fresh engine, what the main thread does with each update, which notice
//! the tray keeps showing, and which tray state it shows.
use crate::discovery::{discovery_error_text, DiscoveryError};
use crate::engine::{State, Update};
use crate::journal::{journal_error_text, JournalError};
use crate::platform::macos::tray::TrayState;
use crate::text::{blank, is_blank};
use vstd::prelude::*;

verus! {

/// What the tray keeps showing until the next recording starts.
#[derive(Debug, Clone, PartialEq, Eq)]
pub enum Notice {
    /// The last recording was silent; nothing was appended.
    NoSpeech,
    Error(String),
}

/// What the main thread does with an update from the worker.
#[derive(Debug, Clone, PartialEq, Eq)]
pub enum Reaction {
    /// Append this transcript to the journal.
    Append(String),
    /// Show that nothing was said.
    NoSpeech,
    /// Show this error.
    ShowError(String),
    Nothing,
}

/// A transcript with words in it is appended; an empty or blank one is
/// reported as "no speech"; errors are shown.
pub fn reaction(update: Update) -> (r: Reaction)
    ensures
        match update {
            Update::Transcribed { text, .. } => match text {
                Some(t) => if blank(t@) {
                    r is NoSpeech
                } else {
                    r == Reaction::Append(t)
                },
                None => r is NoSpeech,
            },
            Update::Error(m) => r == Reaction::ShowError(m),
            Update::Nothing => r is Nothing,
        },
{
    match update {
        Update::Transcribed { text, .. } => match text {
            Some(t) => {
                if is_blank(t.as_str()) {
                    Reaction::NoSpeech
                } else {
                    Reaction::Append(t)
                }
            },
            None => Reaction::NoSpeech,
        },
        Update::Error(m) => Reaction::ShowError(m),
        Update::Nothing => Reaction::Nothing,
    }
}

pub open spec fn append_failed_text(e: JournalError) -> Seq<char> {
    "journal write failed; transcript copied to clipboard: "@ + journal_error_text(e)
}

/// The notice after appending a transcript: none when it was written;
/// otherwise an error saying that the transcript went to the clipboard.
pub fn notice_after_append(outcome: &Result<(), JournalError>) -> (n: Option<Notice>)
    ensures
        match *outcome {
            Ok(()) => n is None,
            Err(e) => n matches Some(Notice::Error(m)) && m@ == append_failed_text(e),
        },
{
    match outcome {
        Ok(()) => None,
        Err(e) => {
            let mut m = String::new();
            m.push_str("journal write failed; transcript copied to clipboard: ");
            let text = e.describe();
            m.push_str(text.as_str());
            Some(Notice::Error(m))
        },
    }
}

/// A new recording clears the notice; otherwise it stays.
pub fn settle(notice: Option<Notice>, state: &State) -> (n: Option<Notice>)
    ensures
        (*state is Recording || *state is Finalizing) ==> n is None,
        !(*state is Recording || *state is Finalizing) ==> n == notice,
{
    match state {
        State::Recording { .. } | State::Finalizing { .. } => None,
        _ => notice,
    }
}

/// The tray state for the engine's state and the current notice: an error
/// notice wins; "no speech" shows only while idle.
pub fn tray_state(notice: &Option<Notice>, state: &State) -> (t: TrayState)
    ensures
        match *notice {
            Some(Notice::Error(m)) => t matches TrayState::Error(s) && s@ == m@,
            Some(Notice::NoSpeech) if *state is Idle => t is NoSpeech,
            _ => match *state {
                State::Idle => t is Idle,
                State::Recording { .. } => t is Recording,
                State::Finalizing { .. } => t is Finalizing,
                State::Error { message } => t matches TrayState::Error(s) && s@ == message@,
            },
        },
{
    match notice {
        Some(Notice::Error(m)) => TrayState::Error(m.clone()),
        Some(Notice::NoSpeech) => match state {
            State::Idle => TrayState::NoSpeech,
            _ => TrayState::from_engine(state),
        },
        None => TrayState::from_engine(state),
    }
}

/// Whether a hotkey press needs a fresh engine, built from a freshly read
/// discovery file: not while a recording is running or finalizing, so that
/// a press then goes straight to the engine and a stop is never lost to a
/// discovery file that went missing.
pub fn needs_new_engine(state: Option<&State>) -> (b: bool)
    ensures
        b == match state {
            Some(s) => *s is Idle || *s is Error,
            None => true,
        },
{
    match state {
        Some(State::Idle) | Some(State::Error { .. }) => true,
        Some(_) => false,
        None => true,
    }
}

/// The tray's error when the discovery file cannot be read: a missing
/// file means TypeWhisper is not running or its API server is off, which
/// the user can turn on; other failures are shown as they are.
pub open spec fn discovery_notice_text(e: DiscoveryError) -> Seq<char> {
    match e {
        DiscoveryError::Missing(_) => "TypeWhisper API unavailable \u{2014} enable API Server in Settings \u{2192} Advanced"@,
        _ => discovery_error_text(e),
    }
}

/// The tray's error for a discovery file that could not be read.
pub fn discovery_notice(error: &DiscoveryError) -> (s: String)
    ensures
        s@ == discovery_notice_text(*error),
{
    match error {
        DiscoveryError::Missing(_) => {
            let mut s = String::new();
            s.push_str(
                "TypeWhisper API unavailable \u{2014} enable API Server in Settings \u{2192} Advanced",
            );
            s
        },
        _ => error.describe(),
    }
}

} // verus!
