use voice_journal::clock::{Duration, Instant};
use voice_journal::engine::{State, Update};
use voice_journal::journal::JournalError;
use voice_journal::discovery::DiscoveryError;
use voice_journal::platform::macos::daemon::{
    discovery_notice, needs_new_engine, notice_after_append, reaction, settle, tray_state, Notice, Reaction,
};
use voice_journal::platform::macos::hotkey::{invalid_hotkey, parse, EXAMPLE};
use voice_journal::platform::macos::tray::TrayState;

fn transcribed(text: Option<&str>) -> Update {
    Update::Transcribed {
        text: text.map(str::to_owned),
        output_file: None,
        duration: Duration::from_secs(1),
    }
}

#[test]
fn transcripts_with_words_are_appended() {
    assert_eq!(
        reaction(transcribed(Some("hello"))),
        Reaction::Append("hello".into())
    );
    assert_eq!(reaction(transcribed(Some(" \n "))), Reaction::NoSpeech);
    assert_eq!(reaction(transcribed(None)), Reaction::NoSpeech);
    assert_eq!(
        reaction(Update::Error("boom".into())),
        Reaction::ShowError("boom".into())
    );
    assert_eq!(reaction(Update::Nothing), Reaction::Nothing);
}

#[test]
fn failed_append_keeps_transcript_notice() {
    assert_eq!(notice_after_append(&Ok(())), None);
    assert_eq!(
        notice_after_append(&Err(JournalError::Io("disk full".into()))),
        Some(Notice::Error(
            "journal write failed; transcript copied to clipboard: journal io error: disk full"
                .into()
        ))
    );
}

#[test]
fn notices_clear_when_recording_starts() {
    let recording = State::Recording {
        id: "a".into(),
        started: Instant::from_nanos(0),
    };
    assert_eq!(settle(Some(Notice::NoSpeech), &recording), None);
    assert_eq!(
        settle(Some(Notice::NoSpeech), &State::Idle),
        Some(Notice::NoSpeech)
    );
}

#[test]
fn tray_shows_notice_over_engine_state() {
    assert_eq!(
        tray_state(&Some(Notice::Error("x".into())), &State::Idle),
        TrayState::Error("x".into())
    );
    assert_eq!(tray_state(&Some(Notice::NoSpeech), &State::Idle), TrayState::NoSpeech);
    let finalizing = State::Finalizing {
        id: "a".into(),
        deadline: Instant::from_nanos(5),
    };
    assert_eq!(tray_state(&Some(Notice::NoSpeech), &finalizing), TrayState::Finalizing);
    assert_eq!(tray_state(&None, &State::Idle), TrayState::Idle);
}

#[test]
fn engine_is_rebuilt_only_between_recordings() {
    assert!(needs_new_engine(None));
    assert!(needs_new_engine(Some(&State::Idle)));
    assert!(needs_new_engine(Some(&State::Error {
        message: "m".into()
    })));
    assert!(!needs_new_engine(Some(&State::Recording {
        id: "a".into(),
        started: Instant::from_nanos(0),
    })));
}

#[test]
fn parse_accepts_default_example() {
    assert!(parse(EXAMPLE).is_ok());
}

#[test]
fn parse_error_mentions_accepted_example() {
    let error = parse("Shift+Ctrl").unwrap_err();
    assert!(error.contains(EXAMPLE), "error was {error:?}");
    assert!(error.starts_with("invalid hotkey \"Shift+Ctrl\": "), "error was {error:?}");
}

#[test]
fn invalid_hotkey_quotes_the_hotkey() {
    assert_eq!(
        invalid_hotkey("a\"b", "oops"),
        "invalid hotkey \"a\\\"b\": oops (accepted example: Ctrl+Alt+KeyJ)"
    );
}

#[test]
fn missing_discovery_file_asks_to_enable_the_api_server() {
    assert_eq!(
        discovery_notice(&DiscoveryError::Missing("/x/discovery.json".into())),
        "TypeWhisper API unavailable \u{2014} enable API Server in Settings \u{2192} Advanced"
    );
    assert_eq!(
        discovery_notice(&DiscoveryError::Parse("bad".into())),
        "invalid discovery file: bad"
    );
}
