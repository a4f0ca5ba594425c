use voice_journal::clock::LocalTime;
use voice_journal::journal::{append_text, format_entry, JournalError};

fn ts() -> LocalTime {
    LocalTime {
        year: 2026,
        month: 9,
        day: 11,
        hour: 14,
        minute: 32,
    }
}

/// Appends `text` to `content` the way the program writes the journal.
fn append(content: &mut String, text: &str) -> Result<(), JournalError> {
    let last = content.as_bytes().last().copied();
    let added = append_text(last, text, ts())?;
    content.push_str(&added);
    Ok(())
}

#[test]
fn formats_single_line_bullet() {
    assert_eq!(
        format_entry("hello world", ts()),
        "- 2026-09-11 14:32 — hello world\n"
    );
}

#[test]
fn flattens_newlines_and_collapses_whitespace() {
    assert_eq!(
        format_entry("  line one\n\nline   two \t", ts()),
        "- 2026-09-11 14:32 — line one line two\n"
    );
}

#[test]
fn creates_header_for_new_file() {
    let mut content = String::new();
    append(&mut content, "first").unwrap();
    assert_eq!(content, "# Voice Journal\n\n- 2026-09-11 14:32 — first\n");
}

#[test]
fn inserts_newline_before_entry_when_file_missing_trailing_newline() {
    let mut content = String::from("# Voice Journal\n\n- old entry");
    append(&mut content, "new one").unwrap();
    assert!(content.ends_with("- old entry\n- 2026-09-11 14:32 — new one\n"));
}

#[test]
fn appends_in_order() {
    let mut content = String::new();
    append(&mut content, "one").unwrap();
    append(&mut content, "two").unwrap();
    assert!(content.ends_with("— one\n- 2026-09-11 14:32 — two\n"));
}

#[test]
fn rejects_empty_text() {
    assert!(matches!(
        append_text(None, "   \n", ts()),
        Err(JournalError::Empty)
    ));
    assert!(matches!(append_text(Some(b'\n'), "", ts()), Err(JournalError::Empty)));
}

#[test]
fn writes_header_into_empty_existing_file() {
    let mut content = String::new();
    append(&mut content, "first").unwrap();
    assert_eq!(content, "# Voice Journal\n\n- 2026-09-11 14:32 — first\n");
}

#[test]
fn existing_file_ending_in_newline_gets_only_the_entry() {
    assert_eq!(
        append_text(Some(b'\n'), "hi", ts()).unwrap(),
        "- 2026-09-11 14:32 — hi\n"
    );
}

#[test]
fn stamp_pads_single_digits() {
    let t = LocalTime {
        year: 987,
        month: 1,
        day: 2,
        hour: 3,
        minute: 4,
    };
    assert_eq!(format_entry("x", t), "- 0987-01-02 03:04 — x\n");
}

#[test]
fn stamp_signs_years_outside_four_digits() {
    let mut t = ts();
    t.year = 12345;
    assert_eq!(format_entry("x", t), "- +12345-09-11 14:32 — x\n");
    t.year = -44;
    assert_eq!(format_entry("x", t), "- -0044-09-11 14:32 — x\n");
}

#[test]
fn unicode_whitespace_is_collapsed() {
    assert_eq!(
        format_entry("a\u{a0}\u{2003}b\u{3000}", ts()),
        "- 2026-09-11 14:32 — a b\n"
    );
}

#[test]
fn journal_errors_describe_themselves() {
    assert_eq!(JournalError::Empty.describe(), "transcript is empty");
    assert_eq!(
        JournalError::Io("denied".into()).describe(),
        "journal io error: denied"
    );
}

#[test]
fn an_entry_is_exactly_one_line() {
    let entry = format_entry("one\ntwo\r\nthree\u{2028}four\u{85}five", ts());
    assert_eq!(entry, "- 2026-09-11 14:32 — one two three four five\n");
    assert_eq!(entry.matches('\n').count(), 1);
    assert!(entry.starts_with("- ") && entry.ends_with('\n'));
}
