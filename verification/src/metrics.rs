//! In-memory journaling metrics rendered in the tray menu: today's number
//! of recordings and their total time, and the last transcript with its
//! duration.
use crate::clock::{Date, Duration, LocalTime, MAX_NANOS, NANOS_PER_SEC};
use crate::text::{blank, dec, is_blank, push_decimal, trim, trimmed, truncated};
use vstd::prelude::*;

pub use crate::text::truncate;

verus! {

/// The longest transcript excerpt shown in the `Last:` line.
pub const MAX_LAST_CHARS: usize = 48;

#[derive(Debug, Clone, PartialEq, Eq)]
pub struct Metrics {
    day: Option<Date>,
    recordings: u32,
    total: Duration,
    last_text: Option<String>,
    last_duration: Option<Duration>,
}

impl Default for Metrics {
    fn default() -> (m: Self)
        ensures
            m.spec_day() is None,
            m.spec_recordings() == 0,
            m.spec_total()@ == 0,
            m.spec_last_text() is None,
            m.spec_last_duration() is None,
    {
        Metrics {
            day: None,
            recordings: 0,
            total: Duration::zero(),
            last_text: None,
            last_duration: None,
        }
    }
}

/// The text kept as the last transcript: the trimmed text of a recording
/// that said something.
pub open spec fn kept_text(text: Option<&str>, previous: Option<Seq<char>>) -> Option<Seq<char>> {
    match text {
        Some(t) => if blank(t@) {
            previous
        } else {
            Some(trimmed(t@))
        },
        None => previous,
    }
}

/// `after` is what `record(text, duration, now)` makes of `before`.
pub open spec fn recorded(
    before: Metrics,
    text: Option<&str>,
    duration: Duration,
    now: LocalTime,
    after: Metrics,
) -> bool {
    let same_day = before.spec_day() == Some(now.date());
    &&& after.spec_day() == Some(now.date())
    &&& after.spec_recordings() == if same_day {
        before.spec_recordings() + 1
    } else {
        1
    }
    &&& after.spec_total()@ == if same_day {
        before.spec_total()@ + duration@
    } else {
        duration@
    }
    &&& after.spec_last_duration() == Some(duration)
    &&& after.spec_last_text() == kept_text(text, before.spec_last_text())
}

impl Metrics {
    /// The day the counters belong to.
    pub closed spec fn spec_day(&self) -> Option<Date> {
        self.day
    }

    /// Recordings made on that day.
    pub closed spec fn spec_recordings(&self) -> nat {
        self.recordings as nat
    }

    /// Their total recorded time.
    pub closed spec fn spec_total(&self) -> Duration {
        self.total
    }

    /// The last transcript that said something.
    pub closed spec fn spec_last_text(&self) -> Option<Seq<char>> {
        match self.last_text {
            Some(t) => Some(t@),
            None => None,
        }
    }

    /// How long the last recording took.
    pub closed spec fn spec_last_duration(&self) -> Option<Duration> {
        self.last_duration
    }

    /// Whether `record` can count a recording on `day` lasting `duration`:
    /// the counter and the total must stay representable.
    pub open spec fn can_record(&self, duration: Duration, day: Date) -> bool {
        self.spec_day() == Some(day) ==> self.spec_recordings() < u32::MAX && self.spec_total()@
            + duration@ <= MAX_NANOS
    }

    /// Whether `record(_, duration, now)` is defined (see `can_record`).
    pub fn record_fits(&self, duration: Duration, now: LocalTime) -> (b: bool)
        ensures
            b == self.can_record(duration, now.date()),
    {
        let day = now.date();
        let same_day = match self.day {
            Some(d) => d == day,
            None => false,
        };
        if !same_day {
            return true;
        }
        self.recordings < u32::MAX && self.total.as_nanos() <= MAX_NANOS - duration.as_nanos()
    }

    /// Counts a finished recording of `duration` made at `now`. The daily
    /// counters start over on a new day; a blank transcript leaves the last
    /// text as it was.
    pub fn record(&mut self, text: Option<&str>, duration: Duration, now: LocalTime)
        requires
            old(self).can_record(duration, now.date()),
        ensures
            final(self).spec_day() == Some(now.date()),
            final(self).spec_recordings() == if old(self).spec_day() == Some(now.date()) {
                old(self).spec_recordings() + 1
            } else {
                1
            },
            final(self).spec_total()@ == if old(self).spec_day() == Some(now.date()) {
                old(self).spec_total()@ + duration@
            } else {
                duration@
            },
            final(self).spec_last_duration() == Some(duration),
            final(self).spec_last_text() == kept_text(text, old(self).spec_last_text()),
            recorded(*old(self), text, duration, now, *final(self)),
    {
        let day = now.date();
        let same_day = match self.day {
            Some(d) => d == day,
            None => false,
        };
        if same_day {
            self.recordings = self.recordings + 1;
            self.total = self.total.plus(duration);
        } else {
            self.day = Some(day);
            self.recordings = 1;
            self.total = duration;
        }
        self.last_duration = Some(duration);
        match text {
            Some(t) => {
                if !is_blank(t) {
                    self.last_text = Some(trim(t));
                }
            },
            None => {},
        }
    }

    pub fn recordings(&self) -> (n: u32)
        ensures
            n == self.spec_recordings(),
    {
        self.recordings
    }

    pub fn total_duration(&self) -> (d: Duration)
        ensures
            d == self.spec_total(),
    {
        self.total
    }

    pub fn last_text(&self) -> (t: Option<&str>)
        ensures
            match self.spec_last_text() {
                Some(s) => t is Some && t.unwrap()@ == s,
                None => t is None,
            },
    {
        match &self.last_text {
            Some(t) => Some(t.as_str()),
            None => None,
        }
    }

    pub fn last_duration(&self) -> (d: Option<Duration>)
        ensures
            d == self.spec_last_duration(),
    {
        self.last_duration
    }
}

/// How `format_duration` renders `secs` whole seconds: the two largest
/// non-zero units among hours and minutes, or minutes and seconds, e.g.
/// `1h 23m`, `23m 41s`, `2m`, `41s`.
pub open spec fn duration_text(secs: nat) -> Seq<char> {
    let hours = secs / 3600;
    let minutes = (secs % 3600) / 60;
    let seconds = secs % 60;
    if hours > 0 {
        if minutes == 0 {
            dec(hours) + "h"@
        } else {
            dec(hours) + "h "@ + dec(minutes) + "m"@
        }
    } else if minutes > 0 {
        if seconds == 0 {
            dec(minutes) + "m"@
        } else {
            dec(minutes) + "m "@ + dec(seconds) + "s"@
        }
    } else {
        dec(seconds) + "s"@
    }
}

/// Whole seconds of a duration.
pub open spec fn whole_secs(d: Duration) -> nat {
    d@ / (NANOS_PER_SEC as nat)
}

/// The compact rendering of `duration` (sub-second parts are dropped).
pub fn format_duration(duration: Duration) -> (s: String)
    ensures
        s@ == duration_text(whole_secs(duration)),
{
    let secs = duration.as_secs();
    let hours = secs / 3600;
    let minutes = (secs % 3600) / 60;
    let seconds = secs % 60;
    let mut s = String::new();
    if hours > 0 {
        push_decimal(&mut s, hours);
        if minutes == 0 {
            s.push_str("h");
        } else {
            s.push_str("h ");
            push_decimal(&mut s, minutes);
            s.push_str("m");
        }
    } else if minutes > 0 {
        push_decimal(&mut s, minutes);
        if seconds == 0 {
            s.push_str("m");
        } else {
            s.push_str("m ");
            push_decimal(&mut s, seconds);
            s.push_str("s");
        }
    } else {
        push_decimal(&mut s, seconds);
        s.push_str("s");
    }
    proof {
        reveal_strlit("h");
        reveal_strlit("h ");
        reveal_strlit("m");
        reveal_strlit("m ");
        reveal_strlit("s");
        assert(s@ =~= duration_text(whole_secs(duration)));
    }
    s
}

/// The `Last:` menu line of `m`.
pub open spec fn last_line_text(m: Metrics) -> Seq<char> {
    let text = match m.spec_last_text() {
        Some(t) => "\""@ + truncated(t, MAX_LAST_CHARS as nat) + "\""@,
        None => "\u{2014}"@,
    };
    match m.spec_last_duration() {
        Some(d) => "Last: "@ + text + " ("@ + duration_text(whole_secs(d)) + ")"@,
        None => "Last: "@ + text,
    }
}

/// `Last: "<excerpt>" (<duration>)`, with `—` when no transcript said
/// anything yet and without the duration before the first recording.
pub fn last_line(metrics: &Metrics) -> (s: String)
    ensures
        s@ == last_line_text(*metrics),
{
    let mut s = String::new();
    s.push_str("Last: ");
    match metrics.last_text() {
        Some(text) => {
            s.push_str("\"");
            let short = truncate(text, MAX_LAST_CHARS);
            s.push_str(short.as_str());
            s.push_str("\"");
        },
        None => s.push_str("\u{2014}"),
    }
    match metrics.last_duration() {
        Some(d) => {
            s.push_str(" (");
            let shown = format_duration(d);
            s.push_str(shown.as_str());
            s.push_str(")");
        },
        None => {},
    }
    proof {
        reveal_strlit("Last: ");
        reveal_strlit("\"");
        reveal_strlit("\u{2014}");
        reveal_strlit(" (");
        reveal_strlit(")");
        assert(s@ =~= last_line_text(*metrics));
    }
    s
}

/// The `Today:` menu line of `m`.
pub open spec fn today_line_text(m: Metrics) -> Seq<char> {
    let count = m.spec_recordings();
    if count == 0 {
        "Today: no recordings"@
    } else {
        "Today: "@ + dec(count) + (if count == 1 {
            " recording"@
        } else {
            " recordings"@
        }) + " \u{b7} "@ + duration_text(whole_secs(m.spec_total()))
    }
}

/// `Today: <n> recording(s) · <total>`, or `Today: no recordings`.
pub fn today_line(metrics: &Metrics) -> (s: String)
    ensures
        s@ == today_line_text(*metrics),
{
    let count = metrics.recordings();
    let mut s = String::new();
    if count == 0 {
        s.push_str("Today: no recordings");
    } else {
        s.push_str("Today: ");
        push_decimal(&mut s, count as u64);
        if count == 1 {
            s.push_str(" recording");
        } else {
            s.push_str(" recordings");
        }
        s.push_str(" \u{b7} ");
        let total = format_duration(metrics.total_duration());
        s.push_str(total.as_str());
    }
    proof {
        reveal_strlit("Today: no recordings");
        reveal_strlit("Today: ");
        reveal_strlit(" recording");
        reveal_strlit(" recordings");
        reveal_strlit(" \u{b7} ");
        assert(s@ =~= today_line_text(*metrics));
    }
    s
}

/// The `Today:` line shows the day's total recorded time, the sum of every
/// duration recorded that day, not that of any one recording: after a
/// first recording of `first` on a new day it reads
/// `Today: 1 recording · <first>`, and after a second of `second` on the
/// same day `Today: 2 recordings · <first + second>`.
pub proof fn law_today_line_sums_the_day(
    m0: Metrics,
    text1: Option<&str>,
    first: Duration,
    at1: LocalTime,
    m1: Metrics,
    text2: Option<&str>,
    second: Duration,
    at2: LocalTime,
    m2: Metrics,
)
    requires
        m0.spec_day() != Some(at1.date()),
        at1.date() == at2.date(),
        recorded(m0, text1, first, at1, m1),
        recorded(m1, text2, second, at2, m2),
    ensures
        today_line_text(m1) == "Today: 1 recording \u{b7} "@ + duration_text(whole_secs(first)),
        today_line_text(m2) == "Today: 2 recordings \u{b7} "@ + duration_text(
            (first@ + second@) / (NANOS_PER_SEC as nat),
        ),
{
    reveal_strlit("Today: ");
    reveal_strlit(" recordings");
    reveal_strlit(" \u{b7} ");
    reveal_strlit("Today: 2 recordings \u{b7} ");
    reveal_strlit(" recording");
    reveal_strlit("Today: 1 recording \u{b7} ");
    assert(dec(2) =~= seq!['2']) by {
        reveal_with_fuel(dec, 2);
    }
    assert(dec(1) =~= seq!['1']) by {
        reveal_with_fuel(dec, 2);
    }
    assert(today_line_text(m1) =~= "Today: 1 recording \u{b7} "@ + duration_text(
        whole_secs(first),
    ));
    assert(today_line_text(m2) =~= "Today: 2 recordings \u{b7} "@ + duration_text(
        (first@ + second@) / (NANOS_PER_SEC as nat),
    ));
}

/// The `Last:` line shows the most recent transcript that said something,
/// quoted and cut to its first 48 characters (`—` when there is none), and
/// the duration of the most recent recording, whatever was recorded before
/// it.
pub proof fn law_last_line_shows_the_latest_duration(
    before: Metrics,
    text: Option<&str>,
    duration: Duration,
    now: LocalTime,
    after: Metrics,
)
    requires
        recorded(before, text, duration, now, after),
    ensures
        last_line_text(after) == "Last: "@ + match kept_text(text, before.spec_last_text()) {
            Some(t) => "\""@ + truncated(t, 48) + "\""@,
            None => "\u{2014}"@,
        } + " ("@ + duration_text(whole_secs(duration)) + ")"@,
{
}

} // verus!
