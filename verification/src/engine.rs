//! Recording session state machine.
//!
//! `toggle` starts a recording from `Idle` or `Error`, stops it from
//! `Recording`, and is ignored while `Finalizing`. `tick` polls a
//! finalizing session until it completes, fails, or runs past its deadline
//! of `max(120 s, 3 × recorded duration)` after the stop.
//!
//! Each step that depends on TypeWhisper's answer is a pure function of
//! that answer (`start_transition`, `stop_transition`, `poll_transition`),
//! and the engine's own contracts say that its new state is what that
//! function gives for the answer the API returned, whatever it was.
//!
//! The engine remembers the last output file the API named for the
//! session, and a poll that fails (TypeWhisper went away) names it in the
//! error, so that the audio can still be found.
use crate::api::{api_error_text, logged, Api, ApiCall, ApiError, RecorderSession, SessionStatus};
use crate::clock::{Duration, Instant, MAX_NANOS, NANOS_PER_SEC};
use vstd::prelude::*;

verus! {

/// The shortest wait for a transcript after a recording stops.
pub const MIN_TIMEOUT_SECS: u64 = 120;

/// How long `shutdown` sleeps between two polls.
pub const POLL_INTERVAL_MILLIS: u64 = 250;

#[derive(Debug, Clone, PartialEq, Eq)]
pub enum State {
    Idle,
    Recording { id: String, started: Instant },
    Finalizing { id: String, deadline: Instant },
    Error { message: String },
}

/// What a step of the engine reports to its caller.
#[derive(Debug, Clone, PartialEq, Eq)]
pub enum Update {
    Nothing,
    /// The session completed; `duration` is how long it recorded.
    Transcribed { text: Option<String>, output_file: Option<String>, duration: Duration },
    Error(String),
}

/// `st` is the error state carrying `msg`, and `up` reports the same text.
pub open spec fn failed(st: State, up: Update, msg: Seq<char>) -> bool {
    &&& st matches State::Error { message } && message@ == msg
    &&& up matches Update::Error(m) && m@ == msg
}

/// The name `{:?}` gives a status.
pub open spec fn status_name(s: SessionStatus) -> Seq<char> {
    match s {
        SessionStatus::Recording => "Recording"@,
        SessionStatus::Finalizing => "Finalizing"@,
        SessionStatus::Completed => "Completed"@,
        SessionStatus::Failed => "Failed"@,
    }
}

pub open spec fn unexpected_start_text(s: SessionStatus) -> Seq<char> {
    "unexpected start status: "@ + status_name(s)
}

pub open spec fn timed_out_text() -> Seq<char> {
    "timed out waiting for transcription"@
}

pub open spec fn transcription_failed_text() -> Seq<char> {
    "transcription failed"@
}

/// Where starting a recording at `now` leads, given the API's answer.
pub open spec fn start_outcome(
    r: Result<RecorderSession, ApiError>,
    now: Instant,
    st: State,
    up: Update,
) -> bool {
    match r {
        Ok(s) => if s.status == SessionStatus::Recording {
            st == State::Recording { id: s.id, started: now } && up == Update::Nothing
        } else {
            failed(st, up, unexpected_start_text(s.status))
        },
        Err(e) => failed(st, up, api_error_text(e)),
    }
}

/// The recorded time from `started` to `now`; zero if the clock went back.
pub open spec fn elapsed_nanos(started: Instant, now: Instant) -> nat {
    if now@ >= started@ {
        (now@ - started@) as nat
    } else {
        0
    }
}

/// How long to wait for a transcript after recording for `elapsed`
/// nanoseconds: three times the recording, and at least 120 seconds.
pub open spec fn timeout_nanos(elapsed: nat) -> nat {
    let min = MIN_TIMEOUT_SECS * NANOS_PER_SEC;
    if 3 * elapsed >= min {
        3 * elapsed
    } else {
        min as nat
    }
}

/// Stopping at `now` a recording that began at `started` gives a deadline
/// that an `Instant` can hold.
pub open spec fn deadline_fits(started: Instant, now: Instant) -> bool {
    now@ + timeout_nanos(elapsed_nanos(started, now)) <= u64::MAX
}

/// Where stopping at `now` a recording that began at `started` leads,
/// given the API's answer; `recorded` is the recorded duration to keep for
/// the transcript, known once the stop succeeded.
pub open spec fn stop_outcome(
    r: Result<RecorderSession, ApiError>,
    started: Instant,
    now: Instant,
    st: State,
    recorded: Option<Duration>,
    up: Update,
) -> bool {
    match r {
        Ok(s) => {
            &&& st matches State::Finalizing { id, deadline } && id == s.id && deadline@ == now@
                + timeout_nanos(elapsed_nanos(started, now))
            &&& recorded matches Some(d) && d@ == elapsed_nanos(started, now)
            &&& up == Update::Nothing
        },
        Err(e) => failed(st, up, api_error_text(e)) && recorded is None,
    }
}

/// The text of an output file, if there is one.
pub open spec fn file_of(f: Option<String>) -> Option<Seq<char>> {
    match f {
        Some(p) => Some(p@),
        None => None,
    }
}

/// The last known output file of a session after the API answered `r`,
/// `known` being the one known before: a session record that names a file
/// replaces it.
pub open spec fn remembered(known: Option<Seq<char>>, r: Result<RecorderSession, ApiError>) -> Option<
    Seq<char>,
> {
    match r {
        Ok(s) => match s.output_file {
            Some(f) => Some(f@),
            None => known,
        },
        Err(_) => known,
    }
}

/// What an error from a failed poll adds about the recording: the last
/// known output file, where there is one, so that the audio can be found.
pub open spec fn file_note(known: Option<Seq<char>>) -> Seq<char> {
    match known {
        Some(f) => " (recording: "@ + f + ")"@,
        None => Seq::empty(),
    }
}

/// Where a poll of a finalizing session leads, given the API's answer:
/// `Some(st)` is the new state, `None` keeps the current one.
pub open spec fn poll_outcome(
    r: Result<RecorderSession, ApiError>,
    recorded: Duration,
    known_file: Option<Seq<char>>,
    st: Option<State>,
    up: Update,
) -> bool {
    match r {
        Ok(s) => match s.status {
            SessionStatus::Completed => st == Some(State::Idle) && up == (Update::Transcribed {
                text: s.text,
                output_file: s.output_file,
                duration: recorded,
            }),
            SessionStatus::Failed => st is Some && failed(
                st.unwrap(),
                up,
                match s.error {
                    Some(m) => m@,
                    None => transcription_failed_text(),
                },
            ),
            _ => st is None && up == Update::Nothing,
        },
        Err(e) => st is Some && failed(st.unwrap(), up, api_error_text(e) + file_note(known_file)),
    }
}

/// The error state for `message`, and the update that reports it.
fn failure(message: String) -> (out: (State, Update))
    ensures
        failed(out.0, out.1, message@),
{
    let reported = message.clone();
    (State::Error { message }, Update::Error(reported))
}

/// The `{:?}` name of a status.
fn push_status_name(out: &mut String, s: SessionStatus)
    ensures
        final(out)@ == old(out)@ + status_name(s),
{
    match s {
        SessionStatus::Recording => out.push_str("Recording"),
        SessionStatus::Finalizing => out.push_str("Finalizing"),
        SessionStatus::Completed => out.push_str("Completed"),
        SessionStatus::Failed => out.push_str("Failed"),
    }
}

/// The new state after asking the API to start recording at `now`.
pub fn start_transition(result: Result<RecorderSession, ApiError>, now: Instant) -> (out: (
    State,
    Update,
))
    ensures
        start_outcome(result, now, out.0, out.1),
{
    match result {
        Ok(session) => {
            match session.status {
                SessionStatus::Recording => (
                    State::Recording { id: session.id, started: now },
                    Update::Nothing,
                ),
                status => {
                    let mut message = String::new();
                    message.push_str("unexpected start status: ");
                    push_status_name(&mut message, status);
                    proof {
                        reveal_strlit("unexpected start status: ");
                        assert(message@ =~= unexpected_start_text(status));
                    }
                    failure(message)
                },
            }
        },
        Err(e) => failure(e.describe()),
    }
}

/// The new state after asking the API, at `now`, to stop a recording that
/// began at `started`; the middle value is the recorded duration, once the
/// stop succeeded.
pub fn stop_transition(
    result: Result<RecorderSession, ApiError>,
    started: Instant,
    now: Instant,
) -> (out: (State, Option<Duration>, Update))
    requires
        deadline_fits(started, now),
    ensures
        stop_outcome(result, started, now, out.0, out.1, out.2),
{
    match result {
        Ok(session) => {
            let elapsed = match now.checked_duration_since(started) {
                Some(d) => d,
                None => Duration::zero(),
            };
            assert(elapsed@ == elapsed_nanos(started, now));
            assert(3 * elapsed@ <= MAX_NANOS);
            let timeout = Duration::from_secs(MIN_TIMEOUT_SECS).max(elapsed.saturating_mul(3));
            assert(timeout@ == timeout_nanos(elapsed@));
            let deadline = now.plus(timeout);
            (State::Finalizing { id: session.id, deadline }, Some(elapsed), Update::Nothing)
        },
        Err(e) => {
            let (st, up) = failure(e.describe());
            (st, None, up)
        },
    }
}

/// The new state after polling a finalizing session: `None` when the
/// session is still recording or finalizing. `recorded` is reported with a
/// completed transcript.
pub fn poll_transition(
    result: Result<RecorderSession, ApiError>,
    recorded: Duration,
    known_file: &Option<String>,
) -> (out: (Option<State>, Update))
    ensures
        poll_outcome(result, recorded, file_of(*known_file), out.0, out.1),
{
    match result {
        Ok(session) => match session.status {
            SessionStatus::Completed => (
                Some(State::Idle),
                Update::Transcribed {
                    text: session.text,
                    output_file: session.output_file,
                    duration: recorded,
                },
            ),
            SessionStatus::Failed => {
                let message = match session.error {
                    Some(m) => m,
                    None => {
                        let mut m = String::new();
                        m.push_str("transcription failed");
                        m
                    },
                };
                let (st, up) = failure(message);
                (Some(st), up)
            },
            _ => (None, Update::Nothing),
        },
        Err(e) => {
            let mut message = e.describe();
            match known_file {
                Some(f) => {
                    message.push_str(" (recording: ");
                    message.push_str(f.as_str());
                    message.push_str(")");
                    proof {
                        reveal_strlit(" (recording: ");
                        reveal_strlit(")");
                    }
                },
                None => {},
            }
            assert(message@ =~= api_error_text(e) + file_note(file_of(*known_file)));
            let (st, up) = failure(message);
            (Some(st), up)
        },
    }
}

/// The error text that `state` carries, if any.
pub open spec fn error_of(state: State) -> Option<Seq<char>> {
    match state {
        State::Error { message } => Some(message@),
        _ => None,
    }
}

pub struct Engine<A: Api> {
    api: A,
    state: State,
    last_error: Option<String>,
    recorded: Duration,
    output_file: Option<String>,
}

impl<A: Api> Engine<A> {
    /// The current state.
    pub closed spec fn spec_state(&self) -> State {
        self.state
    }

    /// The requests the engine's API was sent so far, where it keeps a
    /// record of them.
    pub closed spec fn spec_requests(&self) -> Option<Seq<ApiCall>> {
        self.api.request_log()
    }

    /// The last output file the API named for the current session.
    pub closed spec fn spec_output_file(&self) -> Option<Seq<char>> {
        file_of(self.output_file)
    }

    /// The duration of the last stopped recording.
    pub closed spec fn spec_recorded(&self) -> Duration {
        self.recorded
    }

    /// The last error is kept exactly as long as the engine is in its
    /// error state.
    pub closed spec fn wf(&self) -> bool {
        match self.last_error {
            Some(m) => error_of(self.state) == Some(m@),
            None => error_of(self.state) is None,
        }
    }

    /// Replaces the state and keeps the last error in step with it.
    fn set_state(&mut self, state: State)
        ensures
            final(self).spec_state() == state,
            final(self).spec_recorded() == old(self).spec_recorded(),
            final(self).spec_requests() == old(self).spec_requests(),
            final(self).spec_output_file() == old(self).spec_output_file(),
            final(self).wf(),
    {
        self.last_error = match &state {
            State::Error { message } => Some(message.clone()),
            _ => None,
        };
        self.state = state;
    }

    /// Keeps the output file that the answer `result` names; a fresh
    /// session forgets the one known before.
    fn remember_file(&mut self, result: &Result<RecorderSession, ApiError>, fresh: bool)
        ensures
            final(self).spec_output_file() == remembered(
                if fresh {
                    None
                } else {
                    old(self).spec_output_file()
                },
                *result,
            ),
            final(self).spec_state() == old(self).spec_state(),
            final(self).spec_recorded() == old(self).spec_recorded(),
            final(self).spec_requests() == old(self).spec_requests(),
            old(self).wf() ==> final(self).wf(),
    {
        if fresh {
            self.output_file = None;
        }
        match result {
            Ok(session) => match &session.output_file {
                Some(f) => self.output_file = Some(f.clone()),
                None => {},
            },
            Err(_) => {},
        }
    }

    pub fn new(api: A) -> (e: Self)
        ensures
            e.spec_state() == State::Idle,
            e.spec_recorded()@ == 0,
            e.spec_requests() == api.request_log(),
            e.spec_output_file() is None,
            e.wf(),
    {
        Engine {
            api,
            state: State::Idle,
            last_error: None,
            recorded: Duration::zero(),
            output_file: None,
        }
    }

    pub fn state(&self) -> (s: &State)
        ensures
            *s == self.spec_state(),
    {
        &self.state
    }

    /// The message of the error state the engine is in, if it is in one.
    pub fn last_error(&self) -> (m: Option<&str>)
        requires
            self.wf(),
        ensures
            match error_of(self.spec_state()) {
                Some(t) => m is Some && m.unwrap()@ == t,
                None => m is None,
            },
    {
        match &self.last_error {
            Some(m) => Some(m.as_str()),
            None => None,
        }
    }

    /// Whether a stopped session is waiting for its transcript.
    pub fn is_finalizing(&self) -> (b: bool)
        ensures
            b == (self.spec_state() is Finalizing),
    {
        match &self.state {
            State::Finalizing { .. } => true,
            _ => false,
        }
    }

    /// When the current recording began, if one is running.
    pub fn started_at(&self) -> (t: Option<Instant>)
        ensures
            match self.spec_state() {
                State::Recording { started, .. } => t == Some(started),
                _ => t is None,
            },
    {
        match &self.state {
            State::Recording { started, .. } => Some(*started),
            _ => None,
        }
    }

    /// Whether `toggle(now)` is defined: a stop at `now` must give a
    /// deadline that an `Instant` can hold.
    pub open spec fn can_toggle(&self, now: Instant) -> bool {
        self.spec_state() matches State::Recording { started, .. } ==> deadline_fits(started, now)
    }

    /// Whether `toggle(now)` is defined (see `can_toggle`).
    pub fn toggle_fits(&self, now: Instant) -> (b: bool)
        ensures
            b == self.can_toggle(now),
    {
        match &self.state {
            State::Recording { started, .. } => {
                let elapsed = match now.checked_duration_since(*started) {
                    Some(d) => d,
                    None => Duration::zero(),
                };
                let min: u64 = MIN_TIMEOUT_SECS * 1_000_000_000;
                let e: u128 = elapsed.as_nanos();
                let timeout: u128 = if 3 * e >= min as u128 {
                    3 * e
                } else {
                    min as u128
                };
                now.as_nanos() as u128 + timeout <= u64::MAX as u128
            },
            _ => true,
        }
    }

    /// The hotkey was pressed at `now`: start recording from `Idle` or
    /// `Error`, stop it from `Recording`, do nothing while `Finalizing`.
    pub fn toggle(&mut self, now: Instant) -> (u: Update)
        requires
            old(self).wf(),
            old(self).can_toggle(now),
        ensures
            final(self).wf(),
            match old(self).spec_state() {
                State::Recording { started, .. } => {
                    &&& final(self).spec_requests() == logged(
                        old(self).spec_requests(),
                        ApiCall::Stop,
                    )
                    &&& exists|r: Result<RecorderSession, ApiError>, rec: Option<Duration>|
                        #![auto]
                        stop_outcome(r, started, now, final(self).spec_state(), rec, u)
                            && final(self).spec_recorded() == match rec {
                            Some(d) => d,
                            None => old(self).spec_recorded(),
                        } && final(self).spec_output_file() == remembered(
                            old(self).spec_output_file(),
                            r,
                        )
                },
                State::Finalizing { .. } => {
                    &&& final(self).spec_state() == old(self).spec_state()
                    &&& final(self).spec_recorded() == old(self).spec_recorded()
                    &&& final(self).spec_requests() == old(self).spec_requests()
                    &&& final(self).spec_output_file() == old(self).spec_output_file()
                    &&& u == Update::Nothing
                },
                _ => {
                    &&& final(self).spec_requests() == logged(
                        old(self).spec_requests(),
                        ApiCall::Start,
                    )
                    &&& exists|r: Result<RecorderSession, ApiError>|
                        #![auto]
                        start_outcome(r, now, final(self).spec_state(), u)
                            && final(self).spec_output_file() == remembered(None, r)
                    &&& final(self).spec_recorded() == old(self).spec_recorded()
                },
            },
    {
        match &self.state {
            State::Recording { started, .. } => {
                let started = *started;
                let result = self.api.stop();
                let ghost r = result;
                self.remember_file(&result, false);
                let (st, recorded, up) = stop_transition(result, started, now);
                match recorded {
                    Some(d) => self.recorded = d,
                    None => {},
                }
                self.set_state(st);
                assert(stop_outcome(r, started, now, self.spec_state(), recorded, up));
                up
            },
            State::Finalizing { .. } => Update::Nothing,
            _ => {
                let result = self.api.start();
                let ghost r = result;
                self.remember_file(&result, true);
                let (st, up) = start_transition(result, now);
                self.set_state(st);
                assert(start_outcome(r, now, self.spec_state(), up));
                up
            },
        }
    }

    /// A poll at `now`: while `Finalizing`, give up past the deadline or
    /// ask the API how the session is doing; otherwise do nothing.
    pub fn tick(&mut self, now: Instant) -> (u: Update)
        requires
            old(self).wf(),
        ensures
            final(self).wf(),
            final(self).spec_recorded() == old(self).spec_recorded(),
            match old(self).spec_state() {
                State::Finalizing { id, deadline } => if now@ >= deadline@ {
                    &&& failed(final(self).spec_state(), u, timed_out_text())
                    &&& final(self).spec_requests() == old(self).spec_requests()
                    &&& final(self).spec_output_file() == old(self).spec_output_file()
                } else {
                    &&& final(self).spec_requests() == logged(
                        old(self).spec_requests(),
                        ApiCall::Session(id@),
                    )
                    &&& exists|r: Result<RecorderSession, ApiError>, st: Option<State>|
                        #![auto]
                        poll_outcome(r, old(self).spec_recorded(), old(self).spec_output_file(), st, u)
                            && final(self).spec_state() == match st {
                            Some(s) => s,
                            None => old(self).spec_state(),
                        } && final(self).spec_output_file() == remembered(
                            old(self).spec_output_file(),
                            r,
                        )
                },
                _ => {
                    &&& final(self).spec_state() == old(self).spec_state()
                    &&& final(self).spec_requests() == old(self).spec_requests()
                    &&& final(self).spec_output_file() == old(self).spec_output_file()
                    &&& u == Update::Nothing
                },
            },
    {
        let (id, deadline) = match &self.state {
            State::Finalizing { id, deadline } => (id.clone(), *deadline),
            _ => return Update::Nothing,
        };
        if now.at_or_after(&deadline) {
            let mut message = String::new();
            message.push_str("timed out waiting for transcription");
            let (st, up) = failure(message);
            self.set_state(st);
            return up;
        }
        let result = self.api.session(id.as_str());
        let ghost r = result;
        let ghost known = self.spec_output_file();
        self.remember_file(&result, false);
        let (next, up) = poll_transition(result, self.recorded, &self.output_file);
        match next {
            Some(st) => self.set_state(st),
            None => {},
        }
        assert(poll_outcome(r, self.spec_recorded(), known, next, up));
        up
    }
}

/// `log` with `k` more requests `call` appended, where there is a log.
pub open spec fn logged_times(log: Option<Seq<ApiCall>>, call: ApiCall, k: nat) -> Option<
    Seq<ApiCall>,
>
    decreases k,
{
    if k == 0 {
        log
    } else {
        logged(logged_times(log, call, (k - 1) as nat), call)
    }
}

/// How many polls `shutdown` allows itself when its clock first reads
/// `start`: one per poll interval from `start` to `give_up_at`, and one
/// more; none when `give_up_at` has passed.
pub open spec fn poll_budget(start: Instant, give_up_at: Instant) -> nat {
    if give_up_at@ >= start@ {
        (give_up_at@ - start@) as nat / (POLL_INTERVAL_MILLIS * 1_000_000) as nat + 1
    } else {
        0
    }
}

/// Where polling from state `from`, with request log `log`, may end in
/// state `to` with request log `log_to`: a finalizing session is asked
/// about, by its id, at most `budget` times, and is still finalizing at the
/// end only if its state is unchanged and either the clock reached the
/// time to give up (`gave_up`) or the whole budget was spent. Any other
/// state is left alone, with no request.
pub open spec fn polling_outcome(
    from: State,
    log: Option<Seq<ApiCall>>,
    to: State,
    log_to: Option<Seq<ApiCall>>,
    budget: nat,
    gave_up: bool,
) -> bool {
    match from {
        State::Finalizing { id, .. } => exists|k: nat|
            #![trigger logged_times(log, ApiCall::Session(id@), k)]
            k <= budget && log_to == logged_times(log, ApiCall::Session(id@), k) && (
            to is Finalizing ==> to == from && (gave_up || k == budget)),
        _ => to == from && log_to == log,
    }
}

/// What `shutdown` reports, in order (`reported`), for an engine that went
/// from state `before` to state `after`, with recorded duration
/// `recorded` at the end: nothing where the engine was left as it was;
/// otherwise updates that say nothing but the last, which tells where the
/// engine ended: still finalizing, transcribed (with the recorded
/// duration) and idle, or failed with the error's text.
pub open spec fn reports_agree(
    reported: Seq<Update>,
    before: State,
    after: State,
    recorded: Duration,
) -> bool {
    &&& forall|i: int| 0 <= i < reported.len() - 1 ==> #[trigger] reported[i] == Update::Nothing
    &&& reported.len() == 0 ==> after == before
    &&& reported.len() > 0 ==> match reported.last() {
        Update::Nothing => after is Finalizing,
        Update::Transcribed { duration, .. } => after == State::Idle && duration == recorded,
        Update::Error(m) => error_of(after) == Some(m@),
    }
}

/// A copy of `u`.
fn copy_of(u: &Update) -> (c: Update)
    ensures
        c == *u,
{
    match u {
        Update::Nothing => Update::Nothing,
        Update::Transcribed { text, output_file, duration } => Update::Transcribed {
            text: match text {
                Some(t) => Some(t.clone()),
                None => None,
            },
            output_file: match output_file {
                Some(f) => Some(f.clone()),
                None => None,
            },
            duration: *duration,
        },
        Update::Error(m) => Update::Error(m.clone()),
    }
}

/// A shutdown that leaves a session it found running or finalizing idle
/// has reported its transcript last, and one whose last report is a
/// transcript has left the engine idle.
pub proof fn law_shutdown_reports_transcript(
    reported: Seq<Update>,
    before: State,
    after: State,
    recorded: Duration,
)
    requires
        reports_agree(reported, before, after, recorded),
        !(before is Idle),
    ensures
        after is Idle <==> (reported.len() > 0 && reported.last() is Transcribed),
{
}

/// What `shutdown` does to an engine (`before` to `after`) whose clock
/// first read `start`, given its poll budget and whether the clock reached
/// the time to give up: a recording is stopped at `start` where that is
/// defined, and the state after that is polled (`polling_outcome`).
pub open spec fn shutdown_outcome<A: Api>(
    before: Engine<A>,
    after: Engine<A>,
    start: Instant,
    budget: nat,
    gave_up: bool,
) -> bool {
    match before.spec_state() {
        State::Recording { started, .. } => if before.can_toggle(start) {
            exists|r: Result<RecorderSession, ApiError>, st: State, rec: Option<Duration>, up: Update|
                #![trigger stop_outcome(r, started, start, st, rec, up)]
                stop_outcome(r, started, start, st, rec, up) && after.spec_recorded() == match rec {
                    Some(d) => d,
                    None => before.spec_recorded(),
                } && polling_outcome(
                    st,
                    logged(before.spec_requests(), ApiCall::Stop),
                    after.spec_state(),
                    after.spec_requests(),
                    budget,
                    gave_up,
                )
        } else {
            &&& after.spec_state() == before.spec_state()
            &&& after.spec_recorded() == before.spec_recorded()
            &&& after.spec_requests() == before.spec_requests()
        },
        _ => {
            &&& after.spec_recorded() == before.spec_recorded()
            &&& polling_outcome(
                before.spec_state(),
                before.spec_requests(),
                after.spec_state(),
                after.spec_requests(),
                budget,
                gave_up,
            )
        },
    }
}

/// Quits cleanly: a running recording is stopped so that TypeWhisper
/// finalizes it, and a finalizing session is polled until it is done, or
/// until the clock reaches `give_up_at`, so that its transcript is still
/// reported. `clock` reads the time, `sleep` waits between polls, and
/// `on_update` receives every update with the state after it.
///
/// The recording is stopped at the clock's first reading `start`, unless a
/// stop then would give a deadline that an `Instant` cannot hold. The
/// number of polls is bounded by `poll_budget(start, give_up_at)`.
/// The updates handed to `on_update` are returned too, in order
/// (`reports_agree`): a final transcript is reported last.
pub fn shutdown<A: Api, C: FnMut() -> Instant, S: FnMut(Duration), U: FnMut(Update, &State)>(
    engine: &mut Engine<A>,
    give_up_at: Instant,
    mut clock: C,
    mut sleep: S,
    mut on_update: U,
) -> (reported: Vec<Update>)
    requires
        old(engine).wf(),
        forall|x: ()| #[trigger] clock.requires(x),
        forall|d: (Duration,)| #[trigger] sleep.requires(d),
        forall|a: (Update, &State)| #[trigger] on_update.requires(a),
    ensures
        final(engine).wf(),
        exists|start: Instant|
            #![trigger clock.ensures((), start)]
            clock.ensures((), start) && shutdown_outcome(
                *old(engine),
                *final(engine),
                start,
                poll_budget(start, give_up_at),
                exists|t: Instant| #[trigger] clock.ensures((), t) && t@ >= give_up_at@,
            ),
        reports_agree(
            reported@,
            old(engine).spec_state(),
            final(engine).spec_state(),
            final(engine).spec_recorded(),
        ),
{
    broadcast use vstd::function::group_function_axioms;

    let ghost clock_at_entry = clock;
    let start = clock();
    let ghost mut stopped = false;
    let mut reported: Vec<Update> = Vec::new();
    if engine.started_at().is_some() && engine.toggle_fits(start) {
        let update = engine.toggle(start);
        proof {
            stopped = true;
        }
        on_update(copy_of(&update), engine.state());
        reported.push(update);
    }
    let ghost state_after = engine.spec_state();
    let ghost recorded_after = engine.spec_recorded();
    let ghost log_after = engine.spec_requests();
    assert(stopped ==> (old(engine).spec_state() matches State::Recording { started, .. }
        && old(engine).can_toggle(start) && log_after == logged(
        old(engine).spec_requests(),
        ApiCall::Stop,
    ) && exists|r: Result<RecorderSession, ApiError>, rec: Option<Duration>, up: Update|
        #![trigger stop_outcome(r, started, start, state_after, rec, up)]
        stop_outcome(r, started, start, state_after, rec, up) && recorded_after == match rec {
            Some(d) => d,
            None => old(engine).spec_recorded(),
        }));
    let interval = Duration::from_millis(POLL_INTERVAL_MILLIS);
    let mut polls: u128 = match give_up_at.checked_duration_since(start) {
        Some(left) => left.as_nanos() / interval.as_nanos() + 1,
        None => 0,
    };
    let ghost budget = poll_budget(start, give_up_at);
    assert(polls == budget);
    let ghost mut k: nat = 0;
    let ghost mut gave_up = false;
    while polls > 0 && engine.is_finalizing()
        invariant
            engine.wf(),
            forall|x: ()| #[trigger] clock.requires(x),
            forall|d: (Duration,)| #[trigger] sleep.requires(d),
            forall|a: (Update, &State)| #[trigger] on_update.requires(a),
            clock == clock_at_entry,
            clock.ensures((), start),
            reports_agree(
                reported@,
                old(engine).spec_state(),
                engine.spec_state(),
                engine.spec_recorded(),
            ),
            engine.spec_state() is Finalizing ==> forall|i: int|
                0 <= i < reported@.len() ==> #[trigger] reported@[i] == Update::Nothing,
            engine.spec_recorded() == recorded_after,
            stopped ==> (old(engine).spec_state() matches State::Recording { started, .. }
                && old(engine).can_toggle(start) && log_after == logged(
                old(engine).spec_requests(),
                ApiCall::Stop,
            ) && exists|r: Result<RecorderSession, ApiError>, rec: Option<Duration>, up: Update|
                #![trigger stop_outcome(r, started, start, state_after, rec, up)]
                stop_outcome(r, started, start, state_after, rec, up) && recorded_after
                    == match rec {
                    Some(d) => d,
                    None => old(engine).spec_recorded(),
                }),
            !stopped ==> (state_after == old(engine).spec_state() && log_after == old(
                engine,
            ).spec_requests() && recorded_after == old(engine).spec_recorded() && (old(
                engine,
            ).spec_state() is Recording ==> !old(engine).can_toggle(start))),
            polls + k <= budget,
            engine.spec_state() is Finalizing ==> polls + k == budget,
            gave_up ==> exists|t: Instant| #[trigger]
                clock.ensures((), t) && t@ >= give_up_at@,
            match state_after {
                State::Finalizing { id, .. } => {
                    &&& engine.spec_requests() == logged_times(
                        log_after,
                        ApiCall::Session(id@),
                        k,
                    )
                    &&& engine.spec_state() is Finalizing ==> engine.spec_state() == state_after
                },
                _ => engine.spec_state() == state_after && engine.spec_requests() == log_after,
            },
        ensures
            engine.spec_state() is Finalizing ==> gave_up || polls == 0,
        decreases polls,
    {
        let now = clock();
        if now.at_or_after(&give_up_at) {
            proof {
                gave_up = true;
            }
            break;
        }
        let update = engine.tick(now);
        proof {
            if let State::Finalizing { deadline, .. } = state_after {
                if now@ < deadline@ {
                    k = k + 1;
                }
            }
        }
        let pending = engine.is_finalizing();
        on_update(copy_of(&update), engine.state());
        reported.push(update);
        if pending {
            sleep(interval);
        }
        polls = polls - 1;
    }
    proof {
        let g = exists|t: Instant| #[trigger] clock.ensures((), t) && t@ >= give_up_at@;
        if let State::Finalizing { id, .. } = state_after {
            assert(logged_times(log_after, ApiCall::Session(id@), k) == engine.spec_requests());
        }
        if let State::Recording { started, .. } = old(engine).spec_state() {
            if stopped {
                let (r, rec, up) = choose|
                    r: Result<RecorderSession, ApiError>,
                    rec: Option<Duration>,
                    up: Update,
                |
                    stop_outcome(r, started, start, state_after, rec, up) && recorded_after
                        == match rec {
                        Some(d) => d,
                        None => old(engine).spec_recorded(),
                    };
                assert(stop_outcome(r, started, start, state_after, rec, up));
            }
        }
        assert(shutdown_outcome(*old(engine), *engine, start, budget, g));
    }
    reported
}

/// The wait for a transcript is never shorter than 120 seconds, nor than
/// three times the recording, and it is the shorter of the two bounds that
/// hold.
pub proof fn law_timeout_covers_recording(elapsed: nat)
    ensures
        timeout_nanos(elapsed) >= MIN_TIMEOUT_SECS * NANOS_PER_SEC,
        timeout_nanos(elapsed) >= 3 * elapsed,
        timeout_nanos(elapsed) == MIN_TIMEOUT_SECS * NANOS_PER_SEC || timeout_nanos(elapsed) == 3
            * elapsed,
{
}

/// Whatever the API answers, an error update always leaves the engine in
/// the error state with the same text, and the engine only becomes idle
/// by reporting a transcript.
pub proof fn law_updates_agree_with_state(
    r: Result<RecorderSession, ApiError>,
    now: Instant,
    started: Instant,
    recorded: Duration,
    st: State,
    rec: Option<Duration>,
    known_file: Option<Seq<char>>,
    next: Option<State>,
    up: Update,
)
    ensures
        start_outcome(r, now, st, up) ==> (up matches Update::Error(m) ==> error_of(st) == Some(
            m@,
        )),
        stop_outcome(r, started, now, st, rec, up) ==> (up matches Update::Error(m) ==> error_of(
            st,
        ) == Some(m@)),
        poll_outcome(r, recorded, known_file, next, up) ==> (up matches Update::Error(m) ==> next is Some
            && error_of(next.unwrap()) == Some(m@)),
        poll_outcome(r, recorded, known_file, next, up) ==> (next == Some(State::Idle) <==> up is Transcribed),
{
}

} // verus!

