//! The output capturer's decision logic: reading a session's output is a
//! loop of observations (a line, a failed read, or end of stream), each
//! observed at some elapsed wall-clock time. This module decides, per
//! observation, what the buffer becomes and whether the session is to be
//! terminated or left running; the caller performs the actual reads and the
//! session operations and feeds the observations in.

use vstd::prelude::*;

verus! {

/// Wall-clock budget for one capture, in milliseconds: forty seconds. The
/// deadline is checked once per line read, so the actual overrun can exceed
/// the budget by up to one line's production latency.
pub const TIMEOUT_MS: u64 = 40000;

/// How long the caller waits between launching the session and beginning
/// the capture, to let the command start producing output.
pub const LAUNCH_DELAY_MS: u64 = 1000;

/// The marker appended in place of a line whose read failed.
pub open spec fn spec_read_failure_marker() -> Seq<char> {
    "<system>launch success, but failed to read line from stdout. </system>\n"@
}

/// The marker appended when the deadline is reached while output is still
/// arriving.
pub open spec fn spec_timeout_marker() -> Seq<char> {
    "<system>launch success, but timed out stdout/stderr. </system>\n"@
}

/// The marker noting that the command may still be executing in the session
/// that was left running.
pub open spec fn spec_still_running_marker() -> Seq<char> {
    "<system> command is still running. </system>\n"@
}

/// One observation handed to the capturer by the reader of the session's
/// output stream.
pub enum CaptureEvent {
    /// One line was read, without its trailing newline.
    Line(String),
    /// Reading one line failed for a transient reason.
    ReadFailure,
    /// The stream signalled end of output.
    EndOfStream,
}

/// The mathematical model of an observation.
pub ghost enum EventModel {
    Line(Seq<char>),
    ReadFailure,
    EndOfStream,
}

impl View for CaptureEvent {
    type V = EventModel;

    open spec fn view(&self) -> EventModel {
        match self {
            CaptureEvent::Line(l) => EventModel::Line(l@),
            CaptureEvent::ReadFailure => EventModel::ReadFailure,
            CaptureEvent::EndOfStream => EventModel::EndOfStream,
        }
    }
}

/// What the caller must do with the session after a step.
#[derive(Clone, Copy, PartialEq, Eq, Structural, Debug)]
pub enum CaptureAction {
    /// The capture is not finished: keep reading.
    Continue,
    /// The stream ended within the budget: terminate the session.
    TerminateSession,
    /// The budget elapsed first: stop reading and leave the session running.
    LeaveRunning,
}

/// The mathematical model of a capture in progress.
pub ghost struct CaptureModel {
    /// Everything appended so far, in the order read.
    pub output: Seq<char>,
    /// Whether the deadline was reached before the stream ended.
    pub timed_out: bool,
    /// Whether the capture has stopped taking observations.
    pub finished: bool,
}

/// What one observation appends to the buffer: the line with a newline, the
/// read-failure marker, or nothing at end of stream.
pub open spec fn spec_event_text(ev: EventModel) -> Seq<char> {
    match ev {
        EventModel::Line(l) => l + "\n"@,
        EventModel::ReadFailure => spec_read_failure_marker(),
        EventModel::EndOfStream => Seq::empty(),
    }
}

/// Whether this observation drives the capture over its deadline. The
/// deadline is checked after a line is appended, never at end of stream.
pub open spec fn spec_over_deadline(ev: EventModel, elapsed_ms: u64) -> bool {
    !(ev is EndOfStream) && elapsed_ms > TIMEOUT_MS
}

/// The capture after one observation. A finished capture ignores further
/// observations; end of stream finishes it with the buffer unchanged; an
/// observation over the deadline appends its text, then the timeout marker
/// and the still-running marker, and finishes with `timed_out` set; any
/// other observation appends its text and the capture continues.
pub open spec fn spec_step(m: CaptureModel, ev: EventModel, elapsed_ms: u64) -> CaptureModel {
    if m.finished {
        m
    } else if ev is EndOfStream {
        CaptureModel { finished: true, ..m }
    } else if spec_over_deadline(ev, elapsed_ms) {
        CaptureModel {
            output: m.output + spec_event_text(ev) + spec_timeout_marker()
                + spec_still_running_marker(),
            timed_out: true,
            finished: true,
        }
    } else {
        CaptureModel { output: m.output + spec_event_text(ev), ..m }
    }
}

/// The session action one observation decides, for an unfinished capture.
pub open spec fn spec_action(ev: EventModel, elapsed_ms: u64) -> CaptureAction {
    if ev is EndOfStream {
        CaptureAction::TerminateSession
    } else if spec_over_deadline(ev, elapsed_ms) {
        CaptureAction::LeaveRunning
    } else {
        CaptureAction::Continue
    }
}

/// A capture in progress: the accumulated buffer and the timeout outcome.
pub struct CaptureState {
    output: String,
    timed_out: bool,
    finished: bool,
}

impl View for CaptureState {
    type V = CaptureModel;

    closed spec fn view(&self) -> CaptureModel {
        CaptureModel { output: self.output@, timed_out: self.timed_out, finished: self.finished }
    }
}

impl CaptureState {
    /// Begin a capture: empty buffer, not timed out, not finished.
    pub fn begin() -> (r: CaptureState)
        ensures
            r@.output == Seq::<char>::empty(),
            !r@.timed_out,
            !r@.finished,
    {
        CaptureState { output: String::new(), timed_out: false, finished: false }
    }

    /// The accumulated buffer.
    pub fn output_text(&self) -> (r: &str)
        ensures
            r@ == self@.output,
    {
        self.output.as_str()
    }

    /// Whether the deadline was reached before the stream ended.
    pub fn timed_out(&self) -> (r: bool)
        ensures
            r == self@.timed_out,
    {
        self.timed_out
    }

    /// Whether the capture takes no further observations.
    pub fn is_finished(&self) -> (r: bool)
        ensures
            r == self@.finished,
    {
        self.finished
    }

    /// Feed one observation, made `elapsed_ms` milliseconds after the
    /// capture began, and learn what to do with the session. `Continue` is
    /// returned exactly as long as the capture is unfinished.
    pub fn step(&mut self, event: &CaptureEvent, elapsed_ms: u64) -> (r: CaptureAction)
        requires
            !old(self)@.finished,
        ensures
            final(self)@ == spec_step(old(self)@, event@, elapsed_ms),
            r == spec_action(event@, elapsed_ms),
            r is Continue <==> !final(self)@.finished,
    {
        match event {
            CaptureEvent::EndOfStream => {
                self.finished = true;
                CaptureAction::TerminateSession
            },
            CaptureEvent::Line(l) => {
                self.output.append(l.as_str());
                self.output.append("\n");
                proof {
                    assert(self@.output =~= old(self)@.output + spec_event_text(event@));
                }
                self.deadline_check(elapsed_ms)
            },
            CaptureEvent::ReadFailure => {
                self.output.append(read_failure_marker());
                self.deadline_check(elapsed_ms)
            },
        }
    }

    /// The per-observation deadline check: over the deadline, the timeout
    /// and still-running markers are appended and the capture finishes.
    fn deadline_check(&mut self, elapsed_ms: u64) -> (r: CaptureAction)
        requires
            !old(self)@.finished,
        ensures
            elapsed_ms > TIMEOUT_MS ==> final(self)@ == (CaptureModel {
                output: old(self)@.output + spec_timeout_marker() + spec_still_running_marker(),
                timed_out: true,
                finished: true,
            }) && r == CaptureAction::LeaveRunning,
            elapsed_ms <= TIMEOUT_MS ==> final(self)@ == old(self)@
                && r == CaptureAction::Continue,
    {
        if elapsed_ms > TIMEOUT_MS {
            self.timed_out = true;
            self.finished = true;
            self.output.append(timeout_marker());
            self.output.append(still_running_marker());
            CaptureAction::LeaveRunning
        } else {
            CaptureAction::Continue
        }
    }
}

/// The marker appended in place of a line whose read failed.
pub fn read_failure_marker() -> (r: &'static str)
    ensures
        r@ == spec_read_failure_marker(),
{
    "<system>launch success, but failed to read line from stdout. </system>\n"
}

/// The marker appended when the deadline is reached.
pub fn timeout_marker() -> (r: &'static str)
    ensures
        r@ == spec_timeout_marker(),
{
    "<system>launch success, but timed out stdout/stderr. </system>\n"
}

/// The marker noting the command may still be executing.
pub fn still_running_marker() -> (r: &'static str)
    ensures
        r@ == spec_still_running_marker(),
{
    "<system> command is still running. </system>\n"
}

/// A whole capture run: the model after feeding each observation in turn.
pub open spec fn spec_run(m: CaptureModel, evs: Seq<(EventModel, u64)>) -> CaptureModel
    decreases evs.len(),
{
    if evs.len() == 0 {
        m
    } else {
        spec_run(spec_step(m, evs[0].0, evs[0].1), evs.drop_first())
    }
}

/// The observations' texts, concatenated in the order read.
pub open spec fn spec_events_text(evs: Seq<(EventModel, u64)>) -> Seq<char>
    decreases evs.len(),
{
    if evs.len() == 0 {
        Seq::empty()
    } else {
        spec_event_text(evs[0].0) + spec_events_text(evs.drop_first())
    }
}

/// A capture none of whose observations is over the deadline never times
/// out, and its buffer is exactly the initial buffer followed by each
/// observation's text in order: every line once, the read-failure marker
/// exactly once per failed read, and no timeout or still-running marker.
/// A failed read therefore never aborts the capture of later lines. The
/// capture finishes exactly when the stream ends.
pub proof fn lemma_run_within_deadline(m: CaptureModel, evs: Seq<(EventModel, u64)>)
    requires
        !m.finished,
        !m.timed_out,
        forall|k: int| 0 <= k < evs.len() ==> (#[trigger] evs[k]).1 <= TIMEOUT_MS,
        forall|k: int| 0 <= k < evs.len() - 1 ==> !((#[trigger] evs[k]).0 is EndOfStream),
    ensures
        !spec_run(m, evs).timed_out,
        spec_run(m, evs).output == m.output + spec_events_text(evs),
        spec_run(m, evs).finished <==> evs.len() > 0 && evs[evs.len() - 1].0 is EndOfStream,
    decreases evs.len(),
{
    if evs.len() == 0 {
        assert(m.output + spec_events_text(evs) =~= m.output);
    } else {
        let m1 = spec_step(m, evs[0].0, evs[0].1);
        if evs[0].0 is EndOfStream {
            assert(evs.len() == 1);
            assert(spec_run(m, evs) == spec_run(m1, evs.drop_first()));
            assert(spec_run(m1, evs.drop_first()) == m1);
            assert(m1.output + spec_events_text(evs.drop_first()) =~= m1.output);
            assert(spec_run(m, evs).output =~= m.output + spec_events_text(evs));
        } else {
            let rest = evs.drop_first();
            assert forall|k: int| 0 <= k < rest.len() implies (#[trigger] rest[k]).1
                <= TIMEOUT_MS by {
                assert(rest[k] == evs[k + 1]);
            }
            assert forall|k: int| 0 <= k < rest.len() - 1 implies !((#[trigger] rest[k]).0
                is EndOfStream) by {
                assert(rest[k] == evs[k + 1]);
            }
            lemma_run_within_deadline(m1, rest);
            assert(m1.output == m.output + spec_event_text(evs[0].0));
            assert(rest.len() > 0 ==> rest[rest.len() - 1] == evs[evs.len() - 1]);
            assert(spec_run(m, evs).output =~= m.output + spec_events_text(evs));
        }
    }
}

/// An observation over the deadline finishes the capture with `timed_out`
/// set, appends its text followed by the timeout marker and the marker that
/// the command may still be executing, and decides that the session is left
/// running.
pub proof fn lemma_timeout_leaves_session_running(m: CaptureModel, ev: EventModel, elapsed_ms: u64)
    requires
        !m.finished,
        !(ev is EndOfStream),
        elapsed_ms > TIMEOUT_MS,
    ensures
        spec_step(m, ev, elapsed_ms).timed_out,
        spec_step(m, ev, elapsed_ms).finished,
        spec_step(m, ev, elapsed_ms).output == m.output + spec_event_text(ev)
            + spec_timeout_marker() + spec_still_running_marker(),
        spec_action(ev, elapsed_ms) == CaptureAction::LeaveRunning,
{
}

/// End of stream within the budget finishes the capture with the buffer
/// unchanged and no timeout, and decides that the session is terminated.
pub proof fn lemma_end_of_stream_terminates(m: CaptureModel, elapsed_ms: u64)
    requires
        !m.finished,
    ensures
        spec_step(m, EventModel::EndOfStream, elapsed_ms).finished,
        spec_step(m, EventModel::EndOfStream, elapsed_ms).timed_out == m.timed_out,
        spec_step(m, EventModel::EndOfStream, elapsed_ms).output == m.output,
        spec_action(EventModel::EndOfStream, elapsed_ms) == CaptureAction::TerminateSession,
{
}

} // verus!
