use vstd::prelude::*;
use crate::channel::Channel;

verus! {

/// The multiplexer's state: one open/closed flag per channel, and whether
/// the session is still running. A channel goes from open to closed at most
/// once; a closed channel is never selected again. The session runs until
/// either read-directed channel reaches end-of-stream or the child, once the
/// operator's input is exhausted, is reaped — whichever comes first.
#[derive(Clone, Copy, Debug, PartialEq, Eq, Structural)]
pub struct SessionState {
    /// Operator input is still open (the child's input pipe is still held).
    pub input_open: bool,
    /// The child's stdout has not reached end-of-stream.
    pub output_open: bool,
    /// The child's stderr has not reached end-of-stream.
    pub error_open: bool,
    /// The session has not yet terminated.
    pub running: bool,
}

/// One readiness event the surrounding loop can observe: a line or an
/// end-of-stream on one of the three channels, or the child's exit once it
/// has been waited on.
#[derive(Debug, PartialEq, Eq)]
pub enum Event {
    /// The operator typed one line.
    InputLine(String),
    /// The operator's input stream reached end-of-stream.
    InputEof,
    /// The child produced one line on stdout.
    OutputLine(String),
    /// The child's stdout reached end-of-stream.
    OutputEof,
    /// The child produced one line on stderr.
    ErrorLine(String),
    /// The child's stderr reached end-of-stream.
    ErrorEof,
    /// The child has been waited on and is fully terminated.
    ChildExited,
}

/// What the surrounding loop must do in response to one event. The line
/// itself stays with the event; the action says where it goes.
#[derive(Clone, Copy, Debug, PartialEq, Eq, Structural)]
pub enum Action {
    /// Write the event's line to the child's input pipe, then tee it to the
    /// sink under the input prefix.
    ForwardInput,
    /// Write the event's line to the operator's stdout, then tee it to the
    /// sink under the output prefix.
    ForwardOutput,
    /// Write the event's line to the operator's stderr, then tee it to the
    /// sink under the error prefix.
    ForwardError,
    /// Release the child's input pipe, signalling end-of-input downstream.
    CloseChildInput,
    /// The session is over: stop the loop.
    Terminate,
}

/// The state every session starts in: all three channels open, running.
pub open spec fn initial_state() -> SessionState {
    SessionState { input_open: true, output_open: true, error_open: true, running: true }
}

/// Whether the loop may deliver this event in this state: each channel's
/// events only while that channel is open, and the child's exit only once
/// operator input has been exhausted — and nothing at all once the session
/// has terminated.
pub open spec fn event_enabled(s: SessionState, e: Event) -> bool {
    s.running && match e {
        Event::InputLine(_) => s.input_open,
        Event::InputEof => s.input_open,
        Event::OutputLine(_) => s.output_open,
        Event::OutputEof => s.output_open,
        Event::ErrorLine(_) => s.error_open,
        Event::ErrorEof => s.error_open,
        Event::ChildExited => !s.input_open,
    }
}

/// The state after one event. Lines leave the state unchanged; an
/// end-of-stream closes its channel; end-of-stream on either read-directed
/// channel, or the child's exit, ends the session.
pub open spec fn step_state(s: SessionState, e: Event) -> SessionState {
    match e {
        Event::InputLine(_) => s,
        Event::InputEof => SessionState { input_open: false, ..s },
        Event::OutputLine(_) => s,
        Event::OutputEof => SessionState { output_open: false, running: false, ..s },
        Event::ErrorLine(_) => s,
        Event::ErrorEof => SessionState { error_open: false, running: false, ..s },
        Event::ChildExited => SessionState { running: false, ..s },
    }
}

/// The action one event demands.
pub open spec fn step_action(e: Event) -> Action {
    match e {
        Event::InputLine(_) => Action::ForwardInput,
        Event::InputEof => Action::CloseChildInput,
        Event::OutputLine(_) => Action::ForwardOutput,
        Event::OutputEof => Action::Terminate,
        Event::ErrorLine(_) => Action::ForwardError,
        Event::ErrorEof => Action::Terminate,
        Event::ChildExited => Action::Terminate,
    }
}

/// The transcript entry one event contributes: line events contribute
/// exactly one entry, tagged with their channel; everything else contributes
/// none.
pub open spec fn tee_of(e: Event) -> Option<(Channel, Seq<char>)> {
    match e {
        Event::InputLine(l) => Some((Channel::Input, l@)),
        Event::OutputLine(l) => Some((Channel::Output, l@)),
        Event::ErrorLine(l) => Some((Channel::Error, l@)),
        Event::InputEof => None,
        Event::OutputEof => None,
        Event::ErrorEof => None,
        Event::ChildExited => None,
    }
}

/// The state after a whole sequence of events.
pub open spec fn run_state(s: SessionState, evs: Seq<Event>) -> SessionState
    decreases evs.len(),
{
    if evs.len() == 0 {
        s
    } else {
        step_state(run_state(s, evs.drop_last()), evs.last())
    }
}

/// Whether a sequence of events is a possible session history from state
/// `s`: each event is enabled in the state the ones before it produced.
pub open spec fn events_enabled(s: SessionState, evs: Seq<Event>) -> bool
    decreases evs.len(),
{
    evs.len() == 0 || (events_enabled(s, evs.drop_last())
        && event_enabled(run_state(s, evs.drop_last()), evs.last()))
}

/// The sink's transcript over a session history: each line event contributes
/// exactly one tagged entry, in event order; nothing else reaches the sink.
pub open spec fn transcript_of(evs: Seq<Event>) -> Seq<(Channel, Seq<char>)>
    decreases evs.len(),
{
    if evs.len() == 0 {
        Seq::empty()
    } else {
        let rest = transcript_of(evs.drop_last());
        match tee_of(evs.last()) {
            Some(t) => rest.push(t),
            None => rest,
        }
    }
}

/// The entries of a transcript that carry one channel's tag, in order.
pub open spec fn entries_from(entries: Seq<(Channel, Seq<char>)>, c: Channel) -> Seq<Seq<char>>
    decreases entries.len(),
{
    if entries.len() == 0 {
        Seq::empty()
    } else {
        let rest = entries_from(entries.drop_last(), c);
        if entries.last().0 == c {
            rest.push(entries.last().1)
        } else {
            rest
        }
    }
}

/// The lines written to the child's input over a session history, in order.
pub open spec fn child_feed_of(evs: Seq<Event>) -> Seq<Seq<char>>
    decreases evs.len(),
{
    if evs.len() == 0 {
        Seq::empty()
    } else {
        let rest = child_feed_of(evs.drop_last());
        match evs.last() {
            Event::InputLine(l) => rest.push(l@),
            _ => rest,
        }
    }
}

/// The lines written to the operator's own stdout over a session history.
pub open spec fn operator_stdout_of(evs: Seq<Event>) -> Seq<Seq<char>>
    decreases evs.len(),
{
    if evs.len() == 0 {
        Seq::empty()
    } else {
        let rest = operator_stdout_of(evs.drop_last());
        match evs.last() {
            Event::OutputLine(l) => rest.push(l@),
            _ => rest,
        }
    }
}

/// The lines written to the operator's own stderr over a session history.
pub open spec fn operator_stderr_of(evs: Seq<Event>) -> Seq<Seq<char>>
    decreases evs.len(),
{
    if evs.len() == 0 {
        Seq::empty()
    } else {
        let rest = operator_stderr_of(evs.drop_last());
        match evs.last() {
            Event::ErrorLine(l) => rest.push(l@),
            _ => rest,
        }
    }
}

/// How many of the events are line events (the only ones that reach the sink).
pub open spec fn line_event_count(evs: Seq<Event>) -> nat
    decreases evs.len(),
{
    if evs.len() == 0 {
        0
    } else {
        line_event_count(evs.drop_last()) + if tee_of(evs.last()) is Some {
            1nat
        } else {
            0nat
        }
    }
}

/// Tee completeness: over any session history, the transcript entries tagged
/// with the input channel are exactly, in order and each exactly once, the
/// lines forwarded to the child's input.
pub proof fn lemma_tee_completeness_input(evs: Seq<Event>)
    ensures
        entries_from(transcript_of(evs), Channel::Input) == child_feed_of(evs),
    decreases evs.len(),
{
    if evs.len() > 0 {
        lemma_tee_completeness_input(evs.drop_last());
        let base = transcript_of(evs.drop_last());
        match tee_of(evs.last()) {
            Some(t) => {
                assert(base.push(t).drop_last() =~= base);
            }
            None => {}
        }
    }
}

/// Tee fidelity for output: over any session history, the transcript entries
/// tagged with the output channel are exactly, in order and each exactly
/// once, the lines relayed to the operator's stdout; symmetrically for the
/// error channel and the operator's stderr.
pub proof fn lemma_tee_fidelity_output(evs: Seq<Event>)
    ensures
        entries_from(transcript_of(evs), Channel::Output) == operator_stdout_of(evs),
        entries_from(transcript_of(evs), Channel::Error) == operator_stderr_of(evs),
    decreases evs.len(),
{
    if evs.len() > 0 {
        lemma_tee_fidelity_output(evs.drop_last());
        let base = transcript_of(evs.drop_last());
        match tee_of(evs.last()) {
            Some(t) => {
                assert(base.push(t).drop_last() =~= base);
            }
            None => {}
        }
    }
}

/// No duplication: every line event contributes exactly one transcript entry,
/// so no source event can appear in the sink twice.
pub proof fn lemma_no_duplication(evs: Seq<Event>)
    ensures
        transcript_of(evs).len() == line_event_count(evs),
        line_event_count(evs) <= evs.len(),
    decreases evs.len(),
{
    if evs.len() > 0 {
        lemma_no_duplication(evs.drop_last());
    }
}

/// A channel transitions open to closed at most once: whatever events follow,
/// a closed channel stays closed, and a terminated session stays terminated.
pub proof fn lemma_closed_stays_closed(s: SessionState, evs: Seq<Event>)
    ensures
        !s.input_open ==> !run_state(s, evs).input_open,
        !s.output_open ==> !run_state(s, evs).output_open,
        !s.error_open ==> !run_state(s, evs).error_open,
        !s.running ==> !run_state(s, evs).running,
    decreases evs.len(),
{
    if evs.len() > 0 {
        lemma_closed_stays_closed(s, evs.drop_last());
    }
}

/// End-of-input propagation: once the input channel is closed, no session
/// history can contain a further input event — the loop never reads the
/// operator's stream again.
pub proof fn lemma_input_eof_is_final(s: SessionState, evs: Seq<Event>)
    requires
        !s.input_open,
        events_enabled(s, evs),
    ensures
        !run_state(s, evs).input_open,
        forall|i: int| 0 <= i < evs.len() ==> !(evs[i] is InputLine) && !(evs[i] is InputEof),
    decreases evs.len(),
{
    lemma_closed_stays_closed(s, evs);
    if evs.len() > 0 {
        lemma_input_eof_is_final(s, evs.drop_last());
        lemma_closed_stays_closed(s, evs.drop_last());
        assert forall|i: int| 0 <= i < evs.len() implies !(evs[i] is InputLine) && !(evs[i]
            is InputEof) by {
            if i < evs.len() - 1 {
                assert(evs.drop_last()[i] == evs[i]);
            } else {
                assert(evs[i] == evs.last());
            }
        }
    }
}

/// Termination on first close: end-of-stream on either read-directed channel
/// ends the session at once — even while the other read-directed channel is
/// still open — and so does the child's exit.
pub proof fn lemma_first_close_terminates(s: SessionState, e: Event)
    requires
        e is OutputEof || e is ErrorEof || e is ChildExited,
    ensures
        !step_state(s, e).running,
{
}

/// A session terminates exactly once: after it has, no event of any kind is
/// enabled again.
pub proof fn lemma_terminated_session_is_final(s: SessionState)
    requires
        !s.running,
    ensures
        forall|e: Event| !event_enabled(s, e),
{
}

/// In a possible session history, each event is enabled in the state that the
/// events before it produced.
pub proof fn lemma_enabled_at(s: SessionState, evs: Seq<Event>, i: int)
    requires
        0 <= i < evs.len(),
        events_enabled(s, evs),
    ensures
        event_enabled(run_state(s, evs.take(i)), evs[i]),
    decreases evs.len(),
{
    if i == evs.len() - 1 {
        assert(evs.take(i) =~= evs.drop_last());
    } else {
        lemma_enabled_at(s, evs.drop_last(), i);
        assert(evs.drop_last().take(i) =~= evs.take(i));
        assert(evs.drop_last()[i] == evs[i]);
    }
}

impl SessionState {
    /// A fresh session: every channel open, the loop running.
    pub fn new() -> (s: SessionState)
        ensures
            s == initial_state(),
    {
        SessionState { input_open: true, output_open: true, error_open: true, running: true }
    }
}

/// Whether the loop may deliver this event now; the loop's guards test this
/// before each dispatch.
pub fn event_is_enabled(s: &SessionState, e: &Event) -> (r: bool)
    ensures
        r == event_enabled(*s, *e),
{
    s.running && match e {
        Event::InputLine(_) => s.input_open,
        Event::InputEof => s.input_open,
        Event::OutputLine(_) => s.output_open,
        Event::OutputEof => s.output_open,
        Event::ErrorLine(_) => s.error_open,
        Event::ErrorEof => s.error_open,
        Event::ChildExited => !s.input_open,
    }
}

/// Advances the session by one event and says what the loop must do with it.
pub fn step(s: &mut SessionState, e: &Event) -> (a: Action)
    requires
        event_enabled(*old(s), *e),
    ensures
        *final(s) == step_state(*old(s), *e),
        a == step_action(*e),
{
    match e {
        Event::InputLine(_) => Action::ForwardInput,
        Event::InputEof => {
            s.input_open = false;
            Action::CloseChildInput
        }
        Event::OutputLine(_) => Action::ForwardOutput,
        Event::OutputEof => {
            s.output_open = false;
            s.running = false;
            Action::Terminate
        }
        Event::ErrorLine(_) => Action::ForwardError,
        Event::ErrorEof => {
            s.error_open = false;
            s.running = false;
            Action::Terminate
        }
        Event::ChildExited => {
            s.running = false;
            Action::Terminate
        }
    }
}

/// The views of a sequence of owned strings.
pub open spec fn views_of(v: Seq<String>) -> Seq<Seq<char>> {
    v.map_values(|t: String| t@)
}

/// The transcript over a session history as the sink receives it: each entry
/// rendered with its channel's prefix, in event order.
pub open spec fn sink_lines_of(evs: Seq<Event>) -> Seq<Seq<char>>
    decreases evs.len(),
{
    if evs.len() == 0 {
        Seq::empty()
    } else {
        let rest = sink_lines_of(evs.drop_last());
        match tee_of(evs.last()) {
            Some(t) => rest.push(crate::channel::rendered_entry(t.0, t.1)),
            None => rest,
        }
    }
}

/// Everything a session makes observable: its final state, the rendered
/// transcript the sink received, and the plain lines each destination
/// received.
pub struct SessionOutcome {
    /// The state the session ended in.
    pub state: SessionState,
    /// The rendered transcript lines, in the order the sink received them.
    pub transcript: Vec<String>,
    /// The lines the child received on its input, in order.
    pub child_feed: Vec<String>,
    /// The lines the operator's own stdout received, in order.
    pub operator_out: Vec<String>,
    /// The lines the operator's own stderr received, in order.
    pub operator_err: Vec<String>,
}

/// Runs a whole session over a recorded sequence of readiness events and
/// returns everything it makes observable. Returns `None` exactly when the
/// recording is not a possible session history (some event arrives on a
/// closed channel, or after termination).
pub fn replay(events: &Vec<Event>) -> (r: Option<SessionOutcome>)
    ensures
        match r {
            Some(out) => {
                &&& events_enabled(initial_state(), events@)
                &&& out.state == run_state(initial_state(), events@)
                &&& views_of(out.transcript@) == sink_lines_of(events@)
                &&& views_of(out.child_feed@) == child_feed_of(events@)
                &&& views_of(out.operator_out@) == operator_stdout_of(events@)
                &&& views_of(out.operator_err@) == operator_stderr_of(events@)
            },
            None => !events_enabled(initial_state(), events@),
        },
{
    let mut state = SessionState::new();
    let mut transcript: Vec<String> = Vec::new();
    let mut child_feed: Vec<String> = Vec::new();
    let mut operator_out: Vec<String> = Vec::new();
    let mut operator_err: Vec<String> = Vec::new();
    let mut i: usize = 0;
    while i < events.len()
        invariant
            i <= events@.len(),
            events_enabled(initial_state(), events@.take(i as int)),
            state == run_state(initial_state(), events@.take(i as int)),
            views_of(transcript@) == sink_lines_of(events@.take(i as int)),
            views_of(child_feed@) == child_feed_of(events@.take(i as int)),
            views_of(operator_out@) == operator_stdout_of(events@.take(i as int)),
            views_of(operator_err@) == operator_stderr_of(events@.take(i as int)),
        decreases events@.len() - i,
    {
        let e = &events[i];
        if !event_is_enabled(&state, e) {
            proof {
                if events_enabled(initial_state(), events@) {
                    lemma_enabled_at(initial_state(), events@, i as int);
                }
            }
            return None;
        }
        proof {
            assert(events@.take(i as int + 1).drop_last() =~= events@.take(i as int));
            assert(events@.take(i as int + 1).last() == events@[i as int]);
        }
        let ghost pre_transcript = transcript@;
        let ghost pre_feed = child_feed@;
        let ghost pre_out = operator_out@;
        let ghost pre_err = operator_err@;
        let _ = step(&mut state, e);
        match e {
            Event::InputLine(l) => {
                child_feed.push(l.clone());
                transcript.push(crate::channel::transcript_line(Channel::Input, l.as_str()));
            }
            Event::OutputLine(l) => {
                operator_out.push(l.clone());
                transcript.push(crate::channel::transcript_line(Channel::Output, l.as_str()));
            }
            Event::ErrorLine(l) => {
                operator_err.push(l.clone());
                transcript.push(crate::channel::transcript_line(Channel::Error, l.as_str()));
            }
            Event::InputEof => {},
            Event::OutputEof => {},
            Event::ErrorEof => {},
            Event::ChildExited => {},
        }
        proof {
            assert(views_of(transcript@) =~= sink_lines_of(events@.take(i as int + 1)));
            assert(views_of(child_feed@) =~= child_feed_of(events@.take(i as int + 1)));
            assert(views_of(operator_out@) =~= operator_stdout_of(events@.take(i as int + 1)));
            assert(views_of(operator_err@) =~= operator_stderr_of(events@.take(i as int + 1)));
        }
        i = i + 1;
    }
    proof {
        assert(events@.take(events@.len() as int) =~= events@);
    }
    Some(SessionOutcome { state, transcript, child_feed, operator_out, operator_err })
}

} // verus!
