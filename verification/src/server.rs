//! The server's state and the per-session state machine.
//!
//! The listener loop outside this crate accepts one connection at a time.
//! For each accepted session it pushes the current state byte to the
//! client, reads at most one byte back, and hands what it read — or the
//! fact that nothing arrived — to [`Server::handle_session`], which makes
//! every decision: whether to stop the loop, whether to store a new state,
//! and whether the renderer must repaint.

use vstd::prelude::*;

use crate::category::decode_spec;
use crate::category::encode_spec;
use crate::category::InputCategory;
use crate::category::EXIT_BYTE;

verus! {

/// What the read step of one accepted session yielded.
#[derive(Clone, Copy, Debug, PartialEq, Eq, Structural)]
pub enum SessionEvent {
    /// The client sent exactly one byte.
    Received(u8),
    /// The read failed or timed out: the client went away without writing.
    NoData,
}

/// How one accepted session ended.
#[derive(Clone, Copy, Debug, PartialEq, Eq, Structural)]
pub enum SessionOutcome {
    /// The control byte arrived: the server loop must end, cleanly.
    Terminated,
    /// A category byte arrived and was stored; the renderer must repaint
    /// with the carried category.
    Updated(InputCategory),
    /// No byte arrived; nothing changed and the loop goes on.
    Abandoned,
}

/// The state byte the server holds after handling `event` in state
/// `state`: a received non-control byte replaces the state verbatim;
/// everything else leaves it untouched.
pub open spec fn step_state(state: u8, event: SessionEvent) -> u8 {
    match event {
        SessionEvent::Received(byte) => if byte == EXIT_BYTE {
            state
        } else {
            byte
        },
        SessionEvent::NoData => state,
    }
}

/// How a session handling `event` ends, whatever state it started in.
pub open spec fn step_outcome(event: SessionEvent) -> SessionOutcome {
    match event {
        SessionEvent::Received(byte) => if byte == EXIT_BYTE {
            SessionOutcome::Terminated
        } else {
            SessionOutcome::Updated(decode_spec(byte))
        },
        SessionEvent::NoData => SessionOutcome::Abandoned,
    }
}

/// What a whole run of the accept loop amounts to.
pub struct RunResult {
    /// The state byte the loop ends in.
    pub state: u8,
    /// The categories handed to the renderer, in session order.
    pub notified: Seq<InputCategory>,
    /// Whether the control byte ended the loop; events after it are never
    /// served.
    pub terminated: bool,
}

/// The accept loop folded over a sequence of session events: sessions are
/// served one at a time, in order, until the control byte arrives.
pub open spec fn run(state: u8, events: Seq<SessionEvent>) -> RunResult
    decreases events.len(),
{
    if events.len() == 0 {
        RunResult { state, notified: Seq::empty(), terminated: false }
    } else if events.first() == SessionEvent::Received(EXIT_BYTE) {
        RunResult { state, notified: Seq::empty(), terminated: true }
    } else {
        let rest = run(step_state(state, events.first()), events.drop_first());
        match step_outcome(events.first()) {
            SessionOutcome::Updated(category) => RunResult {
                state: rest.state,
                notified: seq![category].add(rest.notified),
                terminated: rest.terminated,
            },
            _ => rest,
        }
    }
}

/// The server's one live value: the current category as a wire byte, owned
/// by the accept loop, written only after a successful session read.
pub struct Server {
    current: u8,
}

impl Server {
    /// The state byte the server holds, as contracts see it.
    pub closed spec fn state(self) -> u8 {
        self.current
    }

    /// A fresh server holds the default category, latin.
    pub fn new() -> (server: Server)
        ensures
            server.state() == encode_spec(InputCategory::Latin),
    {
        Server { current: 0 }
    }

    /// The byte pushed to a client at the start of each session.
    pub fn current_byte(&self) -> (byte: u8)
        ensures
            byte == self.state(),
    {
        self.current
    }

    /// Decide the read step of one accepted session.
    ///
    /// The control byte ends the loop and leaves the state untouched; any
    /// other received byte becomes the new state and asks the renderer to
    /// repaint; a session that sent nothing changes nothing.
    pub fn handle_session(&mut self, event: SessionEvent) -> (outcome: SessionOutcome)
        ensures
            final(self).state() == step_state(old(self).state(), event),
            outcome == step_outcome(event),
            outcome is Terminated || outcome is Abandoned ==> final(self).state() == old(
                self,
            ).state(),
            event matches SessionEvent::Received(byte) ==> (byte != EXIT_BYTE
                ==> final(self).state() == byte && outcome == SessionOutcome::Updated(
                decode_spec(byte),
            )),
    {
        match event {
            SessionEvent::Received(byte) => {
                if byte == EXIT_BYTE {
                    SessionOutcome::Terminated
                } else {
                    self.current = byte;
                    SessionOutcome::Updated(InputCategory::decode(byte))
                }
            },
            SessionEvent::NoData => SessionOutcome::Abandoned,
        }
    }
}

/// The control byte terminates the server whatever state it is in, and
/// leaves that state untouched; this is what a takeover relies on.
pub proof fn lemma_control_terminates(state: u8)
    ensures
        step_outcome(SessionEvent::Received(EXIT_BYTE)) == SessionOutcome::Terminated,
        step_state(state, SessionEvent::Received(EXIT_BYTE)) == state,
{
}

/// Once the control byte arrives, the run ends: no later event is served,
/// nothing more is notified, and the state stays as it was.
pub proof fn lemma_control_ends_run(state: u8, later: Seq<SessionEvent>)
    ensures
        run(state, seq![SessionEvent::Received(EXIT_BYTE)].add(later)).terminated,
        run(state, seq![SessionEvent::Received(EXIT_BYTE)].add(later)).notified
            == Seq::<InputCategory>::empty(),
        run(state, seq![SessionEvent::Received(EXIT_BYTE)].add(later)).state == state,
{
    assert(seq![SessionEvent::Received(EXIT_BYTE)].add(later).first() == SessionEvent::Received(
        EXIT_BYTE,
    ));
}

/// A client that connects and goes away without writing is invisible: the
/// rest of the run sees the same state and notifies the same categories.
pub proof fn lemma_abandoned_session_invisible(state: u8, events: Seq<SessionEvent>)
    ensures
        run(state, seq![SessionEvent::NoData].add(events)) == run(state, events),
{
    let all = seq![SessionEvent::NoData].add(events);
    assert(all.first() == SessionEvent::NoData);
    assert(all.drop_first() =~= events);
}

/// Updates sent as separate sessions are observed by the renderer in that
/// exact order, each exactly once: a run over non-control bytes notifies
/// one category per byte, the byte's decoding, in session order, and does
/// not terminate.
pub proof fn lemma_updates_in_order(state: u8, bytes: Seq<u8>)
    requires
        forall|i: int| 0 <= i < bytes.len() ==> bytes[i] != EXIT_BYTE,
    ensures
        run(state, bytes.map_values(|b: u8| SessionEvent::Received(b))).notified.len()
            == bytes.len(),
        forall|i: int|
            0 <= i < bytes.len() ==> run(
                state,
                bytes.map_values(|b: u8| SessionEvent::Received(b)),
            ).notified[i] == decode_spec(bytes[i]),
        !run(state, bytes.map_values(|b: u8| SessionEvent::Received(b))).terminated,
    decreases bytes.len(),
{
    let events = bytes.map_values(|b: u8| SessionEvent::Received(b));
    if bytes.len() > 0 {
        let first = bytes.first();
        assert(events.first() == SessionEvent::Received(first));
        assert(events.drop_first() =~= bytes.drop_first().map_values(
            |b: u8| SessionEvent::Received(b),
        ));
        lemma_updates_in_order(first, bytes.drop_first());
        let rest = run(first, events.drop_first());
        assert(run(state, events).notified =~= seq![decode_spec(first)].add(rest.notified));
        assert forall|i: int| 0 <= i < bytes.len() implies run(state, events).notified[i]
            == decode_spec(bytes[i]) by {
            if i > 0 {
                assert(run(state, events).notified[i] == rest.notified[i - 1]);
                assert(bytes.drop_first()[i - 1] == bytes[i]);
            }
        }
    }
}

} // verus!
