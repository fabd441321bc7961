//! The transition function of the election: from a state and an event to the
//! next state, the reply to broadcast, and what the event did.
//!
//! The function performs nothing itself. Whoever drives it broadcasts what a
//! state asks for on entry, waits as the state asks, and hands back what
//! happened as the next event.

use crate::message::Message;
use crate::round::{decide, verdict};
use crate::state::{Event, Outcome, ProtocolState, StateView, Transition};
use vstd::prelude::*;

verus! {

/// The state that follows `s` when `e` happens to the peer `own`. A follower
/// gives its leader up after `probe_limit` probe windows in a row without an
/// answer.
pub open spec fn next_state(own: u64, probe_limit: u32, s: StateView, e: Event) -> StateView {
    match s {
        StateView::Discovering => match e {
            Event::Received(Message::AnswerLeader { id }) => StateView::following(id),
            Event::Received(_) => StateView::ElectionPending,
            Event::WindowElapsed => StateView::ElectionPending,
            Event::Announced => s,
        },
        StateView::ElectionPending => StateView::listening(),
        StateView::CollectingResponses { callers, answerers } => match e {
            Event::Received(Message::CallElection { id }) => if id == own {
                s
            } else {
                StateView::CollectingResponses { callers: callers.push(id), answerers }
            },
            Event::Received(Message::AnswerElection { id }) => if id == own {
                s
            } else {
                StateView::CollectingResponses { callers, answerers: answerers.push(id) }
            },
            Event::Received(_) => s,
            Event::WindowElapsed => verdict(own, callers + answerers),
            Event::Announced => s,
        },
        StateView::Leader => match e {
            Event::Received(Message::CallElection { .. }) => StateView::ElectionPending,
            _ => s,
        },
        StateView::Follower { leader_id, silent_windows, confirmed } => match e {
            Event::Received(Message::AnswerLeader { id }) => if id == leader_id {
                StateView::Follower { leader_id, silent_windows: 0, confirmed: true }
            } else {
                s
            },
            Event::Received(Message::CallElection { .. }) => StateView::ElectionPending,
            Event::Received(_) => s,
            Event::WindowElapsed => if confirmed {
                StateView::following(leader_id)
            } else if silent_windows + 1 >= probe_limit {
                StateView::ElectionPending
            } else {
                StateView::Follower {
                    leader_id,
                    silent_windows: (silent_windows + 1) as u32,
                    confirmed: false,
                }
            },
            Event::Announced => s,
        },
    }
}

/// The message that the peer `own` broadcasts in reply when `e` happens in
/// `s`. Only a leader replies: to a probe with its identity, and to the call of
/// a lower peer with a challenge.
pub open spec fn reply_to(own: u64, s: StateView, e: Event) -> Option<Message> {
    match (s, e) {
        (StateView::Leader, Event::Received(Message::FindLeader)) => Some(
            Message::AnswerLeader { id: own },
        ),
        (StateView::Leader, Event::Received(Message::CallElection { id })) => if id < own {
            Some(Message::AnswerElection { id: own })
        } else {
            None
        },
        _ => None,
    }
}

/// What `e` does to the peer `own` in `s`.
pub open spec fn outcome_of(own: u64, s: StateView, e: Event) -> Outcome {
    match s {
        StateView::Discovering => match e {
            Event::Announced => Outcome::Ignored,
            _ => Outcome::Entered,
        },
        StateView::ElectionPending => Outcome::Entered,
        StateView::CollectingResponses { .. } => match e {
            Event::Received(Message::CallElection { id }) => if id == own {
                Outcome::Ignored
            } else {
                Outcome::Absorbed
            },
            Event::Received(Message::AnswerElection { id }) => if id == own {
                Outcome::Ignored
            } else {
                Outcome::Absorbed
            },
            Event::WindowElapsed => Outcome::Entered,
            _ => Outcome::Ignored,
        },
        StateView::Leader => match e {
            Event::Received(Message::FindLeader) => Outcome::Absorbed,
            Event::Received(Message::CallElection { .. }) => Outcome::Entered,
            _ => Outcome::Ignored,
        },
        StateView::Follower { leader_id, .. } => match e {
            Event::Received(Message::AnswerLeader { id }) => if id == leader_id {
                Outcome::Absorbed
            } else {
                Outcome::Ignored
            },
            Event::Received(Message::CallElection { .. }) => Outcome::Entered,
            Event::WindowElapsed => Outcome::Entered,
            _ => Outcome::Ignored,
        },
    }
}

/// The message that the peer `own` broadcasts when it enters `s`: a probe when
/// it looks for a leader or checks on the one it follows, the announcement when
/// a round is pending.
pub open spec fn entry_broadcast(own: u64, s: StateView) -> Option<Message> {
    match s {
        StateView::Discovering => Some(Message::FindLeader),
        StateView::ElectionPending => Some(Message::CallElection { id: own }),
        StateView::CollectingResponses { .. } => None,
        StateView::Leader => None,
        StateView::Follower { .. } => Some(Message::FindLeader),
    }
}

/// The state that a peer reaches from `s` when the events `events` happen to
/// it one after another.
pub open spec fn after_all(own: u64, probe_limit: u32, s: StateView, events: Seq<Event>) -> StateView
    decreases events.len(),
{
    if events.len() == 0 {
        s
    } else {
        next_state(own, probe_limit, after_all(own, probe_limit, s, events.drop_last()), events.last())
    }
}

/// Takes one step of the election for the peer `own`.
pub fn step(own: u64, probe_limit: u32, state: ProtocolState, event: Event) -> (t: Transition)
    ensures
        t.next@ == next_state(own, probe_limit, state@, event),
        t.reply == reply_to(own, state@, event),
        t.outcome == outcome_of(own, state@, event),
{
    match state {
        ProtocolState::Discovering => match event {
            Event::Received(Message::AnswerLeader { id }) => Transition {
                next: ProtocolState::following(id),
                reply: None,
                outcome: Outcome::Entered,
            },
            Event::Received(_) => Transition {
                next: ProtocolState::ElectionPending,
                reply: None,
                outcome: Outcome::Entered,
            },
            Event::WindowElapsed => Transition {
                next: ProtocolState::ElectionPending,
                reply: None,
                outcome: Outcome::Entered,
            },
            Event::Announced => Transition { next: state, reply: None, outcome: Outcome::Ignored },
        },
        ProtocolState::ElectionPending => Transition {
            next: ProtocolState::listening(),
            reply: None,
            outcome: Outcome::Entered,
        },
        ProtocolState::CollectingResponses { callers, answerers } => step_collecting(
            own,
            callers,
            answerers,
            event,
        ),
        ProtocolState::Leader => step_leader(own, event),
        ProtocolState::Follower { leader_id, silent_windows, confirmed } => step_follower(
            probe_limit,
            leader_id,
            silent_windows,
            confirmed,
            event,
        ),
    }
}

/// One step of a peer that collects responses: a contender other than the peer
/// itself is recorded, and the close of the window decides the round.
fn step_collecting(own: u64, callers: Vec<u64>, answerers: Vec<u64>, event: Event) -> (t:
    Transition)
    ensures
        forall|probe_limit: u32|
            t.next@ == #[trigger] next_state(
                own,
                probe_limit,
                StateView::CollectingResponses { callers: callers@, answerers: answerers@ },
                event,
            ),
        t.reply is None,
        t.outcome == outcome_of(
            own,
            StateView::CollectingResponses { callers: callers@, answerers: answerers@ },
            event,
        ),
{
    let mut callers = callers;
    let mut answerers = answerers;
    let outcome = match event {
        Event::Received(Message::CallElection { id }) => {
            if id == own {
                Outcome::Ignored
            } else {
                callers.push(id);
                Outcome::Absorbed
            }
        },
        Event::Received(Message::AnswerElection { id }) => {
            if id == own {
                Outcome::Ignored
            } else {
                answerers.push(id);
                Outcome::Absorbed
            }
        },
        Event::WindowElapsed => {
            return Transition {
                next: decide(own, &callers, &answerers),
                reply: None,
                outcome: Outcome::Entered,
            };
        },
        _ => Outcome::Ignored,
    };
    Transition { next: ProtocolState::CollectingResponses { callers, answerers }, reply: None, outcome }
}

/// One step of a leader: it answers a probe and stays, and steps down on every
/// call of an election, after challenging a caller below it.
fn step_leader(own: u64, event: Event) -> (t: Transition)
    ensures
        forall|probe_limit: u32|
            t.next@ == #[trigger] next_state(own, probe_limit, StateView::Leader, event),
        t.reply == reply_to(own, StateView::Leader, event),
        t.outcome == outcome_of(own, StateView::Leader, event),
{
    match event {
        Event::Received(Message::FindLeader) => Transition {
            next: ProtocolState::Leader,
            reply: Some(Message::AnswerLeader { id: own }),
            outcome: Outcome::Absorbed,
        },
        Event::Received(Message::CallElection { id }) => Transition {
            next: ProtocolState::ElectionPending,
            reply: if id < own {
                Some(Message::AnswerElection { id: own })
            } else {
                None
            },
            outcome: Outcome::Entered,
        },
        _ => Transition { next: ProtocolState::Leader, reply: None, outcome: Outcome::Ignored },
    }
}

/// One step of a follower: an answer of its leader confirms the leader, a call
/// of an election ends the following, and a window that closes without an
/// answer counts against the leader.
fn step_follower(
    probe_limit: u32,
    leader_id: u64,
    silent_windows: u32,
    confirmed: bool,
    event: Event,
) -> (t: Transition)
    ensures
        forall|own: u64|
            t.next@ == #[trigger] next_state(
                own,
                probe_limit,
                StateView::Follower { leader_id, silent_windows, confirmed },
                event,
            ),
        t.reply is None,
        forall|own: u64|
            t.outcome == #[trigger] outcome_of(
                own,
                StateView::Follower { leader_id, silent_windows, confirmed },
                event,
            ),
{
    let unchanged = ProtocolState::Follower { leader_id, silent_windows, confirmed };
    match event {
        Event::Received(Message::AnswerLeader { id }) => {
            if id == leader_id {
                Transition {
                    next: ProtocolState::Follower { leader_id, silent_windows: 0, confirmed: true },
                    reply: None,
                    outcome: Outcome::Absorbed,
                }
            } else {
                Transition { next: unchanged, reply: None, outcome: Outcome::Ignored }
            }
        },
        Event::Received(Message::CallElection { .. }) => Transition {
            next: ProtocolState::ElectionPending,
            reply: None,
            outcome: Outcome::Entered,
        },
        Event::WindowElapsed => {
            let next = if confirmed {
                ProtocolState::following(leader_id)
            } else if silent_windows >= probe_limit || silent_windows + 1 >= probe_limit {
                ProtocolState::ElectionPending
            } else {
                ProtocolState::Follower {
                    leader_id,
                    silent_windows: silent_windows + 1,
                    confirmed: false,
                }
            };
            Transition { next, reply: None, outcome: Outcome::Entered }
        },
        _ => Transition { next: unchanged, reply: None, outcome: Outcome::Ignored },
    }
}

} // verus!
