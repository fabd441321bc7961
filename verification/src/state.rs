//! The protocol states of a peer, the events that move it, and what a move
//! gives back.

use crate::message::{DecodeFault, Message};
use vstd::prelude::*;

verus! {

/// Where a peer stands in the protocol. A peer is in exactly one state; each
/// transition consumes the state and gives the next one.
#[derive(Clone, Debug, PartialEq, Eq)]
pub enum ProtocolState {
    /// Asking whether a leader exists. The state a peer starts in.
    Discovering,
    /// About to announce a round.
    ElectionPending,
    /// Listening for contenders during the election window. `callers` holds
    /// the identities of other peers that announced a round, `answerers` those
    /// of other peers that answered a challenge, each in order of arrival.
    CollectingResponses { callers: Vec<u64>, answerers: Vec<u64> },
    /// Leading, until a peer calls an election.
    Leader,
    /// Following `leader_id`. `silent_windows` counts the probe windows that
    /// closed one after another without an answer of the leader, and
    /// `confirmed` says whether the leader answered in the window that is
    /// open.
    Follower { leader_id: u64, silent_windows: u32, confirmed: bool },
}

/// A protocol state as a mathematical value.
pub enum StateView {
    Discovering,
    ElectionPending,
    CollectingResponses { callers: Seq<u64>, answerers: Seq<u64> },
    Leader,
    Follower { leader_id: u64, silent_windows: u32, confirmed: bool },
}

impl View for ProtocolState {
    type V = StateView;

    open spec fn view(&self) -> StateView {
        match *self {
            ProtocolState::Discovering => StateView::Discovering,
            ProtocolState::ElectionPending => StateView::ElectionPending,
            ProtocolState::CollectingResponses { callers, answerers } => {
                StateView::CollectingResponses { callers: callers@, answerers: answerers@ }
            },
            ProtocolState::Leader => StateView::Leader,
            ProtocolState::Follower { leader_id, silent_windows, confirmed } => {
                StateView::Follower { leader_id, silent_windows, confirmed }
            },
        }
    }
}

impl StateView {
    /// A collecting state that has seen nobody yet.
    pub open spec fn listening() -> StateView {
        StateView::CollectingResponses { callers: Seq::empty(), answerers: Seq::empty() }
    }

    /// The state of a peer that has just begun to follow `leader_id`.
    pub open spec fn following(leader_id: u64) -> StateView {
        StateView::Follower { leader_id, silent_windows: 0, confirmed: false }
    }

    /// The identities that a collecting state holds, callers first; empty in
    /// every other state.
    pub open spec fn candidates(self) -> Seq<u64> {
        match self {
            StateView::CollectingResponses { callers, answerers } => callers + answerers,
            _ => Seq::empty(),
        }
    }

    /// The leader that the state names, if it is a following state.
    pub open spec fn leader(self) -> Option<u64> {
        match self {
            StateView::Follower { leader_id, .. } => Some(leader_id),
            _ => None,
        }
    }
}

impl ProtocolState {
    /// A collecting state that has seen nobody yet.
    pub fn listening() -> (s: ProtocolState)
        ensures
            s@ == StateView::listening(),
    {
        ProtocolState::CollectingResponses { callers: Vec::new(), answerers: Vec::new() }
    }

    /// The state of a peer that has just begun to follow `leader_id`.
    pub fn following(leader_id: u64) -> (s: ProtocolState)
        ensures
            s@ == StateView::following(leader_id),
    {
        ProtocolState::Follower { leader_id, silent_windows: 0, confirmed: false }
    }

    /// Whether the peer leads.
    pub fn is_leader(&self) -> (b: bool)
        ensures
            b == (self@ == StateView::Leader),
    {
        match self {
            ProtocolState::Leader => true,
            _ => false,
        }
    }

    /// The leader that the peer follows, if it follows one.
    pub fn leader(&self) -> (id: Option<u64>)
        ensures
            id == self@.leader(),
    {
        match self {
            ProtocolState::Follower { leader_id, .. } => Some(*leader_id),
            _ => None,
        }
    }
}

/// What can happen to a peer.
#[derive(Clone, Copy, Debug, PartialEq, Eq, Structural)]
pub enum Event {
    /// A message arrived.
    Received(Message),
    /// The window that the state waits for has closed.
    WindowElapsed,
    /// The announcement of a round has been broadcast.
    Announced,
}

/// What an event did to the state.
#[derive(Clone, Copy, Debug, PartialEq, Eq, Structural)]
pub enum Outcome {
    /// A state was entered, or entered again: its entry broadcast and its wait
    /// are due.
    Entered,
    /// The event was taken in; the wait that is under way goes on.
    Absorbed,
    /// The event means nothing in this state; the wait goes on.
    Ignored,
    /// The datagram held no message; the wait goes on.
    Discarded { fault: DecodeFault },
}

/// The result of one step: the next state, the message to broadcast in reply,
/// and what the event did.
#[derive(Debug)]
pub struct Transition {
    pub next: ProtocolState,
    pub reply: Option<Message>,
    pub outcome: Outcome,
}

} // verus!
