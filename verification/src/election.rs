//! A peer taking part in the election: its identity, its settings and the
//! protocol state it owns.
//!
//! The peer tells its driver what to do on entering a state, and takes in what
//! the driver reports: events, single datagrams, or all the datagrams of an
//! election window at once.

use crate::chance::any_u64;
use crate::config::Config;
use crate::machine::{after_all, entry_broadcast, next_state, outcome_of, reply_to, step};
use crate::message::{decode_within, parse_within, Message};
use crate::state::{Event, Outcome, ProtocolState, StateView};
use vstd::prelude::*;

verus! {

/// How the driver waits in a state.
#[derive(Clone, Copy, Debug, PartialEq, Eq, Structural)]
pub enum Wait {
    /// No wait: the driver reports `Event::Announced` at once.
    Proceed,
    /// Take in datagrams as they arrive, and report `Event::WindowElapsed`
    /// when the window has passed.
    Listen { window_ms: u64 },
    /// Let the window pass, then take in all datagrams that arrived meanwhile
    /// and report `Event::WindowElapsed`.
    Drain { window_ms: u64 },
    /// Take in datagrams as they arrive, for as long as it takes.
    Block,
}

/// What the driver does when a state is entered: broadcast, then wait.
#[derive(Clone, Copy, Debug, PartialEq, Eq, Structural)]
pub struct Directive {
    pub broadcast: Option<Message>,
    pub wait: Wait,
}

/// How the driver waits in `s` under the settings `config`.
pub open spec fn entry_wait(config: Config, s: StateView) -> Wait {
    match s {
        StateView::Discovering => Wait::Listen { window_ms: config.discovery_window_ms },
        StateView::ElectionPending => Wait::Proceed,
        StateView::CollectingResponses { .. } => Wait::Drain {
            window_ms: config.election_window_ms,
        },
        StateView::Leader => Wait::Block,
        StateView::Follower { .. } => Wait::Listen { window_ms: config.probe_window_ms },
    }
}

/// The events that a run of datagrams amounts to for a receiver whose buffer
/// holds `capacity` bytes: one arrival for each datagram that holds a message,
/// in order, and nothing for the others.
pub open spec fn arrivals(datagrams: Seq<Vec<u8>>, capacity: usize) -> Seq<Event>
    decreases datagrams.len(),
{
    if datagrams.len() == 0 {
        Seq::empty()
    } else {
        let earlier = arrivals(datagrams.drop_last(), capacity);
        match parse_within(datagrams.last()@, capacity) {
            Ok(m) => earlier.push(Event::Received(m)),
            Err(_) => earlier,
        }
    }
}

/// A peer in the election.
#[derive(Debug)]
pub struct Election {
    id: u64,
    config: Config,
    state: ProtocolState,
}

/// A peer as a mathematical value.
pub struct ElectionView {
    pub id: u64,
    pub config: Config,
    pub state: StateView,
}

impl View for Election {
    type V = ElectionView;

    closed spec fn view(&self) -> ElectionView {
        ElectionView { id: self.id, config: self.config, state: self.state@ }
    }
}

impl ElectionView {
    /// The peer in another state.
    pub open spec fn moved_to(self, state: StateView) -> ElectionView {
        ElectionView { id: self.id, config: self.config, state }
    }

    /// The peer after `e` happened to it.
    pub open spec fn after(self, e: Event) -> ElectionView {
        self.moved_to(next_state(self.id, self.config.probe_limit, self.state, e))
    }

    /// The peer after all of `events` happened to it, one after another.
    pub open spec fn after_events(self, events: Seq<Event>) -> ElectionView {
        self.moved_to(after_all(self.id, self.config.probe_limit, self.state, events))
    }

    /// The peer after a datagram reached it: a datagram that holds a message
    /// is the arrival of that message, and any other changes nothing.
    pub open spec fn after_datagram(self, bytes: Seq<u8>) -> ElectionView {
        match parse_within(bytes, self.config.receive_buffer_size) {
            Ok(m) => self.after(Event::Received(m)),
            Err(_) => self,
        }
    }

    /// What the peer gives back when `e` happens to it: the reply to
    /// broadcast, and what the event did.
    pub open spec fn reaction(self, e: Event) -> (Option<Message>, Outcome) {
        (reply_to(self.id, self.state, e), outcome_of(self.id, self.state, e))
    }

    /// What the peer gives back when a datagram reaches it.
    pub open spec fn reaction_to_datagram(self, bytes: Seq<u8>) -> (Option<Message>, Outcome) {
        match parse_within(bytes, self.config.receive_buffer_size) {
            Ok(m) => self.reaction(Event::Received(m)),
            Err(fault) => (None, Outcome::Discarded { fault }),
        }
    }

    /// What the driver does now that the peer is in its state.
    pub open spec fn directive(self) -> Directive {
        Directive {
            broadcast: entry_broadcast(self.id, self.state),
            wait: entry_wait(self.config, self.state),
        }
    }
}

impl Election {
    /// A peer with the given identity and settings that looks for a leader.
    pub fn new(id: u64, config: Config) -> (peer: Election)
        ensures
            peer@ == (ElectionView { id, config, state: StateView::Discovering }),
    {
        Election { id, config, state: ProtocolState::Discovering }
    }

    /// A peer with an identity drawn at random that looks for a leader.
    pub fn launch(config: Config) -> (peer: Election)
        ensures
            peer@.config == config,
            peer@.state == StateView::Discovering,
    {
        Election::new(any_u64(), config)
    }

    /// The identity of the peer.
    pub fn id(&self) -> (id: u64)
        ensures
            id == self@.id,
    {
        self.id
    }

    /// The settings of the peer.
    pub fn config(&self) -> (config: &Config)
        ensures
            *config == self@.config,
    {
        &self.config
    }

    /// The state the peer is in.
    pub fn state(&self) -> (state: &ProtocolState)
        ensures
            state@ == self@.state,
    {
        &self.state
    }

    /// What the driver does now that the peer is in its state.
    pub fn directive(&self) -> (d: Directive)
        ensures
            d == self@.directive(),
    {
        match &self.state {
            ProtocolState::Discovering => Directive {
                broadcast: Some(Message::FindLeader),
                wait: Wait::Listen { window_ms: self.config.discovery_window_ms },
            },
            ProtocolState::ElectionPending => Directive {
                broadcast: Some(Message::CallElection { id: self.id }),
                wait: Wait::Proceed,
            },
            ProtocolState::CollectingResponses { .. } => Directive {
                broadcast: None,
                wait: Wait::Drain { window_ms: self.config.election_window_ms },
            },
            ProtocolState::Leader => Directive { broadcast: None, wait: Wait::Block },
            ProtocolState::Follower { .. } => Directive {
                broadcast: Some(Message::FindLeader),
                wait: Wait::Listen { window_ms: self.config.probe_window_ms },
            },
        }
    }

    /// Takes in an event. Gives back the reply to broadcast and what the event
    /// did.
    pub fn handle(&mut self, event: Event) -> (r: (Option<Message>, Outcome))
        ensures
            final(self)@ == old(self)@.after(event),
            r == old(self)@.reaction(event),
    {
        let mut state = ProtocolState::Discovering;
        core::mem::swap(&mut self.state, &mut state);
        let t = step(self.id, self.config.probe_limit, state, event);
        self.state = t.next;
        (t.reply, t.outcome)
    }

    /// Takes in a datagram. One that holds a message is the arrival of that
    /// message. Any other is discarded: the peer stays as it is, and the fault
    /// is reported.
    pub fn receive(&mut self, datagram: &[u8]) -> (r: (Option<Message>, Outcome))
        ensures
            final(self)@ == old(self)@.after_datagram(datagram@),
            r == old(self)@.reaction_to_datagram(datagram@),
    {
        match decode_within(datagram, self.config.receive_buffer_size) {
            Ok(m) => self.handle(Event::Received(m)),
            Err(fault) => (None, Outcome::Discarded { fault }),
        }
    }

    /// Closes the election window of a collecting peer: takes in all the
    /// datagrams that arrived during the window, in order, and then decides
    /// the round. A peer in any other state stays as it is. Says whether the
    /// round was decided.
    pub fn collect(&mut self, datagrams: &Vec<Vec<u8>>) -> (decided: bool)
        ensures
            decided == (old(self)@.state is CollectingResponses),
            final(self)@ == if decided {
                old(self)@.after_events(
                    arrivals(datagrams@, old(self)@.config.receive_buffer_size).push(
                        Event::WindowElapsed,
                    ),
                )
            } else {
                old(self)@
            },
    {
        match &self.state {
            ProtocolState::CollectingResponses { .. } => {},
            _ => {
                return false;
            },
        }
        let ghost start = self@;
        let ghost capacity = self@.config.receive_buffer_size;
        let mut i: usize = 0;
        while i < datagrams.len()
            invariant
                i <= datagrams.len(),
                capacity == start.config.receive_buffer_size,
                self@.state is CollectingResponses,
                self@ == start.after_events(arrivals(datagrams@.take(i as int), capacity)),
            decreases datagrams.len() - i,
        {
            proof {
                assert(datagrams@.take(i as int + 1).drop_last() =~= datagrams@.take(i as int));
                let earlier = arrivals(datagrams@.take(i as int), capacity);
                match parse_within(datagrams@[i as int]@, capacity) {
                    Ok(m) => {
                        assert(earlier.push(Event::Received(m)).drop_last() =~= earlier);
                    },
                    Err(_) => {},
                }
            }
            self.receive(datagrams[i].as_slice());
            i = i + 1;
        }
        proof {
            assert(datagrams@.take(i as int) =~= datagrams@);
            let all = arrivals(datagrams@, capacity);
            assert(all.push(Event::WindowElapsed).drop_last() =~= all);
        }
        self.handle(Event::WindowElapsed);
        true
    }
}

} // verus!
