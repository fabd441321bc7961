//! What holds of the election, whatever the identities, the messages and
//! their order.

use crate::election::ElectionView;
use crate::machine::{after_all, entry_broadcast, next_state, outcome_of, reply_to};
use crate::message::{cut_datagram_is_truncated, parse_within, wire_form, Message};
use crate::round::{highest, highest_is_maximum};
use crate::state::{Event, Outcome, StateView};
use vstd::prelude::*;

verus! {

/// The arrivals of the messages `heard`, in order.
pub open spec fn received(heard: Seq<Message>) -> Seq<Event> {
    Seq::new(heard.len(), |i: int| Event::Received(heard[i]))
}

/// Whether `m` shows that the peer `id` contends in a round: it is the call or
/// the challenge of that peer.
pub open spec fn vouches_for(m: Message, id: u64) -> bool {
    m == (Message::CallElection { id }) || m == (Message::AnswerElection { id })
}

/// Whether some message among `heard` shows that `id` contends.
pub open spec fn heard_of(heard: Seq<Message>, id: u64) -> bool {
    exists|i: int| 0 <= i < heard.len() && vouches_for(#[trigger] heard[i], id)
}

/// The state of a peer that began to listen and then heard `heard`.
pub open spec fn listened_to(own: u64, probe_limit: u32, heard: Seq<Message>) -> StateView {
    after_all(own, probe_limit, StateView::listening(), received(heard))
}

/// A peer that listens keeps listening whatever it hears, and its candidates
/// are the peers other than itself that it heard of.
pub proof fn candidates_are_the_others_heard(own: u64, probe_limit: u32, heard: Seq<Message>)
    ensures
        listened_to(own, probe_limit, heard) is CollectingResponses,
        forall|id: u64|
            #[trigger] listened_to(own, probe_limit, heard).candidates().contains(id) <==> id
                != own && heard_of(heard, id),
    decreases heard.len(),
{
    let now = listened_to(own, probe_limit, heard);
    if heard.len() == 0 {
        assert(now == StateView::listening());
        assert(now.candidates() =~= Seq::<u64>::empty());
    } else {
        let earlier = heard.drop_last();
        let m = heard.last();
        candidates_are_the_others_heard(own, probe_limit, earlier);
        let before = listened_to(own, probe_limit, earlier);
        assert(received(heard).drop_last() =~= received(earlier));
        assert(received(heard).last() == Event::Received(m));
        assert(now == next_state(own, probe_limit, before, Event::Received(m)));
        let callers = before->CollectingResponses_callers;
        let answerers = before->CollectingResponses_answerers;
        let old_all = before.candidates();
        let new_all = now.candidates();
        // What the step adds to the candidates, if anything.
        let added: Option<u64> = match m {
            Message::CallElection { id } => if id == own {
                None
            } else {
                Some(id)
            },
            Message::AnswerElection { id } => if id == own {
                None
            } else {
                Some(id)
            },
            _ => None,
        };
        assert forall|id: u64| new_all.contains(id) <==> old_all.contains(id) || added == Some(
            id,
        ) by {
            match m {
                Message::CallElection { id: caller } => {
                    if caller != own {
                        let grown = callers.push(caller);
                        assert(new_all =~= grown + answerers);
                        if new_all.contains(id) {
                            let k = choose|k: int| 0 <= k < new_all.len() && new_all[k] == id;
                            if k < callers.len() {
                                assert(old_all[k] == id);
                            } else if k > callers.len() {
                                assert(old_all[k - 1] == id);
                            }
                        }
                        if old_all.contains(id) {
                            let k = choose|k: int| 0 <= k < old_all.len() && old_all[k] == id;
                            if k < callers.len() {
                                assert(new_all[k] == id);
                            } else {
                                assert(new_all[k + 1] == id);
                            }
                        }
                        if id == caller {
                            assert(new_all[callers.len() as int] == id);
                        }
                    }
                },
                Message::AnswerElection { id: answerer } => {
                    if answerer != own {
                        assert(new_all =~= old_all.push(answerer));
                        if new_all.contains(id) {
                            let k = choose|k: int| 0 <= k < new_all.len() && new_all[k] == id;
                            if k < old_all.len() {
                                assert(old_all[k] == id);
                            }
                        }
                        if old_all.contains(id) {
                            let k = choose|k: int| 0 <= k < old_all.len() && old_all[k] == id;
                            assert(new_all[k] == id);
                        }
                        if id == answerer {
                            assert(new_all[old_all.len() as int] == id);
                        }
                    }
                },
                _ => {},
            }
        }
        assert forall|id: u64| heard_of(heard, id) <==> heard_of(earlier, id) || vouches_for(
            m,
            id,
        ) by {
            if heard_of(heard, id) {
                let k = choose|k: int| 0 <= k < heard.len() && vouches_for(#[trigger] heard[k], id);
                if k < earlier.len() {
                    assert(vouches_for(earlier[k], id));
                }
            }
            if heard_of(earlier, id) {
                let k = choose|k: int|
                    0 <= k < earlier.len() && vouches_for(#[trigger] earlier[k], id);
                assert(vouches_for(heard[k], id));
            }
            if vouches_for(m, id) {
                assert(vouches_for(heard[heard.len() - 1], id));
            }
        }
        assert forall|id: u64| new_all.contains(id) <==> id != own && heard_of(heard, id) by {
            assert(old_all.contains(id) <==> id != own && heard_of(earlier, id));
            assert(added == Some(id) <==> id != own && vouches_for(m, id));
        }
    }
}

/// One round with nothing lost elects the highest participant. Let a set of
/// peers take part whose highest identity is `top`, and let the peer `own`
/// among them hear the call of every other participant, and beside that only
/// messages that carry the identity of a participant, in any order and any
/// number. Then the round ends for `own` in `Leader` if it is `top` itself, and
/// in following `top` if it is not. So exactly one participant leads.
pub proof fn round_elects_the_highest(
    participants: Set<u64>,
    top: u64,
    own: u64,
    probe_limit: u32,
    heard: Seq<Message>,
)
    requires
        participants.finite(),
        participants.contains(own),
        participants.contains(top),
        forall|p: u64| participants.contains(p) ==> p <= top,
        forall|p: u64|
            participants.contains(p) && p != own ==> heard.contains(
                Message::CallElection { id: p },
            ),
        forall|i: int|
            0 <= i < heard.len() ==> match (#[trigger] heard[i]).spec_carried() {
                Some(id) => participants.contains(id),
                None => true,
            },
    ensures
        next_state(own, probe_limit, listened_to(own, probe_limit, heard), Event::WindowElapsed)
            == if own == top {
            StateView::Leader
        } else {
            StateView::following(top)
        },
        next_state(own, probe_limit, listened_to(own, probe_limit, heard), Event::WindowElapsed)
            == StateView::Leader <==> own == top,
{
    candidates_are_the_others_heard(own, probe_limit, heard);
    let seen = listened_to(own, probe_limit, heard).candidates();
    highest_is_maximum(seen);
    if seen.len() > 0 {
        let best = highest(seen);
        assert(seen.contains(best));
        assert(heard_of(heard, best));
        let k = choose|k: int| 0 <= k < heard.len() && vouches_for(#[trigger] heard[k], best);
        assert(heard[k].spec_carried() == Some(best));
        assert(best <= top);
    }
    if own != top {
        let call = Message::CallElection { id: top };
        assert(heard.contains(call));
        let k = choose|k: int| 0 <= k < heard.len() && heard[k] == call;
        assert(vouches_for(heard[k], top));
        assert(heard_of(heard, top));
        assert(seen.contains(top));
        let at = choose|at: int| 0 <= at < seen.len() && seen[at] == top;
        assert(seen[at] <= highest(seen));
    }
}

/// A peer never counts itself. A collecting peer that receives a message with
/// its own identity stays exactly as it is, and no run of events whatever puts
/// the identity of a peer among its own candidates.
pub proof fn own_messages_are_never_counted(
    own: u64,
    probe_limit: u32,
    s: StateView,
    m: Message,
    events: Seq<Event>,
)
    requires
        !s.candidates().contains(own),
    ensures
        s is CollectingResponses && m.spec_carried() == Some(own) ==> next_state(
            own,
            probe_limit,
            s,
            Event::Received(m),
        ) == s,
        !after_all(own, probe_limit, s, events).candidates().contains(own),
    decreases events.len(),
{
    if events.len() > 0 {
        own_messages_are_never_counted(own, probe_limit, s, m, events.drop_last());
        let before = after_all(own, probe_limit, s, events.drop_last());
        one_step_keeps_self_out(own, probe_limit, before, events.last());
    }
}

/// One step leaves the identity of the peer out of its candidates.
proof fn one_step_keeps_self_out(own: u64, probe_limit: u32, s: StateView, e: Event)
    requires
        !s.candidates().contains(own),
    ensures
        !next_state(own, probe_limit, s, e).candidates().contains(own),
{
    let now = next_state(own, probe_limit, s, e);
    let all = now.candidates();
    if all.contains(own) {
        let k = choose|k: int| 0 <= k < all.len() && all[k] == own;
        match s {
            StateView::CollectingResponses { callers, answerers } => {
                match e {
                    Event::Received(Message::CallElection { id }) => {
                        if id != own {
                            if k < callers.len() {
                                assert(s.candidates()[k] == own);
                            } else if k > callers.len() {
                                assert(s.candidates()[k - 1] == own);
                            }
                        }
                    },
                    Event::Received(Message::AnswerElection { id }) => {
                        if id != own {
                            if k < s.candidates().len() {
                                assert(s.candidates()[k] == own);
                            }
                        }
                    },
                    _ => {},
                }
            },
            _ => {},
        }
    }
}

/// The answer of a leader ends the search at once. A discovering peer that
/// receives `AnswerLeader` follows the peer named in it, replies nothing, and
/// enters a state whose entry broadcast is a probe, not the announcement of a
/// round.
pub proof fn early_answer_ends_the_search(own: u64, probe_limit: u32, id: u64)
    ensures
        next_state(
            own,
            probe_limit,
            StateView::Discovering,
            Event::Received(Message::AnswerLeader { id }),
        ) == StateView::following(id),
        reply_to(own, StateView::Discovering, Event::Received(Message::AnswerLeader { id }))
            is None,
        outcome_of(own, StateView::Discovering, Event::Received(Message::AnswerLeader { id }))
            == Outcome::Entered,
        entry_broadcast(own, StateView::following(id)) == Some(Message::FindLeader),
{
}

/// A peer that hears nobody makes itself the leader. Its discovery window
/// closes, it announces a round, its election window closes on an empty set of
/// candidates, and it leads: two closed windows and one announcement, in that
/// order, take it from `Discovering` over `ElectionPending` and
/// `CollectingResponses` to `Leader`.
pub proof fn lone_peer_takes_the_lead(own: u64, probe_limit: u32)
    ensures
        next_state(own, probe_limit, StateView::Discovering, Event::WindowElapsed)
            == StateView::ElectionPending,
        next_state(own, probe_limit, StateView::ElectionPending, Event::Announced)
            == StateView::listening(),
        StateView::listening().candidates() =~= Seq::<u64>::empty(),
        next_state(own, probe_limit, StateView::listening(), Event::WindowElapsed)
            == StateView::Leader,
        after_all(
            own,
            probe_limit,
            StateView::Discovering,
            seq![Event::WindowElapsed, Event::Announced, Event::WindowElapsed],
        ) == StateView::Leader,
{
    let run = seq![Event::WindowElapsed, Event::Announced, Event::WindowElapsed];
    let two = run.drop_last();
    let one = two.drop_last();
    assert(one.drop_last() =~= Seq::<Event>::empty());
    assert(StateView::listening().candidates() =~= Seq::<u64>::empty());
    assert(after_all(own, probe_limit, StateView::Discovering, one.drop_last())
        == StateView::Discovering);
    assert(after_all(own, probe_limit, StateView::Discovering, one)
        == StateView::ElectionPending);
    assert(after_all(own, probe_limit, StateView::Discovering, two) == StateView::listening());
}

/// A leader steps down on every call of an election, whether the caller is
/// below it, above it or equal to it: it moves to `ElectionPending`, and it
/// challenges the caller exactly when the caller is below it.
pub proof fn leader_steps_down_on_any_call(own: u64, probe_limit: u32, caller: u64)
    ensures
        next_state(
            own,
            probe_limit,
            StateView::Leader,
            Event::Received(Message::CallElection { id: caller }),
        ) == StateView::ElectionPending,
        reply_to(own, StateView::Leader, Event::Received(Message::CallElection { id: caller }))
            == if caller < own {
            Some(Message::AnswerElection { id: own })
        } else {
            None
        },
{
}

/// A datagram that holds no message leaves the peer as it is, in every state:
/// nothing is replied and the fault is reported. A datagram that was cut short
/// is such a datagram.
pub proof fn faulty_datagram_changes_nothing(
    peer: ElectionView,
    bytes: Seq<u8>,
    m: Message,
    kept: nat,
)
    ensures
        parse_within(bytes, peer.config.receive_buffer_size) is Err ==> peer.after_datagram(bytes)
            == peer && peer.reaction_to_datagram(bytes).0 is None
            && peer.reaction_to_datagram(bytes).1 is Discarded,
        kept < wire_form(m).len() ==> peer.after_datagram(wire_form(m).take(kept as int)) == peer,
{
    if kept < wire_form(m).len() {
        cut_datagram_is_truncated(m, kept);
    }
}

/// The closing of `count` windows, one after another, with nothing between
/// them.
pub open spec fn silence(count: nat) -> Seq<Event> {
    Seq::new(count, |i: int| Event::WindowElapsed)
}

/// Every round ends in a role. A peer with a round pending that announces it,
/// hears whatever it hears and sees its window close, leads or follows; and if
/// it follows, then a peer above it that it heard of.
pub proof fn round_ends_in_a_role(own: u64, probe_limit: u32, heard: Seq<Message>)
    ensures
        next_state(own, probe_limit, StateView::ElectionPending, Event::Announced) == listened_to(
            own,
            probe_limit,
            Seq::empty(),
        ),
        match next_state(
            own,
            probe_limit,
            listened_to(own, probe_limit, heard),
            Event::WindowElapsed,
        ) {
            StateView::Leader => true,
            StateView::Follower { leader_id, silent_windows, confirmed } => leader_id > own
                && heard_of(heard, leader_id) && silent_windows == 0 && !confirmed,
            _ => false,
        },
{
    assert(received(Seq::<Message>::empty()) =~= Seq::<Event>::empty());
    candidates_are_the_others_heard(own, probe_limit, heard);
    let seen = listened_to(own, probe_limit, heard).candidates();
    highest_is_maximum(seen);
    if highest(seen) > own {
        assert(seen.len() > 0);
        assert(seen.contains(highest(seen)));
    }
}

/// A follower leaves its leader only for a new round: whatever happens to it,
/// it follows the same leader afterwards or has a round pending.
pub proof fn follower_leaves_only_for_a_round(
    own: u64,
    probe_limit: u32,
    leader_id: u64,
    silent_windows: u32,
    confirmed: bool,
    e: Event,
)
    ensures
        next_state(
            own,
            probe_limit,
            StateView::Follower { leader_id, silent_windows, confirmed },
            e,
        ).leader() == Some(leader_id) || next_state(
            own,
            probe_limit,
            StateView::Follower { leader_id, silent_windows, confirmed },
            e,
        ) == StateView::ElectionPending,
{
}

/// A leader that stays silent is given up after `probe_limit` probe windows.
/// A peer that has just begun to follow counts the windows that close without
/// an answer, and with the window that reaches the limit it has a round
/// pending.
pub proof fn silent_leader_is_given_up(own: u64, probe_limit: u32, leader_id: u64, windows: nat)
    requires
        windows <= probe_limit,
    ensures
        windows < probe_limit ==> after_all(
            own,
            probe_limit,
            StateView::following(leader_id),
            silence(windows),
        ) == (StateView::Follower { leader_id, silent_windows: windows as u32, confirmed: false }),
        windows == probe_limit && windows > 0 ==> after_all(
            own,
            probe_limit,
            StateView::following(leader_id),
            silence(windows),
        ) == StateView::ElectionPending,
    decreases windows,
{
    if windows > 0 {
        silent_leader_is_given_up(own, probe_limit, leader_id, (windows - 1) as nat);
        assert(silence(windows).drop_last() =~= silence((windows - 1) as nat));
        assert(silence(windows).last() == Event::WindowElapsed);
    }
}

} // verus!
