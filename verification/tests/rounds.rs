use bully::config::Config;
use bully::election::{Directive, Election, Wait};
use bully::machine::step;
use bully::message::{encode, DecodeFault, Message};
use bully::round::{decide, highest_of};
use bully::state::{Event, Outcome, ProtocolState};

fn settings() -> Config {
    Config::default()
}

fn collecting(id: u64) -> Election {
    let mut peer = Election::new(id, settings());
    peer.handle(Event::WindowElapsed);
    peer.handle(Event::Announced);
    peer
}

fn leading(id: u64) -> Election {
    let mut peer = collecting(id);
    peer.handle(Event::WindowElapsed);
    assert_eq!(peer.state(), &ProtocolState::Leader);
    peer
}

fn following(id: u64, leader: u64) -> Election {
    let mut peer = Election::new(id, settings());
    peer.handle(Event::Received(Message::AnswerLeader { id: leader }));
    peer
}

#[test]
fn three_peers_elect_the_highest() {
    let ids: Vec<u64> = vec![10, 50, 30];
    let mut peers: Vec<Election> = Vec::new();
    let mut air: Vec<Vec<u8>> = Vec::new();
    for id in &ids {
        let mut peer = Election::new(*id, settings());
        assert_eq!(peer.directive().broadcast, Some(Message::FindLeader));
        assert_eq!(peer.handle(Event::WindowElapsed), (None, Outcome::Entered));
        assert_eq!(peer.state(), &ProtocolState::ElectionPending);
        let call = peer.directive().broadcast.unwrap();
        assert_eq!(call, Message::CallElection { id: *id });
        air.push(encode(call));
        assert_eq!(peer.handle(Event::Announced), (None, Outcome::Entered));
        peers.push(peer);
    }
    for peer in peers.iter_mut() {
        assert!(peer.collect(&air));
    }
    assert_eq!(peers[0].state(), &ProtocolState::following(50));
    assert_eq!(peers[1].state(), &ProtocolState::Leader);
    assert_eq!(peers[2].state(), &ProtocolState::following(50));
    assert_eq!(peers[0].state().leader(), Some(50));
    assert_eq!(peers[2].state().leader(), Some(50));
    let leaders = peers.iter().filter(|p| p.state().is_leader()).count();
    assert_eq!(leaders, 1);
}

#[test]
fn lone_peer_leads_after_two_windows() {
    let mut peer = Election::new(42, settings());
    let mut windows: u32 = 0;
    let mut trail: Vec<ProtocolState> = vec![peer.state().clone()];
    while !peer.state().is_leader() {
        let event = match peer.directive().wait {
            Wait::Proceed => Event::Announced,
            Wait::Listen { .. } => {
                windows += 1;
                Event::WindowElapsed
            }
            Wait::Drain { .. } => {
                windows += 1;
                Event::WindowElapsed
            }
            Wait::Block => unreachable!(),
        };
        peer.handle(event);
        trail.push(peer.state().clone());
    }
    assert_eq!(windows, 2);
    assert_eq!(
        trail,
        vec![
            ProtocolState::Discovering,
            ProtocolState::ElectionPending,
            ProtocolState::listening(),
            ProtocolState::Leader,
        ]
    );
}

#[test]
fn lone_peer_with_its_own_echo_still_leads() {
    let mut peer = collecting(42);
    let echo = vec![encode(Message::CallElection { id: 42 }), encode(Message::FindLeader)];
    assert!(peer.collect(&echo));
    assert_eq!(peer.state(), &ProtocolState::Leader);
}

#[test]
fn own_identity_is_not_recorded() {
    let mut peer = collecting(7);
    assert_eq!(
        peer.handle(Event::Received(Message::CallElection { id: 7 })),
        (None, Outcome::Ignored)
    );
    assert_eq!(
        peer.handle(Event::Received(Message::AnswerElection { id: 7 })),
        (None, Outcome::Ignored)
    );
    assert_eq!(peer.state(), &ProtocolState::listening());
}

#[test]
fn callers_and_answerers_are_kept_apart() {
    let mut peer = collecting(7);
    assert_eq!(
        peer.handle(Event::Received(Message::CallElection { id: 3 })),
        (None, Outcome::Absorbed)
    );
    assert_eq!(
        peer.handle(Event::Received(Message::AnswerElection { id: 9 })),
        (None, Outcome::Absorbed)
    );
    assert_eq!(
        peer.handle(Event::Received(Message::CallElection { id: 8 })),
        (None, Outcome::Absorbed)
    );
    assert_eq!(
        peer.state(),
        &ProtocolState::CollectingResponses { callers: vec![3, 8], answerers: vec![9] }
    );
    peer.handle(Event::WindowElapsed);
    assert_eq!(peer.state(), &ProtocolState::following(9));
}

#[test]
fn other_messages_do_not_end_the_collecting() {
    let mut peer = collecting(7);
    assert_eq!(peer.handle(Event::Received(Message::FindLeader)), (None, Outcome::Ignored));
    assert_eq!(
        peer.handle(Event::Received(Message::AnswerLeader { id: 99 })),
        (None, Outcome::Ignored)
    );
    assert_eq!(peer.handle(Event::Announced), (None, Outcome::Ignored));
    assert_eq!(peer.state(), &ProtocolState::listening());
}

#[test]
fn only_lower_contenders_make_a_leader() {
    let mut peer = collecting(100);
    let heard = vec![
        encode(Message::CallElection { id: 1 }),
        encode(Message::AnswerElection { id: 99 }),
        encode(Message::CallElection { id: 100 }),
    ];
    assert!(peer.collect(&heard));
    assert_eq!(peer.state(), &ProtocolState::Leader);
}

#[test]
fn collect_skips_datagrams_that_hold_no_message() {
    let mut peer = collecting(5);
    let mut long = encode(Message::CallElection { id: 1000 });
    long.resize(600, 0);
    let heard = vec![
        vec![2u8, 0, 0, 0, 9],
        encode(Message::CallElection { id: 8 }),
        vec![77u8, 0, 0, 0],
        long,
        Vec::new(),
        encode(Message::AnswerElection { id: 6 }),
    ];
    assert!(peer.collect(&heard));
    assert_eq!(peer.state(), &ProtocolState::following(8));
}

#[test]
fn collect_leaves_other_states_alone() {
    let mut peer = Election::new(5, settings());
    let heard = vec![encode(Message::CallElection { id: 8 })];
    assert!(!peer.collect(&heard));
    assert_eq!(peer.state(), &ProtocolState::Discovering);
    let mut leader = leading(5);
    assert!(!leader.collect(&heard));
    assert_eq!(leader.state(), &ProtocolState::Leader);
}

#[test]
fn early_answer_makes_a_follower_without_a_round() {
    let mut peer = Election::new(10, settings());
    assert_eq!(
        peer.handle(Event::Received(Message::AnswerLeader { id: 50 })),
        (None, Outcome::Entered)
    );
    assert_eq!(
        peer.state(),
        &ProtocolState::Follower { leader_id: 50, silent_windows: 0, confirmed: false }
    );
    assert_eq!(peer.directive().broadcast, Some(Message::FindLeader));
}

#[test]
fn any_other_message_ends_the_discovery() {
    for m in [
        Message::FindLeader,
        Message::CallElection { id: 3 },
        Message::AnswerElection { id: 3 },
    ] {
        let mut peer = Election::new(10, settings());
        assert_eq!(peer.handle(Event::Received(m)), (None, Outcome::Entered));
        assert_eq!(peer.state(), &ProtocolState::ElectionPending);
    }
    let mut peer = Election::new(10, settings());
    assert_eq!(peer.handle(Event::Announced), (None, Outcome::Ignored));
    assert_eq!(peer.state(), &ProtocolState::Discovering);
}

#[test]
fn pending_round_moves_on_whatever_happens() {
    for event in [
        Event::Announced,
        Event::WindowElapsed,
        Event::Received(Message::CallElection { id: 3 }),
    ] {
        let t = step(10, 3, ProtocolState::ElectionPending, event);
        assert_eq!(t.next, ProtocolState::listening());
        assert_eq!(t.reply, None);
        assert_eq!(t.outcome, Outcome::Entered);
    }
}

#[test]
fn leader_answers_a_probe_and_stays() {
    let mut peer = leading(20);
    assert_eq!(
        peer.handle(Event::Received(Message::FindLeader)),
        (Some(Message::AnswerLeader { id: 20 }), Outcome::Absorbed)
    );
    assert_eq!(peer.state(), &ProtocolState::Leader);
}

#[test]
fn leader_challenges_a_lower_caller_and_steps_down() {
    let mut peer = leading(20);
    assert_eq!(
        peer.handle(Event::Received(Message::CallElection { id: 19 })),
        (Some(Message::AnswerElection { id: 20 }), Outcome::Entered)
    );
    assert_eq!(peer.state(), &ProtocolState::ElectionPending);
}

#[test]
fn leader_steps_down_silently_before_a_higher_or_equal_caller() {
    for caller in [20u64, 21, u64::MAX] {
        let mut peer = leading(20);
        assert_eq!(
            peer.handle(Event::Received(Message::CallElection { id: caller })),
            (None, Outcome::Entered)
        );
        assert_eq!(peer.state(), &ProtocolState::ElectionPending);
    }
}

#[test]
fn leader_ignores_what_is_not_meant_for_it() {
    let mut peer = leading(20);
    for event in [
        Event::Received(Message::AnswerLeader { id: 99 }),
        Event::Received(Message::AnswerElection { id: 99 }),
        Event::WindowElapsed,
        Event::Announced,
    ] {
        assert_eq!(peer.handle(event), (None, Outcome::Ignored));
        assert_eq!(peer.state(), &ProtocolState::Leader);
    }
}

#[test]
fn follower_gives_up_after_the_limit_of_silent_windows() {
    let mut peer = following(10, 50);
    assert_eq!(peer.config().probe_limit, 3);
    assert_eq!(peer.handle(Event::WindowElapsed), (None, Outcome::Entered));
    assert_eq!(
        peer.state(),
        &ProtocolState::Follower { leader_id: 50, silent_windows: 1, confirmed: false }
    );
    assert_eq!(peer.directive().broadcast, Some(Message::FindLeader));
    peer.handle(Event::WindowElapsed);
    assert_eq!(
        peer.state(),
        &ProtocolState::Follower { leader_id: 50, silent_windows: 2, confirmed: false }
    );
    assert_eq!(peer.handle(Event::WindowElapsed), (None, Outcome::Entered));
    assert_eq!(peer.state(), &ProtocolState::ElectionPending);
}

#[test]
fn answer_of_the_leader_clears_the_silent_windows() {
    let mut peer = following(10, 50);
    peer.handle(Event::WindowElapsed);
    peer.handle(Event::WindowElapsed);
    assert_eq!(
        peer.handle(Event::Received(Message::AnswerLeader { id: 50 })),
        (None, Outcome::Absorbed)
    );
    assert_eq!(
        peer.state(),
        &ProtocolState::Follower { leader_id: 50, silent_windows: 0, confirmed: true }
    );
    assert_eq!(peer.handle(Event::WindowElapsed), (None, Outcome::Entered));
    assert_eq!(peer.state(), &ProtocolState::following(50));
}

#[test]
fn follower_ignores_the_answer_of_another_peer() {
    let mut peer = following(10, 50);
    for event in [
        Event::Received(Message::AnswerLeader { id: 49 }),
        Event::Received(Message::FindLeader),
        Event::Received(Message::AnswerElection { id: 60 }),
        Event::Announced,
    ] {
        assert_eq!(peer.handle(event), (None, Outcome::Ignored));
        assert_eq!(peer.state(), &ProtocolState::following(50));
    }
}

#[test]
fn follower_joins_a_round_that_another_peer_calls() {
    for caller in [5u64, 10, 50, 70] {
        let mut peer = following(10, 50);
        assert_eq!(
            peer.handle(Event::Received(Message::CallElection { id: caller })),
            (None, Outcome::Entered)
        );
        assert_eq!(peer.state(), &ProtocolState::ElectionPending);
    }
}

#[test]
fn follower_with_limit_zero_or_one_gives_up_at_the_first_silent_window() {
    for limit in [0u32, 1] {
        let t = step(10, limit, ProtocolState::following(50), Event::WindowElapsed);
        assert_eq!(t.next, ProtocolState::ElectionPending);
    }
    let t = step(
        10,
        2,
        ProtocolState::Follower { leader_id: 50, silent_windows: u32::MAX, confirmed: false },
        Event::WindowElapsed,
    );
    assert_eq!(t.next, ProtocolState::ElectionPending);
}

#[test]
fn faulty_datagram_leaves_every_state_as_it_is() {
    let faulty: Vec<(Vec<u8>, DecodeFault)> = vec![
        (vec![], DecodeFault::Truncated),
        (vec![2u8, 0, 0, 0, 1, 2, 3], DecodeFault::Truncated),
        (vec![200u8, 0, 0, 0, 1, 2, 3], DecodeFault::UnknownTag { tag: 200 }),
        (vec![0u8; 513], DecodeFault::Oversized),
    ];
    let mut collecting_some = collecting(10);
    collecting_some.handle(Event::Received(Message::CallElection { id: 77 }));
    let mut peers = vec![
        Election::new(10, settings()),
        collecting(10),
        collecting_some,
        leading(10),
        following(10, 50),
    ];
    for peer in peers.iter_mut() {
        let before = peer.state().clone();
        for (bytes, fault) in &faulty {
            assert_eq!(peer.receive(bytes), (None, Outcome::Discarded { fault: *fault }));
            assert_eq!(peer.state(), &before);
        }
    }
}

#[test]
fn datagram_with_a_message_is_its_arrival() {
    let mut peer = leading(20);
    assert_eq!(
        peer.receive(&encode(Message::FindLeader)),
        (Some(Message::AnswerLeader { id: 20 }), Outcome::Absorbed)
    );
    let mut padded = encode(Message::CallElection { id: 3 });
    padded.resize(512, 0);
    assert_eq!(
        peer.receive(&padded),
        (Some(Message::AnswerElection { id: 20 }), Outcome::Entered)
    );
    assert_eq!(peer.state(), &ProtocolState::ElectionPending);
}

#[test]
fn each_state_tells_the_driver_what_to_do() {
    let config = Config {
        discovery_window_ms: 11,
        election_window_ms: 22,
        probe_window_ms: 33,
        ..Config::default()
    };
    let mut peer = Election::new(8, config);
    assert_eq!(
        peer.directive(),
        Directive { broadcast: Some(Message::FindLeader), wait: Wait::Listen { window_ms: 11 } }
    );
    peer.handle(Event::WindowElapsed);
    assert_eq!(
        peer.directive(),
        Directive { broadcast: Some(Message::CallElection { id: 8 }), wait: Wait::Proceed }
    );
    peer.handle(Event::Announced);
    assert_eq!(peer.directive(), Directive { broadcast: None, wait: Wait::Drain { window_ms: 22 } });
    peer.handle(Event::WindowElapsed);
    assert_eq!(peer.directive(), Directive { broadcast: None, wait: Wait::Block });
    let mut follower = Election::new(8, config);
    follower.handle(Event::Received(Message::AnswerLeader { id: 9 }));
    assert_eq!(
        follower.directive(),
        Directive { broadcast: Some(Message::FindLeader), wait: Wait::Listen { window_ms: 33 } }
    );
}

#[test]
fn new_peer_keeps_what_it_was_given() {
    let config = Config { broadcast_port: 7000, ..Config::default() };
    let peer = Election::new(1234, config);
    assert_eq!(peer.id(), 1234);
    assert_eq!(peer.config(), &config);
    assert_eq!(peer.state(), &ProtocolState::Discovering);
}

#[test]
fn launched_peer_starts_discovering() {
    let config = Config { probe_limit: 9, ..Config::default() };
    let first = Election::launch(config);
    assert_eq!(first.state(), &ProtocolState::Discovering);
    assert_eq!(first.config(), &config);
    let others: Vec<u64> = (0..8).map(|_| Election::launch(config).id()).collect();
    assert!(others.iter().any(|id| *id != first.id()));
}

#[test]
fn highest_of_picks_the_maximum() {
    assert_eq!(highest_of(&vec![]), 0);
    assert_eq!(highest_of(&vec![0]), 0);
    assert_eq!(highest_of(&vec![3, 9, 4]), 9);
    assert_eq!(highest_of(&vec![u64::MAX, 1]), u64::MAX);
    assert_eq!(highest_of(&vec![5, 5, 5]), 5);
}

#[test]
fn decide_follows_the_highest_above_own() {
    assert_eq!(decide(30, &vec![10, 50], &vec![]), ProtocolState::following(50));
    assert_eq!(decide(30, &vec![10], &vec![50, 40]), ProtocolState::following(50));
    assert_eq!(decide(30, &vec![60], &vec![50]), ProtocolState::following(60));
    assert_eq!(decide(50, &vec![10, 30], &vec![30]), ProtocolState::Leader);
    assert_eq!(decide(50, &vec![50], &vec![]), ProtocolState::Leader);
    assert_eq!(decide(0, &vec![], &vec![]), ProtocolState::Leader);
    assert_eq!(decide(0, &vec![1], &vec![]), ProtocolState::following(1));
}

#[test]
fn order_and_repetition_of_messages_do_not_matter() {
    let calls: Vec<Vec<u8>> = vec![
        encode(Message::CallElection { id: 30 }),
        encode(Message::CallElection { id: 50 }),
        encode(Message::AnswerElection { id: 50 }),
        encode(Message::CallElection { id: 10 }),
        encode(Message::CallElection { id: 30 }),
    ];
    let mut reversed = calls.clone();
    reversed.reverse();
    for heard in [calls, reversed] {
        let mut low = collecting(10);
        let mut top = collecting(50);
        assert!(low.collect(&heard));
        assert!(top.collect(&heard));
        assert_eq!(low.state(), &ProtocolState::following(50));
        assert_eq!(top.state(), &ProtocolState::Leader);
    }
}
