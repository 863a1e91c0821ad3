use lan_session::messages::{Inbound, Message, WebrtcIce};
use lan_session::race::{Race, RaceAction, RaceEvent, Transport};

fn ice(session_key: &str, candidate: &str) -> WebrtcIce {
    WebrtcIce {
        session_key: session_key.to_owned(),
        candidate: candidate.to_owned(),
    }
}

fn received(session_key: &str, candidate: &str) -> RaceEvent {
    RaceEvent::Received(Inbound::Message(Message::WebrtcIce(ice(session_key, candidate))))
}

fn found(candidate: &str) -> RaceEvent {
    RaceEvent::LocalCandidate(Some(candidate.to_owned()))
}

fn step(race: &mut Race, event: RaceEvent) -> RaceAction {
    assert!(race.expects(&event));
    race.step(event)
}

fn wait(connect_millis: u64, tick_millis: u64) -> RaceAction {
    RaceAction::WaitForFirst {
        connect_millis,
        tick_millis,
    }
}

/// A race that has found `candidates` and waits.
fn waiting(candidates: &[&str]) -> Race {
    let (mut race, action) = Race::start("key");
    assert_eq!(action, RaceAction::PollLocalCandidate);
    for candidate in candidates {
        assert_eq!(step(&mut race, found(candidate)), RaceAction::PollLocalCandidate);
    }
    assert_eq!(step(&mut race, RaceEvent::LocalCandidate(None)), RaceAction::ReadClock);
    assert_eq!(step(&mut race, RaceEvent::Elapsed { nanos: 0 }), wait(4_000, 200));
    race
}

#[test]
fn channel_that_comes_up_wins() {
    let mut race = waiting(&[]);
    assert_eq!(
        step(&mut race, RaceEvent::Connected(true)),
        RaceAction::Finish(Transport::Webrtc)
    );
    assert!(!race.expects(&RaceEvent::Tick));
    assert!(!race.expects(&RaceEvent::Connected(false)));
}

#[test]
fn channel_that_fails_loses() {
    let mut race = waiting(&[]);
    assert_eq!(
        step(&mut race, RaceEvent::Connected(false)),
        RaceAction::Finish(Transport::Tcp)
    );
}

#[test]
fn found_candidates_go_out_before_the_decision() {
    let mut race = waiting(&["a", "b"]);
    assert_eq!(
        step(&mut race, RaceEvent::Connected(true)),
        RaceAction::SendCandidate(ice("key", "a"))
    );
    assert_eq!(
        step(&mut race, RaceEvent::Sent(true)),
        RaceAction::SendCandidate(ice("key", "b"))
    );
    assert_eq!(
        step(&mut race, RaceEvent::Sent(true)),
        RaceAction::Finish(Transport::Webrtc)
    );
}

#[test]
fn failed_send_leaves_the_channel_its_grace() {
    for up in [true, false] {
        let mut race = waiting(&["a", "b"]);
        step(&mut race, RaceEvent::Tick);
        assert_eq!(
            step(&mut race, RaceEvent::Sent(false)),
            RaceAction::WaitConnected { millis: 500 }
        );
        let transport = if up { Transport::Webrtc } else { Transport::Tcp };
        assert_eq!(
            step(&mut race, RaceEvent::Connected(up)),
            RaceAction::Finish(transport)
        );
    }
}

#[test]
fn dead_stream_leaves_the_channel_its_grace() {
    for up in [true, false] {
        let mut race = waiting(&["a"]);
        assert_eq!(
            step(&mut race, RaceEvent::Received(Inbound::Closed)),
            RaceAction::WaitConnected { millis: 500 }
        );
        let transport = if up { Transport::Webrtc } else { Transport::Tcp };
        assert_eq!(
            step(&mut race, RaceEvent::Connected(up)),
            RaceAction::Finish(transport)
        );
    }
}

#[test]
fn channel_that_came_up_during_a_long_send_wins() {
    let cases = [
        (Some(2_000_000_000), Transport::Webrtc),
        (Some(4_000_000_000), Transport::Webrtc),
        (Some(4_000_000_001), Transport::Tcp),
        (Some(6_900_000_000), Transport::Tcp),
        (None, Transport::Tcp),
    ];
    for (up_after_nanos, transport) in cases {
        let mut race = waiting(&["a"]);
        assert_eq!(
            step(&mut race, RaceEvent::Tick),
            RaceAction::SendCandidate(ice("key", "a"))
        );
        assert_eq!(
            step(&mut race, RaceEvent::Sent(true)),
            RaceAction::PollLocalCandidate
        );
        step(&mut race, RaceEvent::LocalCandidate(None));
        let late = RaceEvent::Elapsed {
            nanos: 6_900_000_000,
        };
        assert_eq!(step(&mut race, late), RaceAction::LastLook);
        assert!(!race.expects(&RaceEvent::Connected(true)));
        assert_eq!(
            step(&mut race, RaceEvent::Seen { up_after_nanos }),
            RaceAction::Finish(transport)
        );
    }
}

#[test]
fn actions_have_their_limits() {
    let limit = |action: RaceAction| action.limit_millis();
    assert_eq!(limit(RaceAction::SendCandidate(ice("key", "a"))), Some(3_000));
    assert_eq!(limit(RaceAction::WaitConnected { millis: 500 }), Some(500));
    assert_eq!(limit(wait(4_000, 200)), Some(200));
    assert_eq!(limit(RaceAction::PollLocalCandidate), None);
    assert_eq!(limit(RaceAction::LastLook), None);
}

#[test]
fn round_comes_back_to_the_clock() {
    let mut race = waiting(&["a", "b"]);
    step(&mut race, received("key", "1"));
    let events = [
        RaceEvent::Sent(true),
        RaceEvent::Sent(true),
        RaceEvent::RemoteCandidateAdded,
        found("c"),
        found("d"),
    ];
    for event in events {
        step(&mut race, event);
    }
    assert_eq!(
        step(&mut race, RaceEvent::LocalCandidate(None)),
        RaceAction::ReadClock
    );
}

#[test]
fn nothing_is_sent_after_a_failed_send() {
    let mut race = waiting(&["a", "b"]);
    step(&mut race, received("key", "1"));
    assert_eq!(
        step(&mut race, RaceEvent::Sent(false)),
        RaceAction::WaitConnected { millis: 500 }
    );
    assert_eq!(
        step(&mut race, RaceEvent::Connected(true)),
        RaceAction::Finish(Transport::Webrtc)
    );
}

#[test]
fn arrived_candidate_is_handed_over_before_the_end() {
    let mut race = waiting(&["a"]);
    step(&mut race, received("key", "1"));
    assert_eq!(
        step(&mut race, RaceEvent::Sent(true)),
        RaceAction::AddRemoteCandidate("1".to_owned())
    );
    step(&mut race, RaceEvent::RemoteCandidateAdded);
    step(&mut race, RaceEvent::LocalCandidate(None));
    step(&mut race, RaceEvent::Elapsed { nanos: u128::MAX });
    assert_eq!(
        step(&mut race, RaceEvent::Seen { up_after_nanos: None }),
        RaceAction::Finish(Transport::Tcp)
    );
}

#[test]
fn later_report_replaces_the_earlier() {
    let mut race = waiting(&["a"]);
    step(&mut race, RaceEvent::Connected(true));
    step(&mut race, RaceEvent::Sent(false));
    assert_eq!(
        step(&mut race, RaceEvent::Connected(false)),
        RaceAction::Finish(Transport::Tcp)
    );
}

#[test]
fn remote_candidates_are_added_in_order() {
    let mut race = waiting(&["a"]);
    assert_eq!(
        step(&mut race, received("key", "1")),
        RaceAction::SendCandidate(ice("key", "a"))
    );
    assert_eq!(
        step(&mut race, RaceEvent::Sent(true)),
        RaceAction::AddRemoteCandidate("1".to_owned())
    );
    assert_eq!(
        step(&mut race, RaceEvent::RemoteCandidateAdded),
        RaceAction::PollLocalCandidate
    );
}

#[test]
fn candidates_of_several_rounds_keep_their_order() {
    let mut race = waiting(&["a"]);
    let mut added = Vec::new();
    let mut sent = Vec::new();
    for (remote, local) in [("1", "b"), ("2", "c"), ("3", "d")] {
        let mut action = step(&mut race, received("key", remote));
        loop {
            let event = match action {
                RaceAction::SendCandidate(ice) => {
                    assert_eq!(ice.session_key, "key");
                    sent.push(ice.candidate);
                    RaceEvent::Sent(true)
                }
                RaceAction::AddRemoteCandidate(candidate) => {
                    added.push(candidate);
                    RaceEvent::RemoteCandidateAdded
                }
                _ => break,
            };
            action = step(&mut race, event);
        }
        step(&mut race, found(local));
        step(&mut race, RaceEvent::LocalCandidate(None));
        step(&mut race, RaceEvent::Elapsed { nanos: 0 });
    }
    assert_eq!(added, ["1", "2", "3"]);
    assert_eq!(sent, ["a", "b", "c"]);
}

#[test]
fn foreign_candidates_are_dropped() {
    for event in [
        received("other", "1"),
        RaceEvent::Received(Inbound::Malformed),
        RaceEvent::Received(Inbound::Message(Message::Other)),
        RaceEvent::Tick,
    ] {
        let mut race = waiting(&[]);
        assert_eq!(step(&mut race, event), RaceAction::PollLocalCandidate);
    }
}

#[test]
fn waits_shrink_towards_the_deadline() {
    let actions = [
        (0, wait(4_000, 200)),
        (1, wait(3_999, 200)),
        (3_800_000_000, wait(200, 200)),
        (3_800_000_001, wait(199, 199)),
        (3_999_000_000, wait(1, 1)),
        (3_999_999_999, wait(1, 1)),
        (4_000_000_000, RaceAction::LastLook),
        (u128::MAX, RaceAction::LastLook),
    ];
    for (nanos, expected) in actions {
        let (mut race, _) = Race::start("key");
        step(&mut race, RaceEvent::LocalCandidate(None));
        assert_eq!(step(&mut race, RaceEvent::Elapsed { nanos }), expected);
    }
}

#[test]
fn race_expects_only_what_it_asked_for() {
    let (race, _) = Race::start("key");
    assert!(race.expects(&RaceEvent::LocalCandidate(None)));
    assert!(!race.expects(&RaceEvent::Sent(true)));
    assert!(!race.expects(&RaceEvent::RemoteCandidateAdded));
    assert!(!race.expects(&RaceEvent::Elapsed { nanos: 0 }));
    assert!(!race.expects(&RaceEvent::Connected(true)));
    assert!(!race.expects(&RaceEvent::Received(Inbound::Closed)));
    assert!(!race.expects(&RaceEvent::Tick));
}
