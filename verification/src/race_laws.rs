//! What holds of every race, however the network behaves.

use crate::messages::{IceView, InboundView, MessageView};
use crate::race::{
    admitted_candidate, came_up_in_time, remaining_millis, transport_for, Phase, RaceAction,
    RaceActionView, RaceEvent, RaceEventView, RaceView, Transport, NANOS_PER_MILLI, TICK_MILLIS, WEBRTC_SETUP_TIMEOUT_MILLIS,
    WEBRTC_STREAM_DIE_GRACE_MILLIS,
};
use vstd::prelude::*;

verus! {

/// The race under `session_key` after `events`.
pub open spec fn after(session_key: Seq<char>, events: Seq<RaceEventView>) -> RaceView
    decreases events.len(),
{
    if events.len() == 0 {
        RaceView::start(session_key)
    } else {
        after(session_key, events.drop_last()).step(events.last()).0
    }
}

/// Everything that the race has asked for, from its start to the last of `events`.
pub open spec fn actions(session_key: Seq<char>, events: Seq<RaceEventView>) -> Seq<RaceActionView>
    decreases events.len(),
{
    if events.len() == 0 {
        seq![RaceActionView::PollLocalCandidate]
    } else {
        actions(session_key, events.drop_last()).push(
            after(session_key, events.drop_last()).step(events.last()).1,
        )
    }
}

/// Each of `events` is one that the race was waiting for.
pub open spec fn possible(session_key: Seq<char>, events: Seq<RaceEventView>) -> bool
    decreases events.len(),
{
    events.len() == 0 || {
        &&& possible(session_key, events.drop_last())
        &&& after(session_key, events.drop_last()).expects(events.last())
    }
}

/// The peer's candidates in `events`, in the order of their arrival.
pub open spec fn received_candidates(
    session_key: Seq<char>,
    events: Seq<RaceEventView>,
) -> Seq<Seq<char>>
    decreases events.len(),
{
    if events.len() == 0 {
        Seq::empty()
    } else {
        let before = received_candidates(session_key, events.drop_last());
        match events.last() {
            RaceEventView::Received(inbound) => match admitted_candidate(session_key, inbound) {
                Some(candidate) => before.push(candidate),
                None => before,
            },
            _ => before,
        }
    }
}

/// The local candidates in `events`, in the order in which they were found.
pub open spec fn found_candidates(events: Seq<RaceEventView>) -> Seq<Seq<char>>
    decreases events.len(),
{
    if events.len() == 0 {
        Seq::empty()
    } else {
        let before = found_candidates(events.drop_last());
        match events.last() {
            RaceEventView::LocalCandidate(Some(candidate)) => before.push(candidate),
            _ => before,
        }
    }
}

/// The candidates that `asked` hands to the WebRTC connection, in order.
pub open spec fn added_candidates(asked: Seq<RaceActionView>) -> Seq<Seq<char>>
    decreases asked.len(),
{
    if asked.len() == 0 {
        Seq::empty()
    } else {
        let before = added_candidates(asked.drop_last());
        match asked.last() {
            RaceActionView::AddRemoteCandidate(candidate) => before.push(candidate),
            _ => before,
        }
    }
}

/// The candidates that `asked` sends to the peer, in order.
pub open spec fn sent_candidates(asked: Seq<RaceActionView>) -> Seq<Seq<char>>
    decreases asked.len(),
{
    if asked.len() == 0 {
        Seq::empty()
    } else {
        let before = sent_candidates(asked.drop_last());
        match asked.last() {
            RaceActionView::SendCandidate(ice) => before.push(ice.candidate),
            _ => before,
        }
    }
}

/// The last that was heard of the WebRTC channel: whether it came up, and in time where that was
/// asked.
pub open spec fn last_report(events: Seq<RaceEventView>) -> Option<bool>
    decreases events.len(),
{
    if events.len() == 0 {
        None
    } else {
        match events.last() {
            RaceEventView::Connected(up) => Some(up),
            RaceEventView::Seen { up_after_nanos } => Some(came_up_in_time(up_after_nanos)),
            _ => last_report(events.drop_last()),
        }
    }
}

/// The race keeps its session key, and knows of the channel what was last heard of it. It goes on
/// looking for candidates, and waiting, only as long as nothing has been heard; once it is over, it
/// is over as that last report says.
pub proof fn race_tracks_the_channel(session_key: Seq<char>, events: Seq<RaceEventView>)
    requires
        possible(session_key, events),
    ensures
        after(session_key, events).session_key == session_key,
        after(session_key, events).outcome == last_report(events),
        match after(session_key, events).phase {
            Phase::Sending | Phase::Settling => true,
            Phase::Adding | Phase::Polling | Phase::Timing | Phase::Waiting | Phase::Looking =>
                last_report(events) is None,
            Phase::Finished(transport) => last_report(events) matches Some(up) && transport
                == transport_for(up),
        },
    decreases events.len(),
{
    if events.len() > 0 {
        race_tracks_the_channel(session_key, events.drop_last());
    }
}

/// A race ends on WebRTC exactly where the last report on the channel says that it is up, and on
/// TCP exactly where the last report says that it is not: never without a report.
pub proof fn race_ends_as_last_reported(
    session_key: Seq<char>,
    events: Seq<RaceEventView>,
    transport: Transport,
)
    requires
        possible(session_key, events),
        actions(session_key, events).last() == RaceActionView::Finish(transport),
    ensures
        (transport == Transport::Webrtc) <==> last_report(events) == Some(true),
        (transport == Transport::Tcp) <==> last_report(events) == Some(false),
{
    race_tracks_the_channel(session_key, events);
    assert(events.len() > 0);
    let before = after(session_key, events.drop_last());
    assert(before.step(events.last()).1 == RaceActionView::Finish(transport));
    assert(after(session_key, events).phase == Phase::Finished(transport));
}

/// A race that has ended waits for nothing more.
pub proof fn finished_race_expects_nothing(
    session_key: Seq<char>,
    events: Seq<RaceEventView>,
    transport: Transport,
    event: RaceEventView,
)
    requires
        possible(session_key, events),
        actions(session_key, events).last() == RaceActionView::Finish(transport),
    ensures
        !possible(session_key, events.push(event)),
{
    assert(events.len() > 0);
    let before = after(session_key, events.drop_last());
    assert(before.step(events.last()).1 == RaceActionView::Finish(transport));
    assert(after(session_key, events).phase == Phase::Finished(transport));
    assert(events.push(event).drop_last() =~= events);
    assert(events.push(event).last() == event);
}

/// The peer's candidates reach the WebRTC connection one for one and in the order of their
/// arrival: those handed over, and behind them those that still wait, are those that arrived under
/// this race's session key. Candidates under another key, and other messages, are dropped.
pub proof fn remote_candidates_are_added_in_order(
    session_key: Seq<char>,
    events: Seq<RaceEventView>,
)
    requires
        possible(session_key, events),
    ensures
        added_candidates(actions(session_key, events)) + after(session_key, events).pending_remote
            == received_candidates(session_key, events),
    decreases events.len(),
{
    if events.len() == 0 {
        assert(actions(session_key, events).drop_last() =~= Seq::<RaceActionView>::empty());
        reveal_with_fuel(added_candidates, 2);
    } else {
        let earlier = events.drop_last();
        remote_candidates_are_added_in_order(session_key, earlier);
        race_tracks_the_channel(session_key, earlier);
        let asked = actions(session_key, events);
        let before = after(session_key, earlier);
        assert(asked.drop_last() =~= actions(session_key, earlier));
        assert(asked.last() == before.step(events.last()).1);
        let queue = match events.last() {
            RaceEventView::Received(inbound) => match admitted_candidate(session_key, inbound) {
                Some(candidate) => before.pending_remote.push(candidate),
                None => before.pending_remote,
            },
            _ => before.pending_remote,
        };
        assert(added_candidates(actions(session_key, earlier)) + queue =~= received_candidates(
            session_key,
            events,
        ));
        match asked.last() {
            RaceActionView::AddRemoteCandidate(candidate) => {
                assert(queue =~= seq![candidate] + after(session_key, events).pending_remote);
            },
            _ => {
                assert(queue =~= after(session_key, events).pending_remote);
            },
        }
        assert(added_candidates(asked) + after(session_key, events).pending_remote
            =~= received_candidates(session_key, events));
    }
}

/// The local candidates reach the peer one for one and in the order in which they were found:
/// those sent, and behind them those that still wait, are those that were found.
pub proof fn local_candidates_are_sent_in_order(session_key: Seq<char>, events: Seq<RaceEventView>)
    requires
        possible(session_key, events),
    ensures
        sent_candidates(actions(session_key, events)) + after(session_key, events).pending_local
            == found_candidates(events),
    decreases events.len(),
{
    if events.len() == 0 {
        assert(actions(session_key, events).drop_last() =~= Seq::<RaceActionView>::empty());
        reveal_with_fuel(sent_candidates, 2);
    } else {
        let earlier = events.drop_last();
        local_candidates_are_sent_in_order(session_key, earlier);
        let asked = actions(session_key, events);
        let before = after(session_key, earlier);
        assert(asked.drop_last() =~= actions(session_key, earlier));
        assert(asked.last() == before.step(events.last()).1);
        let queue = match events.last() {
            RaceEventView::LocalCandidate(Some(candidate)) => before.pending_local.push(candidate),
            _ => before.pending_local,
        };
        assert(sent_candidates(actions(session_key, earlier)) + queue =~= found_candidates(events));
        match asked.last() {
            RaceActionView::SendCandidate(ice) => {
                assert(queue =~= seq![ice.candidate] + after(session_key, events).pending_local);
            },
            _ => {
                assert(queue =~= after(session_key, events).pending_local);
            },
        }
        assert(sent_candidates(asked) + after(session_key, events).pending_local
            =~= found_candidates(events));
    }
}

/// Every candidate goes to the peer under the race's session key.
pub proof fn candidates_are_sent_under_the_session_key(
    session_key: Seq<char>,
    events: Seq<RaceEventView>,
    i: int,
)
    requires
        possible(session_key, events),
        0 <= i < actions(session_key, events).len(),
    ensures
        actions(session_key, events)[i] matches RaceActionView::SendCandidate(ice)
            ==> ice.session_key == session_key,
    decreases events.len(),
{
    if events.len() > 0 {
        let earlier = events.drop_last();
        race_tracks_the_channel(session_key, earlier);
        if i < actions(session_key, earlier).len() {
            candidates_are_sent_under_the_session_key(session_key, earlier, i);
        }
    }
}

/// A stream that dies, on a read or on a send, decides nothing: the channel gets its grace, and
/// what is then heard of it decides.
pub proof fn dead_stream_leaves_the_channel_its_grace(
    race: RaceView,
    death: RaceEventView,
    up: bool,
)
    requires
        race.expects(death),
        death == RaceEventView::Received(InboundView::Closed) || death == RaceEventView::Sent(
            false,
        ),
    ensures
        race.step(death).1 == (RaceActionView::WaitConnected {
            millis: WEBRTC_STREAM_DIE_GRACE_MILLIS,
        }),
        race.step(death).0.expects(RaceEventView::Connected(up)),
        race.step(death).0.step(RaceEventView::Connected(up)).1 == RaceActionView::Finish(
            transport_for(up),
        ),
{
}

/// Where the race stands once the sends that it asks for have succeeded `count` times in a row.
pub open spec fn after_sends(stand: (RaceView, RaceActionView), count: nat) -> (
    RaceView,
    RaceActionView,
)
    decreases count,
{
    if count == 0 {
        stand
    } else {
        after_sends(stand.0.step(RaceEventView::Sent(true)), (count - 1) as nat)
    }
}

/// A channel that comes up while the race waits wins it, and one that fails loses it, as soon as
/// the local candidates that were still waiting have gone out.
pub proof fn report_while_waiting_decides(race: RaceView, up: bool)
    requires
        race.phase == Phase::Waiting,
    ensures
        race.expects(RaceEventView::Connected(up)),
        after_sends(
            race.step(RaceEventView::Connected(up)),
            race.pending_local.len(),
        ).1 == RaceActionView::Finish(transport_for(up)),
{
    decided_race_finishes(RaceView { outcome: Some(up), ..race }, up);
}

/// A race that has heard of the channel finishes behind its local candidates.
proof fn decided_race_finishes(race: RaceView, up: bool)
    requires
        race.outcome == Some(up),
    ensures
        after_sends(race.next_round(), race.pending_local.len()).1 == RaceActionView::Finish(
            transport_for(up),
        ),
    decreases race.pending_local.len(),
{
    if race.pending_local.len() > 0 {
        decided_race_finishes(race.next_round().0, up);
    }
}

/// Once the setup time is over there is a last look at the channel. Before that, the race waits at
/// most until the setup time is over, give or take the last millisecond, and looks for local
/// candidates again after a tick.
pub proof fn race_keeps_its_setup_time(
    session_key: Seq<char>,
    events: Seq<RaceEventView>,
    nanos: u128,
)
    requires
        possible(session_key, events.push(RaceEventView::Elapsed { nanos })),
    ensures
        ({
            let asked = actions(session_key, events.push(RaceEventView::Elapsed { nanos })).last();
            let setup = WEBRTC_SETUP_TIMEOUT_MILLIS * NANOS_PER_MILLI;
            if nanos >= setup {
                asked == RaceActionView::LastLook
            } else {
                asked matches RaceActionView::WaitForFirst { connect_millis, tick_millis } && {
                    &&& 1 <= tick_millis <= connect_millis <= WEBRTC_SETUP_TIMEOUT_MILLIS
                    &&& tick_millis <= TICK_MILLIS
                    &&& connect_millis == 1 || nanos + connect_millis * NANOS_PER_MILLI <= setup
                    &&& nanos + (connect_millis + 1) * NANOS_PER_MILLI > setup
                }
            }
        }),
{
    let all = events.push(RaceEventView::Elapsed { nanos });
    assert(all.drop_last() =~= events);
    assert(all.last() == (RaceEventView::Elapsed { nanos }));
    race_tracks_the_channel(session_key, events);
    let setup = WEBRTC_SETUP_TIMEOUT_MILLIS * NANOS_PER_MILLI;
    if nanos < setup {
        assert(remaining_millis(nanos) <= WEBRTC_SETUP_TIMEOUT_MILLIS);
    }
}

/// A setup time that has run out leaves the decision to a last look: a channel that came up in time
/// wins, whether or not it had been looked at since; one that came up later, or is not up, loses.
pub proof fn last_look_decides(race: RaceView, nanos: u128, up_after_nanos: Option<u128>)
    requires
        race.expects(RaceEventView::Elapsed { nanos }),
        nanos >= WEBRTC_SETUP_TIMEOUT_MILLIS * NANOS_PER_MILLI,
    ensures
        race.step(RaceEventView::Elapsed { nanos }).0.expects(
            RaceEventView::Seen { up_after_nanos },
        ),
        race.step(RaceEventView::Elapsed { nanos }).0.step(
            RaceEventView::Seen { up_after_nanos },
        ).1 == RaceActionView::Finish(
            match up_after_nanos {
                Some(up_after) => if up_after <= WEBRTC_SETUP_TIMEOUT_MILLIS * NANOS_PER_MILLI {
                    Transport::Webrtc
                } else {
                    Transport::Tcp
                },
                None => Transport::Tcp,
            },
        ),
{
}

/// Whether one of `events` says that a candidate could not be sent.
pub open spec fn send_failed(events: Seq<RaceEventView>) -> bool
    decreases events.len(),
{
    events.len() > 0 && (events.last() == RaceEventView::Sent(false) || send_failed(
        events.drop_last(),
    ))
}

/// Behind a send that failed there is only the channel's grace.
proof fn failed_send_leads_to_the_end(session_key: Seq<char>, events: Seq<RaceEventView>)
    requires
        possible(session_key, events),
        send_failed(events),
    ensures
        match after(session_key, events).phase {
            Phase::Settling | Phase::Finished(_) => true,
            _ => false,
        },
        actions(session_key, events).last() !is SendCandidate,
    decreases events.len(),
{
    if events.last() != RaceEventView::Sent(false) {
        failed_send_leads_to_the_end(session_key, events.drop_last());
    }
}

/// Nothing is sent any more once a send has failed: of the actions behind that event, none is a
/// send.
pub proof fn nothing_is_sent_after_a_failed_send(
    session_key: Seq<char>,
    events: Seq<RaceEventView>,
    failure: int,
    i: int,
)
    requires
        possible(session_key, events),
        0 <= failure < events.len(),
        events[failure] == RaceEventView::Sent(false),
        failure < i < actions(session_key, events).len(),
    ensures
        actions(session_key, events)[i] !is SendCandidate,
    decreases events.len(),
{
    actions_follow_events(session_key, events);
    let earlier = events.drop_last();
    if i < events.len() {
        actions_follow_events(session_key, earlier);
        nothing_is_sent_after_a_failed_send(session_key, earlier, failure, i);
    } else {
        send_has_failed(events, failure);
        failed_send_leads_to_the_end(session_key, events);
    }
}

/// There is one action at the start, and one for each event.
proof fn actions_follow_events(session_key: Seq<char>, events: Seq<RaceEventView>)
    ensures
        actions(session_key, events).len() == events.len() + 1,
    decreases events.len(),
{
    if events.len() > 0 {
        actions_follow_events(session_key, events.drop_last());
    }
}

/// A failed send is one wherever it stands.
proof fn send_has_failed(events: Seq<RaceEventView>, failure: int)
    requires
        0 <= failure < events.len(),
        events[failure] == RaceEventView::Sent(false),
    ensures
        send_failed(events),
    decreases events.len(),
{
    if failure < events.len() - 1 {
        send_has_failed(events.drop_last(), failure);
    }
}

/// Unless a send failed, the peer's candidates wait only behind local ones that still have to go
/// out, or behind each other, and only as long as the race is open.
proof fn remote_candidates_wait_only_their_turn(
    session_key: Seq<char>,
    events: Seq<RaceEventView>,
)
    requires
        possible(session_key, events),
        !send_failed(events),
    ensures
        match after(session_key, events).phase {
            Phase::Adding => true,
            Phase::Sending => last_report(events) is Some ==> after(
                session_key,
                events,
            ).pending_remote.len() == 0,
            _ => after(session_key, events).pending_remote.len() == 0,
        },
    decreases events.len(),
{
    if events.len() > 0 {
        remote_candidates_wait_only_their_turn(session_key, events.drop_last());
        race_tracks_the_channel(session_key, events.drop_last());
    }
}

/// Once the race is over, every candidate of the peer that arrived has been handed to the WebRTC
/// connection, in the order of their arrival, unless a send failed.
pub proof fn finished_race_has_handed_over_every_candidate(
    session_key: Seq<char>,
    events: Seq<RaceEventView>,
    transport: Transport,
)
    requires
        possible(session_key, events),
        actions(session_key, events).last() == RaceActionView::Finish(transport),
        !send_failed(events),
    ensures
        added_candidates(actions(session_key, events)) == received_candidates(session_key, events),
{
    remote_candidates_are_added_in_order(session_key, events);
    remote_candidates_wait_only_their_turn(session_key, events);
    assert(events.len() > 0);
    let before = after(session_key, events.drop_last());
    assert(before.step(events.last()).1 == RaceActionView::Finish(transport));
    assert(after(session_key, events).phase == Phase::Finished(transport));
    assert(added_candidates(actions(session_key, events)) =~= received_candidates(
        session_key,
        events,
    ));
}

/// Where a race stands once `events` have come, one after the other.
pub open spec fn run(stand: (RaceView, RaceActionView), events: Seq<RaceEventView>) -> (
    RaceView,
    RaceActionView,
)
    decreases events.len(),
{
    if events.len() == 0 {
        stand
    } else {
        run(stand.0.step(events.first()), events.drop_first())
    }
}

/// Each of `events` is one that the race is then waiting for.
pub open spec fn can_run(race: RaceView, events: Seq<RaceEventView>) -> bool
    decreases events.len(),
{
    events.len() == 0 || {
        &&& race.expects(events.first())
        &&& can_run(race.step(events.first()).0, events.drop_first())
    }
}

/// What comes of a poll that finds these candidates, one after the other, and then no more.
pub open spec fn poll_events(found: Seq<Seq<char>>) -> Seq<RaceEventView>
    decreases found.len(),
{
    if found.len() == 0 {
        seq![RaceEventView::LocalCandidate(None)]
    } else {
        seq![RaceEventView::LocalCandidate(Some(found.first()))] + poll_events(found.drop_first())
    }
}

/// What comes of `count` candidates that are handed over, and of the poll behind them.
pub open spec fn deliver_events(count: nat, found: Seq<Seq<char>>) -> Seq<RaceEventView>
    decreases count,
{
    if count == 0 {
        poll_events(found)
    } else {
        seq![RaceEventView::RemoteCandidateAdded] + deliver_events((count - 1) as nat, found)
    }
}

/// What comes of a round whose sends succeed: `local` candidates are sent, `remote` ones handed
/// over, and `found` are found.
pub open spec fn round_events(local: nat, remote: nat, found: Seq<Seq<char>>) -> Seq<RaceEventView>
    decreases local,
{
    if local == 0 {
        deliver_events(remote, found)
    } else {
        seq![RaceEventView::Sent(true)] + round_events((local - 1) as nat, remote, found)
    }
}

proof fn poll_comes_to_the_clock(race: RaceView, found: Seq<Seq<char>>)
    requires
        race.phase == Phase::Polling,
    ensures
        can_run(race, poll_events(found)),
        run((race, RaceActionView::PollLocalCandidate), poll_events(found)).1
            == RaceActionView::ReadClock,
        run((race, RaceActionView::PollLocalCandidate), poll_events(found)).0 == (RaceView {
            pending_local: race.pending_local + found,
            phase: Phase::Timing,
            ..race
        }),
    decreases found.len(),
{
    reveal_with_fuel(can_run, 2);
    reveal_with_fuel(run, 2);
    let events = poll_events(found);
    if found.len() == 0 {
        assert(race.pending_local + found =~= race.pending_local);
    } else {
        assert(events.drop_first() =~= poll_events(found.drop_first()));
        let next = race.step(events.first()).0;
        poll_comes_to_the_clock(next, found.drop_first());
        assert(next.pending_local + found.drop_first() =~= race.pending_local + found);
    }
}

proof fn delivery_comes_to_the_clock(race: RaceView, found: Seq<Seq<char>>)
    ensures
        can_run(race.deliver().0, deliver_events(race.pending_remote.len(), found)),
        run(race.deliver(), deliver_events(race.pending_remote.len(), found)).1
            == RaceActionView::ReadClock,
        run(race.deliver(), deliver_events(race.pending_remote.len(), found)).0 == (RaceView {
            pending_local: race.pending_local + found,
            pending_remote: Seq::empty(),
            phase: Phase::Timing,
            ..race
        }),
    decreases race.pending_remote.len(),
{
    let events = deliver_events(race.pending_remote.len(), found);
    if race.pending_remote.len() == 0 {
        poll_comes_to_the_clock(race.deliver().0, found);
        assert(race.pending_remote =~= Seq::empty());
    } else {
        let next = race.deliver().0;
        assert(events.drop_first() =~= deliver_events(next.pending_remote.len(), found));
        delivery_comes_to_the_clock(next, found);
    }
}

/// Each round comes back to the clock: from its start, as long as nothing has been heard of the
/// channel, the local candidates that wait are sent, then those of the peer are handed over, then
/// local ones are looked for until no more are found, and then the clock is read. Behind that, none
/// of the peer's candidates waits any more, and of the local ones those that were just found.
pub proof fn round_comes_back_to_the_clock(race: RaceView, found: Seq<Seq<char>>)
    requires
        race.outcome is None,
    ensures
        ({
            let events = round_events(race.pending_local.len(), race.pending_remote.len(), found);
            &&& can_run(race.next_round().0, events)
            &&& run(race.next_round(), events).1 == RaceActionView::ReadClock
            &&& run(race.next_round(), events).0 == (RaceView {
                pending_local: found,
                pending_remote: Seq::empty(),
                phase: Phase::Timing,
                ..race
            })
        }),
    decreases race.pending_local.len(),
{
    let events = round_events(race.pending_local.len(), race.pending_remote.len(), found);
    if race.pending_local.len() == 0 {
        delivery_comes_to_the_clock(race, found);
        assert(race.pending_local + found =~= found);
    } else {
        let next = race.next_round().0;
        assert(events.drop_first() =~= round_events(
            next.pending_local.len(),
            next.pending_remote.len(),
            found,
        ));
        round_comes_back_to_the_clock(next, found);
    }
}

/// How many events are at most to come, found candidates aside, before the race reads the clock
/// again or is over.
pub open spec fn events_to_go(race: RaceView) -> nat {
    match race.phase {
        Phase::Waiting => race.pending_local.len() + race.pending_remote.len() + 5,
        Phase::Sending => race.pending_local.len() + race.pending_remote.len() + 3,
        Phase::Adding => race.pending_remote.len() + 2,
        Phase::Polling | Phase::Settling | Phase::Looking => 1,
        Phase::Timing | Phase::Finished(_) => 0,
    }
}

/// Whatever happens, the race does not go on without a look at the clock: every event but a found
/// candidate, which changes nothing in this, brings it nearer to its next reading of the clock or
/// to its end. A reading behind the setup time is the last, and the look that follows on it ends
/// the race.
pub proof fn race_comes_to_an_end(race: RaceView, event: RaceEventView)
    requires
        race.expects(event),
    ensures
        match event {
            RaceEventView::Elapsed { nanos } => nanos >= WEBRTC_SETUP_TIMEOUT_MILLIS
                * NANOS_PER_MILLI ==> race.step(event).0.phase == Phase::Looking,
            RaceEventView::LocalCandidate(Some(_)) => events_to_go(race.step(event).0)
                == events_to_go(race),
            _ => events_to_go(race.step(event).0) < events_to_go(race),
        },
        event is Seen ==> race.step(event).0.phase is Finished,
{
}

/// The candidate that an action hands to the WebRTC connection, if it hands one over.
pub open spec fn handed(asked: RaceActionView) -> Seq<Seq<char>> {
    match asked {
        RaceActionView::AddRemoteCandidate(candidate) => seq![candidate],
        _ => Seq::empty(),
    }
}

/// The candidate that an action sends to the peer, if it sends one.
pub open spec fn sent(asked: RaceActionView) -> Seq<Seq<char>> {
    match asked {
        RaceActionView::SendCandidate(ice) => seq![ice.candidate],
        _ => Seq::empty(),
    }
}

/// An action hands over the candidate that it names, and sends the one that its message names;
/// other actions do neither.
pub proof fn actions_move_what_they_name(asked: RaceActionView)
    ensures
        asked matches RaceActionView::AddRemoteCandidate(candidate) ==> handed(asked).len() == 1
            && handed(asked)[0] == candidate,
        asked !is AddRemoteCandidate ==> handed(asked).len() == 0,
        asked matches RaceActionView::SendCandidate(ice) ==> sent(asked).len() == 1 && sent(
            asked,
        )[0] == ice.candidate,
        asked !is SendCandidate ==> sent(asked).len() == 0,
{
}

/// Whatever its text, a candidate that comes under the race's own session key is put behind those
/// that are to be handed to the WebRTC connection; one under another key leaves them as they are.
pub proof fn own_candidates_are_put_behind_the_others(race: RaceView, ice: IceView)
    requires
        race.phase == Phase::Waiting,
    ensures
        ({
            let event = RaceEventView::Received(
                InboundView::Message(MessageView::WebrtcIce(ice)),
            );
            let next = race.step(event);
            let queue = handed(next.1) + next.0.pending_remote;
            &&& race.expects(event)
            &&& ice.session_key == race.session_key ==> queue == race.pending_remote.push(
                ice.candidate,
            )
            &&& ice.session_key != race.session_key ==> queue == race.pending_remote
        }),
{
    let event = RaceEventView::Received(InboundView::Message(MessageView::WebrtcIce(ice)));
    let next = race.step(event);
    let queue = handed(next.1) + next.0.pending_remote;
    if ice.session_key == race.session_key {
        assert(queue =~= race.pending_remote.push(ice.candidate));
    } else {
        assert(queue =~= race.pending_remote);
    }
}

/// Nothing but a candidate message adds to the peer's candidates, and nothing takes one away but
/// the handing over of the one in front.
pub proof fn peer_candidates_are_kept(race: RaceView, event: RaceEventView)
    requires
        race.expects(event),
        !(event matches RaceEventView::Received(InboundView::Message(MessageView::WebrtcIce(_)))),
    ensures
        handed(race.step(event).1) + race.step(event).0.pending_remote == race.pending_remote,
{
    let next = race.step(event);
    assert(handed(next.1) + next.0.pending_remote =~= race.pending_remote);
}

/// A local candidate that was found, whatever its text, is put behind those that are to be sent;
/// nothing else adds one, and nothing takes one away but the sending of the one in front, which
/// goes out under the race's session key. The key stays what it is.
pub proof fn local_candidates_are_kept(race: RaceView, event: RaceEventView)
    requires
        race.expects(event),
    ensures
        ({
            let next = race.step(event);
            let queue = sent(next.1) + next.0.pending_local;
            &&& event matches RaceEventView::LocalCandidate(Some(candidate)) ==> queue
                == race.pending_local.push(candidate)
            &&& !(event matches RaceEventView::LocalCandidate(Some(_))) ==> queue
                == race.pending_local
            &&& next.1 matches RaceActionView::SendCandidate(ice) ==> ice.session_key
                == race.session_key
            &&& next.0.session_key == race.session_key
        }),
{
    let next = race.step(event);
    let queue = sent(next.1) + next.0.pending_local;
    if let RaceEventView::LocalCandidate(Some(candidate)) = event {
        assert(queue =~= race.pending_local.push(candidate));
    } else {
        assert(queue =~= race.pending_local);
    }
}

/// In a new round a local candidate that waits is sent. Where none waits, a report on the channel
/// ends the race: on WebRTC where the channel is up, on TCP where it is not. Without a report, a
/// candidate of the peer that waits is handed over; where none does, local ones are looked for.
pub proof fn round_goes_by_what_waits(race: RaceView, event: RaceEventView)
    requires
        race.expects(event),
        event == RaceEventView::Sent(true) || event is Tick || event is Received && event
            != RaceEventView::Received(InboundView::Closed) || event is Connected && race.phase
            == Phase::Waiting,
    ensures
        ({
            let report = match event {
                RaceEventView::Connected(up) => Some(up),
                _ => race.outcome,
            };
            let next = race.step(event);
            if race.pending_local.len() > 0 {
                next.1 is SendCandidate
            } else if report == Some(true) {
                next.1 == RaceActionView::Finish(Transport::Webrtc)
            } else if report == Some(false) {
                next.1 == RaceActionView::Finish(Transport::Tcp)
            } else {
                next.1 is AddRemoteCandidate || next.1 is PollLocalCandidate
                    && next.0.pending_remote.len() == 0
            }
        }),
{
}

/// Behind a candidate that was handed over comes the next one; where none waits any more, local
/// ones are looked for until none is found; and then the clock is read.
pub proof fn delivery_goes_on_to_the_clock(race: RaceView)
    ensures
        race.step(RaceEventView::RemoteCandidateAdded).1 is AddRemoteCandidate
            <==> race.pending_remote.len() > 0,
        race.step(RaceEventView::RemoteCandidateAdded).1 is PollLocalCandidate
            <==> race.pending_remote.len() == 0,
        forall|candidate: Seq<char>| #[trigger]
            race.step(RaceEventView::LocalCandidate(Some(candidate))).1 is PollLocalCandidate,
        race.step(RaceEventView::LocalCandidate(None)).1 is ReadClock,
{
}

/// A dead stream gives the channel half a second; what is then reported ends the race, whatever was
/// reported before: on WebRTC where the channel is up, on TCP where it is not.
pub proof fn dead_stream_is_settled_within_half_a_second(race: RaceView)
    ensures
        race.step(RaceEventView::Sent(false)).1 == (RaceActionView::WaitConnected { millis: 500 }),
        race.step(RaceEventView::Received(InboundView::Closed)).1 == (
        RaceActionView::WaitConnected { millis: 500 }),
        race.phase == Phase::Settling ==> race.step(RaceEventView::Connected(true)).1
            == RaceActionView::Finish(Transport::Webrtc),
        race.phase == Phase::Settling ==> race.step(RaceEventView::Connected(false)).1
            == RaceActionView::Finish(Transport::Tcp),
{
}

/// The setup time is four seconds. Before they are over, the race waits for the channel for as many
/// whole milliseconds as are left, and for one where less is left; and no longer than 200 of them
/// before it looks for local candidates again. From then on it looks at the channel once more: on
/// WebRTC ends what came up within the four seconds, on TCP what did not.
pub proof fn setup_time_is_four_seconds(race: RaceView, nanos: u128)
    ensures
        ({
            let next = race.step(RaceEventView::Elapsed { nanos });
            &&& nanos >= 4_000_000_000 ==> next.1 is LastLook
            &&& nanos < 4_000_000_000 ==> (next.1 matches RaceActionView::WaitForFirst {
                connect_millis,
                tick_millis,
            } && {
                let left = 4_000_000_000 - nanos;
                &&& connect_millis >= 1
                &&& left >= 1_000_000 ==> connect_millis * 1_000_000 <= left
                &&& left < (connect_millis + 1) * 1_000_000
                &&& left < 1_000_000 ==> connect_millis == 1
                &&& connect_millis >= 200 ==> tick_millis == 200
                &&& connect_millis < 200 ==> tick_millis == connect_millis
            })
        }),
        race.step(RaceEventView::Seen { up_after_nanos: Some(nanos) }).1 == RaceActionView::Finish(
            if nanos <= 4_000_000_000 {
                Transport::Webrtc
            } else {
                Transport::Tcp
            },
        ),
        race.step(RaceEventView::Seen { up_after_nanos: None }).1 == RaceActionView::Finish(
            Transport::Tcp,
        ),
{
}

/// What is heard of the channel is remembered, until something else is heard of it.
pub proof fn last_report_is_remembered(race: RaceView, event: RaceEventView)
    ensures
        event matches RaceEventView::Connected(up) ==> race.step(event).0.outcome == Some(up),
        event !is Connected && event !is Seen ==> race.step(event).0.outcome == race.outcome,
{
}

/// The race then expects what can come of the action that it asked for, and nothing else.
pub proof fn race_expects_what_it_asked_for(
    race: RaceView,
    event: RaceEventView,
    other: RaceEventView,
)
    requires
        race.expects(event),
    ensures
        ({
            let next = race.step(event);
            match next.1 {
                RaceActionView::SendCandidate(_) => next.0.expects(other) <==> other is Sent,
                RaceActionView::AddRemoteCandidate(_) => next.0.expects(other)
                    <==> other is RemoteCandidateAdded,
                RaceActionView::PollLocalCandidate => next.0.expects(other)
                    <==> other is LocalCandidate,
                RaceActionView::ReadClock => next.0.expects(other) <==> other is Elapsed,
                RaceActionView::WaitForFirst { .. } => {
                    &&& next.0.phase == Phase::Waiting
                    &&& next.0.expects(other) <==> other is Connected || other is Received
                        || other is Tick
                },
                RaceActionView::WaitConnected { .. } => {
                    &&& next.0.phase == Phase::Settling
                    &&& next.0.expects(other) <==> other is Connected
                },
                RaceActionView::LastLook => next.0.expects(other) <==> other is Seen,
                RaceActionView::Finish(_) => !next.0.expects(other),
            }
        }),
{
}

/// A race begins under its session key, with no candidates and no report, and looks for local
/// candidates first.
pub proof fn race_begins_with_nothing(session_key: Seq<char>, event: RaceEventView)
    ensures
        RaceView::start(session_key).session_key == session_key,
        RaceView::start(session_key).pending_local.len() == 0,
        RaceView::start(session_key).pending_remote.len() == 0,
        RaceView::start(session_key).outcome is None,
        RaceView::start(session_key).expects(event) <==> event is LocalCandidate,
{
}

/// Actions and events are seen as they are, with the values that they hold.
pub proof fn actions_and_events_are_seen_as_they_are(action: RaceAction, event: RaceEvent)
    ensures
        match action {
            RaceAction::SendCandidate(ice) => action@ matches RaceActionView::SendCandidate(seen)
                && seen.session_key == ice.session_key@ && seen.candidate == ice.candidate@,
            RaceAction::AddRemoteCandidate(candidate) => action@
                == RaceActionView::AddRemoteCandidate(candidate@),
            RaceAction::PollLocalCandidate => action@ is PollLocalCandidate,
            RaceAction::ReadClock => action@ is ReadClock,
            RaceAction::WaitForFirst { connect_millis, tick_millis } => action@ == (
            RaceActionView::WaitForFirst { connect_millis, tick_millis }),
            RaceAction::WaitConnected { millis } => action@ == (RaceActionView::WaitConnected {
                millis,
            }),
            RaceAction::LastLook => action@ is LastLook,
            RaceAction::Finish(transport) => action@ == RaceActionView::Finish(transport),
        },
        match event {
            RaceEvent::Sent(went) => event@ == RaceEventView::Sent(went),
            RaceEvent::RemoteCandidateAdded => event@ is RemoteCandidateAdded,
            RaceEvent::LocalCandidate(Some(candidate)) => event@ == RaceEventView::LocalCandidate(
                Some(candidate@),
            ),
            RaceEvent::LocalCandidate(None) => event@ == RaceEventView::LocalCandidate(None),
            RaceEvent::Elapsed { nanos } => event@ == (RaceEventView::Elapsed { nanos }),
            RaceEvent::Connected(up) => event@ == RaceEventView::Connected(up),
            RaceEvent::Received(inbound) => event@ == RaceEventView::Received(inbound@),
            RaceEvent::Tick => event@ is Tick,
            RaceEvent::Seen { up_after_nanos } => event@ == (RaceEventView::Seen {
                up_after_nanos,
            }),
        },
{
}

} // verus!
