//! The race between WebRTC and TCP before a session starts, run the same way by client and server.
//!
//! While the WebRTC channel is being set up, the secured TCP stream carries ICE candidates only.
//! The race says what to do next; whoever runs it does that and reports what came of it. When the
//! channel comes up in time the session runs over it; otherwise it runs over the TCP stream. A peer
//! that adopted WebRTC drops the TCP stream, so a stream that dies is no vote for TCP: the channel
//! then gets a short grace before the fallback. A send may outlast the setup time, so there is a
//! last look at the channel when that is over: a channel that came up in time wins though nobody
//! had looked, and one that came up later does not.

use crate::messages::{Inbound, InboundView, IceView, Message, MessageView, WebrtcIce};
use std::collections::VecDeque;
use vstd::prelude::*;
use vstd::string::*;

verus! {

/// How long the WebRTC transport has to come up before the session falls back to TCP. Well short
/// of the connect timeout: on a LAN that blocks UDP the TCP session must not wait that out.
pub const WEBRTC_SETUP_TIMEOUT_MILLIS: u64 = 4_000;

/// How long the WebRTC transport has to come up once the TCP stream has died.
pub const WEBRTC_STREAM_DIE_GRACE_MILLIS: u64 = 500;

/// How long the sending of one candidate may take.
pub const CANDIDATE_SEND_TIMEOUT_MILLIS: u64 = 3_000;

/// The longest that the race waits before it looks for local candidates again.
pub const TICK_MILLIS: u64 = 200;

/// Nanoseconds of a millisecond.
pub const NANOS_PER_MILLI: u128 = 1_000_000;

/// The transport that a session runs over.
#[derive(Debug, Clone, Copy, PartialEq, Eq, Structural)]
pub enum Transport {
    Webrtc,
    Tcp,
}

/// What the race asks for.
#[derive(Debug, PartialEq, Eq)]
pub enum RaceAction {
    /// Send a local candidate over the TCP stream.
    SendCandidate(WebrtcIce),
    /// Hand a candidate of the peer to the WebRTC connection.
    AddRemoteCandidate(String),
    /// Look whether the WebRTC connection has found a local candidate.
    PollLocalCandidate,
    /// Read how long the race has been going.
    ReadClock,
    /// Wait until the WebRTC channel is up or has failed, for `connect_millis` at most; until the
    /// TCP stream brings something; or until `tick_millis` are over: whichever is first.
    WaitForFirst { connect_millis: u64, tick_millis: u64 },
    /// The TCP stream is dead: wait for the WebRTC channel alone.
    WaitConnected { millis: u64 },
    /// The setup time is over: look whether the WebRTC channel is up, and since when.
    LastLook,
    /// The race is over. Where TCP won, the WebRTC connection is to be closed.
    Finish(Transport),
}

/// What a `RaceAction` says.
pub enum RaceActionView {
    SendCandidate(IceView),
    AddRemoteCandidate(Seq<char>),
    PollLocalCandidate,
    ReadClock,
    WaitForFirst { connect_millis: u64, tick_millis: u64 },
    WaitConnected { millis: u64 },
    LastLook,
    Finish(Transport),
}

impl View for RaceAction {
    type V = RaceActionView;

    open spec fn view(&self) -> RaceActionView {
        match self {
            RaceAction::SendCandidate(ice) => RaceActionView::SendCandidate(ice@),
            RaceAction::AddRemoteCandidate(candidate) => RaceActionView::AddRemoteCandidate(
                candidate@,
            ),
            RaceAction::PollLocalCandidate => RaceActionView::PollLocalCandidate,
            RaceAction::ReadClock => RaceActionView::ReadClock,
            RaceAction::WaitForFirst { connect_millis, tick_millis } =>
                RaceActionView::WaitForFirst {
                    connect_millis: *connect_millis,
                    tick_millis: *tick_millis,
                },
            RaceAction::WaitConnected { millis } => RaceActionView::WaitConnected {
                millis: *millis,
            },
            RaceAction::LastLook => RaceActionView::LastLook,
            RaceAction::Finish(transport) => RaceActionView::Finish(*transport),
        }
    }
}

/// What came of the last action.
#[derive(Debug, PartialEq, Eq)]
pub enum RaceEvent {
    /// A candidate was sent, or could not be sent in time.
    Sent(bool),
    /// A candidate was handed over, whether or not the connection took it.
    RemoteCandidateAdded,
    /// The local candidate that was found, if one was.
    LocalCandidate(Option<String>),
    /// The race has been going for this long.
    Elapsed { nanos: u128 },
    /// The WebRTC channel came up, or failed to.
    Connected(bool),
    /// The TCP stream brought something; a stream that failed is `Closed`.
    Received(Inbound),
    /// The tick is over.
    Tick,
    /// How long after the start of the race the WebRTC channel came up, if it is up.
    Seen { up_after_nanos: Option<u128> },
}

/// What a `RaceEvent` says.
pub enum RaceEventView {
    Sent(bool),
    RemoteCandidateAdded,
    LocalCandidate(Option<Seq<char>>),
    Elapsed { nanos: u128 },
    Connected(bool),
    Received(InboundView),
    Tick,
    Seen { up_after_nanos: Option<u128> },
}

impl View for RaceEvent {
    type V = RaceEventView;

    open spec fn view(&self) -> RaceEventView {
        match self {
            RaceEvent::Sent(sent) => RaceEventView::Sent(*sent),
            RaceEvent::RemoteCandidateAdded => RaceEventView::RemoteCandidateAdded,
            RaceEvent::LocalCandidate(Some(candidate)) => RaceEventView::LocalCandidate(
                Some(candidate@),
            ),
            RaceEvent::LocalCandidate(None) => RaceEventView::LocalCandidate(None),
            RaceEvent::Elapsed { nanos } => RaceEventView::Elapsed { nanos: *nanos },
            RaceEvent::Connected(up) => RaceEventView::Connected(*up),
            RaceEvent::Received(inbound) => RaceEventView::Received(inbound@),
            RaceEvent::Tick => RaceEventView::Tick,
            RaceEvent::Seen { up_after_nanos } => RaceEventView::Seen {
                up_after_nanos: *up_after_nanos,
            },
        }
    }
}

/// Which action the race is waiting on.
#[derive(Debug, Clone, Copy, PartialEq, Eq, Structural)]
pub enum Phase {
    Sending,
    Adding,
    Polling,
    Timing,
    Waiting,
    Settling,
    Looking,
    Finished(Transport),
}

/// A race in progress.
pub struct Race {
    session_key: String,
    /// Candidates of the peer that the WebRTC connection has not been handed yet.
    pending_remote: VecDeque<String>,
    /// Local candidates that the peer has not been sent yet.
    pending_local: VecDeque<String>,
    /// Whether the WebRTC channel came up, once that is known.
    outcome: Option<bool>,
    phase: Phase,
}

/// What a `Race` holds.
#[verifier::ext_equal]
pub struct RaceView {
    pub session_key: Seq<char>,
    pub pending_remote: Seq<Seq<char>>,
    pub pending_local: Seq<Seq<char>>,
    pub outcome: Option<bool>,
    pub phase: Phase,
}

/// Candidates, taken by their views.
pub open spec fn candidates(queue: Seq<String>) -> Seq<Seq<char>> {
    queue.map_values(|candidate: String| candidate@)
}

impl View for Race {
    type V = RaceView;

    closed spec fn view(&self) -> RaceView {
        RaceView {
            session_key: self.session_key@,
            pending_remote: candidates(self.pending_remote@),
            pending_local: candidates(self.pending_local@),
            outcome: self.outcome,
            phase: self.phase,
        }
    }
}

/// The transport that a report on the channel settles on.
pub open spec fn transport_for(up: bool) -> Transport {
    if up {
        Transport::Webrtc
    } else {
        Transport::Tcp
    }
}

impl RaceView {
    /// A race that has just begun.
    pub open spec fn start(session_key: Seq<char>) -> RaceView {
        RaceView {
            session_key,
            pending_remote: Seq::empty(),
            pending_local: Seq::empty(),
            outcome: None,
            phase: Phase::Polling,
        }
    }

    /// Whether `event` can come of the action that the race waits on.
    pub open spec fn expects(self, event: RaceEventView) -> bool {
        match self.phase {
            Phase::Sending => event is Sent,
            Phase::Adding => event is RemoteCandidateAdded,
            Phase::Polling => event is LocalCandidate,
            Phase::Timing => event is Elapsed,
            Phase::Waiting => event is Connected || event is Received || event is Tick,
            Phase::Settling => event is Connected,
            Phase::Looking => event is Seen,
            Phase::Finished(_) => false,
        }
    }

    /// A new round: first the local candidates go out, then a decision that has been made is
    /// carried out, then the peer's candidates come in.
    pub open spec fn next_round(self) -> (RaceView, RaceActionView) {
        if self.pending_local.len() > 0 {
            (
                RaceView {
                    pending_local: self.pending_local.drop_first(),
                    phase: Phase::Sending,
                    ..self
                },
                RaceActionView::SendCandidate(
                    IceView { session_key: self.session_key, candidate: self.pending_local[0] },
                ),
            )
        } else {
            match self.outcome {
                Some(up) => self.finish(up),
                None => self.deliver(),
            }
        }
    }

    /// The peer's candidates come in; behind them, local ones are looked for.
    pub open spec fn deliver(self) -> (RaceView, RaceActionView) {
        if self.pending_remote.len() > 0 {
            (
                RaceView {
                    pending_remote: self.pending_remote.drop_first(),
                    phase: Phase::Adding,
                    ..self
                },
                RaceActionView::AddRemoteCandidate(self.pending_remote[0]),
            )
        } else {
            (RaceView { phase: Phase::Polling, ..self }, RaceActionView::PollLocalCandidate)
        }
    }

    /// The stream is dead: the channel gets its grace.
    pub open spec fn settle(self) -> (RaceView, RaceActionView) {
        (
            RaceView { phase: Phase::Settling, ..self },
            RaceActionView::WaitConnected { millis: WEBRTC_STREAM_DIE_GRACE_MILLIS },
        )
    }

    /// The setup time is over: the channel is looked at once more.
    pub open spec fn look(self) -> (RaceView, RaceActionView) {
        (
            RaceView { phase: Phase::Looking, ..self },
            RaceActionView::LastLook,
        )
    }

    /// The race ends as the report on the channel says.
    pub open spec fn finish(self, up: bool) -> (RaceView, RaceActionView) {
        let transport = transport_for(up);
        (RaceView { phase: Phase::Finished(transport), ..self }, RaceActionView::Finish(transport))
    }

    /// What follows on a reading of the clock.
    pub open spec fn wait(self, nanos: u128) -> (RaceView, RaceActionView) {
        if nanos >= WEBRTC_SETUP_TIMEOUT_MILLIS * NANOS_PER_MILLI {
            self.look()
        } else {
            let connect_millis = remaining_millis(nanos);
            (
                RaceView { phase: Phase::Waiting, ..self },
                RaceActionView::WaitForFirst {
                    connect_millis: connect_millis as u64,
                    tick_millis: if connect_millis < TICK_MILLIS {
                        connect_millis as u64
                    } else {
                        TICK_MILLIS
                    },
                },
            )
        }
    }

    /// The race after `event`, and the action that it then asks for.
    pub open spec fn step(self, event: RaceEventView) -> (RaceView, RaceActionView) {
        match event {
            RaceEventView::Sent(true) => self.next_round(),
            RaceEventView::Sent(false) => self.settle(),
            RaceEventView::RemoteCandidateAdded => self.deliver(),
            RaceEventView::LocalCandidate(Some(candidate)) => (
                RaceView {
                    pending_local: self.pending_local.push(candidate),
                    phase: Phase::Polling,
                    ..self
                },
                RaceActionView::PollLocalCandidate,
            ),
            RaceEventView::LocalCandidate(None) => (
                RaceView { phase: Phase::Timing, ..self },
                RaceActionView::ReadClock,
            ),
            RaceEventView::Elapsed { nanos } => self.wait(nanos),
            RaceEventView::Connected(up) => {
                let decided = RaceView { outcome: Some(up), ..self };
                if self.phase == Phase::Settling {
                    decided.finish(up)
                } else {
                    decided.next_round()
                }
            },
            RaceEventView::Received(InboundView::Closed) => self.settle(),
            RaceEventView::Received(inbound) => match admitted_candidate(self.session_key, inbound) {
                Some(candidate) => (RaceView {
                    pending_remote: self.pending_remote.push(candidate),
                    ..self
                }).next_round(),
                None => self.next_round(),
            },
            RaceEventView::Tick => self.next_round(),
            RaceEventView::Seen { up_after_nanos } => {
                let up = came_up_in_time(up_after_nanos);
                (RaceView { outcome: Some(up), ..self }).finish(up)
            },
        }
    }
}

impl RaceActionView {
    /// How long the action may take, where it is one that can take long.
    pub open spec fn limit_millis(self) -> Option<u64> {
        match self {
            RaceActionView::SendCandidate(_) => Some(CANDIDATE_SEND_TIMEOUT_MILLIS),
            RaceActionView::WaitForFirst { tick_millis, .. } => Some(tick_millis),
            RaceActionView::WaitConnected { millis } => Some(millis),
            _ => None,
        }
    }
}

/// Whether a channel that is up since `up_after_nanos` into the race came up within its setup time.
pub open spec fn came_up_in_time(up_after_nanos: Option<u128>) -> bool {
    match up_after_nanos {
        Some(nanos) => nanos <= WEBRTC_SETUP_TIMEOUT_MILLIS * NANOS_PER_MILLI,
        None => false,
    }
}

/// The candidate in `inbound`, if it holds one for the race under `session_key`.
pub open spec fn admitted_candidate(session_key: Seq<char>, inbound: InboundView) -> Option<
    Seq<char>,
> {
    match inbound {
        InboundView::Message(MessageView::WebrtcIce(ice)) => if ice.session_key == session_key {
            Some(ice.candidate)
        } else {
            None
        },
        _ => None,
    }
}

/// The whole milliseconds that are left of the setup time, and one where less than one is left.
pub open spec fn remaining_millis(nanos: u128) -> int {
    let millis = (WEBRTC_SETUP_TIMEOUT_MILLIS * NANOS_PER_MILLI - nanos) / (
    NANOS_PER_MILLI as int);
    if millis < 1 {
        1
    } else {
        millis
    }
}

impl RaceAction {
    /// How long the action may take, where it is one that can take long: a send that takes longer
    /// has failed.
    pub fn limit_millis(&self) -> (limit: Option<u64>)
        ensures
            limit == self@.limit_millis(),
            match self {
                RaceAction::SendCandidate(_) => limit == Some(3_000u64),
                RaceAction::WaitForFirst { tick_millis, .. } => limit == Some(*tick_millis),
                RaceAction::WaitConnected { millis } => limit == Some(*millis),
                _ => limit is None,
            },
    {
        match self {
            RaceAction::SendCandidate(_) => Some(CANDIDATE_SEND_TIMEOUT_MILLIS),
            RaceAction::WaitForFirst { tick_millis, .. } => Some(*tick_millis),
            RaceAction::WaitConnected { millis } => Some(*millis),
            _ => None,
        }
    }
}

impl Race {
    /// Begins a race. `session_key` tells this WebRTC connection's candidates from others.
    pub fn start(session_key: &str) -> (started: (Race, RaceAction))
        ensures
            started.0@ == RaceView::start(session_key@),
            started.1@ == RaceActionView::PollLocalCandidate,
    {
        let race = Race {
            session_key: session_key.to_owned(),
            pending_remote: VecDeque::new(),
            pending_local: VecDeque::new(),
            outcome: None,
            phase: Phase::Polling,
        };
        assert(race@ =~= RaceView::start(session_key@));
        (race, RaceAction::PollLocalCandidate)
    }

    /// Whether `event` can come of the action that the race waits on.
    pub fn expects(&self, event: &RaceEvent) -> (yes: bool)
        ensures
            yes == self@.expects(event@),
    {
        match (self.phase, event) {
            (Phase::Sending, RaceEvent::Sent(_)) => true,
            (Phase::Adding, RaceEvent::RemoteCandidateAdded) => true,
            (Phase::Polling, RaceEvent::LocalCandidate(_)) => true,
            (Phase::Timing, RaceEvent::Elapsed { .. }) => true,
            (Phase::Waiting, RaceEvent::Connected(_)) => true,
            (Phase::Waiting, RaceEvent::Received(_)) => true,
            (Phase::Waiting, RaceEvent::Tick) => true,
            (Phase::Settling, RaceEvent::Connected(_)) => true,
            (Phase::Looking, RaceEvent::Seen { .. }) => true,
            _ => false,
        }
    }

    fn next_round(&mut self) -> (action: RaceAction)
        ensures
            (final(self)@, action@) == old(self)@.next_round(),
    {
        match self.pending_local.pop_front() {
            Some(candidate) => {
                self.phase = Phase::Sending;
                assert(self@ =~= old(self)@.next_round().0);
                RaceAction::SendCandidate(
                    WebrtcIce { session_key: self.session_key.clone(), candidate },
                )
            },
            None => {
                assert(self@ =~= old(self)@);
                match self.outcome {
                    Some(up) => self.finish(up),
                    None => self.deliver(),
                }
            },
        }
    }

    fn deliver(&mut self) -> (action: RaceAction)
        ensures
            (final(self)@, action@) == old(self)@.deliver(),
    {
        match self.pending_remote.pop_front() {
            Some(candidate) => {
                self.phase = Phase::Adding;
                assert(self@ =~= old(self)@.deliver().0);
                RaceAction::AddRemoteCandidate(candidate)
            },
            None => {
                self.phase = Phase::Polling;
                assert(self@ =~= old(self)@.deliver().0);
                RaceAction::PollLocalCandidate
            },
        }
    }

    fn settle(&mut self) -> (action: RaceAction)
        ensures
            (final(self)@, action@) == old(self)@.settle(),
    {
        self.phase = Phase::Settling;
        RaceAction::WaitConnected { millis: WEBRTC_STREAM_DIE_GRACE_MILLIS }
    }

    fn look(&mut self) -> (action: RaceAction)
        ensures
            (final(self)@, action@) == old(self)@.look(),
    {
        self.phase = Phase::Looking;
        RaceAction::LastLook
    }

    fn finish(&mut self, up: bool) -> (action: RaceAction)
        ensures
            (final(self)@, action@) == old(self)@.finish(up),
    {
        let transport = if up {
            Transport::Webrtc
        } else {
            Transport::Tcp
        };
        self.phase = Phase::Finished(transport);
        RaceAction::Finish(transport)
    }

    fn wait(&mut self, nanos: u128) -> (action: RaceAction)
        ensures
            (final(self)@, action@) == old(self)@.wait(nanos),
    {
        let deadline: u128 = WEBRTC_SETUP_TIMEOUT_MILLIS as u128 * NANOS_PER_MILLI;
        if nanos >= deadline {
            return self.look();
        }
        let millis: u128 = (deadline - nanos) / NANOS_PER_MILLI;
        let connect_millis: u64 = if millis < 1 {
            1
        } else {
            millis as u64
        };
        let tick_millis: u64 = if connect_millis < TICK_MILLIS {
            connect_millis
        } else {
            TICK_MILLIS
        };
        self.phase = Phase::Waiting;
        RaceAction::WaitForFirst { connect_millis, tick_millis }
    }

    fn receive(&mut self, inbound: Inbound) -> (action: RaceAction)
        ensures
            (final(self)@, action@) == old(self)@.step(RaceEventView::Received(inbound@)),
    {
        match inbound {
            Inbound::Closed => self.settle(),
            Inbound::Malformed => self.next_round(),
            Inbound::Message(Message::WebrtcIce(ice)) => {
                if ice.session_key == self.session_key {
                    self.pending_remote.push_back(ice.candidate);
                    assert(self@.pending_remote =~= old(self)@.pending_remote.push(
                        ice.candidate@,
                    ));
                }
                self.next_round()
            },
            Inbound::Message(_) => self.next_round(),
        }
    }

    /// Takes what came of the last action, and says what to do next.
    pub fn step(&mut self, event: RaceEvent) -> (action: RaceAction)
        requires
            old(self)@.expects(event@),
        ensures
            (final(self)@, action@) == old(self)@.step(event@),
    {
        match event {
            RaceEvent::Sent(sent) => if sent {
                self.next_round()
            } else {
                self.settle()
            },
            RaceEvent::RemoteCandidateAdded => self.deliver(),
            RaceEvent::LocalCandidate(Some(candidate)) => {
                self.pending_local.push_back(candidate);
                self.phase = Phase::Polling;
                assert(self@ =~= old(self)@.step(event@).0);
                RaceAction::PollLocalCandidate
            },
            RaceEvent::LocalCandidate(None) => {
                self.phase = Phase::Timing;
                RaceAction::ReadClock
            },
            RaceEvent::Elapsed { nanos } => self.wait(nanos),
            RaceEvent::Connected(up) => {
                let settling = match self.phase {
                    Phase::Settling => true,
                    _ => false,
                };
                self.outcome = Some(up);
                if settling {
                    self.finish(up)
                } else {
                    self.next_round()
                }
            },
            RaceEvent::Received(inbound) => self.receive(inbound),
            RaceEvent::Tick => self.next_round(),
            RaceEvent::Seen { up_after_nanos } => {
                let up = match up_after_nanos {
                    Some(nanos) => nanos <= WEBRTC_SETUP_TIMEOUT_MILLIS as u128 * NANOS_PER_MILLI,
                    None => false,
                };
                self.outcome = Some(up);
                self.finish(up)
            },
        }
    }
}

} // verus!
