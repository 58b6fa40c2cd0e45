//! The event ingestor: the state machine that maintains the logical
//! connection to the upstream platform, seeds from the point-in-time
//! snapshot on every (re)connection, republishes streamed solves onto the
//! internal bus, and tracks restart and dropped-event counts.
//!
//! The machine decides; the surrounding process performs the returned
//! [`IngestAction`] (connect, fetch, publish, send a probe, wait out the
//! backoff) and feeds the outcome back as the next [`IngestEvent`].

use vstd::prelude::*;
use crate::solve::Solve;
use crate::saturating_bump;

verus! {

/// The connection lifecycle phase of the ingestor.
#[derive(Clone, Copy, PartialEq, Eq, Structural, Debug)]
pub enum IngestPhase {
    /// Not yet started.
    Idle,
    /// A connection attempt is in flight.
    Connecting,
    /// Connected; the point-in-time snapshot of existing solves is being
    /// fetched.
    Seeding,
    /// Live: incremental solves arrive over the push subscription.
    Streaming,
    /// A failure occurred; the fixed backoff delay runs before the next
    /// connection attempt.
    BackoffWait,
}

/// One inbound application message of the push subscription, already decoded
/// from its transport frame.
pub enum InboundMessage {
    /// The one recognized message kind that carries a solve.
    Solve(Solve),
    /// A message whose kind is recognized as not a solve, or not recognized
    /// at all.
    Unrecognized,
    /// A frame that failed to decode as any known event shape.
    Malformed,
}

/// What happened outside: the input of one machine step.
pub enum IngestEvent {
    /// The process asks the ingestor to begin.
    Start,
    /// The connection attempt succeeded.
    ConnectOk,
    /// The connection attempt failed (refused, bad handshake, unsupported
    /// scheme).
    ConnectFailed,
    /// The snapshot fetch returned the seed solves.
    SeedOk(Vec<Solve>),
    /// The snapshot fetch failed.
    SeedFailed,
    /// An application message arrived on the stream.
    Frame(InboundMessage),
    /// The peer sent a keepalive probe.
    PeerPing,
    /// The ingestor's own keepalive timer fired.
    KeepaliveDue,
    /// No traffic, keepalives included, for the bounded period.
    SilenceTimeout,
    /// The transport closed or errored mid-stream.
    Disconnected,
    /// The fixed backoff delay has elapsed.
    BackoffElapsed,
}

/// What the process must do next: the output of one machine step.
pub enum IngestAction {
    /// Open the streaming connection.
    Connect,
    /// Fetch the point-in-time snapshot of existing solves.
    FetchSeed,
    /// Publish every seed solve onto the internal bus, in order.
    PublishSeed(Vec<Solve>),
    /// Publish one live solve onto the internal bus.
    Publish(Solve),
    /// Answer the peer's keepalive probe immediately.
    SendPong,
    /// Send the ingestor's own keepalive probe.
    SendPing,
    /// Wait out the fixed backoff delay.
    WaitBackoff,
    /// Nothing: the input was discarded without affecting the connection.
    Ignore,
}

/// The ingestor's state: its phase and its two health counters.
pub struct Ingestor {
    /// Where in the connection lifecycle the machine stands.
    pub phase: IngestPhase,
    /// How many times the connection failed and was restarted.
    pub restart_count: u64,
    /// How many solves could not be published onto the bus.
    pub dropped_count: u64,
}

/// Which events the ingestor can be handed in each phase: replies belong to
/// the request phase, stream traffic to `Streaming`.
pub open spec fn ingest_expects(phase: IngestPhase, ev: IngestEvent) -> bool {
    match ev {
        IngestEvent::Start => phase == IngestPhase::Idle,
        IngestEvent::ConnectOk => phase == IngestPhase::Connecting,
        IngestEvent::ConnectFailed => phase == IngestPhase::Connecting,
        IngestEvent::SeedOk(_) => phase == IngestPhase::Seeding,
        IngestEvent::SeedFailed => phase == IngestPhase::Seeding,
        IngestEvent::Frame(_) => phase == IngestPhase::Streaming,
        IngestEvent::PeerPing => phase == IngestPhase::Streaming,
        IngestEvent::KeepaliveDue => phase == IngestPhase::Streaming,
        IngestEvent::SilenceTimeout => phase == IngestPhase::Streaming,
        IngestEvent::Disconnected => phase == IngestPhase::Streaming,
        IngestEvent::BackoffElapsed => phase == IngestPhase::BackoffWait,
    }
}

/// The ingestor's transition function: the state after the event and the
/// action owed for it. Every failure, in whatever phase, leads to
/// `BackoffWait` with the restart counter up by one; no failure is fatal;
/// messages that are not solves are discarded without affecting the
/// connection.
pub open spec fn ingest_next(pre: Ingestor, ev: IngestEvent) -> (Ingestor, IngestAction)
    recommends
        ingest_expects(pre.phase, ev),
{
    match ev {
        IngestEvent::Start => (
            Ingestor { phase: IngestPhase::Connecting, ..pre },
            IngestAction::Connect,
        ),
        IngestEvent::ConnectOk => (
            Ingestor { phase: IngestPhase::Seeding, ..pre },
            IngestAction::FetchSeed,
        ),
        IngestEvent::ConnectFailed => (fail_state(pre), IngestAction::WaitBackoff),
        IngestEvent::SeedOk(seed) => (
            Ingestor { phase: IngestPhase::Streaming, ..pre },
            IngestAction::PublishSeed(seed),
        ),
        IngestEvent::SeedFailed => (fail_state(pre), IngestAction::WaitBackoff),
        IngestEvent::Frame(msg) => (
            pre,
            match msg {
                InboundMessage::Solve(s) => IngestAction::Publish(s),
                InboundMessage::Unrecognized => IngestAction::Ignore,
                InboundMessage::Malformed => IngestAction::Ignore,
            },
        ),
        IngestEvent::PeerPing => (pre, IngestAction::SendPong),
        IngestEvent::KeepaliveDue => (pre, IngestAction::SendPing),
        IngestEvent::SilenceTimeout => (fail_state(pre), IngestAction::WaitBackoff),
        IngestEvent::Disconnected => (fail_state(pre), IngestAction::WaitBackoff),
        IngestEvent::BackoffElapsed => (
            Ingestor { phase: IngestPhase::Connecting, ..pre },
            IngestAction::Connect,
        ),
    }
}

/// The state after any connection failure: backoff, one more restart.
pub open spec fn fail_state(pre: Ingestor) -> Ingestor {
    Ingestor {
        phase: IngestPhase::BackoffWait,
        restart_count: saturating_bump(pre.restart_count),
        ..pre
    }
}

impl Ingestor {
    /// A fresh ingestor: idle, both counters at zero.
    pub fn new() -> (r: Ingestor)
        ensures
            r == (Ingestor { phase: IngestPhase::Idle, restart_count: 0, dropped_count: 0 }),
    {
        Ingestor { phase: IngestPhase::Idle, restart_count: 0, dropped_count: 0 }
    }

    /// Advances the machine by one event and returns the action owed for it;
    /// exactly the transition function [`ingest_next`].
    pub fn step(&mut self, ev: IngestEvent) -> (r: IngestAction)
        requires
            ingest_expects(old(self).phase, ev),
        ensures
            (*final(self), r) == ingest_next(*old(self), ev),
    {
        match ev {
            IngestEvent::Start => {
                self.phase = IngestPhase::Connecting;
                IngestAction::Connect
            },
            IngestEvent::ConnectOk => {
                self.phase = IngestPhase::Seeding;
                IngestAction::FetchSeed
            },
            IngestEvent::ConnectFailed => {
                self.fail();
                IngestAction::WaitBackoff
            },
            IngestEvent::SeedOk(seed) => {
                self.phase = IngestPhase::Streaming;
                IngestAction::PublishSeed(seed)
            },
            IngestEvent::SeedFailed => {
                self.fail();
                IngestAction::WaitBackoff
            },
            IngestEvent::Frame(msg) => {
                match msg {
                    InboundMessage::Solve(s) => IngestAction::Publish(s),
                    InboundMessage::Unrecognized => IngestAction::Ignore,
                    InboundMessage::Malformed => IngestAction::Ignore,
                }
            },
            IngestEvent::PeerPing => IngestAction::SendPong,
            IngestEvent::KeepaliveDue => IngestAction::SendPing,
            IngestEvent::SilenceTimeout => {
                self.fail();
                IngestAction::WaitBackoff
            },
            IngestEvent::Disconnected => {
                self.fail();
                IngestAction::WaitBackoff
            },
            IngestEvent::BackoffElapsed => {
                self.phase = IngestPhase::Connecting;
                IngestAction::Connect
            },
        }
    }

    fn fail(&mut self)
        ensures
            *final(self) == fail_state(*old(self)),
    {
        self.phase = IngestPhase::BackoffWait;
        self.restart_count = crate::bump(self.restart_count);
    }

    /// Notes that a publish onto the bus was refused (no live consumer): the
    /// solve is dropped rather than blocking the read loop, and the dropped
    /// counter goes up by one.
    pub fn note_dropped(&mut self)
        ensures
            *final(self) == (Ingestor {
                dropped_count: saturating_bump(old(self).dropped_count),
                ..*old(self)
            }),
    {
        self.dropped_count = crate::bump(self.dropped_count);
    }

    /// How many times the connection was restarted.
    pub fn restart_count(&self) -> (r: u64)
        ensures
            r == self.restart_count,
    {
        self.restart_count
    }

    /// How many solves could not be published onto the bus.
    pub fn dropped_solves_count(&self) -> (r: u64)
        ensures
            r == self.dropped_count,
    {
        self.dropped_count
    }
}

/// A drop of the upstream connection mid-stream is recovered without outside
/// help: the backoff, reconnect and re-seed run through the machine and it
/// streams again, with the restart counter up by exactly one for the whole
/// cycle and nothing else changed.
pub proof fn lemma_reconnect_cycle(s0: Ingestor, seed: Vec<Solve>)
    requires
        s0.phase == IngestPhase::Streaming,
        s0.restart_count < u64::MAX,
    ensures
        ({
            let (s1, a1) = ingest_next(s0, IngestEvent::Disconnected);
            let (s2, a2) = ingest_next(s1, IngestEvent::BackoffElapsed);
            let (s3, a3) = ingest_next(s2, IngestEvent::ConnectOk);
            let (s4, a4) = ingest_next(s3, IngestEvent::SeedOk(seed));
            a1 == IngestAction::WaitBackoff && s1.phase == IngestPhase::BackoffWait
                && a2 == IngestAction::Connect && s2.phase == IngestPhase::Connecting
                && a3 == IngestAction::FetchSeed && s3.phase == IngestPhase::Seeding
                && a4 == IngestAction::PublishSeed(seed) && s4.phase == IngestPhase::Streaming
                && s4.restart_count == s0.restart_count + 1
                && s4.dropped_count == s0.dropped_count
        }),
{
}

/// A streamed message that is not a solve leaves the ingestor exactly as it
/// was: same phase, same counters, and nothing published.
pub proof fn lemma_non_solve_frame_ignored(s0: Ingestor, msg: InboundMessage)
    requires
        s0.phase == IngestPhase::Streaming,
        !(msg matches InboundMessage::Solve(_)),
    ensures
        ingest_next(s0, IngestEvent::Frame(msg)) == (s0, IngestAction::Ignore),
{
}

} // verus!
