//! The per-challenge lane: a sequential worker that runs the notification
//! decision protocol for each queued solve of one challenge, in arrival
//! order, retrying the whole protocol on any store or send failure.
//!
//! The machine decides; the surrounding task performs the returned
//! [`LaneAction`] (query the dedup store, execute the planned sends, write
//! the dedup record, wait the retry interval) and feeds the outcome back as
//! the next [`LaneEvent`].

use vstd::prelude::*;
use crate::solve::{Solve, SolveView};
use crate::saturating_bump;

verus! {

/// Where the lane stands in the decision protocol for its current solve.
#[derive(Clone, Copy, PartialEq, Eq, Structural, Debug)]
pub enum LanePhase {
    /// No solve in hand: waiting on the queue or the idle timeout.
    AwaitSolve,
    /// Asking the store whether the challenge has ever been solved, to
    /// settle first-blood eligibility.
    CheckFirstBlood,
    /// Asking the store whether this (challenge, player) pair was already
    /// notified; `first_blood` carries the settled eligibility.
    CheckAlreadyNotified {
        /// Whether the current solve is eligible to be the first blood.
        first_blood: bool,
    },
    /// The planned sends are being executed.
    Sending {
        /// Whether the current solve is being announced as the first blood.
        first_blood: bool,
    },
    /// The sends succeeded; the dedup record is being written.
    Recording {
        /// Whether the current solve was announced as the first blood.
        first_blood: bool,
    },
    /// A store read or a send failed; the fixed retry interval runs before
    /// the protocol restarts from its first step.
    WaitRetry,
    /// The lane retired itself after the idle timeout; its queue was empty.
    Terminated,
}

/// What happened outside: the input of one lane step.
pub enum LaneEvent {
    /// The next queued solve of this lane's challenge.
    Arrive(Solve),
    /// The idle timeout fired with no pending solve.
    IdleTimeout,
    /// The store answered "has this challenge ever been solved".
    SolvedReply(bool),
    /// The store answered "has this (challenge, player) been notified".
    SentReply(bool),
    /// A store query or write failed with a transient error.
    StoreFailed,
    /// Every planned send was delivered.
    SendOk,
    /// A send failed with a transient error.
    SendFailed,
    /// The dedup record was written.
    RecordOk,
    /// The fixed retry interval has elapsed.
    RetryElapsed,
}

/// What the lane's task must do next: the output of one lane step.
#[derive(Clone, Copy, PartialEq, Eq, Structural, Debug)]
pub enum LaneAction {
    /// Wait for the next queued solve or the idle timeout.
    AwaitNext,
    /// Ask the store whether this lane's challenge has ever been solved.
    QuerySolved,
    /// Ask the store whether the pending (challenge, player) was notified.
    QuerySent,
    /// Plan the sends for the pending solve and execute them.
    Dispatch {
        /// Whether the pending solve is announced as the first blood.
        first_blood: bool,
    },
    /// Write the dedup record for the pending (challenge, player).
    Record,
    /// Wait the fixed retry interval, then restart the protocol.
    WaitRetryInterval,
    /// Retire the lane.
    Stop,
}

/// A per-challenge lane worker.
pub struct Lane {
    /// The challenge this lane serves; every queued solve names it.
    pub challenge_name: String,
    /// The local first-blood cache: set once this lane has itself recorded a
    /// first blood, to skip the store's eligibility read. Not authoritative;
    /// the store is.
    pub first_blood_sent: bool,
    /// How many store reads, sends or store writes have failed.
    pub failure_count: u64,
    /// Where the lane stands in the protocol.
    pub phase: LanePhase,
    /// The solve being processed, if the protocol is underway.
    pub pending: Option<Solve>,
}

/// The mathematical value of a [`Lane`].
pub ghost struct LaneView {
    pub challenge_name: Seq<char>,
    pub first_blood_sent: bool,
    pub failure_count: u64,
    pub phase: LanePhase,
    pub pending: Option<SolveView>,
}

impl View for Lane {
    type V = LaneView;

    open spec fn view(&self) -> LaneView {
        LaneView {
            challenge_name: self.challenge_name@,
            first_blood_sent: self.first_blood_sent,
            failure_count: self.failure_count,
            phase: self.phase,
            pending: match self.pending {
                Some(s) => Some(s@),
                None => None,
            },
        }
    }
}

/// The phases in which a solve is in hand and the protocol is underway.
pub open spec fn lane_processing(p: LanePhase) -> bool {
    p != LanePhase::AwaitSolve && p != LanePhase::Terminated
}

/// The first-blood flag carried by the phase, where it carries one.
pub open spec fn phase_flag(p: LanePhase) -> bool {
    match p {
        LanePhase::CheckAlreadyNotified { first_blood } => first_blood,
        LanePhase::Sending { first_blood } => first_blood,
        LanePhase::Recording { first_blood } => first_blood,
        _ => false,
    }
}

/// A lane's internal consistency: a solve is in hand exactly while the
/// protocol is underway, it names the lane's challenge, and the store's
/// eligibility read is only ever asked while the local cache is cold.
pub open spec fn lane_wf(s: LaneView) -> bool {
    &&& (s.pending is Some <==> lane_processing(s.phase))
    &&& (s.pending matches Some(p) ==> p.challenge_name == s.challenge_name)
    &&& (s.phase == LanePhase::CheckFirstBlood ==> !s.first_blood_sent)
}

/// Which events a lane can be handed in each phase: replies belong to the
/// request phase, solves to an idle lane, and a solve must name the lane's
/// challenge.
pub open spec fn lane_expects(s: LaneView, ev: LaneEvent) -> bool {
    match ev {
        LaneEvent::Arrive(sv) => s.phase == LanePhase::AwaitSolve && sv@.challenge_name
            == s.challenge_name,
        LaneEvent::IdleTimeout => s.phase == LanePhase::AwaitSolve,
        LaneEvent::SolvedReply(_) => s.phase == LanePhase::CheckFirstBlood,
        LaneEvent::SentReply(_) => s.phase matches LanePhase::CheckAlreadyNotified { .. },
        LaneEvent::StoreFailed => s.phase == LanePhase::CheckFirstBlood || (
        s.phase matches LanePhase::CheckAlreadyNotified { .. }) || (
        s.phase matches LanePhase::Recording { .. }),
        LaneEvent::SendOk => s.phase matches LanePhase::Sending { .. },
        LaneEvent::SendFailed => s.phase matches LanePhase::Sending { .. },
        LaneEvent::RecordOk => s.phase matches LanePhase::Recording { .. },
        LaneEvent::RetryElapsed => s.phase == LanePhase::WaitRetry,
    }
}

/// The protocol's first step for the solve in hand: when the local cache
/// already marks the first blood as sent, eligibility is false without a
/// store read and the already-notified check comes next; otherwise the store
/// is asked whether the challenge has ever been solved.
pub open spec fn lane_begin(s: LaneView) -> (LaneView, LaneAction) {
    if s.first_blood_sent {
        (
            LaneView { phase: LanePhase::CheckAlreadyNotified { first_blood: false }, ..s },
            LaneAction::QuerySent,
        )
    } else {
        (LaneView { phase: LanePhase::CheckFirstBlood, ..s }, LaneAction::QuerySolved)
    }
}

/// The state after a store or send failure: the counter up by one, the retry
/// interval scheduled, the solve kept.
pub open spec fn lane_fail(s: LaneView) -> (LaneView, LaneAction) {
    (
        LaneView {
            phase: LanePhase::WaitRetry,
            failure_count: saturating_bump(s.failure_count),
            ..s
        },
        LaneAction::WaitRetryInterval,
    )
}

/// The lane's transition function: the state after the event and the action
/// owed for it.
pub open spec fn lane_next(s: LaneView, ev: LaneEvent) -> (LaneView, LaneAction)
    recommends
        lane_wf(s),
        lane_expects(s, ev),
{
    match ev {
        LaneEvent::Arrive(sv) => lane_begin(LaneView { pending: Some(sv@), ..s }),
        LaneEvent::IdleTimeout => (
            LaneView { phase: LanePhase::Terminated, ..s },
            LaneAction::Stop,
        ),
        LaneEvent::SolvedReply(b) => (
            LaneView { phase: LanePhase::CheckAlreadyNotified { first_blood: !b }, ..s },
            LaneAction::QuerySent,
        ),
        LaneEvent::SentReply(b) => {
            if b {
                (
                    LaneView { phase: LanePhase::AwaitSolve, pending: None, ..s },
                    LaneAction::AwaitNext,
                )
            } else {
                (
                    LaneView { phase: LanePhase::Sending { first_blood: phase_flag(s.phase) }, ..s },
                    LaneAction::Dispatch { first_blood: phase_flag(s.phase) },
                )
            }
        },
        LaneEvent::StoreFailed => lane_fail(s),
        LaneEvent::SendOk => (
            LaneView { phase: LanePhase::Recording { first_blood: phase_flag(s.phase) }, ..s },
            LaneAction::Record,
        ),
        LaneEvent::SendFailed => lane_fail(s),
        LaneEvent::RecordOk => (
            LaneView {
                phase: LanePhase::AwaitSolve,
                pending: None,
                first_blood_sent: s.first_blood_sent || phase_flag(s.phase),
                ..s
            },
            LaneAction::AwaitNext,
        ),
        LaneEvent::RetryElapsed => lane_begin(s),
    }
}

impl Lane {
    /// A fresh lane for one challenge: idle, cache cold, no failures.
    pub fn new(challenge_name: String) -> (r: Lane)
        ensures
            r@ == (LaneView {
                challenge_name: challenge_name@,
                first_blood_sent: false,
                failure_count: 0,
                phase: LanePhase::AwaitSolve,
                pending: None,
            }),
    {
        Lane {
            challenge_name,
            first_blood_sent: false,
            failure_count: 0,
            phase: LanePhase::AwaitSolve,
            pending: None,
        }
    }

    /// Advances the lane by one event and returns the action owed for it;
    /// exactly the transition function [`lane_next`].
    pub fn step(&mut self, ev: LaneEvent) -> (r: LaneAction)
        requires
            lane_wf(old(self)@),
            lane_expects(old(self)@, ev),
        ensures
            final(self)@ == lane_next(old(self)@, ev).0,
            r == lane_next(old(self)@, ev).1,
            lane_wf(final(self)@),
    {
        match ev {
            LaneEvent::Arrive(sv) => {
                self.pending = Some(sv);
                self.begin()
            },
            LaneEvent::IdleTimeout => {
                self.phase = LanePhase::Terminated;
                LaneAction::Stop
            },
            LaneEvent::SolvedReply(b) => {
                self.phase = LanePhase::CheckAlreadyNotified { first_blood: !b };
                LaneAction::QuerySent
            },
            LaneEvent::SentReply(b) => {
                let fb = match self.phase {
                    LanePhase::CheckAlreadyNotified { first_blood } => first_blood,
                    _ => false,
                };
                if b {
                    self.pending = None;
                    self.phase = LanePhase::AwaitSolve;
                    LaneAction::AwaitNext
                } else {
                    self.phase = LanePhase::Sending { first_blood: fb };
                    LaneAction::Dispatch { first_blood: fb }
                }
            },
            LaneEvent::StoreFailed => self.fail(),
            LaneEvent::SendOk => {
                let fb = match self.phase {
                    LanePhase::Sending { first_blood } => first_blood,
                    _ => false,
                };
                self.phase = LanePhase::Recording { first_blood: fb };
                LaneAction::Record
            },
            LaneEvent::SendFailed => self.fail(),
            LaneEvent::RecordOk => {
                let fb = match self.phase {
                    LanePhase::Recording { first_blood } => first_blood,
                    _ => false,
                };
                self.pending = None;
                self.phase = LanePhase::AwaitSolve;
                self.first_blood_sent = self.first_blood_sent || fb;
                LaneAction::AwaitNext
            },
            LaneEvent::RetryElapsed => self.begin(),
        }
    }

    fn begin(&mut self) -> (r: LaneAction)
        ensures
            (final(self)@, r) == lane_begin(old(self)@),
    {
        if self.first_blood_sent {
            self.phase = LanePhase::CheckAlreadyNotified { first_blood: false };
            LaneAction::QuerySent
        } else {
            self.phase = LanePhase::CheckFirstBlood;
            LaneAction::QuerySolved
        }
    }

    fn fail(&mut self) -> (r: LaneAction)
        ensures
            (final(self)@, r) == lane_fail(old(self)@),
    {
        self.phase = LanePhase::WaitRetry;
        self.failure_count = crate::bump(self.failure_count);
        LaneAction::WaitRetryInterval
    }

    /// How many store reads, sends or store writes have failed so far.
    pub fn failure_count(&self) -> (r: u64)
        ensures
            r == self.failure_count,
    {
        self.failure_count
    }
}

} // verus!
