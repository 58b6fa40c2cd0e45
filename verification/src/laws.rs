//! The laws of the lane protocol, proved over traces: sequences of events
//! fed to the lane machine whose store replies are consistent with the
//! records the trace itself has written.
//!
//! A lane is the only writer of its challenge's records while it lives (the
//! dispatcher keeps one live lane per challenge), so a trace models the
//! store as seen by one lane: records change only at this lane's successful
//! dedup writes.

use vstd::prelude::*;
use crate::lane::{
    lane_expects, lane_next, lane_processing, lane_wf, phase_flag, LaneEvent, LanePhase,
    LaneAction, LaneView,
};
use crate::solve::SolveView;

verus! {

/// The dedup store's content as one lane's trace sees it: the set of
/// (challenge, player) pairs recorded as notified.
pub ghost struct StoreModel {
    pub records: Set<(Seq<char>, u128)>,
}

/// The store's "has this (challenge, player) already been notified"
/// predicate.
pub open spec fn store_has_sent(st: StoreModel, chal: Seq<char>, player: u128) -> bool {
    st.records.contains((chal, player))
}

/// The store's "has this challenge ever been solved (by anyone)" predicate.
pub open spec fn store_has_been_solved(st: StoreModel, chal: Seq<char>) -> bool {
    exists|p: u128| st.records.contains((chal, p))
}

/// A store reply is consistent when it answers the pending solve's query
/// from the store's records.
pub open spec fn reply_consistent(s: LaneView, st: StoreModel, ev: LaneEvent) -> bool {
    match ev {
        LaneEvent::SolvedReply(b) => s.pending matches Some(p) && b == store_has_been_solved(
            st,
            p.challenge_name,
        ),
        LaneEvent::SentReply(b) => s.pending matches Some(p) && b == store_has_sent(
            st,
            p.challenge_name,
            p.player_id,
        ),
        _ => true,
    }
}

/// The store after one lane step: a successful dedup write inserts the
/// pending pair's record; nothing else changes the store.
pub open spec fn store_after(s: LaneView, st: StoreModel, ev: LaneEvent) -> StoreModel {
    match (ev, s.pending) {
        (LaneEvent::RecordOk, Some(p)) => StoreModel {
            records: st.records.insert((p.challenge_name, p.player_id)),
        },
        _ => st,
    }
}

/// A valid trace: at each step the event is one the lane can be handed and
/// any store reply in it is consistent with the records so far.
pub open spec fn trace_ok(s: LaneView, st: StoreModel, evs: Seq<LaneEvent>) -> bool
    decreases evs.len(),
{
    evs.len() == 0 || {
        &&& lane_expects(s, evs[0])
        &&& reply_consistent(s, st, evs[0])
        &&& trace_ok(lane_next(s, evs[0]).0, store_after(s, st, evs[0]), evs.drop_first())
    }
}

/// The lane state and store at the end of a trace.
pub open spec fn trace_final(s: LaneView, st: StoreModel, evs: Seq<LaneEvent>) -> (
    LaneView,
    StoreModel,
)
    decreases evs.len(),
{
    if evs.len() == 0 {
        (s, st)
    } else {
        trace_final(lane_next(s, evs[0]).0, store_after(s, st, evs[0]), evs.drop_first())
    }
}

/// The actions a trace makes the lane's task perform, in order.
pub open spec fn trace_actions(s: LaneView, evs: Seq<LaneEvent>) -> Seq<LaneAction>
    decreases evs.len(),
{
    if evs.len() == 0 {
        Seq::empty()
    } else {
        seq![lane_next(s, evs[0]).1] + trace_actions(lane_next(s, evs[0]).0, evs.drop_first())
    }
}

/// One step's well-formedness is kept by every expected event.
pub proof fn lemma_wf_preserved(s: LaneView, ev: LaneEvent)
    requires
        lane_wf(s),
        lane_expects(s, ev),
    ensures
        lane_wf(lane_next(s, ev).0),
{
}

/// The step on which a first-blood record is committed to the store.
pub open spec fn is_first_blood_commit(s: LaneView, ev: LaneEvent) -> bool {
    s.phase == (LanePhase::Recording { first_blood: true }) && ev matches LaneEvent::RecordOk
}

/// How many first-blood records a trace commits.
pub open spec fn count_first_blood_commits(s: LaneView, evs: Seq<LaneEvent>) -> nat
    decreases evs.len(),
{
    if evs.len() == 0 {
        0
    } else {
        (if is_first_blood_commit(s, evs[0]) {
            1nat
        } else {
            0nat
        }) + count_first_blood_commits(lane_next(s, evs[0]).0, evs.drop_first())
    }
}

/// A lane poised anywhere on the first-blood path got there from a negative
/// "has this challenge ever been solved" reply, and the store has gained no
/// record for the challenge since.
pub open spec fn lane_store_sound(s: LaneView, st: StoreModel) -> bool {
    phase_flag(s.phase) ==> !store_has_been_solved(st, s.challenge_name)
}

/// Soundness of the first-blood path is kept by every consistent step.
pub proof fn lemma_store_sound_preserved(s: LaneView, st: StoreModel, ev: LaneEvent)
    requires
        lane_wf(s),
        lane_expects(s, ev),
        reply_consistent(s, st, ev),
        lane_store_sound(s, st),
    ensures
        lane_store_sound(lane_next(s, ev).0, store_after(s, st, ev)),
{
}

/// Once the store holds any record for the challenge, a consistent trace
/// commits no first-blood record at all.
pub proof fn lemma_no_commit_once_solved(s: LaneView, st: StoreModel, evs: Seq<LaneEvent>)
    requires
        lane_wf(s),
        lane_store_sound(s, st),
        trace_ok(s, st, evs),
        store_has_been_solved(st, s.challenge_name),
    ensures
        count_first_blood_commits(s, evs) == 0,
    decreases evs.len(),
{
    if evs.len() > 0 {
        let ev = evs[0];
        let s1 = lane_next(s, ev).0;
        let st1 = store_after(s, st, ev);
        assert(!is_first_blood_commit(s, ev));
        lemma_wf_preserved(s, ev);
        lemma_store_sound_preserved(s, st, ev);
        let p = choose|p: u128| st.records.contains((s.challenge_name, p));
        assert(st1.records.contains((s.challenge_name, p)));
        lemma_no_commit_once_solved(s1, st1, evs.drop_first());
    }
}

/// Law: across any run of the decision protocol — failures, retries and
/// re-sent notifications included — a lane commits the first-blood record
/// for its challenge at most once, provided the store answers its queries
/// from the records written. The local first-blood cache is a shortcut, not
/// the ground for this: the store's own emptiness check guards the path.
pub proof fn lemma_first_blood_committed_at_most_once(
    s: LaneView,
    st: StoreModel,
    evs: Seq<LaneEvent>,
)
    requires
        lane_wf(s),
        lane_store_sound(s, st),
        trace_ok(s, st, evs),
    ensures
        count_first_blood_commits(s, evs) <= 1,
    decreases evs.len(),
{
    if evs.len() > 0 {
        let ev = evs[0];
        let s1 = lane_next(s, ev).0;
        let st1 = store_after(s, st, ev);
        lemma_wf_preserved(s, ev);
        lemma_store_sound_preserved(s, st, ev);
        if is_first_blood_commit(s, ev) {
            let p = s.pending->Some_0;
            assert(st1.records.contains((s.challenge_name, p.player_id)));
            assert(store_has_been_solved(st1, s1.challenge_name));
            lemma_no_commit_once_solved(s1, st1, evs.drop_first());
        } else {
            lemma_first_blood_committed_at_most_once(s1, st1, evs.drop_first());
        }
    }
}

/// The local first-blood cache is a safe shortcut: whenever it is set, the
/// store really does record the challenge as solved.
pub open spec fn cache_sound(s: LaneView, st: StoreModel) -> bool {
    s.first_blood_sent ==> store_has_been_solved(st, s.challenge_name)
}

/// Law: the lane's first-blood cache never gets ahead of the store. It is
/// set only on the heels of a successful first-blood record write, and
/// records are never removed, so a consistent trace keeps the cache sound
/// and the eligibility read it skips could only have answered "already
/// solved".
pub proof fn lemma_cache_stays_sound(s: LaneView, st: StoreModel, evs: Seq<LaneEvent>)
    requires
        lane_wf(s),
        cache_sound(s, st),
        trace_ok(s, st, evs),
    ensures
        cache_sound(trace_final(s, st, evs).0, trace_final(s, st, evs).1),
    decreases evs.len(),
{
    if evs.len() > 0 {
        let ev = evs[0];
        let s1 = lane_next(s, ev).0;
        let st1 = store_after(s, st, ev);
        lemma_wf_preserved(s, ev);
        if s1.first_blood_sent {
            if s.first_blood_sent {
                let p = choose|p: u128| st.records.contains((s.challenge_name, p));
                assert(st1.records.contains((s.challenge_name, p)));
            } else {
                // the cache was set this very step: a first-blood record
                // write for the solve in hand, whose pair was inserted
                assert(ev matches LaneEvent::RecordOk);
                let p = s.pending->Some_0;
                assert(st1.records.contains((s.challenge_name, p.player_id)));
            }
            assert(store_has_been_solved(st1, s1.challenge_name));
        }
        lemma_cache_stays_sound(s1, st1, evs.drop_first());
    }
}

/// A trace makes one action per event.
pub proof fn lemma_trace_actions_len(s: LaneView, evs: Seq<LaneEvent>)
    ensures
        trace_actions(s, evs).len() == evs.len(),
    decreases evs.len(),
{
    if evs.len() > 0 {
        lemma_trace_actions_len(lane_next(s, evs[0]).0, evs.drop_first());
    }
}

/// No solve arrives anywhere in the trace.
pub open spec fn no_arrivals(evs: Seq<LaneEvent>) -> bool {
    forall|i: int| 0 <= i < evs.len() ==> !((#[trigger] evs[i]) matches LaneEvent::Arrive(_))
}

/// The lane holds (at most) a solve whose pair the store already records,
/// and stands before the protocol's sending steps.
pub open spec fn dup_safe(s: LaneView, st: StoreModel) -> bool {
    &&& !(s.phase matches LanePhase::Sending { .. })
    &&& !(s.phase matches LanePhase::Recording { .. })
    &&& (s.pending matches Some(p) ==> store_has_sent(st, p.challenge_name, p.player_id))
}

/// While the solve in hand is an already-recorded pair, a consistent trace
/// without further arrivals never dispatches, never writes, and leaves the
/// store as it was.
pub proof fn lemma_dup_trace(s: LaneView, st: StoreModel, evs: Seq<LaneEvent>)
    requires
        lane_wf(s),
        dup_safe(s, st),
        trace_ok(s, st, evs),
        no_arrivals(evs),
    ensures
        forall|k: int|
            0 <= k < trace_actions(s, evs).len() ==> !((#[trigger] trace_actions(s, evs)[k])
                matches LaneAction::Dispatch { .. }) && trace_actions(s, evs)[k]
                != LaneAction::Record,
        trace_final(s, st, evs).1 == st,
    decreases evs.len(),
{
    if evs.len() > 0 {
        let ev = evs[0];
        let s1 = lane_next(s, ev).0;
        let a0 = lane_next(s, ev).1;
        assert(store_after(s, st, ev) == st);
        lemma_wf_preserved(s, ev);
        assert(dup_safe(s1, st));
        assert(no_arrivals(evs.drop_first()));
        lemma_dup_trace(s1, st, evs.drop_first());
        assert(trace_actions(s, evs) =~= seq![a0] + trace_actions(s1, evs.drop_first()));
        assert(!(a0 matches LaneAction::Dispatch { .. }) && a0 != LaneAction::Record);
    }
}

/// Law: a solve for a (challenge, player) pair the store already records as
/// notified is dropped at the already-notified check: however the protocol
/// is retried, no send is dispatched and no record is written for it, and
/// the store is left exactly as it was.
pub proof fn lemma_duplicate_solve_ignored(s: LaneView, st: StoreModel, evs: Seq<LaneEvent>)
    requires
        lane_wf(s),
        s.phase == LanePhase::AwaitSolve,
        trace_ok(s, st, evs),
        evs.len() > 0,
        (evs[0] matches LaneEvent::Arrive(sv) && store_has_sent(
            st,
            sv@.challenge_name,
            sv@.player_id,
        )),
        no_arrivals(evs.drop_first()),
    ensures
        forall|k: int|
            0 <= k < trace_actions(s, evs).len() ==> !((#[trigger] trace_actions(s, evs)[k])
                matches LaneAction::Dispatch { .. }) && trace_actions(s, evs)[k]
                != LaneAction::Record,
        trace_final(s, st, evs).1 == st,
{
    let ev = evs[0];
    let s1 = lane_next(s, ev).0;
    let a0 = lane_next(s, ev).1;
    lemma_wf_preserved(s, ev);
    assert(dup_safe(s1, st));
    lemma_dup_trace(s1, st, evs.drop_first());
    assert(trace_actions(s, evs) =~= seq![a0] + trace_actions(s1, evs.drop_first()));
    assert(!(a0 matches LaneAction::Dispatch { .. }) && a0 != LaneAction::Record);
}

/// An event of a store outage: every query and send fails, and only the
/// retry timer otherwise advances the lane.
pub open spec fn outage_event(ev: LaneEvent) -> bool {
    ||| ev matches LaneEvent::StoreFailed
    ||| ev matches LaneEvent::SendFailed
    ||| ev matches LaneEvent::RetryElapsed
}

/// Law: while the store (or the send path) only fails, a lane retries
/// forever and never gives up: it stays mid-protocol on the same solve,
/// never retires and never completes the event, and after every failure the
/// one action it asks for is to wait the retry interval. Other lanes are
/// untouched by construction: a lane's state is its own and the trace is
/// per-lane.
pub proof fn lemma_outage_never_abandons(s: LaneView, st: StoreModel, evs: Seq<LaneEvent>)
    requires
        lane_wf(s),
        lane_processing(s.phase),
        trace_ok(s, st, evs),
        forall|i: int| 0 <= i < evs.len() ==> outage_event(#[trigger] evs[i]),
    ensures
        lane_processing(trace_final(s, st, evs).0.phase),
        trace_final(s, st, evs).0.pending == s.pending,
        forall|k: int|
            0 <= k < trace_actions(s, evs).len() ==> (#[trigger] trace_actions(s, evs)[k])
                != LaneAction::Stop && trace_actions(s, evs)[k] != LaneAction::AwaitNext,
        forall|i: int|
            0 <= i < evs.len() && ((#[trigger] evs[i]) matches LaneEvent::StoreFailed || evs[i]
                matches LaneEvent::SendFailed) ==> trace_actions(s, evs)[i]
                == LaneAction::WaitRetryInterval,
    decreases evs.len(),
{
    lemma_trace_actions_len(s, evs);
    if evs.len() > 0 {
        let ev = evs[0];
        let s1 = lane_next(s, ev).0;
        let a0 = lane_next(s, ev).1;
        lemma_wf_preserved(s, ev);
        assert(lane_processing(s1.phase));
        assert(s1.pending == s.pending);
        assert(store_after(s, st, ev) == st);
        lemma_outage_never_abandons(s1, st, evs.drop_first());
        lemma_trace_actions_len(s1, evs.drop_first());
        assert(trace_actions(s, evs) =~= seq![a0] + trace_actions(s1, evs.drop_first()));
        assert forall|i: int|
            0 <= i < evs.len() && ((#[trigger] evs[i]) matches LaneEvent::StoreFailed || evs[i]
                matches LaneEvent::SendFailed) implies trace_actions(s, evs)[i]
            == LaneAction::WaitRetryInterval by {
            if i == 0 {
            } else {
                assert(evs.drop_first()[i - 1] == evs[i]);
                assert(trace_actions(s, evs)[i] == trace_actions(s1, evs.drop_first())[i - 1]);
            }
        }
    }
}

/// The solves the trace's arrivals bring, in order.
pub open spec fn arrivals(evs: Seq<LaneEvent>) -> Seq<SolveView>
    decreases evs.len(),
{
    if evs.len() == 0 {
        Seq::empty()
    } else {
        (match evs[0] {
            LaneEvent::Arrive(sv) => seq![sv@],
            _ => Seq::empty(),
        }) + arrivals(evs.drop_first())
    }
}

/// Every dispatch of a trace, tagged with the position, counted from
/// `base`, of the arrival whose solve it serves.
pub open spec fn dispatch_log(s: LaneView, evs: Seq<LaneEvent>, base: int) -> Seq<
    (int, SolveView),
>
    decreases evs.len(),
{
    if evs.len() == 0 {
        Seq::empty()
    } else {
        let s1 = lane_next(s, evs[0]).0;
        let a = lane_next(s, evs[0]).1;
        let base1 = if evs[0] matches LaneEvent::Arrive(_) {
            base + 1
        } else {
            base
        };
        (if a matches LaneAction::Dispatch { .. } {
            match s.pending {
                Some(p) => seq![(base1 - 1, p)],
                None => Seq::empty(),
            }
        } else {
            Seq::empty()
        }) + dispatch_log(s1, evs.drop_first(), base1)
    }
}

proof fn lemma_dispatch_log_props(
    s: LaneView,
    st: StoreModel,
    evs: Seq<LaneEvent>,
    prior: Seq<SolveView>,
)
    requires
        lane_wf(s),
        trace_ok(s, st, evs),
        lane_processing(s.phase) ==> prior.len() >= 1 && s.pending == Some(prior.last()),
    ensures
        ({
            let all = prior + arrivals(evs);
            let log = dispatch_log(s, evs, prior.len() as int);
            &&& forall|k: int|
                0 <= k < log.len() ==> 0 <= (#[trigger] log[k]).0 < all.len() && log[k].0
                    >= prior.len() - 1 && log[k].1 == all[log[k].0]
            &&& forall|a: int, b: int| 0 <= a <= b < log.len() ==> log[a].0 <= log[b].0
        }),
    decreases evs.len(),
{
    if evs.len() > 0 {
        let ev = evs[0];
        let s1 = lane_next(s, ev).0;
        let a0 = lane_next(s, ev).1;
        let st1 = store_after(s, st, ev);
        lemma_wf_preserved(s, ev);
        let rest = evs.drop_first();
        let all = prior + arrivals(evs);
        let log = dispatch_log(s, evs, prior.len() as int);
        match ev {
            LaneEvent::Arrive(sv) => {
                let prior1 = prior.push(sv@);
                assert(prior1 =~= prior + seq![sv@]);
                assert(prior1 + arrivals(rest) =~= all);
                assert(s1.pending == Some(sv@) && Some(prior1.last()) == Some(sv@));
                lemma_dispatch_log_props(s1, st1, rest, prior1);
                assert(log =~= dispatch_log(s1, rest, prior1.len() as int));
            },
            _ => {
                assert(arrivals(evs) =~= arrivals(rest));
                lemma_dispatch_log_props(s1, st1, rest, prior);
                if a0 matches LaneAction::Dispatch { .. } {
                    // a dispatch serves the solve in hand, which is the last
                    // arrival so far
                    assert(lane_processing(s.phase));
                    let p = s.pending->Some_0;
                    assert(p == prior.last());
                    assert(all[prior.len() - 1] == prior[prior.len() - 1]);
                    assert(log =~= seq![(prior.len() - 1, p)] + dispatch_log(
                        s1,
                        rest,
                        prior.len() as int,
                    ));
                } else {
                    assert(log =~= dispatch_log(s1, rest, prior.len() as int));
                }
            },
        }
    }
}

/// Law: dispatches leave a lane in the order its solves arrived. Every
/// dispatch of a trace from a fresh-keyed (idle) lane serves one of the
/// trace's arrivals, retried dispatches included, and the arrival positions
/// served never decrease along the trace.
pub proof fn lemma_dispatches_follow_arrival_order(
    s: LaneView,
    st: StoreModel,
    evs: Seq<LaneEvent>,
)
    requires
        lane_wf(s),
        s.phase == LanePhase::AwaitSolve,
        trace_ok(s, st, evs),
    ensures
        ({
            let arr = arrivals(evs);
            let log = dispatch_log(s, evs, 0);
            &&& forall|k: int|
                0 <= k < log.len() ==> 0 <= (#[trigger] log[k]).0 < arr.len() && log[k].1
                    == arr[log[k].0]
            &&& forall|a: int, b: int| 0 <= a <= b < log.len() ==> log[a].0 <= log[b].0
        }),
{
    let prior = Seq::<SolveView>::empty();
    lemma_dispatch_log_props(s, st, evs, prior);
    assert(prior + arrivals(evs) =~= arrivals(evs));
}

} // verus!
