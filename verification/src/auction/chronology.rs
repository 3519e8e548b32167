//! Under a clock that never runs backwards, every bid log is in
//! chronological order.

use vstd::prelude::*;
use crate::address::Address;
use crate::auction::history::Call;
use crate::auction::model::Market;

verus! {

impl Call {
    /// The ledger time that the call was given, if it was given one.
    pub open spec fn time(self) -> Option<u64> {
        match self {
            Call::Create { now, .. } => Some(now),
            Call::PlaceBid { now, .. } => Some(now),
            Call::End { now, .. } => Some(now),
            Call::Cancel { .. } => None,
        }
    }
}

/// No call of the history was given an earlier time than a call before it.
pub open spec fn clock_never_runs_back(calls: Seq<Call>) -> bool {
    forall|i: int, j: int|
        0 <= i < j < calls.len() && (#[trigger] calls[i]).time() is Some && (
        #[trigger] calls[j]).time() is Some ==> calls[i].time().unwrap()
            <= calls[j].time().unwrap()
}

/// Some call among the first `n` of the history was given the time `t`.
pub open spec fn time_was_read(calls: Seq<Call>, n: int, t: u64) -> bool {
    exists|k: int| 0 <= k < n && k < calls.len() && (#[trigger] calls[k]).time() == Some(t)
}

/// In every bid log the timestamps never fall, and each is a time that one
/// of the first `n` calls was given.
pub open spec fn logs_in_order(m: Market, calls: Seq<Call>, n: int) -> bool {
    &&& forall|id: u64, i: int, j: int|
        m.has(id) && 0 <= i < j < m.bid_log(id).len() ==> (#[trigger] m.bid_log(id)[i]).timestamp
            <= (#[trigger] m.bid_log(id)[j]).timestamp
    &&& forall|id: u64, i: int|
        m.has(id) && 0 <= i < m.bid_log(id).len() ==> time_was_read(
            calls,
            n,
            (#[trigger] m.bid_log(id)[i]).timestamp,
        )
}

/// One more call under a clock that never runs backwards keeps the logs in
/// order.
proof fn lemma_step_keeps_order(m: Market, calls: Seq<Call>, n: int)
    requires
        m.wf(),
        0 <= n < calls.len(),
        clock_never_runs_back(calls),
        logs_in_order(m, calls, n),
    ensures
        logs_in_order(m.step(calls[n]), calls, n + 1),
{
    let call = calls[n];
    let next = m.step(call);
    assert forall|id: u64, i: int| next.has(id) && 0 <= i < next.bid_log(id).len() implies {
        &&& time_was_read(calls, n + 1, (#[trigger] next.bid_log(id)[i]).timestamp)
        &&& forall|j: int|
            i < j < next.bid_log(id).len() ==> next.bid_log(id)[i].timestamp <= (
            #[trigger] next.bid_log(id)[j]).timestamp
    } by {
        let log = m.bid_log(id);
        let longer = next.bid_log(id);
        if m.has(id) && i < log.len() {
            assert(longer[i] == log[i]);
            let k = choose|k: int|
                0 <= k < n && k < calls.len() && (#[trigger] calls[k]).time() == Some(
                    log[i].timestamp,
                );
            assert(calls[k].time() == Some(longer[i].timestamp));
            assert forall|j: int| i < j < longer.len() implies longer[i].timestamp <= (
            #[trigger] longer[j]).timestamp by {
                if j < log.len() {
                    assert(longer[j] == log[j]);
                    assert(log[i].timestamp <= log[j].timestamp);
                } else {
                    assert(calls[n].time() == Some(longer[j].timestamp));
                    assert(calls[k].time().unwrap() <= calls[n].time().unwrap());
                }
            }
        } else {
            assert(calls[n].time() == Some(longer[i].timestamp));
        }
    }
}

/// After the first `n` calls of a history under a clock that never runs
/// backwards, the engine is well-formed and its logs are in order.
proof fn lemma_prefix_keeps_order(admin: Address, calls: Seq<Call>, n: int)
    requires
        0 <= n <= calls.len(),
        clock_never_runs_back(calls),
    ensures
        Market::fresh(admin).run(calls.take(n)).wf(),
        logs_in_order(Market::fresh(admin).run(calls.take(n)), calls, n),
    decreases n,
{
    crate::auction::history::law_every_history_is_wf(admin, calls.take(n));
    if n > 0 {
        lemma_prefix_keeps_order(admin, calls, n - 1);
        assert(calls.take(n).drop_last() == calls.take(n - 1));
        assert(calls.take(n).last() == calls[n - 1]);
        lemma_step_keeps_order(Market::fresh(admin).run(calls.take(n - 1)), calls, n - 1);
    }
}

/// After any history of calls since bootstrap under a clock that never runs
/// backwards, the order of a bid log is the order in time: no bid carries an
/// earlier timestamp than a bid before it.
pub proof fn law_bid_log_is_chronological(
    admin: Address,
    calls: Seq<Call>,
    id: u64,
    i: int,
    j: int,
)
    requires
        clock_never_runs_back(calls),
        Market::fresh(admin).run(calls).has(id),
        0 <= i < j < Market::fresh(admin).run(calls).bid_log(id).len(),
    ensures
        Market::fresh(admin).run(calls).bid_log(id)[i].timestamp <= Market::fresh(admin).run(
            calls,
        ).bid_log(id)[j].timestamp,
{
    lemma_prefix_keeps_order(admin, calls, calls.len() as int);
    assert(calls.take(calls.len() as int) == calls);
}

} // verus!
