//! What holds of a poll session over any number of rounds.
//!
//! The store is modelled as a sequence of records that only grows: round `k`
//! sees the first `cuts[k]` records of `stream` and answers the range query
//! above the session's watermark from them.

use vstd::prelude::*;
use crate::event::{inserts_of, lemma_inserts_of_concat, ChangeEvent};
use crate::filter::{admits, OperationKind};
use crate::poll::{
    after_batch, after_cancel, after_query_failure, after_start, after_wake, batch_emits,
    high_water, lemma_push, pending_action, select_new, PollAction, PollState,
};
use crate::record::Record;

verus! {

/// Every record has a creation time and none is older than the one before.
pub open spec fn ascending(stream: Seq<Record>) -> bool {
    &&& forall|i: int| 0 <= i < stream.len() ==> (#[trigger] stream[i]).created_at is Some
    &&& forall|i: int, j: int|
        0 <= i <= j < stream.len() ==> (#[trigger] stream[i]).created_at->0 <= (
        #[trigger] stream[j]).created_at->0
}

/// `cuts` gives, round by round, how many records of a stream of `len`
/// records the store holds: never more than `len`, never fewer than before.
pub open spec fn growing(cuts: Seq<int>, len: nat) -> bool {
    &&& forall|k: int| 0 <= k < cuts.len() ==> 0 <= #[trigger] cuts[k] <= len
    &&& forall|j: int, k: int| 0 <= j <= k < cuts.len() ==> #[trigger] cuts[j] <= #[trigger] cuts[k]
}

/// What the store holds in the last of the rounds: nothing before any round.
pub open spec fn last_seen(stream: Seq<Record>, cuts: Seq<int>) -> Seq<Record> {
    if cuts.len() == 0 {
        Seq::empty()
    } else {
        stream.take(cuts.last())
    }
}

/// The session after one round per entry of `cuts`, each followed by the
/// pause that leads to the next.
pub open spec fn state_after(s: PollState, stream: Seq<Record>, cuts: Seq<int>) -> PollState
    decreases cuts.len(),
{
    if cuts.len() == 0 {
        s
    } else {
        let before = state_after(s, stream, cuts.drop_last());
        let reply = select_new(stream.take(cuts.last()), before.watermark);
        after_wake(after_batch(before, reply))
    }
}

/// Everything the session delivers over those rounds, in order of delivery.
pub open spec fn delivered_over(s: PollState, stream: Seq<Record>, cuts: Seq<int>) -> Seq<
    ChangeEvent,
>
    decreases cuts.len(),
{
    if cuts.len() == 0 {
        Seq::empty()
    } else {
        let before = state_after(s, stream, cuts.drop_last());
        let reply = select_new(stream.take(cuts.last()), before.watermark);
        delivered_over(s, stream, cuts.drop_last()) + batch_emits(before, reply)
    }
}

/// No record that the session could deliver arrives, after a round has ended,
/// with the creation time of the last record that round saw.
pub open spec fn no_tie_across_rounds(stream: Seq<Record>, cuts: Seq<int>, watermark: i64) -> bool {
    forall|k: int|
        0 <= k < cuts.len() && 0 < #[trigger] cuts[k] < cuts.last() && stream[cuts[k]].newer_than(
            watermark as int,
        ) ==> stream[cuts[k] - 1].created_at->0 < stream[cuts[k]].created_at->0
}

/// The high-water mark is at least the watermark it started from and at
/// least every creation time in the batch.
pub proof fn lemma_high_water_bounds(batch: Seq<Record>, watermark: i64)
    ensures
        high_water(batch, watermark) >= watermark,
        forall|i: int|
            0 <= i < batch.len() ==> !(#[trigger] batch[i]).newer_than(
                high_water(batch, watermark) as int,
            ),
    decreases batch.len(),
{
    if batch.len() > 0 {
        lemma_high_water_bounds(batch.drop_last(), watermark);
        assert forall|i: int| 0 <= i < batch.len() implies !(#[trigger] batch[i]).newer_than(
            high_water(batch, watermark) as int,
        ) by {
            if i < batch.len() - 1 {
                assert(batch.drop_last()[i] == batch[i]);
            }
        }
    }
}

/// The high-water mark is the watermark it started from or a creation time
/// found in the batch.
pub proof fn lemma_high_water_attained(batch: Seq<Record>, watermark: i64)
    ensures
        high_water(batch, watermark) == watermark || exists|i: int|
            0 <= i < batch.len() && (#[trigger] batch[i]).created_at == Some(
                high_water(batch, watermark),
            ),
    decreases batch.len(),
{
    if batch.len() > 0 {
        let rest = batch.drop_last();
        lemma_high_water_attained(rest, watermark);
        let before = high_water(rest, watermark);
        if high_water(batch, watermark) == before {
            if before != watermark {
                let i = choose|i: int|
                    0 <= i < rest.len() && (#[trigger] rest[i]).created_at == Some(before);
                assert(batch[i] == rest[i]);
            }
        } else {
            assert(batch[batch.len() - 1].created_at == Some(high_water(batch, watermark)));
        }
    }
}

/// A watermark that no record of the batch is newer than stays where it is.
pub proof fn lemma_high_water_fixed(batch: Seq<Record>, watermark: i64)
    requires
        forall|i: int| 0 <= i < batch.len() ==> !(#[trigger] batch[i]).newer_than(watermark as int),
    ensures
        high_water(batch, watermark) == watermark,
        select_new(batch, watermark) == Seq::<Record>::empty(),
    decreases batch.len(),
{
    if batch.len() > 0 {
        let rest = batch.drop_last();
        assert forall|i: int| 0 <= i < rest.len() implies !(#[trigger] rest[i]).newer_than(
            watermark as int,
        ) by {
            assert(rest[i] == batch[i]);
        }
        lemma_high_water_fixed(rest, watermark);
        assert(!batch[batch.len() - 1].newer_than(watermark as int));
        assert(batch =~= rest.push(batch.last()));
        lemma_push(rest, batch.last(), watermark);
    } else {
        reveal(Seq::filter);
    }
}

/// Raising over two batches in turn is raising over both at once.
pub proof fn lemma_high_water_concat(first: Seq<Record>, second: Seq<Record>, watermark: i64)
    ensures
        high_water(first + second, watermark) == high_water(
            second,
            high_water(first, watermark),
        ),
    decreases second.len(),
{
    if second.len() == 0 {
        assert(first + second =~= first);
    } else {
        lemma_high_water_concat(first, second.drop_last(), watermark);
        assert((first + second).drop_last() =~= first + second.drop_last());
        assert((first + second).last() == second.last());
    }
}

/// Selecting from two batches in turn is selecting from both at once.
pub proof fn lemma_select_concat(first: Seq<Record>, second: Seq<Record>, bound: i64)
    ensures
        select_new(first + second, bound) == select_new(first, bound) + select_new(second, bound),
    decreases second.len(),
{
    if second.len() == 0 {
        assert(first + second =~= first);
        lemma_high_water_fixed(second, bound);
        assert(select_new(first, bound) + Seq::<Record>::empty() =~= select_new(first, bound));
    } else {
        let rest = second.drop_last();
        let r = second.last();
        lemma_select_concat(first, rest, bound);
        assert(second =~= rest.push(r));
        assert(first + second =~= (first + rest).push(r));
        lemma_push(first + rest, r, bound);
        lemma_push(rest, r, bound);
        if r.newer_than(bound as int) {
            assert((select_new(first, bound) + select_new(rest, bound)).push(r) =~= select_new(
                first,
                bound,
            ) + select_new(rest, bound).push(r));
        }
    }
}

/// Two bounds that part the records of a batch alike select alike.
pub proof fn lemma_select_agrees(batch: Seq<Record>, one: i64, other: i64)
    requires
        forall|i: int|
            0 <= i < batch.len() ==> (#[trigger] batch[i]).newer_than(one as int)
                == batch[i].newer_than(other as int),
    ensures
        select_new(batch, one) == select_new(batch, other),
    decreases batch.len(),
{
    if batch.len() == 0 {
        reveal(Seq::filter);
    } else {
        let rest = batch.drop_last();
        let r = batch.last();
        assert forall|i: int| 0 <= i < rest.len() implies (#[trigger] rest[i]).newer_than(
            one as int,
        ) == rest[i].newer_than(other as int) by {
            assert(rest[i] == batch[i]);
        }
        lemma_select_agrees(rest, one, other);
        assert(batch =~= rest.push(r));
        assert(batch[batch.len() - 1] == r);
        lemma_push(rest, r, one);
        lemma_push(rest, r, other);
    }
}

/// What a range query leaves out does not move the watermark, and asking the
/// same question of the answer gives the answer again.
pub proof fn lemma_select_settled(batch: Seq<Record>, bound: i64)
    ensures
        high_water(select_new(batch, bound), bound) == high_water(batch, bound),
        select_new(select_new(batch, bound), bound) == select_new(batch, bound),
    decreases batch.len(),
{
    if batch.len() == 0 {
        reveal(Seq::filter);
    } else {
        let rest = batch.drop_last();
        let r = batch.last();
        lemma_select_settled(rest, bound);
        assert(batch =~= rest.push(r));
        lemma_push(rest, r, bound);
        lemma_high_water_bounds(rest, bound);
        if r.newer_than(bound as int) {
            lemma_push(select_new(rest, bound), r, bound);
        }
    }
}

/// The watermark never decreases: a batch can only raise it, and waking,
/// failing and stopping leave it where it is.
pub proof fn law_watermark_never_decreases(s: PollState, batch: Seq<Record>)
    ensures
        after_batch(s, batch).watermark >= s.watermark,
        after_wake(s).watermark == s.watermark,
        after_query_failure(s).watermark == s.watermark,
        after_cancel(s).watermark == s.watermark,
{
    lemma_high_water_bounds(batch, s.watermark);
}

/// A session never leaves its end: once terminated, no report changes it
/// and nothing more is delivered.
pub proof fn law_poll_end_is_final(s: PollState, now_millis: i64, batch: Seq<Record>)
    requires
        s.phase is Terminated,
    ensures
        after_start(s, now_millis) == s,
        after_batch(s, batch) == s,
        batch_emits(s, batch).len() == 0,
        after_wake(s) == s,
        after_query_failure(s) == s,
        after_cancel(s) == s,
{
}

/// A round whose reply holds no record newer than the watermark delivers
/// nothing, leaves the watermark unchanged and goes to sleep.
pub proof fn law_quiet_round(s: PollState, batch: Seq<Record>)
    requires
        s.phase is Polling,
        select_new(batch, s.watermark).len() == 0,
    ensures
        batch_emits(s, batch).len() == 0,
        after_batch(s, batch).watermark == s.watermark,
        after_batch(s, batch).phase is Waiting,
        pending_action(after_batch(s, batch)) == (PollAction::Sleep { millis: s.interval_ms }),
{
    lemma_select_settled(batch, s.watermark);
    assert(select_new(batch, s.watermark) =~= Seq::<Record>::empty());
}

/// A reply in ascending order whose first record is newer than the watermark
/// is delivered whole and in order, and leaves the watermark at the creation
/// time of its last record.
pub proof fn law_ascending_batch(s: PollState, batch: Seq<Record>)
    requires
        s.phase is Polling,
        ascending(batch),
        batch.len() > 0,
        batch[0].newer_than(s.watermark as int),
    ensures
        select_new(batch, s.watermark) == batch,
        admits(s.filter, OperationKind::Insert) ==> batch_emits(s, batch) == inserts_of(batch),
        Some(after_batch(s, batch).watermark) == batch.last().created_at,
    decreases batch.len(),
{
    let rest = batch.drop_last();
    let r = batch.last();
    assert(batch =~= rest.push(r));
    lemma_push(rest, r, s.watermark);
    assert(batch[0].created_at->0 <= batch[batch.len() - 1].created_at->0);
    if rest.len() > 0 {
        assert(rest[0] == batch[0]);
        assert forall|i: int, j: int| 0 <= i <= j < rest.len() implies (
        #[trigger] rest[i]).created_at->0 <= (#[trigger] rest[j]).created_at->0 by {
            assert(rest[i] == batch[i] && rest[j] == batch[j]);
        }
        assert forall|i: int| 0 <= i < rest.len() implies (#[trigger] rest[i]).created_at is Some by {
            assert(rest[i] == batch[i]);
        }
        law_ascending_batch(s, rest);
        assert(rest[rest.len() - 1] == batch[batch.len() - 2]);
        assert(batch[batch.len() - 2].created_at->0 <= batch[batch.len() - 1].created_at->0);
    } else {
        reveal(Seq::filter);
    }
}

/// After any number of rounds against a growing store the session is ready
/// for the next round and its watermark is the greatest of the watermark it
/// started with and the creation times the store has shown it.
pub proof fn law_watermark_is_maximum(s: PollState, stream: Seq<Record>, cuts: Seq<int>)
    requires
        s.phase is Polling,
        growing(cuts, stream.len()),
    ensures
        state_after(s, stream, cuts).phase is Polling,
        state_after(s, stream, cuts).interval_ms == s.interval_ms,
        state_after(s, stream, cuts).filter == s.filter,
        state_after(s, stream, cuts).watermark == high_water(
            last_seen(stream, cuts),
            s.watermark,
        ),
    decreases cuts.len(),
{
    if cuts.len() > 0 {
        let earlier = cuts.drop_last();
        assert forall|k: int| 0 <= k < earlier.len() implies 0 <= #[trigger] earlier[k]
            <= stream.len() by {
            assert(earlier[k] == cuts[k]);
        }
        assert forall|j: int, k: int| 0 <= j <= k < earlier.len() implies #[trigger] earlier[j]
            <= #[trigger] earlier[k] by {
            assert(earlier[j] == cuts[j] && earlier[k] == cuts[k]);
        }
        law_watermark_is_maximum(s, stream, earlier);
        let before = state_after(s, stream, earlier);
        let seen_before = last_seen(stream, earlier);
        let seen = stream.take(cuts.last());
        let cut_before = if earlier.len() == 0 { 0 } else { earlier.last() };
        if earlier.len() > 0 {
            assert(earlier.last() == cuts[cuts.len() - 2]);
            assert(cuts[cuts.len() - 2] <= cuts[cuts.len() - 1]);
        }
        let fresh = stream.subrange(cut_before, cuts.last());
        assert(seen_before =~= stream.take(cut_before));
        assert(seen =~= seen_before + fresh);
        lemma_select_settled(seen, before.watermark);
        lemma_high_water_concat(seen_before, fresh, before.watermark);
        lemma_high_water_bounds(seen_before, s.watermark);
        lemma_high_water_fixed(seen_before, before.watermark);
        lemma_high_water_concat(seen_before, fresh, s.watermark);
    }
}

/// Over any number of rounds against a growing store whose records come in
/// ascending order of creation time, the session delivers exactly the records
/// the store has shown it that are newer than the watermark it started with:
/// each of them once, in the store's order, where the filter admits inserts,
/// and nothing where it does not.
///
/// A record that arrives after a round with the creation time of the last
/// record of that round is never selected by a later query; such streams are
/// left out.
pub proof fn law_each_record_once(s: PollState, stream: Seq<Record>, cuts: Seq<int>)
    requires
        s.phase is Polling,
        ascending(stream),
        growing(cuts, stream.len()),
        no_tie_across_rounds(stream, cuts, s.watermark),
    ensures
        delivered_over(s, stream, cuts) == batch_emits(s, last_seen(stream, cuts)),
    decreases cuts.len(),
{
    if cuts.len() == 0 {
        lemma_high_water_fixed(Seq::<Record>::empty(), s.watermark);
        assert(inserts_of(Seq::<Record>::empty()) =~= Seq::<ChangeEvent>::empty());
    } else {
        let earlier = cuts.drop_last();
        assert forall|k: int| 0 <= k < earlier.len() implies 0 <= #[trigger] earlier[k]
            <= stream.len() by {
            assert(earlier[k] == cuts[k]);
        }
        assert forall|j: int, k: int| 0 <= j <= k < earlier.len() implies #[trigger] earlier[j]
            <= #[trigger] earlier[k] by {
            assert(earlier[j] == cuts[j] && earlier[k] == cuts[k]);
        }
        if earlier.len() > 0 {
            assert(earlier.last() == cuts[cuts.len() - 2]);
            assert(cuts[cuts.len() - 2] <= cuts[cuts.len() - 1]);
        }
        assert forall|k: int|
            0 <= k < earlier.len() && 0 < #[trigger] earlier[k] < earlier.last()
                && stream[earlier[k]].newer_than(s.watermark as int) implies stream[earlier[k]
            - 1].created_at->0 < stream[earlier[k]].created_at->0 by {
            assert(earlier[k] == cuts[k]);
        }
        law_each_record_once(s, stream, earlier);
        law_watermark_is_maximum(s, stream, earlier);

        let before = state_after(s, stream, earlier);
        let seen_before = last_seen(stream, earlier);
        let seen = stream.take(cuts.last());
        let cut_before = if earlier.len() == 0 { 0 } else { earlier.last() };
        let fresh = stream.subrange(cut_before, cuts.last());
        let reply = select_new(seen, before.watermark);
        assert(seen_before =~= stream.take(cut_before));
        assert(seen =~= seen_before + fresh);

        // Nothing seen before is newer than the watermark it left behind.
        lemma_high_water_bounds(seen_before, s.watermark);
        lemma_high_water_fixed(seen_before, before.watermark);
        // What arrived since is newer than that watermark exactly where it is
        // newer than the first one.
        lemma_high_water_attained(seen_before, s.watermark);
        assert forall|i: int| 0 <= i < fresh.len() implies (#[trigger] fresh[i]).newer_than(
            before.watermark as int,
        ) == fresh[i].newer_than(s.watermark as int) by {
            let at = cut_before + i;
            assert(fresh[i] == stream[at]);
            if fresh[i].newer_than(s.watermark as int) && before.watermark != s.watermark {
                let j = choose|j: int|
                    0 <= j < seen_before.len() && (#[trigger] seen_before[j]).created_at == Some(
                        before.watermark,
                    );
                assert(seen_before[j] == stream[j]);
                assert(earlier[earlier.len() - 1] == cuts[cuts.len() - 2]);
                assert(stream[j].created_at->0 <= stream[cut_before - 1].created_at->0);
                assert(stream[cut_before].created_at->0 <= stream[at].created_at->0);
                if stream[cut_before].newer_than(s.watermark as int) {
                    assert(0 < cuts[cuts.len() - 2] < cuts.last());
                } else {
                    assert(stream[cut_before - 1].created_at->0
                        <= stream[cut_before].created_at->0);
                }
            }
        }
        lemma_select_agrees(fresh, before.watermark, s.watermark);
        lemma_select_concat(seen_before, fresh, before.watermark);
        lemma_select_concat(seen_before, fresh, s.watermark);
        assert(reply =~= select_new(fresh, s.watermark));
        lemma_select_settled(seen, before.watermark);
        if admits(s.filter, OperationKind::Insert) {
            lemma_inserts_of_concat(select_new(seen_before, s.watermark), reply);
        } else {
            assert(Seq::<ChangeEvent>::empty() + Seq::<ChangeEvent>::empty()
                =~= Seq::<ChangeEvent>::empty());
        }
    }
}

} // verus!
