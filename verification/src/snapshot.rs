//! The snapshot query: a one-shot lookup of the most recent record.
//!
//! The caller asks the store for the records in descending order of creation
//! time, at most one of them, and hands over the reply. The functions here
//! pick the most recent record out of whatever came back and prepare it for a
//! report. Nothing is retried: a failed read fails the lookup.

use vstd::prelude::*;
use crate::record::Record;
use crate::session::ErrorKind;
use crate::timestamp::{describe_rfc2822, rfc2822_form, TimestampText};

verus! {

/// What the store answered to a query.
#[derive(Debug, PartialEq, Eq)]
pub enum QueryReply {
    /// The records the query selected, in the store's order.
    Records(Vec<Record>),
    /// The read failed.
    Failed,
}

/// The better of the best record so far and the next one: the next one only
/// where it ranks strictly above.
pub open spec fn better_of(best: Option<Record>, next: Record) -> Option<Record> {
    match best {
        None => Some(next),
        Some(held) => if next.outranks(&held) {
            Some(next)
        } else {
            Some(held)
        },
    }
}

/// The most recent record of `records`: none where there is no record, else
/// the first of those that no other record outranks.
pub open spec fn latest_of(records: Seq<Record>) -> Option<Record>
    decreases records.len(),
{
    if records.len() == 0 {
        None
    } else {
        better_of(latest_of(records.drop_last()), records.last())
    }
}

/// Picks the most recent record of a reply.
pub fn latest(records: Vec<Record>) -> (found: Option<Record>)
    ensures
        found == latest_of(records@),
{
    let mut best: Option<Record> = None;
    let ghost all = records@;
    proof {
        assert(all.take(0) =~= Seq::<Record>::empty());
    }
    for record in it: records
        invariant
            it.seq() == all,
            best == latest_of(all.take(it.index())),
    {
        proof {
            let next = all.take(it.index() + 1);
            assert(next.drop_last() =~= all.take(it.index()));
            assert(next.last() == record);
        }
        best = match best {
            None => Some(record),
            Some(held) => if record.ranks_above(&held) {
                Some(record)
            } else {
                Some(held)
            },
        };
    }
    proof {
        assert(all.take(all.len() as int) =~= all);
    }
    best
}

/// The outcome of the snapshot query for the store's reply: the most recent
/// record, nothing for an empty collection, and a query error for a failed
/// read.
pub open spec fn snapshot_of(reply: QueryReply) -> Result<Option<Record>, ErrorKind> {
    match reply {
        QueryReply::Records(records) => Ok(latest_of(records@)),
        QueryReply::Failed => Err(ErrorKind::Query),
    }
}

/// Turns the store's reply to the snapshot query into its outcome.
pub fn fetch_latest(reply: QueryReply) -> (outcome: Result<Option<Record>, ErrorKind>)
    ensures
        outcome == snapshot_of(reply),
{
    match reply {
        QueryReply::Records(records) => Ok(latest(records)),
        QueryReply::Failed => Err(ErrorKind::Query),
    }
}

/// The creation and update times of a record, described for a report. They
/// are shown together or not at all.
pub open spec fn times_shown(created_at: Option<i64>, updated_at: Option<i64>) -> Option<
    (i64, i64),
> {
    match (created_at, updated_at) {
        (Some(created), Some(updated)) => Some((created, updated)),
        _ => None,
    }
}

/// Describes the two times of a record where it carries both.
pub fn readable_times(created_at: Option<i64>, updated_at: Option<i64>) -> (times: Option<
    (TimestampText, TimestampText),
>)
    ensures
        times is Some <==> created_at is Some && updated_at is Some,
        times matches Some(pair) ==> times_shown(created_at, updated_at) == Some(
            (pair.0.raw, pair.1.raw),
        ),
        times matches Some(pair) ==> pair.0.readable.deep_view() == rfc2822_form(pair.0.raw),
        times matches Some(pair) ==> pair.1.readable.deep_view() == rfc2822_form(pair.1.raw),
{
    match created_at {
        Some(created) => match updated_at {
            Some(updated) => Some((describe_rfc2822(created), describe_rfc2822(updated))),
            None => None,
        },
        None => None,
    }
}

/// A record found by the snapshot query, ready to be shown.
#[derive(Debug, PartialEq, Eq)]
pub struct SnapshotReport {
    /// The record as found.
    pub record: Record,
    /// Its creation and update times, where it carries both.
    pub times: Option<(TimestampText, TimestampText)>,
}

/// Prepares a found record for a report.
pub fn report(record: Record) -> (shown: SnapshotReport)
    ensures
        shown.record == record,
        shown.times is Some <==> record.created_at is Some && record.updated_at is Some,
        shown.times matches Some(pair) ==> record.created_at == Some(pair.0.raw),
        shown.times matches Some(pair) ==> record.updated_at == Some(pair.1.raw),
        shown.times matches Some(pair) ==> pair.0.readable.deep_view() == rfc2822_form(pair.0.raw),
        shown.times matches Some(pair) ==> pair.1.readable.deep_view() == rfc2822_form(pair.1.raw),
{
    let times = readable_times(record.created_at, record.updated_at);
    SnapshotReport { record, times }
}

/// `found` stands at index `at` of `records`, no record outranks it, and it
/// outranks every record before it.
pub open spec fn most_recent_at(records: Seq<Record>, found: Record, at: int) -> bool {
    &&& 0 <= at < records.len()
    &&& records[at] == found
    &&& forall|i: int| 0 <= i < records.len() ==> !(#[trigger] records[i]).outranks(&found)
    &&& forall|i: int| 0 <= i < at ==> found.outranks(&#[trigger] records[i])
}

/// The most recent record is one of the records, no record outranks it, and
/// it is the first such record.
pub proof fn law_latest_is_most_recent(records: Seq<Record>)
    ensures
        latest_of(records) is None <==> records.len() == 0,
        latest_of(records) matches Some(found) ==> exists|at: int|
            most_recent_at(records, found, at),
    decreases records.len(),
{
    if records.len() > 0 {
        let earlier = records.drop_last();
        let next = records.last();
        law_latest_is_most_recent(earlier);
        let found = latest_of(records)->0;
        match latest_of(earlier) {
            None => {
                assert(most_recent_at(records, found, 0));
            },
            Some(held) => {
                let at = choose|at: int| most_recent_at(earlier, held, at);
                assert forall|i: int| 0 <= i < records.len() implies !(
                #[trigger] records[i]).outranks(&found) by {
                    if i < earlier.len() {
                        assert(earlier[i] == records[i]);
                    }
                }
                let place = if next.outranks(&held) { records.len() - 1 } else { at };
                assert forall|i: int| 0 <= i < place implies found.outranks(
                    &#[trigger] records[i],
                ) by {
                    assert(earlier[i] == records[i]);
                }
                assert(most_recent_at(records, found, place));
            },
        }
    }
}

/// The snapshot of an empty collection is an empty result, not an error.
pub proof fn law_empty_collection(reply: QueryReply)
    requires
        reply matches QueryReply::Records(records) && records@.len() == 0,
    ensures
        snapshot_of(reply) == Ok::<Option<Record>, ErrorKind>(None),
{
}

} // verus!
