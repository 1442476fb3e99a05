//! What the store reports and what the observers deliver.

use vstd::prelude::*;
use crate::filter::OperationKind;
use crate::record::Record;

verus! {

/// The new value of one changed field, as far as the observers type it.
#[derive(Clone, Debug, PartialEq, Eq)]
pub enum FieldValue {
    Text(String),
    Integer(i64),
    Flag(bool),
    /// The field was set to the store's null.
    Null,
    /// A value of any other type, in the store's own rendering.
    Opaque(String),
}

/// One entry of an update: the path of a field and its new value.
#[derive(Clone, Debug, PartialEq, Eq)]
pub struct FieldChange {
    pub path: String,
    pub value: FieldValue,
}

/// An event as the change feed reports it. The store may leave out the full
/// document of an insert and the description of an update.
#[derive(Clone, Debug, PartialEq, Eq)]
pub struct NativeEvent {
    pub operation: OperationKind,
    pub full_document: Option<Record>,
    pub updated_fields: Option<Vec<FieldChange>>,
}

/// An event as both observers deliver it to the output.
#[derive(Clone, Debug, PartialEq, Eq)]
pub enum ChangeEvent {
    /// A new record, in full.
    Insert { full_record: Record },
    /// The fields an update changed, and nothing else of the record.
    Update { changed_fields: Vec<FieldChange> },
}

/// The insert event that delivers `record`.
pub open spec fn insert_of(record: Record) -> ChangeEvent {
    ChangeEvent::Insert { full_record: record }
}

/// The insert events that deliver `records`, one each and in the same order.
pub open spec fn inserts_of(records: Seq<Record>) -> Seq<ChangeEvent> {
    records.map_values(|r: Record| insert_of(r))
}

/// Delivering one more record appends one more insert event.
pub proof fn lemma_inserts_of_push(records: Seq<Record>, record: Record)
    ensures
        inserts_of(records.push(record)) == inserts_of(records).push(insert_of(record)),
{
    assert(inserts_of(records.push(record)) =~= inserts_of(records).push(insert_of(record)));
}

/// Insert events keep the order of concatenated deliveries.
pub proof fn lemma_inserts_of_concat(first: Seq<Record>, second: Seq<Record>)
    ensures
        inserts_of(first + second) == inserts_of(first) + inserts_of(second),
{
    assert(inserts_of(first + second) =~= inserts_of(first) + inserts_of(second));
}

} // verus!
