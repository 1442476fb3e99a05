//! Interest filters and the rule that decides which operations are delivered.

use vstd::prelude::*;

verus! {

/// The subset of operation kinds a caller wants delivered. It is chosen when
/// an observation session starts and stays fixed for the session.
#[derive(Clone, Copy, Debug, PartialEq, Eq, Structural)]
pub enum ChangeEventType {
    /// Only newly inserted records.
    Insert,
    /// Only updates to existing records.
    Update,
    /// Both inserts and updates.
    All,
}

/// The kind of operation a native store event reports.
#[derive(Clone, Copy, Debug, PartialEq, Eq, Structural)]
pub enum OperationKind {
    Insert,
    Update,
    Replace,
    Delete,
    /// Any operation the store reports that is none of the above.
    Other,
}

/// Whether an operation of `kind` is delivered under `filter`.
///
/// Inserts pass `Insert` and `All`, updates pass `Update` and `All`, and
/// every other kind is dropped whatever the filter.
pub open spec fn admits(filter: ChangeEventType, kind: OperationKind) -> bool {
    match kind {
        OperationKind::Insert => filter is Insert || filter is All,
        OperationKind::Update => filter is Update || filter is All,
        _ => false,
    }
}

/// Decides whether an event of `kind` reaches the output under `filter`.
pub fn should_emit(kind: OperationKind, filter: ChangeEventType) -> (emit: bool)
    ensures
        emit == admits(filter, kind),
{
    match kind {
        OperationKind::Insert => match filter {
            ChangeEventType::Insert | ChangeEventType::All => true,
            ChangeEventType::Update => false,
        },
        OperationKind::Update => match filter {
            ChangeEventType::Update | ChangeEventType::All => true,
            ChangeEventType::Insert => false,
        },
        OperationKind::Replace | OperationKind::Delete | OperationKind::Other => false,
    }
}

/// `All` delivers exactly what `Insert` and `Update` deliver between them.
pub proof fn law_all_is_union(kind: OperationKind)
    ensures
        admits(ChangeEventType::All, kind) == (admits(ChangeEventType::Insert, kind) || admits(
            ChangeEventType::Update,
            kind,
        )),
        !(admits(ChangeEventType::Insert, kind) && admits(ChangeEventType::Update, kind)),
{
}

} // verus!
