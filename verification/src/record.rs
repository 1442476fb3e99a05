//! The shape of an observed record.
//!
//! Every attribute is optional, so a record read through a partial projection
//! or written by an older producer is still a record. The observers read only
//! `created_at`; everything else is carried through untouched.

use vstd::prelude::*;

verus! {

/// The nested user operation of a record.
#[derive(Clone, Debug, PartialEq, Eq)]
pub struct UserOp {
    pub sender: Option<String>,
    pub nonce: Option<String>,
    pub init_code: Option<String>,
    pub call_data: Option<String>,
    pub signature: Option<String>,
    pub paymaster_and_data: Option<String>,
    pub max_fee_per_gas: Option<String>,
    pub max_priority_fee_per_gas: Option<String>,
}

impl UserOp {
    /// No attribute is present.
    pub open spec fn is_blank(&self) -> bool {
        &&& self.sender is None
        &&& self.nonce is None
        &&& self.init_code is None
        &&& self.call_data is None
        &&& self.signature is None
        &&& self.paymaster_and_data is None
        &&& self.max_fee_per_gas is None
        &&& self.max_priority_fee_per_gas is None
    }

    /// A user operation with every attribute absent.
    pub fn blank() -> (op: UserOp)
        ensures
            op.is_blank(),
    {
        UserOp {
            sender: None,
            nonce: None,
            init_code: None,
            call_data: None,
            signature: None,
            paymaster_and_data: None,
            max_fee_per_gas: None,
            max_priority_fee_per_gas: None,
        }
    }
}

impl Default for UserOp {
    fn default() -> (op: UserOp)
        ensures
            op.is_blank(),
    {
        UserOp::blank()
    }
}

/// A sponsored user-operation record as the store holds it.
///
/// `created_at` and `updated_at` are epoch milliseconds; `created_at` is the
/// field records are ordered by.
#[derive(Clone, Debug, PartialEq, Eq)]
pub struct Record {
    pub id: Option<String>,
    pub actual_gas_cost: Option<i64>,
    pub actual_gas_used: Option<i64>,
    pub api_key: Option<String>,
    pub request_id: Option<String>,
    pub chain_id: Option<i32>,
    pub entry_point_address: Option<String>,
    pub exchange_rate: Option<String>,
    pub mode: Option<String>,
    pub paymaster_and_data: Option<String>,
    pub nonce: Option<i64>,
    pub oracle_aggregator: Option<String>,
    pub paymaster_address: Option<String>,
    pub paymaster_id: Option<String>,
    pub paymaster_type: Option<String>,
    pub paymaster_version: Option<String>,
    pub price_markup: Option<String>,
    pub price_source: Option<bool>,
    pub smart_account_address: Option<String>,
    pub state: Option<String>,
    pub success: Option<bool>,
    pub token: Option<String>,
    pub token_decimal: Option<i32>,
    pub token_symbol: Option<String>,
    pub transaction_hash: Option<String>,
    pub user_op: Option<UserOp>,
    pub user_op_hash: Option<String>,
    pub value: Option<String>,
    pub value_in_usd: Option<String>,
    pub created_at_timestamp: Option<i64>,
    pub created_at: Option<i64>,
    pub updated_at: Option<i64>,
}

impl Record {
    /// No attribute is present.
    pub open spec fn is_blank(&self) -> bool {
        &&& self.id is None
        &&& self.actual_gas_cost is None
        &&& self.actual_gas_used is None
        &&& self.api_key is None
        &&& self.request_id is None
        &&& self.chain_id is None
        &&& self.entry_point_address is None
        &&& self.exchange_rate is None
        &&& self.mode is None
        &&& self.paymaster_and_data is None
        &&& self.nonce is None
        &&& self.oracle_aggregator is None
        &&& self.paymaster_address is None
        &&& self.paymaster_id is None
        &&& self.paymaster_type is None
        &&& self.paymaster_version is None
        &&& self.price_markup is None
        &&& self.price_source is None
        &&& self.smart_account_address is None
        &&& self.state is None
        &&& self.success is None
        &&& self.token is None
        &&& self.token_decimal is None
        &&& self.token_symbol is None
        &&& self.transaction_hash is None
        &&& self.user_op is None
        &&& self.user_op_hash is None
        &&& self.value is None
        &&& self.value_in_usd is None
        &&& self.created_at_timestamp is None
        &&& self.created_at is None
        &&& self.updated_at is None
    }

    /// Whether the record is strictly newer than the instant `bound`. A
    /// record without a creation time is newer than nothing.
    pub open spec fn newer_than(&self, bound: int) -> bool {
        self.created_at matches Some(t) && t > bound
    }

    /// Whether `self` ranks strictly above `other` by creation time. A record
    /// with a creation time ranks above every record without one.
    pub open spec fn outranks(&self, other: &Record) -> bool {
        match (self.created_at, other.created_at) {
            (Some(a), Some(b)) => a > b,
            (Some(_), None) => true,
            (None, _) => false,
        }
    }

    /// A record with every attribute absent.
    pub fn blank() -> (record: Record)
        ensures
            record.is_blank(),
    {
        Record {
            id: None,
            actual_gas_cost: None,
            actual_gas_used: None,
            api_key: None,
            request_id: None,
            chain_id: None,
            entry_point_address: None,
            exchange_rate: None,
            mode: None,
            paymaster_and_data: None,
            nonce: None,
            oracle_aggregator: None,
            paymaster_address: None,
            paymaster_id: None,
            paymaster_type: None,
            paymaster_version: None,
            price_markup: None,
            price_source: None,
            smart_account_address: None,
            state: None,
            success: None,
            token: None,
            token_decimal: None,
            token_symbol: None,
            transaction_hash: None,
            user_op: None,
            user_op_hash: None,
            value: None,
            value_in_usd: None,
            created_at_timestamp: None,
            created_at: None,
            updated_at: None,
        }
    }

    /// Decides `newer_than` for a machine-sized bound.
    pub fn is_newer_than(&self, bound: i64) -> (newer: bool)
        ensures
            newer == self.newer_than(bound as int),
    {
        match self.created_at {
            Some(t) => t > bound,
            None => false,
        }
    }

    /// Decides `outranks`.
    pub fn ranks_above(&self, other: &Record) -> (above: bool)
        ensures
            above == self.outranks(other),
    {
        match self.created_at {
            Some(a) => match other.created_at {
                Some(b) => a > b,
                None => true,
            },
            None => false,
        }
    }
}

impl Default for Record {
    fn default() -> (record: Record)
        ensures
            record.is_blank(),
    {
        Record::blank()
    }
}

} // verus!
