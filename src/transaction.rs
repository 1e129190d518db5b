use vstd::prelude::*;

use crate::client::{Client, Hbar};
use crate::error::Error;
use crate::execute::Execution;
use crate::ids::{AccountId, Timestamp, TransactionId};

verus! {

/// How long a transaction stays valid by default, in seconds.
pub const DEFAULT_TRANSACTION_VALID_DURATION: u64 = 120;

/// The fields every transaction has, around its operation-specific `data`.
#[derive(Clone, Debug)]
pub struct TransactionBody<D> {
    pub data: D,
    pub node_account_ids: Option<Vec<AccountId>>,
    pub transaction_id: Option<TransactionId>,
    pub max_transaction_fee: Option<Hbar>,
    /// Seconds.
    pub transaction_valid_duration: u64,
    pub transaction_memo: String,
}

/// A transaction: a request that changes ledger state, paid for by a payer.
#[derive(Clone, Debug)]
pub struct Transaction<D> {
    pub body: TransactionBody<D>,
}

impl<D> Transaction<D> {
    /// A transaction carrying `data`, with no explicit nodes, id, fee or memo.
    pub fn with_data(data: D) -> (r: Transaction<D>)
        ensures
            r.body.data == data,
            r.body.node_account_ids.is_none(),
            r.body.transaction_id.is_none(),
            r.body.max_transaction_fee.is_none(),
            r.body.transaction_valid_duration == DEFAULT_TRANSACTION_VALID_DURATION,
            r.body.transaction_memo@.len() == 0,
    {
        Transaction {
            body: TransactionBody {
                data,
                node_account_ids: None,
                transaction_id: None,
                max_transaction_fee: None,
                transaction_valid_duration: DEFAULT_TRANSACTION_VALID_DURATION,
                transaction_memo: String::new(),
            },
        }
    }

    pub fn data(&self) -> (r: &D)
        ensures
            *r == self.body.data,
    {
        &self.body.data
    }

    /// Submits this transaction to exactly these nodes, in this order.
    pub fn node_account_ids(&mut self, ids: Vec<AccountId>) -> (r: &mut Self)
        ensures
            r.body.node_account_ids == Some(ids),
            r.body.data == old(self).body.data,
            r.body.transaction_id == old(self).body.transaction_id,
            *final(self) == *final(r),
    {
        self.body.node_account_ids = Some(ids);
        self
    }

    pub fn get_node_account_ids(&self) -> (r: &Option<Vec<AccountId>>)
        ensures
            *r == self.body.node_account_ids,
    {
        &self.body.node_account_ids
    }

    /// Uses this transaction id instead of one generated for the operator.
    pub fn transaction_id(&mut self, id: TransactionId) -> (r: &mut Self)
        ensures
            r.body == (TransactionBody { transaction_id: Some(id), ..old(self).body }),
            *final(self) == *final(r),
    {
        self.body.transaction_id = Some(id);
        self
    }

    pub fn get_transaction_id(&self) -> (r: Option<TransactionId>)
        ensures
            r == self.body.transaction_id,
    {
        self.body.transaction_id
    }

    pub fn max_transaction_fee(&mut self, fee: Hbar) -> (r: &mut Self)
        ensures
            r.body == (TransactionBody { max_transaction_fee: Some(fee), ..old(self).body }),
            *final(self) == *final(r),
    {
        self.body.max_transaction_fee = Some(fee);
        self
    }

    pub fn get_max_transaction_fee(&self) -> (r: Option<Hbar>)
        ensures
            r == self.body.max_transaction_fee,
    {
        self.body.max_transaction_fee
    }

    /// Seconds.
    pub fn transaction_valid_duration(&mut self, seconds: u64) -> (r: &mut Self)
        ensures
            r.body == (TransactionBody { transaction_valid_duration: seconds, ..old(self).body }),
            *final(self) == *final(r),
    {
        self.body.transaction_valid_duration = seconds;
        self
    }

    pub fn transaction_memo(&mut self, memo: String) -> (r: &mut Self)
        ensures
            r.body == (TransactionBody { transaction_memo: memo, ..old(self).body }),
            *final(self) == *final(r),
    {
        self.body.transaction_memo = memo;
        self
    }

    /// A transaction always carries a transaction id.
    pub fn requires_transaction_id() -> (r: bool)
        ensures
            r,
    {
        true
    }

    /// Starts executing this transaction with `client` at `now`.
    pub fn start_execution(&self, client: &Client, now: Timestamp) -> (r: Result<Execution, Error>)
        requires
            now.wf(),
            self.body.transaction_id.is_some() ==> self.body.transaction_id.unwrap().valid_start.wf(),
        ensures
            r.is_err() <==> self.body.transaction_id.is_none() && client.operator.is_none(),
            r.is_ok() ==> {
                let e = r.unwrap();
                &&& e.wf() && e.ready() && e.attempt == 0
                &&& e.max_attempts == client.backoff.max_attempts
                &&& e.regenerate_transaction_ids == client.regenerate_transaction_ids
                &&& e.explicit_nodes.is_some() == self.body.node_account_ids.is_some()
                &&& e.explicit_nodes.is_some() ==> e.explicit_nodes.unwrap()@ == self.body.node_account_ids.unwrap()@
                &&& e.transaction_id == if self.body.transaction_id.is_some() {
                    self.body.transaction_id
                } else {
                    Some(TransactionId { account_id: client.operator.unwrap().account_id, valid_start: now, scheduled: false, nonce: None })
                }
            },
    {
        let nodes = copy_ids(&self.body.node_account_ids);
        client.start_execution(true, self.body.transaction_id, nodes, now)
    }
}

/// A copy of an optional list of account ids.
pub fn copy_ids(ids: &Option<Vec<AccountId>>) -> (r: Option<Vec<AccountId>>)
    ensures
        r.is_some() == ids.is_some(),
        r.is_some() ==> r.unwrap()@ == ids.unwrap()@,
{
    match ids {
        Some(v) => {
            let mut out: Vec<AccountId> = Vec::new();
            let mut k: usize = 0;
            while k < v.len()
                invariant
                    k <= v@.len(),
                    out@ == v@.take(k as int),
                decreases v@.len() - k,
            {
                out.push(v[k]);
                k += 1;
                assert(out@ =~= v@.take(k as int));
            }
            assert(out@ =~= v@);
            Some(out)
        },
        None => None,
    }
}

/// A query: a request that reads ledger state, paid for when `payment_required` is set.
#[derive(Clone, Debug)]
pub struct Query<D> {
    pub data: D,
    pub node_account_ids: Option<Vec<AccountId>>,
    pub payment_transaction_id: Option<TransactionId>,
    pub payment_required: bool,
}

impl<D> Query<D> {
    /// A paid query carrying `data`, with no explicit nodes or payment id.
    pub fn with_data(data: D) -> (r: Query<D>)
        ensures
            r.data == data,
            r.node_account_ids.is_none(),
            r.payment_transaction_id.is_none(),
            r.payment_required,
    {
        Query { data, node_account_ids: None, payment_transaction_id: None, payment_required: true }
    }

    /// Sends this query to exactly these nodes, in this order.
    pub fn node_account_ids(&mut self, ids: Vec<AccountId>) -> (r: &mut Self)
        ensures
            *r == (Query { node_account_ids: Some(ids), ..*old(self) }),
            *final(self) == *final(r),
    {
        self.node_account_ids = Some(ids);
        self
    }

    /// Uses this id for the payment transaction instead of one generated for the operator.
    pub fn payment_transaction_id(&mut self, id: TransactionId) -> (r: &mut Self)
        ensures
            *r == (Query { payment_transaction_id: Some(id), ..*old(self) }),
            *final(self) == *final(r),
    {
        self.payment_transaction_id = Some(id);
        self
    }

    /// A paid query needs the id of its payment transaction; a free one needs none.
    pub fn requires_transaction_id(&self) -> (r: bool)
        ensures
            r == self.payment_required,
    {
        self.payment_required
    }

    /// Starts executing this query with `client` at `now`.
    pub fn start_execution(&self, client: &Client, now: Timestamp) -> (r: Result<Execution, Error>)
        requires
            now.wf(),
            self.payment_transaction_id.is_some() ==> self.payment_transaction_id.unwrap().valid_start.wf(),
        ensures
            r.is_err() <==> self.payment_required && self.payment_transaction_id.is_none() && client.operator.is_none(),
            r.is_ok() ==> {
                let e = r.unwrap();
                &&& e.wf() && e.ready() && e.attempt == 0
                &&& e.explicit_nodes.is_some() == self.node_account_ids.is_some()
                &&& e.explicit_nodes.is_some() ==> e.explicit_nodes.unwrap()@ == self.node_account_ids.unwrap()@
                &&& e.max_attempts == client.backoff.max_attempts
                &&& e.regenerate_transaction_ids == client.regenerate_transaction_ids
                &&& e.transaction_id == if !self.payment_required {
                    None
                } else if self.payment_transaction_id.is_some() {
                    self.payment_transaction_id
                } else {
                    Some(TransactionId { account_id: client.operator.unwrap().account_id, valid_start: now, scheduled: false, nonce: None })
                }
            },
    {
        let nodes = copy_ids(&self.node_account_ids);
        client.start_execution(self.payment_required, self.payment_transaction_id, nodes, now)
    }
}

} // verus!
