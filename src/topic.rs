use vstd::prelude::*;

use crate::ids::TopicId;
use crate::transaction::{Transaction, TransactionBody};

verus! {

/// The operation of a [`TopicDeleteTransaction`]: the topic to delete.
#[derive(Clone, Copy, Debug, Default, PartialEq, Eq, Structural)]
pub struct TopicDeleteTransactionData {
    /// The topic which is being deleted.
    pub topic_id: Option<TopicId>,
}

/// Deletes a topic; no more transactions or queries on it will succeed.
pub type TopicDeleteTransaction = Transaction<TopicDeleteTransactionData>;

impl TopicDeleteTransactionData {
    pub fn new() -> (r: TopicDeleteTransactionData)
        ensures
            r.topic_id.is_none(),
    {
        TopicDeleteTransactionData { topic_id: None }
    }
}

impl TopicDeleteTransaction {
    /// Sets the topic which is being deleted.
    pub fn topic_id(&mut self, id: TopicId) -> (r: &mut Self)
        ensures
            r.body == (TransactionBody { data: TopicDeleteTransactionData { topic_id: Some(id) }, ..old(self).body }),
            *final(self) == *final(r),
    {
        self.body.data.topic_id = Some(id);
        self
    }
}

} // verus!
