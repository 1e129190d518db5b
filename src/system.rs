use vstd::prelude::*;

use crate::ids::{ContractId, FileId, Timestamp};
use crate::transaction::{Transaction, TransactionBody};

verus! {

/// The operation of a [`SystemDeleteTransaction`]: a file or a contract to delete, and
/// when it is to be deleted for good.
#[derive(Clone, Copy, Debug, Default, PartialEq, Eq, Structural)]
pub struct SystemDeleteTransactionData {
    pub expiration_time: Option<Timestamp>,
    pub file_id: Option<FileId>,
    pub contract_id: Option<ContractId>,
}

/// Deletes a file or a smart contract; only an administrator may.
pub type SystemDeleteTransaction = Transaction<SystemDeleteTransactionData>;

/// What a system delete is aimed at, as the wire message carries it.
#[derive(Clone, Copy, Debug, PartialEq, Eq, Structural)]
pub enum SystemDeleteTarget {
    Contract(ContractId),
    File(FileId),
}

impl SystemDeleteTransactionData {
    pub fn new() -> (r: SystemDeleteTransactionData)
        ensures
            r.expiration_time.is_none() && r.file_id.is_none() && r.contract_id.is_none(),
    {
        SystemDeleteTransactionData { expiration_time: None, file_id: None, contract_id: None }
    }

    /// The entity to delete: the contract when one is set, else the file, else none.
    pub fn target(&self) -> (r: Option<SystemDeleteTarget>)
        ensures
            r == match (self.contract_id, self.file_id) {
                (Some(c), _) => Some(SystemDeleteTarget::Contract(c)),
                (None, Some(f)) => Some(SystemDeleteTarget::File(f)),
                (None, None) => None,
            },
    {
        match (self.contract_id, self.file_id) {
            (Some(c), _) => Some(SystemDeleteTarget::Contract(c)),
            (None, Some(f)) => Some(SystemDeleteTarget::File(f)),
            (None, None) => None,
        }
    }

    /// Whether the request goes to the file service (else to the smart-contract service).
    pub fn uses_file_service(&self) -> (r: bool)
        ensures
            r == self.file_id.is_some(),
    {
        self.file_id.is_some()
    }
}

impl SystemDeleteTransaction {
    /// Aims the deletion at a contract, and at no file.
    pub fn contract_id(&mut self, id: ContractId) -> (r: &mut Self)
        ensures
            r.body == (TransactionBody {
                data: SystemDeleteTransactionData { file_id: None, contract_id: Some(id), ..old(self).body.data },
                ..old(self).body
            }),
            *final(self) == *final(r),
    {
        self.body.data.file_id = None;
        self.body.data.contract_id = Some(id);
        self
    }

    /// Aims the deletion at a file, and at no contract.
    pub fn file_id(&mut self, id: FileId) -> (r: &mut Self)
        ensures
            r.body == (TransactionBody {
                data: SystemDeleteTransactionData { file_id: Some(id), contract_id: None, ..old(self).body.data },
                ..old(self).body
            }),
            *final(self) == *final(r),
    {
        self.body.data.contract_id = None;
        self.body.data.file_id = Some(id);
        self
    }

    /// Sets when the deleted entity is to be removed for good.
    pub fn expiration_time(&mut self, expiration_time: Timestamp) -> (r: &mut Self)
        ensures
            r.body == (TransactionBody {
                data: SystemDeleteTransactionData { expiration_time: Some(expiration_time), ..old(self).body.data },
                ..old(self).body
            }),
            *final(self) == *final(r),
    {
        self.body.data.expiration_time = Some(expiration_time);
        self
    }
}

} // verus!
