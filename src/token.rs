use vstd::prelude::*;

use crate::ids::{AccountId, TokenId};
use crate::transaction::{Query, Transaction};

verus! {

/// The operation of a [`TokenWipeTransaction`]: remove an amount of a fungible token,
/// or some serial numbers of a non-fungible one, from an account.
#[derive(Clone, Debug, Default)]
pub struct TokenWipeTransactionData {
    /// The account to be wiped.
    pub account_id: Option<AccountId>,
    /// The token for which the account will be wiped.
    pub token_id: Option<TokenId>,
    /// The amount of a fungible token to wipe, in its lowest denomination.
    pub amount: Option<u64>,
    /// The serial numbers of a non-fungible token to wipe.
    pub serials: Vec<u64>,
}

/// Wipes tokens from an account; must be signed by the token's wipe key.
pub type TokenWipeTransaction = Transaction<TokenWipeTransactionData>;

impl TokenWipeTransactionData {
    /// The operation with nothing set.
    pub fn new() -> (r: TokenWipeTransactionData)
        ensures
            r.account_id.is_none(),
            r.token_id.is_none(),
            r.amount.is_none(),
            r.serials@.len() == 0,
    {
        TokenWipeTransactionData { account_id: None, token_id: None, amount: None, serials: Vec::new() }
    }

    /// The amount as the wire message carries it: zero when unset.
    pub fn wire_amount(&self) -> (r: u64)
        ensures
            r == match self.amount { Some(a) => a, None => 0 },
    {
        match self.amount {
            Some(a) => a,
            None => 0,
        }
    }

    /// The serial numbers as the wire message carries them: signed 64-bit integers.
    pub fn wire_serial_numbers(&self) -> (r: Vec<i64>)
        ensures
            r@.len() == self.serials@.len(),
            forall|k: int| 0 <= k < r@.len() ==> #[trigger] r@[k] == self.serials@[k] as i64,
    {
        let mut r: Vec<i64> = Vec::new();
        let mut k: usize = 0;
        while k < self.serials.len()
            invariant
                k <= self.serials@.len(),
                r@.len() == k,
                forall|j: int| 0 <= j < k ==> #[trigger] r@[j] == self.serials@[j] as i64,
            decreases self.serials@.len() - k,
        {
            r.push(self.serials[k] as i64);
            k += 1;
        }
        r
    }

    /// The operation read back from its wire fields.
    pub fn from_wire(
        account_id: Option<AccountId>,
        token_id: Option<TokenId>,
        amount: u64,
        serial_numbers: &Vec<i64>,
    ) -> (r: TokenWipeTransactionData)
        ensures
            r.account_id == account_id,
            r.token_id == token_id,
            r.amount == Some(amount),
            r.serials@.len() == serial_numbers@.len(),
            forall|k: int| 0 <= k < r.serials@.len() ==> #[trigger] r.serials@[k] == serial_numbers@[k] as u64,
    {
        let mut serials: Vec<u64> = Vec::new();
        let mut k: usize = 0;
        while k < serial_numbers.len()
            invariant
                k <= serial_numbers@.len(),
                serials@.len() == k,
                forall|j: int| 0 <= j < k ==> #[trigger] serials@[j] == serial_numbers@[j] as u64,
            decreases serial_numbers@.len() - k,
        {
            serials.push(serial_numbers[k] as u64);
            k += 1;
        }
        TokenWipeTransactionData { account_id, token_id, amount: Some(amount), serials }
    }
}

impl TokenWipeTransaction {
    /// Returns the account to be wiped.
    pub fn get_account_id(&self) -> (r: Option<AccountId>)
        ensures
            r == self.body.data.account_id,
    {
        self.body.data.account_id
    }

    /// Sets the account to be wiped.
    pub fn account_id(&mut self, account_id: AccountId) -> (r: &mut Self)
        ensures
            r.body.data == (TokenWipeTransactionData { account_id: Some(account_id), ..old(self).body.data }),
            r.body.transaction_id == old(self).body.transaction_id,
            r.body.node_account_ids == old(self).body.node_account_ids,
            *final(self) == *final(r),
    {
        self.body.data.account_id = Some(account_id);
        self
    }

    /// Returns the token for which the account will be wiped.
    pub fn get_token_id(&self) -> (r: Option<TokenId>)
        ensures
            r == self.body.data.token_id,
    {
        self.body.data.token_id
    }

    /// Sets the token for which the account will be wiped.
    pub fn token_id(&mut self, token_id: TokenId) -> (r: &mut Self)
        ensures
            r.body.data == (TokenWipeTransactionData { token_id: Some(token_id), ..old(self).body.data }),
            r.body.transaction_id == old(self).body.transaction_id,
            r.body.node_account_ids == old(self).body.node_account_ids,
            *final(self) == *final(r),
    {
        self.body.data.token_id = Some(token_id);
        self
    }

    /// Returns the amount of a fungible token to wipe.
    pub fn get_amount(&self) -> (r: Option<u64>)
        ensures
            r == self.body.data.amount,
    {
        self.body.data.amount
    }

    /// Sets the amount of a fungible token to wipe.
    pub fn amount(&mut self, amount: u64) -> (r: &mut Self)
        ensures
            r.body.data == (TokenWipeTransactionData { amount: Some(amount), ..old(self).body.data }),
            r.body.transaction_id == old(self).body.transaction_id,
            r.body.node_account_ids == old(self).body.node_account_ids,
            *final(self) == *final(r),
    {
        self.body.data.amount = Some(amount);
        self
    }

    /// Returns the serial numbers of a non-fungible token to wipe.
    pub fn get_serials(&self) -> (r: &[u64])
        ensures
            r@ == self.body.data.serials@,
    {
        self.body.data.serials.as_slice()
    }

    /// Sets the serial numbers of a non-fungible token to wipe.
    pub fn serials(&mut self, serials: Vec<u64>) -> (r: &mut Self)
        ensures
            r.body.data == (TokenWipeTransactionData { serials, ..old(self).body.data }),
            r.body.transaction_id == old(self).body.transaction_id,
            r.body.node_account_ids == old(self).body.node_account_ids,
            *final(self) == *final(r),
    {
        self.body.data.serials = serials;
        self
    }
}

/// The operation of a [`TokenGrantKycTransaction`]: mark an account as KYC-granted for a token.
#[derive(Clone, Copy, Debug, Default, PartialEq, Eq, Structural)]
pub struct TokenGrantKycTransactionData {
    /// The account to be KYCed.
    pub account_id: Option<AccountId>,
    /// The token for which this account will be granted KYC.
    pub token_id: Option<TokenId>,
}

/// Grants KYC to an account for a token; must be signed by the token's KYC key.
pub type TokenGrantKycTransaction = Transaction<TokenGrantKycTransactionData>;

impl TokenGrantKycTransactionData {
    pub fn new() -> (r: TokenGrantKycTransactionData)
        ensures
            r.account_id.is_none(),
            r.token_id.is_none(),
    {
        TokenGrantKycTransactionData { account_id: None, token_id: None }
    }
}

impl TokenGrantKycTransaction {
    /// Sets the account to be KYCed.
    pub fn account_id(&mut self, account_id: AccountId) -> (r: &mut Self)
        ensures
            r.body == (crate::transaction::TransactionBody {
                data: TokenGrantKycTransactionData { account_id: Some(account_id), ..old(self).body.data },
                ..old(self).body
            }),
            *final(self) == *final(r),
    {
        self.body.data.account_id = Some(account_id);
        self
    }

    /// Sets the token for which this account will be granted KYC.
    pub fn token_id(&mut self, token_id: TokenId) -> (r: &mut Self)
        ensures
            r.body == (crate::transaction::TransactionBody {
                data: TokenGrantKycTransactionData { token_id: Some(token_id), ..old(self).body.data },
                ..old(self).body
            }),
            *final(self) == *final(r),
    {
        self.body.data.token_id = Some(token_id);
        self
    }
}

/// The data of a [`TokenInfoQuery`]: the token asked about.
#[derive(Clone, Copy, Debug, Default, PartialEq, Eq, Structural)]
pub struct TokenInfoQueryData {
    pub token_id: Option<TokenId>,
}

/// Gets information about a token.
pub type TokenInfoQuery = Query<TokenInfoQueryData>;

impl TokenInfoQueryData {
    pub fn new() -> (r: TokenInfoQueryData)
        ensures
            r.token_id.is_none(),
    {
        TokenInfoQueryData { token_id: None }
    }
}

impl TokenInfoQuery {
    /// Returns the token for which information is requested.
    pub fn get_token_id(&self) -> (r: Option<TokenId>)
        ensures
            r == self.data.token_id,
    {
        self.data.token_id
    }

    /// Sets the token for which information is requested.
    pub fn token_id(&mut self, id: TokenId) -> (r: &mut Self)
        ensures
            *r == (Query { data: TokenInfoQueryData { token_id: Some(id) }, ..*old(self) }),
            *final(self) == *final(r),
    {
        self.data.token_id = Some(id);
        self
    }
}

} // verus!
