//! Account records.
//!
//! One record per registered principal. The human-readable username is not
//! required to be unique on its own: uniqueness is enforced on the derived
//! identity digest, which mixes in the ledger identifier.

use vstd::prelude::*;

use crate::context::CallContext;
use crate::errors::WalletError;
use crate::hashing::bytes_eq;
use crate::hashing::clone_bytes;

verus! {

/// The mathematical content of an [`Account`]: the views of its fields.
pub ghost struct AccountModel {
    pub username: Seq<char>,
    pub account_id: Seq<char>,
    pub credential: Seq<u8>,
}

/// One registered principal.
#[derive(Debug)]
pub struct Account {
    /// Human-readable label chosen at creation time.
    pub username: String,
    /// The ledger-level identifier this record is bound to.
    pub account_id: String,
    /// Raw public-key bytes of the principal that created the record,
    /// captured at creation time and authoritative for self-authorization.
    pub credential: Vec<u8>,
}

impl View for Account {
    type V = AccountModel;

    open spec fn view(&self) -> AccountModel {
        AccountModel {
            username: self.username@,
            account_id: self.account_id@,
            credential: self.credential@,
        }
    }
}

impl Account {
    /// Assemble a record from its fields.
    pub fn new(username: String, account_id: String, credential: Vec<u8>) -> (r: Account)
        ensures
            r@ == (AccountModel { username: username@, account_id: account_id@, credential: credential@ }),
    {
        Account { username, account_id, credential }
    }

    /// A fresh record with the same content.
    pub fn duplicate(&self) -> (r: Account)
        ensures
            r@ == self@,
    {
        Account {
            username: self.username.clone(),
            account_id: self.account_id.clone(),
            credential: clone_bytes(&self.credential),
        }
    }

    /// Self-authorization: succeeds exactly when the presented credential
    /// is the credential stored in this record, proving the caller is the
    /// same cryptographic principal that created the account.
    pub fn require_self(&self, ctx: &CallContext) -> (r: Result<(), WalletError>)
        ensures
            r is Ok <==> ctx.signer_credential@ == self.credential@,
            r is Err ==> r == Err::<(), WalletError>(WalletError::Authorization),
    {
        if bytes_eq(&ctx.signer_credential, &self.credential) {
            Ok(())
        } else {
            Err(WalletError::Authorization)
        }
    }
}

} // verus!
