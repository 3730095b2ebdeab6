//! The initialized contract instance and its operations.
//!
//! A [`ContractWallet`] value only exists once an explicit constructor has
//! bound the deploying caller as owner and captured the manager and gateway
//! supplied as arguments: holding one is the evidence of initialization.
//! Every operation first consults the authorization guards, then reads or
//! writes the registry under a derived identity digest, and — only after
//! local success — returns at most one [`RemoteIntent`] for the host shell
//! to dispatch. A failed call leaves the instance exactly as it was.

use vstd::prelude::*;

use crate::account::Account;
use crate::account::AccountModel;
use crate::context::CallContext;
use crate::errors::WalletError;
use crate::hashing::bytes_eq;
use crate::hashing::clone_bytes;
use crate::hashing::compute_identity_digest;
use crate::hashing::identity_digest_of_strings;
use crate::intent::ActionModel;
use crate::intent::IntentModel;
use crate::intent::RemoteAction;
use crate::intent::RemoteIntent;
use crate::intent::SINGLE_CALL_GAS;
use crate::registry::AccountRegistry;
use crate::validation::is_valid_account_id;
use crate::validation::valid_account_id;
use vstd::string::StringExecFns;

verus! {

/// The ledger identifier derived for a provisioned user: the username,
/// namespaced under this contract's own identifier.
pub open spec fn derived_account_id(username: Seq<char>, contract_id: Seq<char>) -> Seq<char> {
    username + "."@ + contract_id
}

/// The registry key under which a provisioned user is stored.
pub open spec fn derived_account_key(username: Seq<char>, contract_id: Seq<char>) -> Seq<u8> {
    identity_digest_of_strings(username, derived_account_id(username, contract_id))
}

/// A successfully provisioned account: the ledger identifier that was
/// derived for it, and the single remote invocation that was requested to
/// create it on the ledger.
#[derive(Debug)]
pub struct CreatedAccount {
    /// The new account's ledger identifier.
    pub account_id: String,
    /// The requested ledger-level creation of that identifier.
    pub intent: RemoteIntent,
}

/// An initialized contract instance.
pub struct ContractWallet {
    /// Ledger identifier of the owner. Descriptive only: authorization
    /// compares credentials, never identifiers.
    pub owner_id: String,
    /// The owner's public-key credential, authoritative for owner-gated
    /// actions.
    pub owner_credential: Vec<u8>,
    /// Ledger identifier of the manager. Descriptive only.
    pub manager_id: String,
    /// The manager's public-key credential, authoritative for
    /// manager-gated actions.
    pub manager_credential: Vec<u8>,
    /// Ledger identifier of the external token-ledger contract that
    /// transfer and query intents are addressed to.
    pub gateway_contract_id: String,
    /// The account registry, keyed by identity digest.
    pub accounts: AccountRegistry,
}

impl ContractWallet {
    /// The instance is well formed when its registry is.
    pub open spec fn wf(&self) -> bool {
        self.accounts.wf()
    }

    /// The caller presents the owner's credential.
    pub open spec fn presents_owner(&self, ctx: &CallContext) -> bool {
        ctx.signer_credential@ == self.owner_credential@
    }

    /// The caller presents the manager's or the owner's credential.
    pub open spec fn presents_manager_or_owner(&self, ctx: &CallContext) -> bool {
        ctx.signer_credential@ == self.manager_credential@ || ctx.signer_credential@
            == self.owner_credential@
    }

    /// Bind a fresh instance: the deploying caller becomes the owner, the
    /// manager and gateway are taken from the arguments, and the registry
    /// starts empty.
    pub fn new(
        ctx: &CallContext,
        manager_id: String,
        manager_credential: Vec<u8>,
        gateway_contract_id: String,
    ) -> (r: ContractWallet)
        ensures
            r.wf(),
            r.owner_id@ == ctx.signer_account_id@,
            r.owner_credential@ == ctx.signer_credential@,
            r.manager_id@ == manager_id@,
            r.manager_credential@ == manager_credential@,
            r.gateway_contract_id@ == gateway_contract_id@,
            r.accounts@ == Map::<Seq<u8>, AccountModel>::empty(),
    {
        ContractWallet {
            owner_id: ctx.signer_account_id.clone(),
            owner_credential: clone_bytes(&ctx.signer_credential),
            manager_id,
            manager_credential,
            gateway_contract_id,
            accounts: AccountRegistry::new(),
        }
    }

    /// Owner guard: succeeds exactly when the presented credential equals
    /// the stored owner credential.
    pub fn only_owner(&self, ctx: &CallContext) -> (r: Result<(), WalletError>)
        ensures
            r is Ok <==> self.presents_owner(ctx),
            r is Err ==> r == Err::<(), WalletError>(WalletError::Authorization),
    {
        if bytes_eq(&ctx.signer_credential, &self.owner_credential) {
            Ok(())
        } else {
            Err(WalletError::Authorization)
        }
    }

    /// Manager guard: succeeds exactly when the presented credential
    /// equals the stored manager or owner credential.
    pub fn only_manager(&self, ctx: &CallContext) -> (r: Result<(), WalletError>)
        ensures
            r is Ok <==> self.presents_manager_or_owner(ctx),
            r is Err ==> r == Err::<(), WalletError>(WalletError::Authorization),
    {
        if bytes_eq(&ctx.signer_credential, &self.manager_credential) || bytes_eq(
            &ctx.signer_credential,
            &self.owner_credential,
        ) {
            Ok(())
        } else {
            Err(WalletError::Authorization)
        }
    }

    /// Hand ownership to a new principal. Owner-gated; the new identifier
    /// must be well formed. On failure nothing changes.
    pub fn transfer_ownership(
        &mut self,
        ctx: &CallContext,
        new_owner_id: String,
        new_owner_credential: Vec<u8>,
    ) -> (r: Result<(), WalletError>)
        requires
            old(self).wf(),
        ensures
            final(self).wf(),
            !old(self).presents_owner(ctx) ==> r == Err::<(), WalletError>(
                WalletError::Authorization,
            ) && *final(self) == *old(self),
            old(self).presents_owner(ctx) && !valid_account_id(new_owner_id@) ==> r == Err::<
                (),
                WalletError,
            >(WalletError::Validation) && *final(self) == *old(self),
            old(self).presents_owner(ctx) && valid_account_id(new_owner_id@) ==> r == Ok::<
                (),
                WalletError,
            >(()) && final(self).owner_id == new_owner_id && final(self).owner_credential
                == new_owner_credential && final(self).manager_id == old(self).manager_id && final(self).manager_credential == old(self).manager_credential && final(self).gateway_contract_id
                == old(self).gateway_contract_id && final(self).accounts == old(self).accounts,
    {
        match self.only_owner(ctx) {
            Err(e) => Err(e),
            Ok(_) => {
                if !is_valid_account_id(new_owner_id.as_str()) {
                    Err(WalletError::Validation)
                } else {
                    self.owner_id = new_owner_id;
                    self.owner_credential = new_owner_credential;
                    Ok(())
                }
            },
        }
    }

    /// Replace the manager. Owner-gated; the new identifier must be well
    /// formed. On failure nothing changes.
    pub fn update_manager(
        &mut self,
        ctx: &CallContext,
        new_manager_id: String,
        new_manager_credential: Vec<u8>,
    ) -> (r: Result<(), WalletError>)
        requires
            old(self).wf(),
        ensures
            final(self).wf(),
            !old(self).presents_owner(ctx) ==> r == Err::<(), WalletError>(
                WalletError::Authorization,
            ) && *final(self) == *old(self),
            old(self).presents_owner(ctx) && !valid_account_id(new_manager_id@) ==> r == Err::<
                (),
                WalletError,
            >(WalletError::Validation) && *final(self) == *old(self),
            old(self).presents_owner(ctx) && valid_account_id(new_manager_id@) ==> r == Ok::<
                (),
                WalletError,
            >(()) && final(self).manager_id == new_manager_id && final(self).manager_credential
                == new_manager_credential && final(self).owner_id == old(self).owner_id && final(self).owner_credential == old(self).owner_credential && final(self).gateway_contract_id
                == old(self).gateway_contract_id && final(self).accounts == old(self).accounts,
    {
        match self.only_owner(ctx) {
            Err(e) => Err(e),
            Ok(_) => {
                if !is_valid_account_id(new_manager_id.as_str()) {
                    Err(WalletError::Validation)
                } else {
                    self.manager_id = new_manager_id;
                    self.manager_credential = new_manager_credential;
                    Ok(())
                }
            },
        }
    }

    /// The registry key for the given identifying fields: the digest of
    /// the username bytes followed by the ledger identifier bytes. The
    /// same composition is used at write time and at lookup time.
    pub fn get_account_hash(username: &String, account_id: &String) -> (r: Vec<u8>)
        ensures
            r@ == identity_digest_of_strings(username@, account_id@),
            r@.len() == 32,
    {
        compute_identity_digest(username.as_str(), account_id.as_str())
    }

    /// Pure lookup of the record registered under `account_hash`, if any.
    pub fn get_account(&self, account_hash: &Vec<u8>) -> (r: Option<&Account>)
        requires
            self.wf(),
        ensures
            match r {
                Some(a) => self.accounts@.contains_key(account_hash@) && a@
                    == self.accounts@[account_hash@],
                None => !self.accounts@.contains_key(account_hash@),
            },
    {
        self.accounts.get(account_hash)
    }

    /// Provision a new account for `username`. Manager-gated. The new
    /// ledger identifier is the username namespaced under this contract;
    /// the record is stored under the derived digest unless that digest is
    /// already taken, in which case the call fails with `Duplicate` and no
    /// remote invocation is requested. Only after the local insert
    /// succeeds is the ledger-level creation of the new identifier
    /// requested.
    pub fn create_account(&mut self, ctx: &CallContext, username: String) -> (r: Result<
        CreatedAccount,
        WalletError,
    >)
        requires
            old(self).wf(),
        ensures
            final(self).wf(),
            !old(self).presents_manager_or_owner(ctx) ==> r == Err::<CreatedAccount, WalletError>(
                WalletError::Authorization,
            ) && *final(self) == *old(self),
            old(self).presents_manager_or_owner(ctx) && old(self).accounts@.contains_key(
                derived_account_key(username@, ctx.current_account_id@),
            ) ==> r == Err::<CreatedAccount, WalletError>(WalletError::Duplicate) && *final(self)
                == *old(self),
            old(self).presents_manager_or_owner(ctx) && !old(self).accounts@.contains_key(
                derived_account_key(username@, ctx.current_account_id@),
            ) ==> (r matches Ok(c) && c.account_id@ == derived_account_id(
                username@,
                ctx.current_account_id@,
            ) && c.intent@ == (IntentModel {
                target: derived_account_id(username@, ctx.current_account_id@),
                action: ActionModel::CreateAccount {
                    account_id: derived_account_id(username@, ctx.current_account_id@),
                },
                gas: SINGLE_CALL_GAS,
            }) && final(self).accounts@ == old(self).accounts@.insert(
                derived_account_key(username@, ctx.current_account_id@),
                AccountModel {
                    username: username@,
                    account_id: derived_account_id(username@, ctx.current_account_id@),
                    credential: ctx.signer_credential@,
                },
            ) && final(self).owner_id == old(self).owner_id && final(self).owner_credential == old(self).owner_credential && final(self).manager_id == old(self).manager_id && final(self).manager_credential == old(self).manager_credential && final(self).gateway_contract_id == old(self).gateway_contract_id),
    {
        match self.only_manager(ctx) {
            Err(e) => Err(e),
            Ok(_) => {
                let mut account_id = username.clone();
                account_id.append(".");
                account_id.append(ctx.current_account_id.as_str());
                let account_hash = Self::get_account_hash(&username, &account_id);
                let record = Account::new(
                    username,
                    account_id.clone(),
                    clone_bytes(&ctx.signer_credential),
                );
                match self.accounts.insert_if_absent(account_hash, record) {
                    Err(e) => Err(e),
                    Ok(_) => {
                        let target = account_id.clone();
                        Ok(
                            CreatedAccount {
                                account_id: account_id.clone(),
                                intent: RemoteIntent {
                                    target,
                                    action: RemoteAction::CreateAccount { account_id },
                                    gas: SINGLE_CALL_GAS,
                                },
                            },
                        )
                    },
                }
            },
        }
    }

    /// Request a token transfer on behalf of the registered account of
    /// `sender_username`. The record must exist (`NotFound` otherwise) and
    /// the presented credential must equal its stored credential
    /// (`Authorization` otherwise); only then is the transfer intent
    /// produced. The instance itself is never modified.
    pub fn transfer(
        &self,
        ctx: &CallContext,
        sender_username: &String,
        recipient: String,
        amount: u128,
    ) -> (r: Result<RemoteIntent, WalletError>)
        requires
            self.wf(),
        ensures
            !self.accounts@.contains_key(derived_account_key(sender_username@, ctx.current_account_id@))
                ==> r == Err::<RemoteIntent, WalletError>(WalletError::NotFound),
            self.accounts@.contains_key(derived_account_key(sender_username@, ctx.current_account_id@))
                && self.accounts@[derived_account_key(sender_username@, ctx.current_account_id@)].credential
                != ctx.signer_credential@ ==> r == Err::<RemoteIntent, WalletError>(
                WalletError::Authorization,
            ),
            self.accounts@.contains_key(derived_account_key(sender_username@, ctx.current_account_id@))
                && self.accounts@[derived_account_key(sender_username@, ctx.current_account_id@)].credential
                == ctx.signer_credential@ ==> (r matches Ok(intent) && intent@ == (IntentModel {
                target: self.gateway_contract_id@,
                action: ActionModel::Transfer { recipient: recipient@, amount },
                gas: SINGLE_CALL_GAS,
            })),
    {
        let mut account_id = sender_username.clone();
        account_id.append(".");
        account_id.append(ctx.current_account_id.as_str());
        let account_hash = Self::get_account_hash(sender_username, &account_id);
        match self.accounts.require_account(&account_hash) {
            Err(e) => Err(e),
            Ok(record) => match record.require_self(ctx) {
                Err(e) => Err(e),
                Ok(_) => Ok(
                    RemoteIntent {
                        target: self.gateway_contract_id.clone(),
                        action: RemoteAction::Transfer { recipient, amount },
                        gas: SINGLE_CALL_GAS,
                    },
                ),
            },
        }
    }

    /// Request the token ledger's balance of `owner_id`. A read-style
    /// remote call: no local authorization beyond being a valid entry
    /// point, and no local effect.
    pub fn get_balance(&self, owner_id: String) -> (r: RemoteIntent)
        ensures
            r@ == (IntentModel {
                target: self.gateway_contract_id@,
                action: ActionModel::QueryBalance { owner_id: owner_id@ },
                gas: SINGLE_CALL_GAS,
            }),
    {
        RemoteIntent {
            target: self.gateway_contract_id.clone(),
            action: RemoteAction::QueryBalance { owner_id },
            gas: SINGLE_CALL_GAS,
        }
    }

    /// Request the token ledger's total supply. A read-style remote call
    /// with no local effect.
    pub fn get_total_supply(&self) -> (r: RemoteIntent)
        ensures
            r@ == (IntentModel {
                target: self.gateway_contract_id@,
                action: ActionModel::QueryTotalSupply { },
                gas: SINGLE_CALL_GAS,
            }),
    {
        RemoteIntent {
            target: self.gateway_contract_id.clone(),
            action: RemoteAction::QueryTotalSupply,
            gas: SINGLE_CALL_GAS,
        }
    }
}

} // verus!
