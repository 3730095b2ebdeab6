//! Lifecycle fencing.
//!
//! A deployed contract is in exactly one of two states: uninitialized —
//! no instance has been bound, and every operational method fails fast
//! with `Uninitialized` — or initialized, holding a [`ContractWallet`].
//! The transition is one-way and happens only through [`Wallet::initialize`];
//! a second initialization is refused rather than silently re-binding the
//! owner and manager. A default, zero-value instance is never usable.

use vstd::prelude::*;

use crate::account::Account;
use crate::account::AccountModel;
use crate::context::CallContext;
use crate::errors::WalletError;
use crate::intent::ActionModel;
use crate::intent::IntentModel;
use crate::intent::RemoteIntent;
use crate::intent::SINGLE_CALL_GAS;
use crate::wallet::derived_account_id;
use crate::wallet::derived_account_key;
use crate::wallet::ContractWallet;
use crate::wallet::CreatedAccount;

verus! {

/// The contract as deployed: possibly not yet initialized.
pub struct Wallet {
    state: Option<ContractWallet>,
}

impl Wallet {
    /// Whether [`Wallet::initialize`] has run.
    pub closed spec fn is_initialized(&self) -> bool {
        self.state is Some
    }

    /// The bound instance (meaningful only when initialized).
    pub closed spec fn instance(&self) -> ContractWallet {
        self.state.unwrap()
    }

    /// Well-formedness: a bound instance is well formed.
    pub open spec fn wf(&self) -> bool {
        self.is_initialized() ==> self.instance().wf()
    }

    /// The contract as freshly deployed: nothing bound, nothing usable.
    pub fn uninitialized() -> (r: Wallet)
        ensures
            !r.is_initialized(),
            r.wf(),
    {
        Wallet { state: None }
    }

    /// Re-wrap an instance reconstructed from persisted state: the result
    /// is initialized and holds exactly `instance`.
    pub fn from_instance(instance: ContractWallet) -> (r: Wallet)
        requires
            instance.wf(),
        ensures
            r.is_initialized(),
            r.instance() == instance,
            r.wf(),
    {
        Wallet { state: Some(instance) }
    }

    /// Read access to the bound instance, if any.
    pub fn instance_ref(&self) -> (r: Option<&ContractWallet>)
        ensures
            match r {
                Some(w) => self.is_initialized() && *w == self.instance(),
                None => !self.is_initialized(),
            },
    {
        match &self.state {
            Some(w) => Some(w),
            None => None,
        }
    }

    /// One-time binding of owner, manager and gateway. The deploying
    /// caller's credential becomes the owner credential. A second call
    /// finds the instance already bound and fails with `Duplicate`,
    /// changing nothing.
    pub fn initialize(
        &mut self,
        ctx: &CallContext,
        manager_id: String,
        manager_credential: Vec<u8>,
        gateway_contract_id: String,
    ) -> (r: Result<(), WalletError>)
        requires
            old(self).wf(),
        ensures
            final(self).wf(),
            old(self).is_initialized() ==> r == Err::<(), WalletError>(WalletError::Duplicate)
                && *final(self) == *old(self),
            !old(self).is_initialized() ==> r == Ok::<(), WalletError>(()) && final(self).is_initialized() && final(self).instance().owner_id@ == ctx.signer_account_id@
                && final(self).instance().owner_credential@ == ctx.signer_credential@ && final(self).instance().manager_id@ == manager_id@ && final(self).instance().manager_credential@
                == manager_credential@ && final(self).instance().gateway_contract_id@
                == gateway_contract_id@ && final(self).instance().accounts@ == Map::<
                Seq<u8>,
                AccountModel,
            >::empty(),
    {
        if self.state.is_some() {
            return Err(WalletError::Duplicate);
        }
        self.state = Some(
            ContractWallet::new(ctx, manager_id, manager_credential, gateway_contract_id),
        );
        Ok(())
    }

    /// Owner-gated ownership handover; `Uninitialized` before
    /// [`Wallet::initialize`]. See [`ContractWallet::transfer_ownership`].
    pub fn transfer_ownership(
        &mut self,
        ctx: &CallContext,
        new_owner_id: String,
        new_owner_credential: Vec<u8>,
    ) -> (r: Result<(), WalletError>)
        requires
            old(self).wf(),
        ensures
            final(self).wf(),
            !old(self).is_initialized() ==> r == Err::<(), WalletError>(WalletError::Uninitialized)
                && *final(self) == *old(self),
            old(self).is_initialized() ==> final(self).is_initialized(),
            old(self).is_initialized() && !old(self).instance().presents_owner(ctx) ==> r == Err::<
                (),
                WalletError,
            >(WalletError::Authorization) && *final(self) == *old(self),
            old(self).is_initialized() && old(self).instance().presents_owner(ctx)
                && !crate::validation::valid_account_id(new_owner_id@) ==> r == Err::<
                (),
                WalletError,
            >(WalletError::Validation) && *final(self) == *old(self),
            old(self).is_initialized() && old(self).instance().presents_owner(ctx)
                && crate::validation::valid_account_id(new_owner_id@) ==> r == Ok::<
                (),
                WalletError,
            >(()) && final(self).instance().owner_id == new_owner_id && final(self).instance().owner_credential == new_owner_credential && final(self).instance().manager_id
                == old(self).instance().manager_id && final(self).instance().manager_credential
                == old(self).instance().manager_credential && final(self).instance().gateway_contract_id == old(self).instance().gateway_contract_id && final(self).instance().accounts == old(self).instance().accounts,
    {
        match self.state.take() {
            None => Err(WalletError::Uninitialized),
            Some(mut w) => {
                let r = w.transfer_ownership(ctx, new_owner_id, new_owner_credential);
                self.state = Some(w);
                r
            },
        }
    }

    /// Owner-gated manager replacement; `Uninitialized` before
    /// [`Wallet::initialize`]. See [`ContractWallet::update_manager`].
    pub fn update_manager(
        &mut self,
        ctx: &CallContext,
        new_manager_id: String,
        new_manager_credential: Vec<u8>,
    ) -> (r: Result<(), WalletError>)
        requires
            old(self).wf(),
        ensures
            final(self).wf(),
            !old(self).is_initialized() ==> r == Err::<(), WalletError>(WalletError::Uninitialized)
                && *final(self) == *old(self),
            old(self).is_initialized() ==> final(self).is_initialized(),
            old(self).is_initialized() && !old(self).instance().presents_owner(ctx) ==> r == Err::<
                (),
                WalletError,
            >(WalletError::Authorization) && *final(self) == *old(self),
            old(self).is_initialized() && old(self).instance().presents_owner(ctx)
                && !crate::validation::valid_account_id(new_manager_id@) ==> r == Err::<
                (),
                WalletError,
            >(WalletError::Validation) && *final(self) == *old(self),
            old(self).is_initialized() && old(self).instance().presents_owner(ctx)
                && crate::validation::valid_account_id(new_manager_id@) ==> r == Ok::<
                (),
                WalletError,
            >(()) && final(self).instance().manager_id == new_manager_id && final(self).instance().manager_credential == new_manager_credential && final(self).instance().owner_id == old(self).instance().owner_id && final(self).instance().owner_credential == old(self).instance().owner_credential && final(self).instance().gateway_contract_id == old(self).instance().gateway_contract_id && final(self).instance().accounts == old(self).instance().accounts,
    {
        match self.state.take() {
            None => Err(WalletError::Uninitialized),
            Some(mut w) => {
                let r = w.update_manager(ctx, new_manager_id, new_manager_credential);
                self.state = Some(w);
                r
            },
        }
    }

    /// Manager-gated provisioning; `Uninitialized` before
    /// [`Wallet::initialize`]. See [`ContractWallet::create_account`].
    pub fn create_account(&mut self, ctx: &CallContext, username: String) -> (r: Result<
        CreatedAccount,
        WalletError,
    >)
        requires
            old(self).wf(),
        ensures
            final(self).wf(),
            !old(self).is_initialized() ==> r == Err::<CreatedAccount, WalletError>(
                WalletError::Uninitialized,
            ) && *final(self) == *old(self),
            old(self).is_initialized() ==> final(self).is_initialized(),
            old(self).is_initialized() && !old(self).instance().presents_manager_or_owner(ctx)
                ==> r == Err::<CreatedAccount, WalletError>(WalletError::Authorization) && *final(self) == *old(self),
            old(self).is_initialized() && old(self).instance().presents_manager_or_owner(ctx)
                && old(self).instance().accounts@.contains_key(
                derived_account_key(username@, ctx.current_account_id@),
            ) ==> r == Err::<CreatedAccount, WalletError>(WalletError::Duplicate) && *final(self)
                == *old(self),
            old(self).is_initialized() && old(self).instance().presents_manager_or_owner(ctx)
                && !old(self).instance().accounts@.contains_key(
                derived_account_key(username@, ctx.current_account_id@),
            ) ==> (r matches Ok(c) && c.account_id@ == derived_account_id(
                username@,
                ctx.current_account_id@,
            ) && c.intent@ == (IntentModel {
                target: derived_account_id(username@, ctx.current_account_id@),
                action: ActionModel::CreateAccount {
                    account_id: derived_account_id(username@, ctx.current_account_id@),
                },
                gas: SINGLE_CALL_GAS,
            }) && final(self).instance().accounts@ == old(self).instance().accounts@.insert(
                derived_account_key(username@, ctx.current_account_id@),
                AccountModel {
                    username: username@,
                    account_id: derived_account_id(username@, ctx.current_account_id@),
                    credential: ctx.signer_credential@,
                },
            ) && final(self).instance().owner_id == old(self).instance().owner_id && final(self).instance().owner_credential == old(self).instance().owner_credential && final(self).instance().manager_id == old(self).instance().manager_id && final(self).instance().manager_credential == old(self).instance().manager_credential && final(self).instance().gateway_contract_id == old(self).instance().gateway_contract_id),
    {
        match self.state.take() {
            None => Err(WalletError::Uninitialized),
            Some(mut w) => {
                let r = w.create_account(ctx, username);
                self.state = Some(w);
                r
            },
        }
    }

    /// Self-gated transfer request; `Uninitialized` before
    /// [`Wallet::initialize`]. See [`ContractWallet::transfer`]. The
    /// instance is never modified.
    pub fn transfer(
        &self,
        ctx: &CallContext,
        sender_username: &String,
        recipient: String,
        amount: u128,
    ) -> (r: Result<RemoteIntent, WalletError>)
        requires
            self.wf(),
        ensures
            !self.is_initialized() ==> r == Err::<RemoteIntent, WalletError>(
                WalletError::Uninitialized,
            ),
            self.is_initialized() && !self.instance().accounts@.contains_key(
                derived_account_key(sender_username@, ctx.current_account_id@),
            ) ==> r == Err::<RemoteIntent, WalletError>(WalletError::NotFound),
            self.is_initialized() && self.instance().accounts@.contains_key(
                derived_account_key(sender_username@, ctx.current_account_id@),
            ) && self.instance().accounts@[derived_account_key(
                sender_username@,
                ctx.current_account_id@,
            )].credential != ctx.signer_credential@ ==> r == Err::<RemoteIntent, WalletError>(
                WalletError::Authorization,
            ),
            self.is_initialized() && self.instance().accounts@.contains_key(
                derived_account_key(sender_username@, ctx.current_account_id@),
            ) && self.instance().accounts@[derived_account_key(
                sender_username@,
                ctx.current_account_id@,
            )].credential == ctx.signer_credential@ ==> (r matches Ok(intent) && intent@
                == (IntentModel {
                target: self.instance().gateway_contract_id@,
                action: ActionModel::Transfer { recipient: recipient@, amount },
                gas: SINGLE_CALL_GAS,
            })),
    {
        match &self.state {
            None => Err(WalletError::Uninitialized),
            Some(w) => w.transfer(ctx, sender_username, recipient, amount),
        }
    }

    /// Read-style balance query; `Uninitialized` before
    /// [`Wallet::initialize`].
    pub fn get_balance(&self, owner_id: String) -> (r: Result<RemoteIntent, WalletError>)
        ensures
            !self.is_initialized() ==> r == Err::<RemoteIntent, WalletError>(
                WalletError::Uninitialized,
            ),
            self.is_initialized() ==> (r matches Ok(intent) && intent@ == (IntentModel {
                target: self.instance().gateway_contract_id@,
                action: ActionModel::QueryBalance { owner_id: owner_id@ },
                gas: SINGLE_CALL_GAS,
            })),
    {
        match &self.state {
            None => Err(WalletError::Uninitialized),
            Some(w) => Ok(w.get_balance(owner_id)),
        }
    }

    /// Read-style total-supply query; `Uninitialized` before
    /// [`Wallet::initialize`].
    pub fn get_total_supply(&self) -> (r: Result<RemoteIntent, WalletError>)
        ensures
            !self.is_initialized() ==> r == Err::<RemoteIntent, WalletError>(
                WalletError::Uninitialized,
            ),
            self.is_initialized() ==> (r matches Ok(intent) && intent@ == (IntentModel {
                target: self.instance().gateway_contract_id@,
                action: ActionModel::QueryTotalSupply { },
                gas: SINGLE_CALL_GAS,
            })),
    {
        match &self.state {
            None => Err(WalletError::Uninitialized),
            Some(w) => Ok(w.get_total_supply()),
        }
    }

    /// Pure lookup of the record registered under `account_hash`;
    /// `Uninitialized` before [`Wallet::initialize`].
    pub fn get_account(&self, account_hash: &Vec<u8>) -> (r: Result<Option<&Account>, WalletError>)
        requires
            self.wf(),
        ensures
            !self.is_initialized() ==> r == Err::<Option<&Account>, WalletError>(
                WalletError::Uninitialized,
            ),
            self.is_initialized() ==> (r matches Ok(a) && (match a {
                Some(a) => self.instance().accounts@.contains_key(account_hash@) && a@
                    == self.instance().accounts@[account_hash@],
                None => !self.instance().accounts@.contains_key(account_hash@),
            })),
    {
        match &self.state {
            None => Err(WalletError::Uninitialized),
            Some(w) => Ok(w.get_account(account_hash)),
        }
    }
}

} // verus!
