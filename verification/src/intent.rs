//! Outbound remote invocations, as explicit values.
//!
//! The host ledger's cross-contract calls are asynchronous and
//! fire-and-forget: within the call that requests one, nothing of its
//! outcome can be observed, and it cannot be withdrawn. The library
//! therefore never dispatches anything itself. An entry point that wants a
//! remote effect returns a [`RemoteIntent`] describing exactly the one
//! invocation it is entitled to request; the host-facing shell performs the
//! dispatch. An entry point that fails returns no intent at all, so "no
//! remote call on failure" holds by construction.

use vstd::prelude::*;

verus! {

/// Prepaid computation budget attached to every dispatched remote call.
pub const SINGLE_CALL_GAS: u64 = 1_000_000_000_000_000_000;

/// The mathematical content of a [`RemoteAction`].
pub ghost enum ActionModel {
    CreateAccount { account_id: Seq<char> },
    Transfer { recipient: Seq<char>, amount: u128 },
    QueryBalance { owner_id: Seq<char> },
    QueryTotalSupply { },
}

/// The mathematical content of a [`RemoteIntent`].
pub ghost struct IntentModel {
    pub target: Seq<char>,
    pub action: ActionModel,
    pub gas: u64,
}

/// What a remote call asks the target contract to do.
#[derive(Debug)]
pub enum RemoteAction {
    /// Create a ledger-level account under the given identifier.
    CreateAccount { account_id: String },
    /// Move `amount` tokens to `recipient` on the token ledger.
    Transfer { recipient: String, amount: u128 },
    /// Ask the token ledger for the balance of `owner_id`.
    QueryBalance { owner_id: String },
    /// Ask the token ledger for its total supply.
    QueryTotalSupply,
}

impl View for RemoteAction {
    type V = ActionModel;

    open spec fn view(&self) -> ActionModel {
        match self {
            RemoteAction::CreateAccount { account_id } => ActionModel::CreateAccount {
                account_id: account_id@,
            },
            RemoteAction::Transfer { recipient, amount } => ActionModel::Transfer {
                recipient: recipient@,
                amount: *amount,
            },
            RemoteAction::QueryBalance { owner_id } => ActionModel::QueryBalance {
                owner_id: owner_id@,
            },
            RemoteAction::QueryTotalSupply => ActionModel::QueryTotalSupply { },
        }
    }
}

/// One requested remote invocation: which contract to call, what to ask of
/// it, and the prepaid budget the request carries.
#[derive(Debug)]
pub struct RemoteIntent {
    /// Ledger identifier of the contract to invoke.
    pub target: String,
    /// The requested operation.
    pub action: RemoteAction,
    /// Prepaid computation budget for the call.
    pub gas: u64,
}

impl View for RemoteIntent {
    type V = IntentModel;

    open spec fn view(&self) -> IntentModel {
        IntentModel { target: self.target@, action: self.action@, gas: self.gas }
    }
}

} // verus!
