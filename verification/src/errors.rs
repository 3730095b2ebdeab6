//! Failure taxonomy shared by every entry point.
//!
//! Every failure is fatal to the call that raised it: the caller's state is
//! left exactly as it was before the call began (the mutating entry points
//! promise this in their contracts).

use vstd::prelude::*;

verus! {

/// The reasons an entry point can refuse to act.
#[derive(Debug, Clone, Copy, PartialEq, Eq, Structural)]
pub enum WalletError {
    /// A malformed ledger identifier was supplied to an ownership or
    /// manager update.
    Validation,
    /// The presented credential matches none of the credentials that the
    /// requested action accepts.
    Authorization,
    /// The derived identity digest is already registered, or the instance
    /// is already bound and may not be re-initialized.
    Duplicate,
    /// A required identity digest is absent from the registry.
    NotFound,
    /// An operational method was invoked before the instance was bound to
    /// an owner, a manager and a gateway.
    Uninitialized,
}

impl WalletError {
    /// A human-readable description of the failure.
    pub fn message(&self) -> (r: &'static str)
        ensures
            *self == WalletError::Validation ==> r@ == "supplied account ID is invalid"@,
            *self == WalletError::Authorization ==> r@ == "caller is not authorized to perform this action"@,
            *self == WalletError::Duplicate ==> r@ == "account with given username already exists"@,
            *self == WalletError::NotFound ==> r@ == "no account is registered under the given digest"@,
            *self == WalletError::Uninitialized ==> r@ == "contract wallet must be initialized before use"@,
    {
        match self {
            WalletError::Validation => "supplied account ID is invalid",
            WalletError::Authorization => "caller is not authorized to perform this action",
            WalletError::Duplicate => "account with given username already exists",
            WalletError::NotFound => "no account is registered under the given digest",
            WalletError::Uninitialized => "contract wallet must be initialized before use",
        }
    }
}

} // verus!
