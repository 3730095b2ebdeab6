//! The ambient call environment, made explicit.
//!
//! The host ledger runtime supplies, for every call into the contract, the
//! identity and public key of the signing principal and the identifier of
//! the contract instance itself. Instead of reading those values from a
//! global environment, every entry point takes them as an explicit
//! [`CallContext`] argument: the authorization guards stay pure and the
//! contracts can speak about the caller directly.

use vstd::prelude::*;

verus! {

/// What the host runtime knows about the current call.
pub struct CallContext {
    /// Ledger identifier of the account that signed the current call.
    pub signer_account_id: String,
    /// Raw public-key bytes of the signing principal. Authoritative for
    /// every authorization decision; the account identifiers are
    /// descriptive only.
    pub signer_credential: Vec<u8>,
    /// Ledger identifier of the contract instance that is executing.
    pub current_account_id: String,
}

impl CallContext {
    /// Bundle the three ambient values into a context.
    pub fn new(signer_account_id: String, signer_credential: Vec<u8>, current_account_id: String) -> (r:
        CallContext)
        ensures
            r.signer_account_id@ == signer_account_id@,
            r.signer_credential@ == signer_credential@,
            r.current_account_id@ == current_account_id@,
    {
        CallContext { signer_account_id, signer_credential, current_account_id }
    }
}

} // verus!
