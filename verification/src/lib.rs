//! An on-ledger identity and access-control layer.
//!
//! The library maps cryptographic credentials to account records, enforces
//! role-based authorization (owner / manager / self), and prepares
//! gas-budgeted remote invocations against an external token-ledger service.
//! The ambient call environment (who signed the current call, which contract
//! is running) is threaded explicitly as a [`context::CallContext`], and every
//! remote invocation is returned to the caller as an explicit
//! [`intent::RemoteIntent`] value rather than dispatched invisibly: the host
//! runtime's cross-contract calls are asynchronous and unconfirmed, so an
//! intent records exactly what was requested and nothing more.

pub mod account;
pub mod context;
pub mod errors;
pub mod hashing;
pub mod intent;
pub mod lifecycle;
pub mod registry;
pub mod validation;
pub mod wallet;
