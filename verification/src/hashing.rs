//! Deterministic identity digests.
//!
//! An account record is keyed by a fixed-length digest of its identifying
//! fields. The digest must be deterministic across calls and redeployments
//! and collision-resistant, so a 256-bit Keccak hash is used. The
//! concatenation order of the fields — username bytes, then ledger
//! identifier bytes — is part of the contract: write-time and lookup-time
//! digests must be computed the same way.

use vstd::prelude::*;
use vstd::string::StrSliceExecFns;
use vstd::string::StringSliceAdditionalSpecFns;
use vstd::utf8::encode_utf8;
use tiny_keccak::Hasher;
use tiny_keccak::Keccak;

verus! {

/// The 256-bit Keccak digest of a byte sequence, as computed by the
/// `tiny_keccak` crate. Left uninterpreted: the contracts only rely on it
/// being a fixed function of the input bytes.
pub uninterp spec fn keccak256_of(input: Seq<u8>) -> Seq<u8>;

/// Relies on `tiny_keccak::Keccak::v256` (one `update`, then `finalize`):
/// the 256-bit Keccak digest of exactly the input bytes, a function of the
/// input alone, 32 bytes long.
#[verifier::external_body]
fn keccak256(input: &[u8]) -> (r: Vec<u8>)
    ensures
        r@ == keccak256_of(input@),
        r@.len() == 32,
{
    let mut hasher = Keccak::v256();
    hasher.update(input);
    let mut out = [0u8; 32];
    hasher.finalize(&mut out);
    out.to_vec()
}

/// Copy a byte string.
pub fn clone_bytes(v: &Vec<u8>) -> (r: Vec<u8>)
    ensures
        r@ == v@,
{
    let n = v.len();
    let mut r: Vec<u8> = Vec::new();
    let mut i: usize = 0;
    while i < n
        invariant
            n == v@.len(),
            i <= n,
            r@ == v@.subrange(0, i as int),
        decreases n - i,
    {
        r.push(v[i]);
        proof {
            assert(r@ =~= v@.subrange(0, i + 1));
        }
        i += 1;
    }
    proof {
        assert(r@ =~= v@);
    }
    r
}

/// Compare two byte strings for equality of contents. Used for digest
/// lookups and for credential comparison.
pub fn bytes_eq(a: &Vec<u8>, b: &Vec<u8>) -> (r: bool)
    ensures
        r == (a@ == b@),
{
    if a.len() != b.len() {
        return false;
    }
    let n = a.len();
    let mut i: usize = 0;
    while i < n
        invariant
            n == a@.len() == b@.len(),
            i <= n,
            forall|j: int| 0 <= j < i ==> a@[j] == b@[j],
        decreases n - i,
    {
        if a[i] != b[i] {
            return false;
        }
        i += 1;
    }
    proof {
        assert(a@ =~= b@);
    }
    true
}

/// The registry key derived from an account's identifying fields: the
/// Keccak digest of the username bytes followed by the ledger identifier
/// bytes.
pub open spec fn identity_digest(username_bytes: Seq<u8>, account_id_bytes: Seq<u8>) -> Seq<u8> {
    keccak256_of(username_bytes + account_id_bytes)
}

/// [`identity_digest`], stated over the character views of the two fields:
/// the fields enter the hash as their UTF-8 encodings.
pub open spec fn identity_digest_of_strings(username: Seq<char>, account_id: Seq<char>) -> Seq<
    u8,
> {
    identity_digest(encode_utf8(username), encode_utf8(account_id))
}

/// Law: the identity digest is deterministic. Equal identifying fields
/// give equal digests, on every call and across redeployments: the digest
/// is a fixed function of the two fields and of nothing else. (That
/// differing fields give differing digests is collision resistance, an
/// empirical property of the hash, and is exercised by tests, not proved.)
pub proof fn lemma_digest_deterministic(
    username_a: Seq<char>,
    account_id_a: Seq<char>,
    username_b: Seq<char>,
    account_id_b: Seq<char>,
)
    requires
        username_a == username_b,
        account_id_a == account_id_b,
    ensures
        identity_digest_of_strings(username_a, account_id_a) == identity_digest_of_strings(
            username_b,
            account_id_b,
        ),
{
}

/// Compute the registry key for the given identifying fields.
pub fn compute_identity_digest(username: &str, account_id: &str) -> (r: Vec<u8>)
    ensures
        r@ == identity_digest(username.spec_bytes(), account_id.spec_bytes()),
        r@.len() == 32,
{
    let mut bytes = username.as_bytes_vec();
    let mut tail = account_id.as_bytes_vec();
    bytes.append(&mut tail);
    keccak256(bytes.as_slice())
}

} // verus!
