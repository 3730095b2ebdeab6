use contract_wallet::errors::WalletError;
use contract_wallet::validation::is_valid_account_id;
use contract_wallet::wallet::ContractWallet;

fn hash(username: &str, account_id: &str) -> Vec<u8> {
    ContractWallet::get_account_hash(&username.to_string(), &account_id.to_string())
}

#[test]
fn digest_is_deterministic() {
    assert_eq!(hash("alice", "alice.wallet.ledger"), hash("alice", "alice.wallet.ledger"));
    assert_eq!(hash("", ""), hash("", ""));
    assert_eq!(hash("bob", "gw"), hash("bob", "gw"));
}

#[test]
fn digest_differs_on_differing_inputs() {
    let base = hash("alice", "alice.wallet.ledger");
    assert_ne!(base, hash("bob", "alice.wallet.ledger"));
    assert_ne!(base, hash("alice", "alice.wallet.ledge"));
    assert_ne!(base, hash("alicf", "alice.wallet.ledger"));
    assert_ne!(base, hash("", ""));
    let mut seen: Vec<Vec<u8>> = Vec::new();
    for i in 0..64u32 {
        let name = format!("user{}", i * i + 7 * i);
        let d = hash(&name, &format!("{}.w", name));
        assert!(!seen.contains(&d));
        seen.push(d);
    }
}

#[test]
fn digest_is_fixed_length() {
    assert_eq!(hash("alice", "alice.wallet.ledger").len(), 32);
    assert_eq!(hash("", "").len(), 32);
    let long = "a".repeat(500);
    assert_eq!(hash(&long, &long).len(), 32);
}

#[test]
fn digest_is_not_the_input() {
    let d = hash("alice", "alice.wallet.ledger");
    assert_ne!(d, b"alicealice.wallet.ledger".to_vec());
    let e = hash("aaaaaaaaaaaaaaaa", "aaaaaaaaaaaaaaaa");
    assert_ne!(e, b"aaaaaaaaaaaaaaaaaaaaaaaaaaaaaaaa".to_vec());
}

#[test]
fn account_id_grammar_accepts_well_formed_ids() {
    assert!(is_valid_account_id("ab"));
    assert!(is_valid_account_id("alice"));
    assert!(is_valid_account_id("alice.near"));
    assert!(is_valid_account_id("a-b_c.d0"));
    assert!(is_valid_account_id("ok"));
    assert!(is_valid_account_id("0x1.y"));
    assert!(is_valid_account_id(&"a".repeat(64)));
}

#[test]
fn account_id_grammar_rejects_malformed_ids() {
    assert!(!is_valid_account_id(""));
    assert!(!is_valid_account_id("a"));
    assert!(!is_valid_account_id(&"a".repeat(65)));
    assert!(!is_valid_account_id("-ab"));
    assert!(!is_valid_account_id("ab-"));
    assert!(!is_valid_account_id("a..b"));
    assert!(!is_valid_account_id("a-_b"));
    assert!(!is_valid_account_id("a._b"));
    assert!(!is_valid_account_id("Alice"));
    assert!(!is_valid_account_id("a b"));
    assert!(!is_valid_account_id("a!b"));
    assert!(!is_valid_account_id(".ab"));
    assert!(!is_valid_account_id("ab."));
}

#[test]
fn error_messages_describe_each_failure() {
    assert_eq!(WalletError::Validation.message(), "supplied account ID is invalid");
    assert_eq!(
        WalletError::Authorization.message(),
        "caller is not authorized to perform this action"
    );
    assert_eq!(WalletError::Duplicate.message(), "account with given username already exists");
    assert_eq!(
        WalletError::NotFound.message(),
        "no account is registered under the given digest"
    );
    assert_eq!(
        WalletError::Uninitialized.message(),
        "contract wallet must be initialized before use"
    );
}
