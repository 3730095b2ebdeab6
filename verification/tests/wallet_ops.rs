use contract_wallet::context::CallContext;
use contract_wallet::errors::WalletError;
use contract_wallet::intent::RemoteAction;
use contract_wallet::intent::SINGLE_CALL_GAS;
use contract_wallet::lifecycle::Wallet;
use contract_wallet::wallet::ContractWallet;

const CONTRACT: &str = "wallet.ledger";
const GATEWAY: &str = "gateway.ledger";

fn ctx(signer: &str, credential: &[u8]) -> CallContext {
    CallContext::new(signer.to_string(), credential.to_vec(), CONTRACT.to_string())
}

fn owner_credential() -> Vec<u8> {
    vec![9, 9, 9, 9]
}

fn manager_credential() -> Vec<u8> {
    vec![1, 2, 3, 4]
}

fn initialized_wallet() -> Wallet {
    let mut w = Wallet::uninitialized();
    let deploy = ctx("deployer.ledger", &owner_credential());
    let r = w.initialize(
        &deploy,
        "m.ledger".to_string(),
        manager_credential(),
        GATEWAY.to_string(),
    );
    assert!(matches!(r, Ok(())));
    w
}

#[test]
fn manager_provisions_account_and_duplicate_is_refused() {
    let mut w = initialized_wallet();
    let manager = ctx("m.ledger", &manager_credential());

    let created = w.create_account(&manager, "alice".to_string()).unwrap();
    assert_eq!(created.account_id, "alice.wallet.ledger");
    assert_eq!(created.intent.target, "alice.wallet.ledger");
    assert_eq!(created.intent.gas, SINGLE_CALL_GAS);
    match &created.intent.action {
        RemoteAction::CreateAccount { account_id } => {
            assert_eq!(account_id, "alice.wallet.ledger")
        },
        other => panic!("unexpected action {:?}", other),
    }

    let digest = ContractWallet::get_account_hash(
        &"alice".to_string(),
        &"alice.wallet.ledger".to_string(),
    );
    let inner = w.instance_ref().unwrap();
    assert_eq!(inner.accounts.len(), 1);
    let record = inner.get_account(&digest).unwrap();
    assert_eq!(record.username, "alice");
    assert_eq!(record.account_id, "alice.wallet.ledger");
    assert_eq!(record.credential, manager_credential());

    let again = w.create_account(&manager, "alice".to_string());
    assert!(matches!(again, Err(WalletError::Duplicate)));
    assert_eq!(w.instance_ref().unwrap().accounts.len(), 1);
}

#[test]
fn owner_may_provision_too_but_strangers_may_not() {
    let mut w = initialized_wallet();
    let owner = ctx("deployer.ledger", &owner_credential());
    assert!(w.create_account(&owner, "bob".to_string()).is_ok());

    let stranger = ctx("mallory.ledger", &[7, 7, 7]);
    let refused = w.create_account(&stranger, "eve".to_string());
    assert!(matches!(refused, Err(WalletError::Authorization)));
    assert_eq!(w.instance_ref().unwrap().accounts.len(), 1);
}

#[test]
fn duplicate_provisioning_requests_no_remote_call() {
    let mut w = initialized_wallet();
    let manager = ctx("m.ledger", &manager_credential());
    assert!(w.create_account(&manager, "alice".to_string()).is_ok());
    match w.create_account(&manager, "alice".to_string()) {
        Err(e) => assert_eq!(e, WalletError::Duplicate),
        Ok(created) => panic!("duplicate accepted with intent {:?}", created.intent),
    }
    assert_eq!(w.instance_ref().unwrap().accounts.len(), 1);
}

#[test]
fn transfer_with_matching_credential_yields_intent() {
    let mut w = initialized_wallet();
    let manager = ctx("m.ledger", &manager_credential());
    w.create_account(&manager, "carol".to_string()).unwrap();

    let intent = w
        .transfer(&manager, &"carol".to_string(), "bob".to_string(), 100)
        .unwrap();
    assert_eq!(intent.target, GATEWAY);
    assert_eq!(intent.gas, SINGLE_CALL_GAS);
    match &intent.action {
        RemoteAction::Transfer { recipient, amount } => {
            assert_eq!(recipient, "bob");
            assert_eq!(*amount, 100);
        },
        other => panic!("unexpected action {:?}", other),
    }
}

#[test]
fn transfer_with_foreign_credential_is_refused() {
    let mut w = initialized_wallet();
    let manager = ctx("m.ledger", &manager_credential());
    w.create_account(&manager, "carol".to_string()).unwrap();

    let intruder = ctx("x.ledger", &[5, 5, 5, 5]);
    let refused = w.transfer(&intruder, &"carol".to_string(), "bob".to_string(), 100);
    assert!(matches!(refused, Err(WalletError::Authorization)));
    assert_eq!(w.instance_ref().unwrap().accounts.len(), 1);
}

#[test]
fn transfer_for_unknown_sender_is_not_found() {
    let w = initialized_wallet();
    let manager = ctx("m.ledger", &manager_credential());
    let refused = w.transfer(&manager, &"nobody".to_string(), "bob".to_string(), 1);
    assert!(matches!(refused, Err(WalletError::NotFound)));
}

#[test]
fn ownership_handover_locks_out_former_owner() {
    let mut w = initialized_wallet();
    let owner = ctx("deployer.ledger", &owner_credential());
    let new_owner_credential = vec![8, 8, 8, 8];

    let r = w.transfer_ownership(&owner, "o2".to_string(), new_owner_credential.clone());
    assert!(matches!(r, Ok(())));
    assert_eq!(w.instance_ref().unwrap().owner_id, "o2");

    let former = w.transfer_ownership(&owner, "o3".to_string(), vec![3, 3]);
    assert!(matches!(former, Err(WalletError::Authorization)));
    assert_eq!(w.instance_ref().unwrap().owner_id, "o2");

    let current = ctx("o2", &new_owner_credential);
    let r2 = w.transfer_ownership(&current, "o4".to_string(), vec![4, 4]);
    assert!(matches!(r2, Ok(())));
    assert_eq!(w.instance_ref().unwrap().owner_id, "o4");
}

#[test]
fn ownership_update_rejects_malformed_identifier() {
    let mut w = initialized_wallet();
    let owner = ctx("deployer.ledger", &owner_credential());
    let r = w.transfer_ownership(&owner, "-bad".to_string(), vec![8, 8]);
    assert!(matches!(r, Err(WalletError::Validation)));
    assert_eq!(w.instance_ref().unwrap().owner_id, "deployer.ledger");

    let r2 = w.transfer_ownership(&owner, "x".to_string(), vec![8, 8]);
    assert!(matches!(r2, Err(WalletError::Validation)));
}

#[test]
fn manager_update_is_owner_gated_and_validated() {
    let mut w = initialized_wallet();
    let manager = ctx("m.ledger", &manager_credential());
    let not_owner = w.update_manager(&manager, "m2.ledger".to_string(), vec![2, 2]);
    assert!(matches!(not_owner, Err(WalletError::Authorization)));

    let owner = ctx("deployer.ledger", &owner_credential());
    let bad_id = w.update_manager(&owner, "a..b".to_string(), vec![2, 2]);
    assert!(matches!(bad_id, Err(WalletError::Validation)));

    let new_manager_credential = vec![2, 2, 2, 2];
    let r = w.update_manager(&owner, "m2.ledger".to_string(), new_manager_credential.clone());
    assert!(matches!(r, Ok(())));
    assert_eq!(w.instance_ref().unwrap().manager_id, "m2.ledger");

    let old_manager = w.create_account(&manager, "dora".to_string());
    assert!(matches!(old_manager, Err(WalletError::Authorization)));
    let new_manager = ctx("m2.ledger", &new_manager_credential);
    assert!(w.create_account(&new_manager, "dora".to_string()).is_ok());
}

#[test]
fn balance_and_supply_queries_target_the_gateway() {
    let w = initialized_wallet();
    let balance = w.get_balance("alice.wallet.ledger".to_string()).unwrap();
    assert_eq!(balance.target, GATEWAY);
    assert_eq!(balance.gas, SINGLE_CALL_GAS);
    match &balance.action {
        RemoteAction::QueryBalance { owner_id } => assert_eq!(owner_id, "alice.wallet.ledger"),
        other => panic!("unexpected action {:?}", other),
    }

    let supply = w.get_total_supply().unwrap();
    assert_eq!(supply.target, GATEWAY);
    assert_eq!(supply.gas, SINGLE_CALL_GAS);
    assert!(matches!(supply.action, RemoteAction::QueryTotalSupply));
}

#[test]
fn usernames_may_repeat_under_different_contracts_only() {
    let mut w = initialized_wallet();
    let manager = ctx("m.ledger", &manager_credential());
    w.create_account(&manager, "alice".to_string()).unwrap();

    let elsewhere = CallContext::new(
        "m.ledger".to_string(),
        manager_credential(),
        "other.ledger".to_string(),
    );
    let r = w.create_account(&elsewhere, "alice".to_string());
    assert!(r.is_ok());
    assert_eq!(r.unwrap().account_id, "alice.other.ledger");
    assert_eq!(w.instance_ref().unwrap().accounts.len(), 2);
}
