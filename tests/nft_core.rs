use rentapp::ledger::{Contract, LeaseCondition, LeaseState};
use rentapp::nft::{TransferError, TransferEvent};
use rentapp::resolve::{revert_requested, should_revert, ReceiverOutcome};
use rentapp::token_id::{lease_id_to_lease_token_id, lease_token_id_to_lease_id};

fn create_lease_condition_default() -> LeaseCondition {
    LeaseCondition::new(
        "test_addr.testnet".to_string(),
        "test_token_id".to_string(),
        "lender.testnet".to_string(),
        LeaseState::Pending,
    )
}

fn copy_condition(c: &LeaseCondition) -> LeaseCondition {
    LeaseCondition::new(c.contract_addr.clone(), c.token_id.clone(), c.lender_id.clone(), c.state)
}

fn event_log(e: &TransferEvent) -> String {
    let ids: Vec<String> = e.token_ids.iter().map(|t| format!("\"{}\"", t)).collect();
    format!(
        "EVENT_JSON:{{\"standard\":\"nep171\",\"version\":\"1.0.0\",\"event\":\"nft_transfer\",\"data\":[{{\"old_owner_id\":\"{}\",\"new_owner_id\":\"{}\",\"token_ids\":[{}]}}]}}",
        e.old_owner_id,
        e.new_owner_id,
        ids.join(",")
    )
}

/// A contract holding one live lease `key` lent by `lender`.
fn contract_with_lease(key: &str, lender: &str) -> Contract {
    let mut contract = Contract::new();
    let mut c = create_lease_condition_default();
    c.lender_id = lender.to_string();
    c.state = LeaseState::Active;
    contract.insert_lease(key.to_string(), c);
    assert!(contract.activate_lease(&key.to_string()));
    contract
}

fn owner_of(contract: &Contract, key: &str) -> String {
    contract.get_lease(&key.to_string()).unwrap().lender_id
}

#[test]
fn test_nft_token_succeeds_non_existing_token_id() {
    let mut contract = Contract::new();
    let mut lease_condition = create_lease_condition_default();
    lease_condition.state = LeaseState::Active;

    let key = "test_key".to_string();
    contract.insert_lease(key.clone(), lease_condition);
    assert!(contract.activate_lease(&key));

    let non_existing_token_id = "dummy_token_id".to_string();
    let a_token = contract.nft_token(non_existing_token_id.clone());

    assert!(a_token.is_none())
}

#[test]
fn test_nft_token_succeeds_existing_token_id() {
    let mut contract = Contract::new();
    let mut lease_condition = create_lease_condition_default();
    lease_condition.state = LeaseState::Active;

    let lease_id = "test_lease_id".to_string();
    contract.insert_lease(lease_id.clone(), copy_condition(&lease_condition));
    assert!(contract.activate_lease(&lease_id));

    let lease_nft_token_id = lease_id_to_lease_token_id(&lease_id);
    let a_token = contract.nft_token(lease_nft_token_id.clone());

    assert!(a_token.is_some());
    assert_eq!(lease_nft_token_id, a_token.as_ref().unwrap().token_id);
    assert_eq!(lease_condition.lender_id.clone(), a_token.as_ref().unwrap().owner_id);
    assert!(a_token.as_ref().unwrap().metadata.is_some());
    assert!(a_token.as_ref().unwrap().metadata.as_ref().unwrap().title.is_some());
    assert!(a_token.as_ref().unwrap().metadata.as_ref().unwrap().description.is_some());
}

#[test]
fn test_event_transfer_log_for_nft_transfer_succeeds() {
    let mut contract = Contract::new();
    let mut lease_condition = create_lease_condition_default();
    lease_condition.lender_id = "alice".to_string();

    let lease_key = "test_key".to_string();
    contract.insert_lease(lease_key.clone(), lease_condition);
    assert!(contract.activate_lease(&lease_key));

    let token_id = lease_id_to_lease_token_id(&lease_key);
    let receipt = contract
        .nft_transfer(&"alice".to_string(), &"bob".to_string(), &token_id, None)
        .unwrap();

    let transfer_log = event_log(&receipt.event);
    let transfer_log_expected = r#"EVENT_JSON:{"standard":"nep171","version":"1.0.0","event":"nft_transfer","data":[{"old_owner_id":"alice","new_owner_id":"bob","token_ids":["test_key_lender"]}]}"#;
    assert_eq!(transfer_log, transfer_log_expected);
}

#[test]
fn token_id_is_lease_id_with_tag() {
    assert_eq!(lease_id_to_lease_token_id(&"k1".to_string()), "k1_lender");
    assert_eq!(lease_token_id_to_lease_id(&"k1_lender".to_string()), Some("k1".to_string()));
    assert_eq!(lease_token_id_to_lease_id(&"_lender".to_string()), Some("".to_string()));
    assert_eq!(lease_token_id_to_lease_id(&"k1".to_string()), None);
    assert_eq!(lease_token_id_to_lease_id(&"k1_lendex".to_string()), None);
}

#[test]
fn token_id_round_trip() {
    for id in ["k1", "", "a_lender", "ключ"] {
        let t = lease_id_to_lease_token_id(&id.to_string());
        assert_eq!(lease_token_id_to_lease_id(&t), Some(id.to_string()));
        assert_eq!(lease_id_to_lease_token_id(&lease_token_id_to_lease_id(&t).unwrap()), t);
    }
}

#[test]
fn token_rendered_only_for_active_lease() {
    let mut contract = Contract::new();
    contract.insert_lease("k1".to_string(), create_lease_condition_default());
    let t = lease_id_to_lease_token_id(&"k1".to_string());
    assert!(contract.nft_token(t.clone()).is_none());
    assert!(contract.activate_lease(&"k1".to_string()));
    assert!(contract.nft_token(t).is_some());
    assert!(!contract.activate_lease(&"k2".to_string()));
    assert!(contract.nft_token(lease_id_to_lease_token_id(&"k2".to_string())).is_none());
}

#[test]
fn token_metadata_text() {
    let contract = contract_with_lease("k1", "alice");
    let token = contract.nft_token("k1_lender".to_string()).unwrap();
    let m = token.metadata.unwrap();
    assert_eq!(m.title.unwrap(), "RentApp Lease Ownership Token: k1");
    assert_eq!(
        m.description.unwrap(),
        "This is a token representing the ownership of the NFT under the RentApp lease: k1\nLeasing NFT's contract: test_addr.testnet\nLeasing NFT's token id: test_token_id\n"
    );
}

#[test]
fn transfer_scenario_alice_to_bob() {
    let mut contract = contract_with_lease("k1", "alice");
    let t = lease_id_to_lease_token_id(&"k1".to_string());
    assert_eq!(contract.nft_token(t.clone()).unwrap().owner_id, "alice");
    let receipt = contract
        .nft_transfer(&"alice".to_string(), &"bob".to_string(), &t, Some("memo".to_string()))
        .unwrap();
    assert_eq!(receipt.previous.lender_id, "alice");
    assert_eq!(contract.nft_token(t.clone()).unwrap().owner_id, "bob");
    assert_eq!(receipt.event.old_owner_id, "alice");
    assert_eq!(receipt.event.new_owner_id, "bob");
    assert_eq!(receipt.event.token_ids, vec![t]);
    assert_eq!(receipt.event.memo, Some("memo".to_string()));
}

#[test]
fn transfer_rejects_unknown_token_and_non_owner() {
    let mut contract = contract_with_lease("k1", "alice");
    let t = lease_id_to_lease_token_id(&"k1".to_string());
    let r = contract.nft_transfer(&"alice".to_string(), &"bob".to_string(), &"k1".to_string(), None);
    assert_eq!(r.unwrap_err(), TransferError::NotFound);
    let r = contract.nft_transfer(&"alice".to_string(), &"bob".to_string(), &"k2_lender".to_string(), None);
    assert_eq!(r.unwrap_err(), TransferError::NotFound);
    let r = contract.nft_transfer(&"carol".to_string(), &"bob".to_string(), &t, None);
    assert_eq!(r.unwrap_err(), TransferError::Unauthorized);
    assert_eq!(owner_of(&contract, "k1"), "alice");
}

#[test]
fn transfer_call_hands_back_receiver_call() {
    let mut contract = contract_with_lease("k1", "alice");
    let t = lease_id_to_lease_token_id(&"k1".to_string());
    let call = contract
        .nft_transfer_call(&"alice".to_string(), &"bob".to_string(), &t, None, "hi".to_string())
        .unwrap();
    assert_eq!(call.sender_id, "alice");
    assert_eq!(call.previous_owner_id, "alice");
    assert_eq!(call.receiver_id, "bob");
    assert_eq!(call.token_id, t);
    assert_eq!(call.msg, "hi");
    assert_eq!(owner_of(&contract, "k1"), "bob");
}

#[test]
fn receiver_payload_decoding() {
    assert!(!should_revert(&ReceiverOutcome::Successful(b"false".to_vec())));
    assert!(!should_revert(&ReceiverOutcome::Successful(b" false ".to_vec())));
    assert!(should_revert(&ReceiverOutcome::Successful(b"true".to_vec())));
    assert!(should_revert(&ReceiverOutcome::Successful(b"nope".to_vec())));
    assert!(should_revert(&ReceiverOutcome::Successful(Vec::new())));
    assert!(should_revert(&ReceiverOutcome::Failed));
    assert!(!revert_requested(Some(false)));
    assert!(revert_requested(Some(true)));
    assert!(revert_requested(None));
}

fn transferred_to_bob() -> (Contract, String) {
    let mut contract = contract_with_lease("k1", "alice");
    let t = lease_id_to_lease_token_id(&"k1".to_string());
    contract
        .nft_transfer_call(&"alice".to_string(), &"bob".to_string(), &t, None, String::new())
        .unwrap();
    (contract, t)
}

#[test]
fn accepted_transfer_stands() {
    let (mut contract, t) = transferred_to_bob();
    let outcome = ReceiverOutcome::Successful(b"false".to_vec());
    let r = contract.nft_resolve_transfer(&"alice".to_string(), &"bob".to_string(), &t, None, &outcome);
    assert!(!r.reverted);
    assert!(r.event.is_none());
    assert_eq!(owner_of(&contract, "k1"), "bob");
}

#[test]
fn failed_or_malformed_receiver_restores_sender() {
    for outcome in [
        ReceiverOutcome::Failed,
        ReceiverOutcome::Successful(b"{\"x\":1}".to_vec()),
        ReceiverOutcome::Successful(b"true".to_vec()),
    ] {
        let (mut contract, t) = transferred_to_bob();
        let r = contract.nft_resolve_transfer(
            &"alice".to_string(),
            &"bob".to_string(),
            &t,
            Some("m".to_string()),
            &outcome,
        );
        assert!(r.reverted);
        assert_eq!(owner_of(&contract, "k1"), "alice");
        let e = r.event.unwrap();
        assert_eq!(e.old_owner_id, "bob");
        assert_eq!(e.new_owner_id, "alice");
        assert_eq!(e.token_ids, vec![t]);
        assert_eq!(e.memo, Some("m".to_string()));
    }
}

#[test]
fn third_party_owner_is_not_reverted() {
    let (mut contract, t) = transferred_to_bob();
    contract
        .nft_transfer(&"bob".to_string(), &"carol".to_string(), &t, None)
        .unwrap();
    let r = contract.nft_resolve_transfer(
        &"alice".to_string(),
        &"bob".to_string(),
        &t,
        None,
        &ReceiverOutcome::Failed,
    );
    assert!(r.reverted);
    assert!(r.event.is_none());
    assert_eq!(owner_of(&contract, "k1"), "carol");
}

#[test]
fn revert_of_vanished_token_writes_nothing() {
    let mut contract = Contract::new();
    let r = contract.apply_resolution(
        true,
        &"alice".to_string(),
        &"bob".to_string(),
        &"k9_lender".to_string(),
        None,
    );
    assert!(r.reverted);
    assert!(r.event.is_none());
}

#[test]
fn insert_lease_replaces_record() {
    let mut contract = contract_with_lease("k1", "alice");
    let mut c = create_lease_condition_default();
    c.lender_id = "dave".to_string();
    contract.insert_lease("k1".to_string(), c);
    assert_eq!(owner_of(&contract, "k1"), "dave");
    assert!(contract.is_active(&"k1".to_string()));
    assert!(contract.get_lease(&"k2".to_string()).is_none());
}
