use std::sync::Arc;
use strata_p2p::db::keys::{entry_key, entry_keys, genesis_key, signer_peer_key, EntryKind};
use strata_p2p::db::pk_serde::{deserialize, serialize};
use strata_p2p::db::sled::{delete_all_by_key, set_if_not_exist, storage_error};
use strata_p2p::db::states::{peer_deposit_status, PeerDepositState};
use strata_p2p::db::RepositoryError;
use strata_p2p::p2p::commands::UnpenaltyType;
use strata_p2p::p2p::db::RepositoryError as NodeRepositoryError;
use strata_p2p::p2p::swarm::penalty::{penalty_action, PenaltyAction, PenaltyPeerStorage, PenaltyType};
use strata_p2p::p2p::clock::{secs_or_zero, unix_timestamp};
use strata_p2p::db::sled::{after_existing_read, after_insert, remove_each, ReadOutcome};

#[test]
fn entry_keys_have_the_stored_format() {
    assert_eq!(entry_key(EntryKind::PartialSignatures, "ab01", "ff"), "sigs-ab01_ff");
    assert_eq!(entry_key(EntryKind::PubNonces, "ab01", "ff"), "nonces-ab01_ff");
    assert_eq!(entry_key(EntryKind::DepositSetup, "ab01", "ff"), "setup-ab01_ff");
    assert_eq!(entry_key(EntryKind::StakeChain, "ab01", "ff"), "stake-chain-ab01_ff");
    assert_eq!(signer_peer_key("ab01"), "signers=>peerid-ab01");
    assert_eq!(genesis_key("ab01"), "genesis-ab01");
    let keys = entry_keys(
        EntryKind::PubNonces,
        &vec![("a".to_string(), "1".to_string()), ("b".to_string(), "2".to_string())],
    );
    assert_eq!(keys, vec!["nonces-a_1".to_string(), "nonces-b_2".to_string()]);
}

#[test]
fn entry_keys_of_different_entries_differ() {
    let kinds = [
        EntryKind::PartialSignatures,
        EntryKind::PubNonces,
        EntryKind::DepositSetup,
        EntryKind::StakeChain,
    ];
    let mut all = Vec::new();
    for k in kinds {
        for op in ["ab", "abc"] {
            for id in ["1", "c1"] {
                all.push(entry_key(k, op, id));
            }
        }
    }
    let mut dedup = all.clone();
    dedup.sort();
    dedup.dedup();
    assert_eq!(dedup.len(), all.len());
}

#[test]
fn deposit_status_prefers_the_furthest_state() {
    assert_eq!(peer_deposit_status(true, true, true), PeerDepositState::Sigs);
    assert_eq!(peer_deposit_status(false, true, true), PeerDepositState::Nonces);
    assert_eq!(peer_deposit_status(false, false, true), PeerDepositState::Setup);
    assert_eq!(peer_deposit_status(false, false, false), PeerDepositState::PreSetup);
    assert_eq!(peer_deposit_status(true, false, false), PeerDepositState::Sigs);
}

#[test]
fn repository_error_texts() {
    assert_eq!(
        RepositoryError::Storage("disk".to_string()).to_display_string(),
        "Storage error: disk"
    );
    assert_eq!(
        RepositoryError::InvalidData("json".to_string()).to_display_string(),
        "Invalid data error: json"
    );
    assert_eq!(
        NodeRepositoryError::InvalidData("x".to_string()).to_display_string(),
        "Invalid data: [x]"
    );
    assert_eq!(
        NodeRepositoryError::KeyValueStorage("x".to_string()).to_display_string(),
        "KeyValueStorage"
    );
}

#[test]
fn sled_set_if_not_exist_and_delete() {
    let db = Arc::new(sled::Config::new().temporary(true).open().unwrap());
    assert_eq!(set_if_not_exist(db.clone(), "k1".to_string(), vec![1]).unwrap(), true);
    assert_eq!(set_if_not_exist(db.clone(), "k1".to_string(), vec![2]).unwrap(), false);
    assert_eq!(db.get("k1").unwrap().unwrap().to_vec(), vec![1]);
    assert_eq!(set_if_not_exist(db.clone(), "k2".to_string(), vec![3]).unwrap(), true);
    delete_all_by_key(db.clone(), vec!["k1".to_string(), "k2".to_string(), "k3".to_string()])
        .unwrap();
    assert!(db.get("k1").unwrap().is_none());
    assert!(db.get("k2").unwrap().is_none());
    let e = sled::Error::Unsupported("nope".to_string());
    assert!(matches!(storage_error(&e), RepositoryError::Storage(_)));
}

#[test]
fn secp256k1_keys_roundtrip_through_their_bytes() {
    let kp = libp2p_identity::secp256k1::Keypair::generate();
    let compressed = kp.public().to_bytes().to_vec();
    let key = deserialize(&compressed).unwrap();
    assert_eq!(serialize(&key), compressed);
    let from_uncompressed = deserialize(&kp.public().to_bytes_uncompressed()).unwrap();
    assert_eq!(serialize(&from_uncompressed), compressed);
    let again = deserialize(&serialize(&key)).unwrap();
    assert_eq!(serialize(&again), compressed);
    assert!(deserialize(&[1, 2, 3]).is_err());
}

#[test]
fn unpenalty_types_name_their_protocols() {
    assert!(UnpenaltyType::UnmuteBoth.unmutes_gossipsub());
    assert!(UnpenaltyType::UnmuteBoth.unmutes_request_response());
    assert!(UnpenaltyType::UnmuteGossipsub.unmutes_gossipsub());
    assert!(!UnpenaltyType::UnmuteGossipsub.unmutes_request_response());
    assert!(!UnpenaltyType::Unban.unmutes_gossipsub());
    assert!(!UnpenaltyType::Unban.unmutes_request_response());
}

#[test]
fn storage_steps_decide_each_outcome() {
    assert!(matches!(after_existing_read::<String>(Err("read".to_string())), ReadOutcome::Finished(Err(e)) if e == "read"));
    assert!(matches!(after_existing_read::<String>(Ok(Some(vec![1]))), ReadOutcome::Finished(Ok(false))));
    assert!(matches!(after_existing_read::<String>(Ok(None)), ReadOutcome::InsertNeeded));
    assert_eq!(after_insert::<String>(Ok(())), Ok(true));
    assert_eq!(after_insert::<String>(Err("write".to_string())), Err("write".to_string()));

    let keys = vec!["a".to_string(), "b".to_string(), "c".to_string()];
    let seen = std::cell::RefCell::new(Vec::new());
    let fail_b = |k: &String| {
        seen.borrow_mut().push(k.clone());
        if k == "b" { Err(format!("failed {k}")) } else { Ok(()) }
    };
    assert_eq!(remove_each(&keys, &fail_b), Err("failed b".to_string()));
    assert_eq!(*seen.borrow(), vec!["a".to_string(), "b".to_string()]);
    let all_ok = |_: &String| Ok::<(), String>(());
    assert_eq!(remove_each(&keys, &all_ok), Ok(()));
}

#[test]
fn timestamps_read_the_clock_or_zero() {
    assert_eq!(secs_or_zero(Some(42)), 42);
    assert_eq!(secs_or_zero(None), 0);
    assert!(unix_timestamp() > 1_600_000_000);
}

#[test]
fn penalties_hold_until_their_end_and_can_be_lifted() {
    assert_eq!(
        penalty_action(PenaltyType::MuteBoth(10), 100, 50),
        PenaltyAction { mute_gossip_until: Some(110), mute_req_resp_until: Some(110), ban_until: None, disconnect: false }
    );
    assert_eq!(
        penalty_action(PenaltyType::Ban(None), 100, 50),
        PenaltyAction { mute_gossip_until: None, mute_req_resp_until: None, ban_until: Some(150), disconnect: true }
    );
    assert_eq!(penalty_action(PenaltyType::Ban(Some(5)), 100, 50).ban_until, Some(105));
    assert_eq!(penalty_action(PenaltyType::Ignore, 100, 50).disconnect, false);
    let mut s = PenaltyPeerStorage::new();
    s.apply(&[1], &penalty_action(PenaltyType::MuteGossip(10), 100, 50));
    assert!(s.is_gossip_muted(&[1], 100));
    assert!(s.is_gossip_muted(&[1], 109));
    assert!(!s.is_gossip_muted(&[1], 110));
    assert!(!s.is_req_resp_muted(&[1], 100));
    s.apply(&[2], &penalty_action(PenaltyType::Ban(None), 100, 50));
    assert!(s.is_banned(&[2], 120));
    s.lift(&[2], UnpenaltyType::Unban);
    assert!(!s.is_banned(&[2], 120));
    s.lift(&[1], UnpenaltyType::UnmuteBoth);
    assert!(!s.is_gossip_muted(&[1], 100));
}
