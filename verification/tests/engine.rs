use chronx::account::{Account, AuthPolicy};
use chronx::constants::{CHRONOS_PER_KX, MIN_RECOVERY_BOND_CHRONOS, MIN_VERIFIER_STAKE_CHRONOS};
use chronx::crypto::{account_id_from_pubkey, tx_id_from_body};
use chronx::engine::StateEngine;
use chronx::errors::ChronxError;
use chronx::pow::mine_pow;
use chronx::sig::KeyPair;
use chronx::store::StateDb;
use chronx::timelock::{TimeLockContract, TimeLockStatus};
use chronx::transaction::{Action, AuthScheme, Transaction};
use chronx::types::{EvidenceHash, TimeLockId, TxId};

const NOW: i64 = 2_000_000;

fn make_tx(kp: &KeyPair, nonce: u64, actions: Vec<Action>) -> Transaction {
    let mut tx = Transaction {
        tx_id: TxId::from_bytes([0u8; 32]),
        parents: vec![],
        timestamp: 1_000_000,
        nonce,
        from: kp.account_id,
        actions,
        pow_nonce: 0,
        signatures: vec![],
        auth_scheme: AuthScheme::SingleSig,
        tx_version: 1,
        fee_chronos: 0,
        expires_at: None,
        sender_public_key: None,
    };
    let body_bytes = tx.body_bytes();
    tx.tx_id = tx_id_from_body(&body_bytes);
    tx.signatures = vec![kp.sign(&body_bytes)];
    tx
}

fn make_tx_with_parents(
    kp: &KeyPair,
    nonce: u64,
    parents: Vec<TxId>,
    actions: Vec<Action>,
) -> Transaction {
    let mut tx = Transaction {
        tx_id: TxId::from_bytes([0u8; 32]),
        parents,
        timestamp: 1_000_000,
        nonce,
        from: kp.account_id,
        actions,
        pow_nonce: 0,
        signatures: vec![],
        auth_scheme: AuthScheme::SingleSig,
        tx_version: 1,
        fee_chronos: 0,
        expires_at: None,
        sender_public_key: None,
    };
    let body_bytes = tx.body_bytes();
    tx.pow_nonce = mine_pow(&body_bytes, 0).unwrap();
    tx.tx_id = tx_id_from_body(&body_bytes);
    tx.signatures = vec![kp.sign(&body_bytes)];
    tx
}

fn seed_account(db: &mut StateDb, kp: &KeyPair, balance: u128) {
    let mut acc = Account::new(
        kp.account_id,
        AuthPolicy::SingleSig { public_key: kp.public_key.clone() },
    );
    acc.balance = balance;
    db.put_account(acc);
}

fn seed_timelock(
    db: &mut StateDb,
    lock_id: TxId,
    sender: &KeyPair,
    recipient: &KeyPair,
    amount: u128,
    unlock_at: i64,
) {
    let contract = TimeLockContract {
        id: lock_id,
        sender: sender.account_id,
        recipient_key: recipient.public_key.clone(),
        recipient_account_id: account_id_from_pubkey(&recipient.public_key.0),
        amount,
        unlock_at,
        created_at: 0,
        status: TimeLockStatus::Pending,
        memo: None,
        lock_version: 0,
        claim_policy: None,
        beneficiary_anchor_commitment: None,
        org_identifier: None,
        cancellation_window_secs: None,
        notify_recipient: true,
        tags: None,
        private: false,
        expiry_policy: None,
        split_policy: None,
        claim_attempts_max: None,
        recurring: None,
        extension_data: None,
    };
    db.put_timelock(contract);
}

fn tlc_action(
    recipient: chronx::types::DilithiumPublicKey,
    amount: u128,
    unlock_at: i64,
    memo: Option<String>,
) -> Action {
    Action::TimeLockCreate {
        recipient,
        amount,
        unlock_at,
        memo,
        cancellation_window_secs: None,
        notify_recipient: None,
        tags: None,
        private: None,
        expiry_policy: None,
        split_policy: None,
        claim_attempts_max: None,
        recurring: None,
        extension_data: None,
    }
}

#[test]
fn transfer_valid() {
    let mut engine = StateEngine::new(StateDb::new(), 0);
    let sender = KeyPair::generate();
    let recipient = KeyPair::generate();
    seed_account(&mut engine.db, &sender, 100 * CHRONOS_PER_KX);

    let tx = make_tx(&sender, 0, vec![Action::Transfer {
        to: recipient.account_id,
        amount: 10 * CHRONOS_PER_KX,
    }]);
    engine.apply(tx, NOW).unwrap();

    let s = engine.db.get_account(&sender.account_id).unwrap();
    assert_eq!(s.balance, 90 * CHRONOS_PER_KX);
    assert_eq!(s.nonce, 1);
    let r = engine.db.get_account(&recipient.account_id).unwrap();
    assert_eq!(r.balance, 10 * CHRONOS_PER_KX);
}

#[test]
fn transfer_self_rejected() {
    let mut engine = StateEngine::new(StateDb::new(), 0);
    let kp = KeyPair::generate();
    seed_account(&mut engine.db, &kp, 100 * CHRONOS_PER_KX);
    let tx = make_tx(&kp, 0, vec![Action::Transfer {
        to: kp.account_id,
        amount: CHRONOS_PER_KX,
    }]);
    assert!(matches!(engine.apply(tx, NOW).unwrap_err(), ChronxError::SelfTransfer));
    let s = engine.db.get_account(&kp.account_id).unwrap();
    assert_eq!(s.balance, 100 * CHRONOS_PER_KX);
    assert_eq!(s.nonce, 0);
}

#[test]
fn transfer_insufficient_balance() {
    let mut engine = StateEngine::new(StateDb::new(), 0);
    let sender = KeyPair::generate();
    let recipient = KeyPair::generate();
    seed_account(&mut engine.db, &sender, 5 * CHRONOS_PER_KX);
    let tx = make_tx(&sender, 0, vec![Action::Transfer {
        to: recipient.account_id,
        amount: 10 * CHRONOS_PER_KX,
    }]);
    assert!(matches!(
        engine.apply(tx, NOW).unwrap_err(),
        ChronxError::InsufficientBalance { .. }
    ));
}

#[test]
fn transfer_bad_nonce() {
    let mut engine = StateEngine::new(StateDb::new(), 0);
    let sender = KeyPair::generate();
    let recipient = KeyPair::generate();
    seed_account(&mut engine.db, &sender, 100 * CHRONOS_PER_KX);
    let tx = make_tx(&sender, 99, vec![Action::Transfer {
        to: recipient.account_id,
        amount: CHRONOS_PER_KX,
    }]);
    assert!(matches!(engine.apply(tx, NOW).unwrap_err(), ChronxError::InvalidNonce { .. }));
}

#[test]
fn timelock_create_valid() {
    let mut engine = StateEngine::new(StateDb::new(), 0);
    let sender = KeyPair::generate();
    let recipient = KeyPair::generate();
    seed_account(&mut engine.db, &sender, 100 * CHRONOS_PER_KX);

    let unlock_at = NOW + 86_400;
    let tx = make_tx(
        &sender,
        0,
        vec![tlc_action(
            recipient.public_key.clone(),
            50 * CHRONOS_PER_KX,
            unlock_at,
            Some("test".to_string()),
        )],
    );
    let lock_id = tx.tx_id;
    engine.apply(tx, NOW).unwrap();

    let s = engine.db.get_account(&sender.account_id).unwrap();
    assert_eq!(s.balance, 50 * CHRONOS_PER_KX);

    let contract = engine.db.get_timelock(&lock_id).unwrap();
    assert_eq!(contract.amount, 50 * CHRONOS_PER_KX);
    assert_eq!(contract.unlock_at, unlock_at);
    assert_eq!(contract.status, TimeLockStatus::Pending);
    assert_eq!(contract.lock_version, 0, "new locks must use the legacy path");
}

#[test]
fn timelock_create_past_unlock_rejected() {
    let mut engine = StateEngine::new(StateDb::new(), 0);
    let sender = KeyPair::generate();
    let recipient = KeyPair::generate();
    seed_account(&mut engine.db, &sender, 100 * CHRONOS_PER_KX);
    let tx = make_tx(
        &sender,
        0,
        vec![tlc_action(recipient.public_key.clone(), CHRONOS_PER_KX, NOW - 1, None)],
    );
    assert!(matches!(
        engine.apply(tx, NOW).unwrap_err(),
        ChronxError::UnlockTimestampInPast
    ));
}

#[test]
fn timelock_create_zero_amount_rejected() {
    let mut engine = StateEngine::new(StateDb::new(), 0);
    let sender = KeyPair::generate();
    let recipient = KeyPair::generate();
    seed_account(&mut engine.db, &sender, 100 * CHRONOS_PER_KX);
    let tx = make_tx(
        &sender,
        0,
        vec![tlc_action(recipient.public_key.clone(), 0, NOW + 86_400, None)],
    );
    assert!(matches!(engine.apply(tx, NOW).unwrap_err(), ChronxError::ZeroAmount));
}

#[test]
fn timelock_claim_after_maturity() {
    let mut engine = StateEngine::new(StateDb::new(), 0);
    let sender = KeyPair::generate();
    let recipient = KeyPair::generate();
    seed_account(&mut engine.db, &sender, 0);
    seed_account(&mut engine.db, &recipient, 0);

    let lock_id = TxId::from_bytes([42u8; 32]);
    seed_timelock(&mut engine.db, lock_id, &sender, &recipient, 50 * CHRONOS_PER_KX, NOW - 1);

    let tx = make_tx(&recipient, 0, vec![Action::TimeLockClaim {
        lock_id: TimeLockId(lock_id),
    }]);
    engine.apply(tx, NOW).unwrap();

    let r = engine.db.get_account(&recipient.account_id).unwrap();
    assert_eq!(r.balance, 50 * CHRONOS_PER_KX);
}

#[test]
fn timelock_claim_too_early() {
    let mut engine = StateEngine::new(StateDb::new(), 0);
    let sender = KeyPair::generate();
    let recipient = KeyPair::generate();
    seed_account(&mut engine.db, &sender, 0);
    seed_account(&mut engine.db, &recipient, 0);
    let lock_id = TxId::from_bytes([43u8; 32]);
    seed_timelock(&mut engine.db, lock_id, &sender, &recipient, 50 * CHRONOS_PER_KX, NOW + 86_400);
    let tx = make_tx(&recipient, 0, vec![Action::TimeLockClaim {
        lock_id: TimeLockId(lock_id),
    }]);
    assert!(matches!(
        engine.apply(tx, NOW).unwrap_err(),
        ChronxError::TimeLockNotMatured { .. }
    ));
}

#[test]
fn timelock_claim_wrong_claimer() {
    let mut engine = StateEngine::new(StateDb::new(), 0);
    let sender = KeyPair::generate();
    let recipient = KeyPair::generate();
    let impostor = KeyPair::generate();
    seed_account(&mut engine.db, &sender, 0);
    seed_account(&mut engine.db, &impostor, 0);
    let lock_id = TxId::from_bytes([44u8; 32]);
    seed_timelock(&mut engine.db, lock_id, &sender, &recipient, 50 * CHRONOS_PER_KX, NOW - 1);
    let tx = make_tx(&impostor, 0, vec![Action::TimeLockClaim {
        lock_id: TimeLockId(lock_id),
    }]);
    assert!(matches!(
        engine.apply(tx, NOW).unwrap_err(),
        ChronxError::AuthPolicyViolation
    ));
}

#[test]
fn recovery_start_valid() {
    let mut engine = StateEngine::new(StateDb::new(), 0);
    let requester = KeyPair::generate();
    let target_kp = KeyPair::generate();
    let new_owner = KeyPair::generate();
    seed_account(&mut engine.db, &requester, MIN_RECOVERY_BOND_CHRONOS + CHRONOS_PER_KX);
    engine.db.put_account(Account::new(
        target_kp.account_id,
        AuthPolicy::SingleSig { public_key: target_kp.public_key.clone() },
    ));

    let tx = make_tx(&requester, 0, vec![Action::StartRecovery {
        target_account: target_kp.account_id,
        proposed_owner_key: new_owner.public_key.clone(),
        evidence_hash: EvidenceHash([0xABu8; 32]),
        bond_amount: MIN_RECOVERY_BOND_CHRONOS,
    }]);
    engine.apply(tx, NOW).unwrap();

    let req = engine.db.get_account(&requester.account_id).unwrap();
    assert_eq!(req.balance, CHRONOS_PER_KX);
    let tgt = engine.db.get_account(&target_kp.account_id).unwrap();
    assert!(tgt.recovery_state.active);
}

#[test]
fn recovery_bond_too_low() {
    let mut engine = StateEngine::new(StateDb::new(), 0);
    let requester = KeyPair::generate();
    let target_kp = KeyPair::generate();
    let new_owner = KeyPair::generate();
    seed_account(&mut engine.db, &requester, MIN_RECOVERY_BOND_CHRONOS * 2);
    engine.db.put_account(Account::new(
        target_kp.account_id,
        AuthPolicy::SingleSig { public_key: target_kp.public_key.clone() },
    ));
    let tx = make_tx(&requester, 0, vec![Action::StartRecovery {
        target_account: target_kp.account_id,
        proposed_owner_key: new_owner.public_key.clone(),
        evidence_hash: EvidenceHash([0u8; 32]),
        bond_amount: MIN_RECOVERY_BOND_CHRONOS - 1,
    }]);
    assert!(matches!(
        engine.apply(tx, NOW).unwrap_err(),
        ChronxError::RecoveryBondTooLow { .. }
    ));
}

#[test]
fn register_verifier_valid() {
    let mut engine = StateEngine::new(StateDb::new(), 0);
    let kp = KeyPair::generate();
    seed_account(&mut engine.db, &kp, MIN_VERIFIER_STAKE_CHRONOS + CHRONOS_PER_KX);
    let tx = make_tx(&kp, 0, vec![Action::RegisterVerifier {
        stake_amount: MIN_VERIFIER_STAKE_CHRONOS,
    }]);
    engine.apply(tx, NOW).unwrap();
    let acc = engine.db.get_account(&kp.account_id).unwrap();
    assert!(acc.is_verifier);
    assert_eq!(acc.verifier_stake, MIN_VERIFIER_STAKE_CHRONOS);
    assert_eq!(acc.spendable_balance(), CHRONOS_PER_KX);
}

#[test]
fn recovery_full_workflow() {
    let mut engine = StateEngine::new(StateDb::new(), 0);
    let requester = KeyPair::generate();
    let target_kp = KeyPair::generate();
    let new_owner = KeyPair::generate();
    let verifiers: Vec<KeyPair> = (0..3).map(|_| KeyPair::generate()).collect();

    let big = MIN_VERIFIER_STAKE_CHRONOS + MIN_RECOVERY_BOND_CHRONOS + 10 * CHRONOS_PER_KX;
    seed_account(&mut engine.db, &requester, big);
    engine.db.put_account(Account::new(
        target_kp.account_id,
        AuthPolicy::SingleSig { public_key: target_kp.public_key.clone() },
    ));
    for v in &verifiers {
        seed_account(&mut engine.db, v, MIN_VERIFIER_STAKE_CHRONOS + CHRONOS_PER_KX);
    }

    engine
        .apply(
            make_tx(&requester, 0, vec![Action::StartRecovery {
                target_account: target_kp.account_id,
                proposed_owner_key: new_owner.public_key.clone(),
                evidence_hash: EvidenceHash([0x01u8; 32]),
                bond_amount: MIN_RECOVERY_BOND_CHRONOS,
            }]),
            NOW,
        )
        .unwrap();

    for v in &verifiers {
        engine
            .apply(
                make_tx(v, 0, vec![Action::RegisterVerifier {
                    stake_amount: MIN_VERIFIER_STAKE_CHRONOS,
                }]),
                NOW,
            )
            .unwrap();
    }

    for v in &verifiers {
        engine
            .apply(
                make_tx(v, 1, vec![Action::VoteRecovery {
                    target_account: target_kp.account_id,
                    approve: true,
                    fee_bid: 0,
                }]),
                NOW,
            )
            .unwrap();
    }

    let mut tgt = engine.db.get_account(&target_kp.account_id).unwrap().clone();
    tgt.recovery_state.recovery_execute_after = Some(NOW - 1);
    engine.db.put_account(tgt);

    engine
        .apply(
            make_tx(&requester, 1, vec![Action::FinalizeRecovery {
                target_account: target_kp.account_id,
            }]),
            NOW,
        )
        .unwrap();

    let final_tgt = engine.db.get_account(&target_kp.account_id).unwrap();
    assert!(!final_tgt.recovery_state.active);
    match &final_tgt.auth_policy {
        AuthPolicy::RecoveryEnabled { owner_key, .. } => {
            assert_eq!(owner_key.0, new_owner.public_key.0);
        }
        _ => panic!("expected RecoveryEnabled after finalization"),
    }
}

#[test]
fn vertex_written_to_db_after_apply() {
    let mut engine = StateEngine::new(StateDb::new(), 0);
    let sender = KeyPair::generate();
    let recipient = KeyPair::generate();
    seed_account(&mut engine.db, &sender, 100 * CHRONOS_PER_KX);

    let tx = make_tx(&sender, 0, vec![Action::Transfer {
        to: recipient.account_id,
        amount: CHRONOS_PER_KX,
    }]);
    let tx_id = tx.tx_id;
    engine.apply(tx, NOW).unwrap();

    assert!(engine.db.vertex_exists(&tx_id), "vertex not persisted after apply");
    let v = engine.db.get_vertex(&tx_id).unwrap();
    assert_eq!(v.depth, 0);
}

#[test]
fn chained_tx_parent_accepted() {
    let mut engine = StateEngine::new(StateDb::new(), 0);
    let sender = KeyPair::generate();
    let recipient = KeyPair::generate();
    seed_account(&mut engine.db, &sender, 100 * CHRONOS_PER_KX);

    let tx1 = make_tx(&sender, 0, vec![Action::Transfer {
        to: recipient.account_id,
        amount: CHRONOS_PER_KX,
    }]);
    let tx1_id = tx1.tx_id;
    engine.apply(tx1, NOW).unwrap();

    let tx2 = make_tx_with_parents(&sender, 1, vec![tx1_id], vec![Action::Transfer {
        to: recipient.account_id,
        amount: CHRONOS_PER_KX,
    }]);
    let tx2_id = tx2.tx_id;
    engine.apply(tx2, NOW).unwrap();

    let v2 = engine.db.get_vertex(&tx2_id).unwrap();
    assert_eq!(v2.depth, 1);
    let s = engine.db.get_account(&sender.account_id).unwrap();
    assert_eq!(s.balance, 98 * CHRONOS_PER_KX);
    assert_eq!(s.nonce, 2);
}

#[test]
fn duplicate_tx_rejected() {
    let mut engine = StateEngine::new(StateDb::new(), 0);
    let sender = KeyPair::generate();
    let recipient = KeyPair::generate();
    seed_account(&mut engine.db, &sender, 100 * CHRONOS_PER_KX);

    let tx = make_tx(&sender, 0, vec![Action::Transfer {
        to: recipient.account_id,
        amount: CHRONOS_PER_KX,
    }]);
    engine.apply(tx.clone(), NOW).unwrap();
    let err = engine.apply(tx, NOW).unwrap_err();
    assert!(matches!(err, ChronxError::DuplicateVertex(_)));
}
