use chronx::account::{Account, AuthPolicy};
use chronx::claims::OracleSnapshot;
use chronx::constants::{
    CHRONOS_PER_KX, MIN_LOCK_AMOUNT_CHRONOS, MIN_RECOVERY_BOND_CHRONOS,
    MIN_VERIFIER_STAKE_CHRONOS, PROVIDER_BOND_CHRONOS,
};
use chronx::crypto::{account_id_from_pubkey, tx_id_from_body};
use chronx::engine::StateEngine;
use chronx::errors::ChronxError;
use chronx::sig::KeyPair;
use chronx::store::StateDb;
use chronx::timelock::{SlashReason, TimeLockContract, TimeLockStatus};
use chronx::transaction::{Action, AuthScheme, Transaction};
use chronx::types::{EvidenceHash, TimeLockId, TxId};
use chronx::validation::{validate_signatures, validate_vertex};
use chronx::p2p::P2pMessage;

const NOW: i64 = 2_000_000;

fn make_tx(kp: &KeyPair, nonce: u64, actions: Vec<Action>) -> Transaction {
    let mut tx = Transaction {
        tx_id: TxId::from_bytes([0u8; 32]),
        parents: vec![],
        timestamp: 1_000_000,
        nonce,
        from: kp.account_id,
        actions,
        pow_nonce: 0,
        signatures: vec![],
        auth_scheme: AuthScheme::SingleSig,
        tx_version: 1,
        fee_chronos: 0,
        expires_at: None,
        sender_public_key: None,
    };
    let body_bytes = tx.body_bytes();
    tx.tx_id = tx_id_from_body(&body_bytes);
    tx.signatures = vec![kp.sign(&body_bytes)];
    tx
}

fn seed_account(db: &mut StateDb, kp: &KeyPair, balance: u128) {
    let mut acc = Account::new(
        kp.account_id,
        AuthPolicy::SingleSig { public_key: kp.public_key.clone() },
    );
    acc.balance = balance;
    db.put_account(acc);
}

fn seed_v1_timelock(
    db: &mut StateDb,
    lock_id: TxId,
    sender: &KeyPair,
    recipient: &KeyPair,
    amount: u128,
    unlock_at: i64,
    org: Option<String>,
) {
    let contract = TimeLockContract {
        id: lock_id,
        sender: sender.account_id,
        recipient_key: recipient.public_key.clone(),
        recipient_account_id: account_id_from_pubkey(&recipient.public_key.0),
        amount,
        unlock_at,
        created_at: 0,
        status: TimeLockStatus::Pending,
        memo: None,
        lock_version: 1,
        claim_policy: Some(1),
        beneficiary_anchor_commitment: None,
        org_identifier: org,
        cancellation_window_secs: None,
        notify_recipient: true,
        tags: None,
        private: false,
        expiry_policy: None,
        split_policy: None,
        claim_attempts_max: None,
        recurring: None,
        extension_data: None,
    };
    db.put_timelock(contract);
}

fn seed_oracle(db: &mut StateDb, price_cents: u64) {
    let snap = OracleSnapshot {
        pair: "KX/USD".to_string(),
        price_cents,
        num_submissions: 3,
        updated_at: 0,
    };
    db.put_oracle_snapshot(snap);
}

fn commit_hash_of(payload: &[u8], salt: &[u8; 32]) -> [u8; 32] {
    let mut h = blake3::Hasher::new();
    h.update(payload);
    h.update(salt);
    *h.finalize().as_bytes()
}

#[test]
fn honest_claim_full_flow() {
    let mut engine = StateEngine::new(StateDb::new(), 0);
    let lock_sender = KeyPair::generate();
    let agent = KeyPair::generate();

    let bond = 10 * CHRONOS_PER_KX; // Trivial-lane minimum.
    seed_account(&mut engine.db, &lock_sender, 0);
    seed_account(&mut engine.db, &agent, bond + CHRONOS_PER_KX);

    let lock_id = TxId::from_bytes([55u8; 32]);
    let lock_amount = 5 * CHRONOS_PER_KX;
    seed_v1_timelock(
        &mut engine.db,
        lock_id,
        &lock_sender,
        &agent,
        lock_amount,
        NOW - 1,
        Some("Acme Corp".to_string()),
    );
    seed_oracle(&mut engine.db, 100); // $1 per KX → $5 → Trivial lane.

    engine
        .apply(make_tx(&agent, 0, vec![Action::OpenClaim { lock_id: TimeLockId(lock_id) }]), NOW)
        .unwrap();
    let c = engine.db.get_timelock(&lock_id).unwrap();
    assert!(matches!(c.status, TimeLockStatus::ClaimOpen { .. }));

    let payload = b"I am the beneficiary - Alice Smith";
    let salt = [0xAAu8; 32];
    let commit_hash = commit_hash_of(payload, &salt);
    engine
        .apply(
            make_tx(&agent, 1, vec![Action::SubmitClaimCommit {
                lock_id: TimeLockId(lock_id),
                commit_hash,
                bond_amount: bond,
            }]),
            NOW,
        )
        .unwrap();
    let c = engine.db.get_timelock(&lock_id).unwrap();
    assert!(matches!(c.status, TimeLockStatus::ClaimCommitted { .. }));

    engine
        .apply(
            make_tx(&agent, 2, vec![Action::RevealClaim {
                lock_id: TimeLockId(lock_id),
                payload: payload.to_vec(),
                salt,
                certificates: vec![],
            }]),
            NOW + 1,
        )
        .unwrap();
    let c = engine.db.get_timelock(&lock_id).unwrap();
    assert!(matches!(c.status, TimeLockStatus::ClaimRevealed { .. }));

    // Finalize after the Trivial challenge window (7 days).
    let after_window = NOW + 1 + 7 * 24 * 3600 + 1;
    engine
        .apply(
            make_tx(&agent, 3, vec![Action::FinalizeClaim { lock_id: TimeLockId(lock_id) }]),
            after_window,
        )
        .unwrap();

    let c = engine.db.get_timelock(&lock_id).unwrap();
    assert!(matches!(c.status, TimeLockStatus::ClaimFinalized { .. }));

    let agent_acc = engine.db.get_account(&agent.account_id).unwrap();
    assert_eq!(
        agent_acc.balance,
        CHRONOS_PER_KX + lock_amount + bond,
        "agent ends with initial - bond + lock_amount + bond back"
    );
}

#[test]
fn fraudulent_claim_hash_mismatch_slashed() {
    let mut engine = StateEngine::new(StateDb::new(), 0);
    let lock_sender = KeyPair::generate();
    let agent = KeyPair::generate();

    let bond = 10 * CHRONOS_PER_KX;
    seed_account(&mut engine.db, &lock_sender, 0);
    seed_account(&mut engine.db, &agent, bond + 5 * CHRONOS_PER_KX);

    let lock_id = TxId::from_bytes([77u8; 32]);
    seed_v1_timelock(
        &mut engine.db,
        lock_id,
        &lock_sender,
        &agent,
        5 * CHRONOS_PER_KX,
        NOW - 1,
        Some("Acme Corp".to_string()),
    );
    seed_oracle(&mut engine.db, 100);

    engine
        .apply(make_tx(&agent, 0, vec![Action::OpenClaim { lock_id: TimeLockId(lock_id) }]), NOW)
        .unwrap();

    let real_payload = b"real payload";
    let salt = [0xBBu8; 32];
    let commit_hash = commit_hash_of(real_payload, &salt);
    engine
        .apply(
            make_tx(&agent, 1, vec![Action::SubmitClaimCommit {
                lock_id: TimeLockId(lock_id),
                commit_hash,
                bond_amount: bond,
            }]),
            NOW,
        )
        .unwrap();

    // Reveal with the wrong payload: the slash commits as success.
    engine
        .apply(
            make_tx(&agent, 2, vec![Action::RevealClaim {
                lock_id: TimeLockId(lock_id),
                payload: b"tampered payload".to_vec(),
                salt,
                certificates: vec![],
            }]),
            NOW + 1,
        )
        .unwrap();

    let c = engine.db.get_timelock(&lock_id).unwrap();
    assert!(matches!(
        c.status,
        TimeLockStatus::ClaimSlashed { reason: SlashReason::RevealHashMismatch, .. }
    ));
}

#[test]
fn successful_challenge_slashes_agent() {
    let mut engine = StateEngine::new(StateDb::new(), 0);
    let lock_sender = KeyPair::generate();
    let agent = KeyPair::generate();
    let challenger = KeyPair::generate();

    let bond = 10 * CHRONOS_PER_KX;
    let lock_amount = 5 * CHRONOS_PER_KX;
    seed_account(&mut engine.db, &lock_sender, lock_amount);
    seed_account(&mut engine.db, &agent, bond + CHRONOS_PER_KX);
    seed_account(&mut engine.db, &challenger, bond * 2);

    let lock_id = TxId::from_bytes([88u8; 32]);
    seed_v1_timelock(
        &mut engine.db,
        lock_id,
        &lock_sender,
        &agent,
        lock_amount,
        NOW - 1,
        Some("Acme Corp".to_string()),
    );
    seed_oracle(&mut engine.db, 100);

    engine
        .apply(make_tx(&agent, 0, vec![Action::OpenClaim { lock_id: TimeLockId(lock_id) }]), NOW)
        .unwrap();

    let payload = b"agent claim";
    let salt = [0xCCu8; 32];
    let commit_hash = commit_hash_of(payload, &salt);
    engine
        .apply(
            make_tx(&agent, 1, vec![Action::SubmitClaimCommit {
                lock_id: TimeLockId(lock_id),
                commit_hash,
                bond_amount: bond,
            }]),
            NOW,
        )
        .unwrap();

    engine
        .apply(
            make_tx(&agent, 2, vec![Action::RevealClaim {
                lock_id: TimeLockId(lock_id),
                payload: payload.to_vec(),
                salt,
                certificates: vec![],
            }]),
            NOW + 1,
        )
        .unwrap();

    engine
        .apply(
            make_tx(&challenger, 0, vec![Action::ChallengeClaimReveal {
                lock_id: TimeLockId(lock_id),
                evidence_hash: [0xDDu8; 32],
                bond_amount: bond,
            }]),
            NOW + 2,
        )
        .unwrap();
    let c = engine.db.get_timelock(&lock_id).unwrap();
    assert!(matches!(c.status, TimeLockStatus::ClaimChallenged { .. }));

    engine
        .apply(
            make_tx(&agent, 3, vec![Action::FinalizeClaim { lock_id: TimeLockId(lock_id) }]),
            NOW + 3,
        )
        .unwrap();

    let c = engine.db.get_timelock(&lock_id).unwrap();
    assert!(matches!(
        c.status,
        TimeLockStatus::ClaimSlashed { reason: SlashReason::SuccessfulChallenge, .. }
    ));

    // Challenger recovers their bond plus the agent's bond.
    let ch_acc = engine.db.get_account(&challenger.account_id).unwrap();
    assert_eq!(ch_acc.balance, bond * 2 - bond + bond + bond);
    // The lock sender gets the locked amount back.
    let s_acc = engine.db.get_account(&lock_sender.account_id).unwrap();
    assert_eq!(s_acc.balance, lock_amount * 2);
}

#[test]
fn ambiguity_mode_no_identifier() {
    let mut engine = StateEngine::new(StateDb::new(), 0);
    let lock_sender = KeyPair::generate();
    let agent = KeyPair::generate();
    seed_account(&mut engine.db, &lock_sender, 0);
    seed_account(&mut engine.db, &agent, 100 * CHRONOS_PER_KX);
    seed_oracle(&mut engine.db, 100);

    // A version-1 lock with no identifier at all.
    let lock_id = TxId::from_bytes([99u8; 32]);
    seed_v1_timelock(
        &mut engine.db,
        lock_id,
        &lock_sender,
        &agent,
        5 * CHRONOS_PER_KX,
        NOW - 1,
        None,
    );

    engine
        .apply(make_tx(&agent, 0, vec![Action::OpenClaim { lock_id: TimeLockId(lock_id) }]), NOW)
        .unwrap();

    let c = engine.db.get_timelock(&lock_id).unwrap();
    assert!(
        matches!(c.status, TimeLockStatus::Ambiguous { .. }),
        "a lock without a unique identifier must turn Ambiguous"
    );
}

#[test]
fn oracle_submission_rejected_for_non_oracle_provider() {
    let mut engine = StateEngine::new(StateDb::new(), 0);
    let submitter = KeyPair::generate();
    seed_account(&mut engine.db, &submitter, PROVIDER_BOND_CHRONOS + CHRONOS_PER_KX);

    // Register as a "kyc" provider, not "oracle".
    engine
        .apply(
            make_tx(&submitter, 0, vec![Action::RegisterProvider {
                provider_class: "kyc".to_string(),
                jurisdictions: vec!["US".to_string()],
                bond_amount: PROVIDER_BOND_CHRONOS,
            }]),
            NOW,
        )
        .unwrap();

    let err = engine
        .apply(
            make_tx(&submitter, 1, vec![Action::SubmitOraclePrice {
                pair: "KX/USD".to_string(),
                price_cents: 999_999_999,
            }]),
            NOW,
        )
        .unwrap_err();
    assert!(
        matches!(err, ChronxError::AuthPolicyViolation),
        "a non-oracle provider must not submit prices"
    );
}

#[test]
fn v1_lock_requires_claims_framework() {
    let mut engine = StateEngine::new(StateDb::new(), 0);
    let lock_sender = KeyPair::generate();
    let recipient = KeyPair::generate();
    seed_account(&mut engine.db, &lock_sender, 0);
    seed_account(&mut engine.db, &recipient, 0);

    let lock_id = TxId::from_bytes([111u8; 32]);
    seed_v1_timelock(
        &mut engine.db,
        lock_id,
        &lock_sender,
        &recipient,
        CHRONOS_PER_KX,
        NOW - 1,
        Some("Acme Corp".to_string()),
    );

    let err = engine
        .apply(
            make_tx(&recipient, 0, vec![Action::TimeLockClaim { lock_id: TimeLockId(lock_id) }]),
            NOW,
        )
        .unwrap_err();
    assert!(
        matches!(err, ChronxError::LockRequiresClaimsFramework),
        "a policy lock must not be directly claimable"
    );
}

fn make_vertex_tx(parents: Vec<TxId>, pow_difficulty: u8) -> Transaction {
    let kp = KeyPair::generate();
    let actions = vec![Action::Transfer {
        to: chronx::types::AccountId::from_bytes([1u8; 32]),
        amount: 1_000_000,
    }];
    let mut tx = Transaction {
        tx_id: TxId::from_bytes([0u8; 32]),
        parents,
        timestamp: 1_000_000,
        nonce: 0,
        from: kp.account_id,
        actions,
        pow_nonce: 0,
        signatures: vec![],
        auth_scheme: AuthScheme::SingleSig,
        tx_version: 1,
        fee_chronos: 0,
        expires_at: None,
        sender_public_key: Some(kp.public_key.clone()),
    };
    let body_bytes = tx.body_bytes();
    tx.pow_nonce = chronx::pow::mine_pow(&body_bytes, pow_difficulty).unwrap();
    tx.tx_id = tx_id_from_body(&body_bytes);
    tx.signatures = vec![kp.sign(&body_bytes)];
    tx
}

#[test]
fn valid_genesis_passes() {
    let tx = make_vertex_tx(vec![], 0);
    let db = StateDb::new();
    assert!(validate_vertex(&tx, 0, &db).is_ok());
}

#[test]
fn non_genesis_missing_parents_fails() {
    let tx = make_vertex_tx(vec![TxId::from_bytes([9u8; 32])], 4);
    let db = StateDb::new();
    let result = validate_vertex(&tx, 4, &db);
    assert!(matches!(result, Err(ChronxError::UnknownParent(_))));
}

#[test]
fn bad_pow_fails() {
    // A wrong nonce keeps the TxId check intact but fails the PoW bound.
    let mut tx = make_vertex_tx(vec![], 0);
    tx.parents = vec![TxId::from_bytes([9u8; 32])];
    tx.pow_nonce = 999_999_999;
    let body = tx.body_bytes();
    tx.tx_id = tx_id_from_body(&body);
    let mut db = StateDb::new();
    // Make the claimed parent exist so only the PoW check can fail.
    db.put_vertex(chronx::vertex::Vertex::new(
        make_vertex_tx_with_id([9u8; 32]),
        0,
        0,
    ));
    let result = validate_vertex(&tx, 20, &db);
    assert!(matches!(result, Err(ChronxError::InvalidPoW)));
}

fn make_vertex_tx_with_id(id: [u8; 32]) -> Transaction {
    let kp = KeyPair::generate();
    Transaction {
        tx_id: TxId::from_bytes(id),
        parents: vec![],
        timestamp: 0,
        nonce: 0,
        from: kp.account_id,
        actions: vec![],
        pow_nonce: 0,
        signatures: vec![],
        auth_scheme: AuthScheme::SingleSig,
        tx_version: 1,
        fee_chronos: 0,
        expires_at: None,
        sender_public_key: None,
    }
}

#[test]
fn signature_policy_mismatch_rejected() {
    let kp = KeyPair::generate();
    let tx = make_tx(&kp, 0, vec![]);
    // A MultiSig policy with a SingleSig scheme is a policy violation.
    let policy = AuthPolicy::MultiSig { threshold: 1, public_keys: vec![kp.public_key.clone()] };
    let r = validate_signatures(&tx, &policy);
    assert!(matches!(r, Err(ChronxError::AuthPolicyViolation)));
}

#[test]
fn cancellation_window_boundary() {
    // Cancelling exactly at created_at + window succeeds; one second later fails.
    for (delta, ok) in [(0i64, true), (1i64, false)] {
        let mut engine = StateEngine::new(StateDb::new(), 0);
        let sender = KeyPair::generate();
        let recipient = KeyPair::generate();
        seed_account(&mut engine.db, &sender, 100 * CHRONOS_PER_KX);
        let created_at = NOW;
        let window: u32 = 3_600;
        let tx = make_tx(&sender, 0, vec![Action::TimeLockCreate {
            recipient: recipient.public_key.clone(),
            amount: 50 * CHRONOS_PER_KX,
            unlock_at: NOW + 86_400,
            memo: None,
            cancellation_window_secs: Some(window),
            notify_recipient: None,
            tags: None,
            private: None,
            expiry_policy: None,
            split_policy: None,
            claim_attempts_max: None,
            recurring: None,
            extension_data: None,
        }]);
        let lock_id = tx.tx_id;
        engine.apply(tx, created_at).unwrap();
        let cancel = make_tx(&sender, 1, vec![Action::CancelTimeLock {
            lock_id: TimeLockId(lock_id),
        }]);
        let at = created_at + window as i64 + delta;
        let r = engine.apply(cancel, at);
        if ok {
            r.unwrap();
            let s = engine.db.get_account(&sender.account_id).unwrap();
            assert_eq!(s.balance, 100 * CHRONOS_PER_KX);
        } else {
            assert!(matches!(r.unwrap_err(), ChronxError::CancellationWindowExpired));
        }
    }
}

#[test]
fn min_lock_amount_boundary() {
    for (amount, ok) in [(MIN_LOCK_AMOUNT_CHRONOS, true), (MIN_LOCK_AMOUNT_CHRONOS - 1, false)] {
        let mut engine = StateEngine::new(StateDb::new(), 0);
        let sender = KeyPair::generate();
        let recipient = KeyPair::generate();
        seed_account(&mut engine.db, &sender, 100 * CHRONOS_PER_KX);
        let tx = make_tx(&sender, 0, vec![Action::TimeLockCreate {
            recipient: recipient.public_key.clone(),
            amount,
            unlock_at: NOW + 86_400,
            memo: None,
            cancellation_window_secs: None,
            notify_recipient: None,
            tags: None,
            private: None,
            expiry_policy: None,
            split_policy: None,
            claim_attempts_max: None,
            recurring: None,
            extension_data: None,
        }]);
        let r = engine.apply(tx, NOW);
        if ok {
            r.unwrap();
        } else {
            assert!(matches!(r.unwrap_err(), ChronxError::LockAmountTooSmall { .. }));
        }
    }
}

#[test]
fn unlock_boundary_exactly_now() {
    // A lock unlocking exactly at `now` is claimable; at `now - 1` it is not.
    for (unlock_at, ok) in [(NOW, true), (NOW + 1, false)] {
        let mut engine = StateEngine::new(StateDb::new(), 0);
        let sender = KeyPair::generate();
        let recipient = KeyPair::generate();
        seed_account(&mut engine.db, &sender, 0);
        seed_account(&mut engine.db, &recipient, 0);
        let lock_id = TxId::from_bytes([7u8; 32]);
        let contract = TimeLockContract {
            id: lock_id,
            sender: sender.account_id,
            recipient_key: recipient.public_key.clone(),
            recipient_account_id: account_id_from_pubkey(&recipient.public_key.0),
            amount: 2 * CHRONOS_PER_KX,
            unlock_at,
            created_at: 0,
            status: TimeLockStatus::Pending,
            memo: None,
            lock_version: 0,
            claim_policy: None,
            beneficiary_anchor_commitment: None,
            org_identifier: None,
            cancellation_window_secs: None,
            notify_recipient: true,
            tags: None,
            private: false,
            expiry_policy: None,
            split_policy: None,
            claim_attempts_max: None,
            recurring: None,
            extension_data: None,
        };
        engine.db.put_timelock(contract);
        let tx = make_tx(&recipient, 0, vec![Action::TimeLockClaim {
            lock_id: TimeLockId(lock_id),
        }]);
        let r = engine.apply(tx, NOW);
        if ok {
            r.unwrap();
        } else {
            assert!(matches!(r.unwrap_err(), ChronxError::TimeLockNotMatured { .. }));
        }
    }
}

#[test]
fn recovery_vote_threshold_boundary() {
    // Exactly three approvals finalize; two do not.
    for (votes, ok) in [(3usize, true), (2usize, false)] {
        let mut engine = StateEngine::new(StateDb::new(), 0);
        let requester = KeyPair::generate();
        let target_kp = KeyPair::generate();
        let new_owner = KeyPair::generate();
        let verifiers: Vec<KeyPair> = (0..votes).map(|_| KeyPair::generate()).collect();
        seed_account(&mut engine.db, &requester, MIN_RECOVERY_BOND_CHRONOS + CHRONOS_PER_KX);
        engine.db.put_account(Account::new(
            target_kp.account_id,
            AuthPolicy::SingleSig { public_key: target_kp.public_key.clone() },
        ));
        for v in &verifiers {
            seed_account(&mut engine.db, v, MIN_VERIFIER_STAKE_CHRONOS + CHRONOS_PER_KX);
        }
        engine
            .apply(
                make_tx(&requester, 0, vec![Action::StartRecovery {
                    target_account: target_kp.account_id,
                    proposed_owner_key: new_owner.public_key.clone(),
                    evidence_hash: EvidenceHash([1u8; 32]),
                    bond_amount: MIN_RECOVERY_BOND_CHRONOS,
                }]),
                NOW,
            )
            .unwrap();
        for v in &verifiers {
            engine
                .apply(
                    make_tx(v, 0, vec![Action::RegisterVerifier {
                        stake_amount: MIN_VERIFIER_STAKE_CHRONOS,
                    }]),
                    NOW,
                )
                .unwrap();
            engine
                .apply(
                    make_tx(v, 1, vec![Action::VoteRecovery {
                        target_account: target_kp.account_id,
                        approve: true,
                        fee_bid: 0,
                    }]),
                    NOW,
                )
                .unwrap();
        }
        let mut tgt = engine.db.get_account(&target_kp.account_id).unwrap().clone();
        tgt.recovery_state.recovery_execute_after = Some(NOW - 1);
        engine.db.put_account(tgt);
        let r = engine.apply(
            make_tx(&requester, 1, vec![Action::FinalizeRecovery {
                target_account: target_kp.account_id,
            }]),
            NOW,
        );
        if ok {
            r.unwrap();
        } else {
            assert!(matches!(r.unwrap_err(), ChronxError::RecoveryNotApproved));
        }
    }
}

#[test]
fn timelock_sell_inactive() {
    let mut engine = StateEngine::new(StateDb::new(), 0);
    let kp = KeyPair::generate();
    seed_account(&mut engine.db, &kp, 100 * CHRONOS_PER_KX);
    let err = engine
        .apply(
            make_tx(&kp, 0, vec![Action::TimeLockSell {
                lock_id: TimeLockId(TxId::from_bytes([5u8; 32])),
                ask_price: 1,
            }]),
            NOW,
        )
        .unwrap_err();
    assert!(matches!(err, ChronxError::FeatureNotActive));
}

#[test]
fn multisig_scheme_quorum_must_match_policy() {
    // A scheme declaring a different quorum than the stored policy cannot
    // authorize, whatever signatures it carries.
    let k1 = KeyPair::generate();
    let k2 = KeyPair::generate();
    let mut tx = make_tx(&k1, 0, vec![]);
    tx.auth_scheme = AuthScheme::MultiSig { k: 0, n: 2 };
    tx.signatures = vec![];
    let policy = AuthPolicy::MultiSig {
        threshold: 2,
        public_keys: vec![k1.public_key.clone(), k2.public_key.clone()],
    };
    let r = validate_signatures(&tx, &policy);
    assert!(matches!(r, Err(ChronxError::AuthPolicyViolation)));
}

#[test]
fn multisig_threshold_met_by_two_distinct_keys() {
    let k1 = KeyPair::generate();
    let k2 = KeyPair::generate();
    let mut tx = make_tx(&k1, 0, vec![]);
    tx.auth_scheme = AuthScheme::MultiSig { k: 2, n: 2 };
    let body = tx.body_bytes();
    tx.signatures = vec![k1.sign(&body), k2.sign(&body)];
    let policy = AuthPolicy::MultiSig {
        threshold: 2,
        public_keys: vec![k1.public_key.clone(), k2.public_key.clone()],
    };
    assert!(validate_signatures(&tx, &policy).is_ok());
}

#[test]
fn multisig_duplicated_key_counts_once() {
    // The same key listed twice in the policy set can satisfy only one slot.
    let k1 = KeyPair::generate();
    let mut tx = make_tx(&k1, 0, vec![]);
    tx.auth_scheme = AuthScheme::MultiSig { k: 2, n: 2 };
    let body = tx.body_bytes();
    tx.signatures = vec![k1.sign(&body), k1.sign(&body)];
    let policy = AuthPolicy::MultiSig {
        threshold: 2,
        public_keys: vec![k1.public_key.clone(), k1.public_key.clone()],
    };
    let r = validate_signatures(&tx, &policy);
    assert!(matches!(r, Err(ChronxError::MultisigThresholdNotMet { need: 2, got: 1 })));
}

#[test]
fn tx_id_hex_round_trip() {
    let mut b = [0u8; 32];
    for i in 0..32 {
        b[i] = (i as u8) * 7 + 3;
    }
    let id = TxId::from_bytes(b);
    let h = id.to_hex();
    assert_eq!(h.len(), 64);
    let back = TxId::from_hex(&h).unwrap();
    assert_eq!(back.as_bytes(), id.as_bytes());
}

#[test]
fn tx_id_hex_exact_value() {
    let id = TxId::from_bytes([0xab; 32]);
    assert_eq!(id.to_hex(), "ab".repeat(32));
}

#[test]
fn tx_id_from_hex_rejects_malformed() {
    assert!(TxId::from_hex("").is_err());
    assert!(TxId::from_hex(&"0".repeat(63)).is_err());
    assert!(TxId::from_hex(&"g".repeat(64)).is_err());
    // Upper case is accepted.
    let up = TxId::from_hex(&"AB".repeat(32)).unwrap();
    assert_eq!(up.as_bytes(), &[0xabu8; 32]);
}

#[test]
fn evidence_hash_hex() {
    let e = EvidenceHash([0x01; 32]);
    assert_eq!(e.to_hex(), "01".repeat(32));
}

#[test]
fn account_id_b58_round_trip() {
    let kp = KeyPair::generate();
    let s = kp.account_id.to_b58();
    let back = chronx::types::AccountId::from_b58(&s).unwrap();
    assert!(back.same(&kp.account_id));
    // Characters outside the alphabet are rejected, as is a short decoding.
    assert!(chronx::types::AccountId::from_b58("0OIl").is_err());
    assert!(chronx::types::AccountId::from_b58("z").is_err());
}

#[test]
fn recovery_fee_distribution_splits_with_remainder() {
    let mut db = StateDb::new();
    let a = KeyPair::generate();
    let b = KeyPair::generate();
    let c = KeyPair::generate();
    seed_account(&mut db, &a, 10);
    seed_account(&mut db, &b, 20);
    seed_account(&mut db, &c, 30);
    let winners = vec![a.account_id, b.account_id, c.account_id];
    chronx::recovery::distribute_recovery_fees(&mut db, 100, &winners).unwrap();
    assert_eq!(db.get_account(&a.account_id).unwrap().balance, 10 + 33 + 1);
    assert_eq!(db.get_account(&b.account_id).unwrap().balance, 20 + 33);
    assert_eq!(db.get_account(&c.account_id).unwrap().balance, 30 + 33);
}

#[test]
fn recovery_fee_distribution_missing_account() {
    let mut db = StateDb::new();
    let a = KeyPair::generate();
    let absent = KeyPair::generate();
    seed_account(&mut db, &a, 10);
    let winners = vec![a.account_id, absent.account_id];
    let r = chronx::recovery::distribute_recovery_fees(&mut db, 100, &winners);
    assert!(matches!(r, Err(ChronxError::UnknownAccount(_))));
    // Nothing was credited.
    assert_eq!(db.get_account(&a.account_id).unwrap().balance, 10);
    // An empty winner list distributes nothing and succeeds.
    assert!(chronx::recovery::distribute_recovery_fees(&mut db, 100, &vec![]).is_ok());
}

#[test]
fn p2p_message_codec_round_trips() {
    let msgs = vec![
        P2pMessage::NewVertex { payload: vec![1, 2, 3, 4] },
        P2pMessage::RequestVertex { tx_id: TxId::from_bytes([9u8; 32]) },
        P2pMessage::SyncTips {
            tips: vec![TxId::from_bytes([1u8; 32]), TxId::from_bytes([2u8; 32])],
        },
        P2pMessage::RequestTips,
    ];
    for m in msgs {
        let bytes = m.to_bytes();
        let back = P2pMessage::from_bytes(&bytes).unwrap();
        assert_eq!(back.to_bytes(), bytes);
    }
}

#[test]
fn p2p_message_rejects_malformed_frames() {
    assert!(P2pMessage::from_bytes(&[]).is_err());
    assert!(P2pMessage::from_bytes(&[9]).is_err());
    // A vertex request carries exactly 32 id bytes.
    assert!(P2pMessage::from_bytes(&[1, 0, 0]).is_err());
    // Trailing bytes after a complete frame are rejected.
    let mut framed = P2pMessage::RequestTips.to_bytes();
    framed.push(0);
    assert!(P2pMessage::from_bytes(&framed).is_err());
}

#[test]
fn p2p_config_default_values() {
    let c = chronx::p2p::P2pConfig::default();
    assert_eq!(c.listen_addr, "/ip4/0.0.0.0/tcp/7777");
    assert_eq!(c.protocol_version, "/chronx/1.0.0");
    assert_eq!(c.vertex_topic, "chronx-vertices");
    assert!(c.bootstrap_peers.is_empty());
}
