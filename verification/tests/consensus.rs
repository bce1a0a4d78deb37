use chronx::constants::{
    CHRONOS_PER_KX, HUMANITY_STAKE_KX, MILESTONE_2076_KX, POW_MAX_DIFFICULTY, POW_MIN_DIFFICULTY,
    PROTOCOL_RESERVE_KX, TOTAL_SUPPLY_CHRONOS, TREASURY_KX,
};
use pqcrypto_traits::sign::{PublicKey, SecretKey};
use chronx::crypto::{account_id_from_pubkey, tx_id_from_body};
use chronx::difficulty::DifficultyConfig;
use chronx::finality::FinalityTracker;
use chronx::genesis::{apply_genesis, treasury_lock_id, GenesisParams};
use chronx::pow::{leading_zero_bits, mine_pow, verify_pow};
use chronx::recovery::required_votes;
use chronx::schedule::treasury_release_schedule;
use chronx::sig::{verify_signature, ChronxSigner, KeyPair};
use chronx::store::StateDb;
use chronx::types::{AccountId, Balance, TxId};
use chronx::validator::{ValidatorInfo, ValidatorSet};

#[test]
fn difficulty_increases_when_too_fast() {
    let mut cfg = DifficultyConfig::new(20, 10_000, 4);
    // Simulates solves every 1 second (too fast).
    let result = cfg.record_solve(0);
    assert!(result.is_none());
    cfg.record_solve(1_000);
    cfg.record_solve(2_000);
    let new_diff = cfg.record_solve(3_000).unwrap();
    assert!(new_diff > 20, "difficulty should increase when solving too fast");
    assert!(new_diff <= POW_MAX_DIFFICULTY);
}

#[test]
fn difficulty_decreases_when_too_slow() {
    let mut cfg = DifficultyConfig::new(20, 10_000, 4);
    // Simulates solves every 60 seconds (too slow).
    cfg.record_solve(0);
    cfg.record_solve(60_000);
    cfg.record_solve(120_000);
    let new_diff = cfg.record_solve(180_000).unwrap();
    assert!(new_diff < 20, "difficulty should decrease when solving too slow");
    assert!(new_diff >= POW_MIN_DIFFICULTY);
}

fn make_validator(stake: Balance) -> ValidatorInfo {
    ValidatorInfo {
        account_id: AccountId::from_bytes([stake as u8; 32]),
        stake,
        online: true,
        confirmations_issued: 0,
    }
}

#[test]
fn finality_threshold_two_thirds() {
    let mut vs = ValidatorSet::new();
    for i in 1u128..=9 {
        vs.add(make_validator(i));
    }
    // 9 active validators: threshold = ceil(6) = 6
    assert_eq!(vs.finality_threshold(), 6);
}

#[test]
fn ranked_by_stake() {
    let mut vs = ValidatorSet::new();
    vs.add(make_validator(100));
    vs.add(make_validator(500));
    vs.add(make_validator(250));
    let ranked = vs.ranked();
    assert_eq!(ranked[0].stake, 500);
    assert_eq!(ranked[1].stake, 250);
    assert_eq!(ranked[2].stake, 100);
}

fn make_validator_set(n: usize) -> (ValidatorSet, Vec<AccountId>) {
    let mut vs = ValidatorSet::new();
    let mut ids = Vec::new();
    for i in 0..n {
        let id = AccountId::from_bytes([i as u8; 32]);
        vs.add(ValidatorInfo {
            account_id: id,
            stake: 1_000_000,
            online: true,
            confirmations_issued: 0,
        });
        ids.push(id);
    }
    (vs, ids)
}

#[test]
fn threshold_reached_marks_final() {
    let (vs, ids) = make_validator_set(3);
    // threshold for 3 validators = ceil(2) = 2
    assert_eq!(vs.finality_threshold(), 2);

    let mut tracker = FinalityTracker::new();
    let tx_id = TxId::from_bytes([0xAB; 32]);
    let mut db = StateDb::new();

    let e1 = tracker.record_confirmation(&tx_id, &ids[0], &vs, &mut db).unwrap();
    assert!(!e1.is_final);
    assert_eq!(e1.confirmation_count, 1);

    let e2 = tracker.record_confirmation(&tx_id, &ids[1], &vs, &mut db).unwrap();
    assert!(e2.is_final);
    assert_eq!(e2.confirmation_count, 2);

    // After finalization, tracker should be cleaned up.
    assert_eq!(tracker.pending_count(), 0);
}

#[test]
fn duplicate_confirmation_ignored() {
    let (vs, ids) = make_validator_set(5);
    let mut tracker = FinalityTracker::new();
    let tx_id = TxId::from_bytes([0xCC; 32]);
    let mut db = StateDb::new();

    tracker.record_confirmation(&tx_id, &ids[0], &vs, &mut db);
    let dup = tracker.record_confirmation(&tx_id, &ids[0], &vs, &mut db);
    assert!(dup.is_none(), "duplicate confirmation should be ignored");
}

#[test]
fn pow_round_trip() {
    let body = b"test transaction body";
    let difficulty = 8; // easy for tests
    let nonce = mine_pow(body, difficulty).unwrap();
    assert!(verify_pow(body, nonce, difficulty));
    assert!(!verify_pow(body, nonce + 1, difficulty));
}

#[test]
fn leading_zeros_correct() {
    let mut hash = [0u8; 32];
    hash[0] = 0b00001111;
    assert_eq!(leading_zero_bits(&hash), 4);

    let mut hash2 = [0u8; 32];
    hash2[0] = 0b00000001;
    assert_eq!(leading_zero_bits(&hash2), 7);
}

#[test]
fn sign_verify_round_trip() {
    let (pk, sk) = pqcrypto_dilithium::dilithium2::keypair();
    let pk_bytes = chronx::types::DilithiumPublicKey(pk.as_bytes().to_vec());
    let message = b"the ledger for long-horizon human promises";

    let signer = ChronxSigner::from_secret_key_bytes(sk.as_bytes().to_vec(), pk.as_bytes().to_vec());
    let sig = signer.sign(message).unwrap();
    assert!(verify_signature(&pk_bytes, message, &sig).is_ok());
}

#[test]
fn tampered_message_fails() {
    let (pk, sk) = pqcrypto_dilithium::dilithium2::keypair();
    let pk_bytes = chronx::types::DilithiumPublicKey(pk.as_bytes().to_vec());
    let signer = ChronxSigner::from_secret_key_bytes(sk.as_bytes().to_vec(), pk.as_bytes().to_vec());
    let sig = signer.sign(b"original").unwrap();
    assert!(verify_signature(&pk_bytes, b"tampered", &sig).is_err());
}

fn test_params() -> GenesisParams {
    let ps = KeyPair::generate();
    let tr = KeyPair::generate();
    let hu = KeyPair::generate();
    GenesisParams {
        public_sale_key: ps.public_key.clone(),
        treasury_key: tr.public_key.clone(),
        humanity_key: hu.public_key.clone(),
    }
}

#[test]
fn genesis_supply_is_exact() {
    let mut db = StateDb::new();
    let params = test_params();

    let accounts = apply_genesis(&mut db, &params).expect("genesis must succeed");

    let ps_id = account_id_from_pubkey(&params.public_sale_key.0);
    assert_eq!(accounts.public_sale, ps_id);
    let ps_bal = db.get_account(&ps_id).unwrap().balance;

    let treasury_total: u128 = treasury_release_schedule()
        .iter()
        .map(|r| r.amount_chronos)
        .sum();
    let humanity = HUMANITY_STAKE_KX * CHRONOS_PER_KX;
    let milestone = MILESTONE_2076_KX * CHRONOS_PER_KX;
    let reserve = PROTOCOL_RESERVE_KX * CHRONOS_PER_KX;

    assert_eq!(
        ps_bal + treasury_total + humanity + milestone + reserve,
        TOTAL_SUPPLY_CHRONOS,
        "genesis total must equal the fixed supply"
    );

    // Applying genesis a second time must fail: the store is not empty.
    assert!(apply_genesis(&mut db, &params).is_err());
}

#[test]
fn treasury_lock_ids_are_unique() {
    let ids: Vec<_> = (1..=100).map(treasury_lock_id).collect();
    let unique: std::collections::HashSet<_> = ids.iter().collect();
    assert_eq!(unique.len(), 100);
}

#[test]
fn required_votes_is_threshold() {
    assert_eq!(required_votes(), 3);
}

#[test]
fn schedule_sums_to_treasury_total() {
    let schedule = treasury_release_schedule();
    let total: u128 = schedule.iter().map(|r| r.amount_chronos).sum();
    let expected = TREASURY_KX * 1_000_000;
    assert_eq!(total, expected, "treasury schedule must sum exactly");
}

#[test]
fn schedule_has_100_releases() {
    let schedule = treasury_release_schedule();
    assert_eq!(schedule.len(), 100);
}

#[test]
fn first_release_is_largest() {
    let schedule = treasury_release_schedule();
    let first = schedule[0].amount_chronos;
    let second = schedule[1].amount_chronos;
    assert!(first > second, "first release must be largest");
}

#[test]
fn release_99_year_is_2127() {
    let schedule = treasury_release_schedule();
    assert_eq!(schedule[98].year, 2127, "release 99 must align with the humanity stake");
}

#[test]
fn release_100_year_is_2128() {
    let schedule = treasury_release_schedule();
    assert_eq!(schedule[99].year, 2128);
}

#[test]
fn logarithmic_decline() {
    let schedule = treasury_release_schedule();
    for i in 1..schedule.len() {
        assert!(
            schedule[i].amount_chronos <= schedule[i - 1].amount_chronos,
            "each release should not exceed the previous one"
        );
    }
}

#[test]
fn body_bytes_are_deterministic() {
    let kp = KeyPair::generate();
    let tx = chronx::transaction::Transaction {
        tx_id: TxId::from_bytes([0u8; 32]),
        parents: vec![],
        timestamp: 1_000_000,
        nonce: 0,
        from: kp.account_id,
        actions: vec![chronx::transaction::Action::Transfer {
            to: AccountId::from_bytes([1u8; 32]),
            amount: 1_000_000,
        }],
        pow_nonce: 0,
        signatures: vec![],
        auth_scheme: chronx::transaction::AuthScheme::SingleSig,
        tx_version: 1,
        fee_chronos: 0,
        expires_at: None,
        sender_public_key: None,
    };
    let b1 = tx.body_bytes();
    let b2 = tx.body_bytes();
    assert_eq!(b1, b2);
    assert_eq!(tx_id_from_body(&b1), tx_id_from_body(&b2));
}
