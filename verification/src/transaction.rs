//! Transactions and actions, and their canonical body encoding.
//!
//! The body bytes — everything except `tx_id`, `signatures` and `pow_nonce` —
//! are what is hashed for the TxId and signed by the sender. The encoding is
//! the canonical deterministic layout from `codec`.

use vstd::prelude::*;

use crate::claims::Certificate;
use crate::codec::{
    append_bytes, enc_bool, enc_bytes, enc_i64, enc_str, enc_u128, enc_u16, enc_u32, enc_u64,
    enc_u8, put_bool, put_bytes, put_i64, put_str, put_u128, put_u16, put_u32, put_u64, put_u8,
};
use crate::timelock::{ExpiryPolicy, RecurringPolicy, SplitPolicy};
use crate::types::{
    AccountId, Balance, DilithiumPublicKey, DilithiumSignature, EvidenceHash, Nonce, TimeLockId,
    Timestamp, TxId,
};

verus! {

// ── AuthScheme ───────────────────────────────────────────────────────────────

/// Which authentication proof accompanies a transaction.
#[derive(Clone, Copy, PartialEq, Eq, Debug)]
pub enum AuthScheme {
    /// Single Dilithium2 signature.
    SingleSig,
    /// k-of-n Dilithium2 multisig.
    MultiSig { k: u32, n: u32 },
}

// ── Action ───────────────────────────────────────────────────────────────────

/// Every state-changing operation in the ledger is one of these variants.
#[derive(Clone, Debug)]
pub enum Action {
    /// Send funds from the sender to another account.
    Transfer { to: AccountId, amount: Balance },
    /// Lock `amount` Chronos until `unlock_at`; only the recipient may claim.
    TimeLockCreate {
        recipient: DilithiumPublicKey,
        amount: Balance,
        unlock_at: Timestamp,
        memo: Option<String>,
        cancellation_window_secs: Option<u32>,
        notify_recipient: Option<bool>,
        tags: Option<Vec<String>>,
        private: Option<bool>,
        expiry_policy: Option<ExpiryPolicy>,
        split_policy: Option<SplitPolicy>,
        claim_attempts_max: Option<u8>,
        recurring: Option<RecurringPolicy>,
        extension_data: Option<Vec<u8>>,
    },
    /// Claim a matured time-lock; callable only by the registered recipient.
    TimeLockClaim { lock_id: TimeLockId },
    /// Mark a time-lock for sale (scaffold; always rejected).
    TimeLockSell { lock_id: TimeLockId, ask_price: Balance },
    /// Cancel a time-lock within its cancellation window.
    CancelTimeLock { lock_id: TimeLockId },
    /// Initiate recovery of an account, posting a bond and evidence.
    StartRecovery {
        target_account: AccountId,
        proposed_owner_key: DilithiumPublicKey,
        evidence_hash: EvidenceHash,
        bond_amount: Balance,
    },
    /// Challenge an in-progress recovery.
    ChallengeRecovery {
        target_account: AccountId,
        counter_evidence_hash: EvidenceHash,
        bond_amount: Balance,
    },
    /// Finalize an approved recovery after the execution delay.
    FinalizeRecovery { target_account: AccountId },
    /// Register as a recovery verifier by staking collateral.
    RegisterVerifier { stake_amount: Balance },
    /// Cast a verifier vote on an active recovery.
    VoteRecovery { target_account: AccountId, approve: bool, fee_bid: Balance },
    /// Open the claims process for a matured policy lock.
    OpenClaim { lock_id: TimeLockId },
    /// Commit a hash of the claim payload with a bond.
    SubmitClaimCommit { lock_id: TimeLockId, commit_hash: [u8; 32], bond_amount: Balance },
    /// Reveal the payload and salt, with any required certificates.
    RevealClaim {
        lock_id: TimeLockId,
        payload: Vec<u8>,
        salt: [u8; 32],
        certificates: Vec<Certificate>,
    },
    /// Challenge a revealed claim with counter-evidence and a bond.
    ChallengeClaimReveal { lock_id: TimeLockId, evidence_hash: [u8; 32], bond_amount: Balance },
    /// Finalize a claim after the challenge window has closed.
    FinalizeClaim { lock_id: TimeLockId },
    /// Register the sender as a certificate provider.
    RegisterProvider { provider_class: String, jurisdictions: Vec<String>, bond_amount: Balance },
    /// Revoke a provider (self-revoke only).
    RevokeProvider { provider_id: AccountId },
    /// Rotate the active signing key for the caller's provider record.
    RotateProviderKey { new_public_key: DilithiumPublicKey },
    /// Register a new certificate schema on-chain.
    RegisterSchema {
        name: String,
        version: u32,
        required_fields_hash: [u8; 32],
        provider_class_thresholds: Vec<(String, u32)>,
        min_providers: u32,
        max_cert_age_secs: i64,
        bond_amount: Balance,
    },
    /// Deactivate a schema (no new claims may reference it).
    DeactivateSchema { schema_id: u64 },
    /// Submit a price observation; caller must be an "oracle" provider.
    SubmitOraclePrice { pair: String, price_cents: u64 },
}

// ── Transaction ──────────────────────────────────────────────────────────────

/// A fully-formed, signed transaction: a DAG vertex payload.
///
/// `tx_id` is the content hash of the canonical body bytes; the body excludes
/// `tx_id`, `signatures` and `pow_nonce`.
#[derive(Clone, Debug)]
pub struct Transaction {
    /// Unique identifier (content hash of the body bytes).
    pub tx_id: TxId,
    /// Parent vertex ids in the DAG (1–8 refs; 0 only for genesis).
    pub parents: Vec<TxId>,
    /// When this transaction was created (UTC Unix seconds).
    pub timestamp: Timestamp,
    /// Monotonically increasing per-account counter (replay protection).
    pub nonce: Nonce,
    /// The account authorizing this transaction.
    pub from: AccountId,
    /// The state transitions this transaction applies, in order.
    pub actions: Vec<Action>,
    /// PoW nonce: the PoW hash of `body_bytes ‖ pow_nonce` must meet the
    /// current difficulty.
    pub pow_nonce: u64,
    /// Proofs satisfying the sender's auth policy.
    pub signatures: Vec<DilithiumSignature>,
    /// Which auth scheme was used.
    pub auth_scheme: AuthScheme,
    /// Transaction struct version. 1 = current.
    pub tx_version: u16,
    /// Fee in Chronos; reserved, always 0 in the current protocol.
    pub fee_chronos: u128,
    /// If not applied by this time, the transaction is rejected.
    pub expires_at: Option<i64>,
    /// The sender's public key, required on the first transaction from an
    /// account created by Transfer; ignored when a key is already registered.
    pub sender_public_key: Option<DilithiumPublicKey>,
}

/// The borrowed body: the fields covered by the TxId hash and the signatures.
pub struct TransactionBody<'a> {
    pub parents: &'a Vec<TxId>,
    pub timestamp: Timestamp,
    pub nonce: Nonce,
    pub from: &'a AccountId,
    pub actions: &'a Vec<Action>,
    pub auth_scheme: &'a AuthScheme,
}

// ── Spec encoding of the body ────────────────────────────────────────────────

pub open spec fn enc_txid_seq(s: Seq<TxId>) -> Seq<u8>
    decreases s.len(),
{
    if s.len() == 0 {
        Seq::<u8>::empty()
    } else {
        s[0]@ + enc_txid_seq(s.drop_first())
    }
}

pub open spec fn enc_txids(s: Seq<TxId>) -> Seq<u8> {
    enc_u64(s.len() as u64) + enc_txid_seq(s)
}

pub open spec fn enc_opt_str(o: Option<String>) -> Seq<u8> {
    match o {
        None => seq![0u8],
        Some(s) => seq![1u8] + enc_str(s@),
    }
}

pub open spec fn enc_opt_bytes(o: Option<Vec<u8>>) -> Seq<u8> {
    match o {
        None => seq![0u8],
        Some(v) => seq![1u8] + enc_bytes(v@),
    }
}

pub open spec fn enc_opt_u32(o: Option<u32>) -> Seq<u8> {
    match o {
        None => seq![0u8],
        Some(x) => seq![1u8] + enc_u32(x),
    }
}

pub open spec fn enc_opt_u8(o: Option<u8>) -> Seq<u8> {
    match o {
        None => seq![0u8],
        Some(x) => seq![1u8, x],
    }
}

pub open spec fn enc_opt_bool(o: Option<bool>) -> Seq<u8> {
    match o {
        None => seq![0u8],
        Some(x) => seq![1u8] + enc_bool(x),
    }
}

pub open spec fn enc_str_seq(s: Seq<String>) -> Seq<u8>
    decreases s.len(),
{
    if s.len() == 0 {
        Seq::<u8>::empty()
    } else {
        enc_str(s[0]@) + enc_str_seq(s.drop_first())
    }
}

pub open spec fn enc_strs(s: Seq<String>) -> Seq<u8> {
    enc_u64(s.len() as u64) + enc_str_seq(s)
}

pub open spec fn enc_opt_strs(o: Option<Vec<String>>) -> Seq<u8> {
    match o {
        None => seq![0u8],
        Some(v) => seq![1u8] + enc_strs(v@),
    }
}

pub open spec fn enc_expiry(p: ExpiryPolicy) -> Seq<u8> {
    match p {
        ExpiryPolicy::ReturnToSender => seq![0u8],
        ExpiryPolicy::Burn => seq![1u8],
        ExpiryPolicy::RedirectTo(a) => seq![2u8] + a@,
    }
}

pub open spec fn enc_opt_expiry(o: Option<ExpiryPolicy>) -> Seq<u8> {
    match o {
        None => seq![0u8],
        Some(p) => seq![1u8] + enc_expiry(p),
    }
}

pub open spec fn enc_recurring(p: RecurringPolicy) -> Seq<u8> {
    match p {
        RecurringPolicy::Off => seq![0u8],
        RecurringPolicy::Weekly { count } => seq![1u8] + enc_u32(count),
        RecurringPolicy::Monthly { count } => seq![2u8] + enc_u32(count),
        RecurringPolicy::Annual { count } => seq![3u8] + enc_u32(count),
    }
}

pub open spec fn enc_opt_recurring(o: Option<RecurringPolicy>) -> Seq<u8> {
    match o {
        None => seq![0u8],
        Some(p) => seq![1u8] + enc_recurring(p),
    }
}

pub open spec fn enc_split_items(s: Seq<(AccountId, u16)>) -> Seq<u8>
    decreases s.len(),
{
    if s.len() == 0 {
        Seq::<u8>::empty()
    } else {
        s[0].0@ + enc_u16(s[0].1) + enc_split_items(s.drop_first())
    }
}

pub open spec fn enc_opt_split(o: Option<SplitPolicy>) -> Seq<u8> {
    match o {
        None => seq![0u8],
        Some(p) => seq![1u8] + enc_u64(p.recipients@.len() as u64) + enc_split_items(
            p.recipients@,
        ),
    }
}

pub open spec fn enc_cert(c: Certificate) -> Seq<u8> {
    enc_u64(c.schema_id) + c.issuer@ + enc_bytes(c.payload@) + enc_bytes(c.signature@)
}

pub open spec fn enc_cert_seq(s: Seq<Certificate>) -> Seq<u8>
    decreases s.len(),
{
    if s.len() == 0 {
        Seq::<u8>::empty()
    } else {
        enc_cert(s[0]) + enc_cert_seq(s.drop_first())
    }
}

pub open spec fn enc_certs(s: Seq<Certificate>) -> Seq<u8> {
    enc_u64(s.len() as u64) + enc_cert_seq(s)
}

pub open spec fn enc_threshold_items(s: Seq<(String, u32)>) -> Seq<u8>
    decreases s.len(),
{
    if s.len() == 0 {
        Seq::<u8>::empty()
    } else {
        enc_str(s[0].0@) + enc_u32(s[0].1) + enc_threshold_items(s.drop_first())
    }
}

pub open spec fn enc_auth_scheme(a: AuthScheme) -> Seq<u8> {
    match a {
        AuthScheme::SingleSig => seq![0u8],
        AuthScheme::MultiSig { k, n } => seq![1u8] + enc_u32(k) + enc_u32(n),
    }
}

/// The canonical encoding of one action: a tag byte, then the fields.
pub open spec fn enc_action(a: Action) -> Seq<u8> {
    match a {
        Action::Transfer { to, amount } => seq![0u8] + to@ + enc_u128(amount),
        Action::TimeLockCreate {
            recipient,
            amount,
            unlock_at,
            memo,
            cancellation_window_secs,
            notify_recipient,
            tags,
            private,
            expiry_policy,
            split_policy,
            claim_attempts_max,
            recurring,
            extension_data,
        } => seq![1u8] + enc_bytes(recipient@) + enc_u128(amount) + enc_i64(unlock_at)
            + enc_opt_str(memo) + enc_opt_u32(cancellation_window_secs) + enc_opt_bool(
            notify_recipient,
        ) + enc_opt_strs(tags) + enc_opt_bool(private) + enc_opt_expiry(expiry_policy)
            + enc_opt_split(split_policy) + enc_opt_u8(claim_attempts_max) + enc_opt_recurring(
            recurring,
        ) + enc_opt_bytes(extension_data),
        Action::TimeLockClaim { lock_id } => seq![2u8] + lock_id.0@,
        Action::TimeLockSell { lock_id, ask_price } => seq![3u8] + lock_id.0@ + enc_u128(
            ask_price,
        ),
        Action::CancelTimeLock { lock_id } => seq![4u8] + lock_id.0@,
        Action::StartRecovery {
            target_account,
            proposed_owner_key,
            evidence_hash,
            bond_amount,
        } => seq![5u8] + target_account@ + enc_bytes(proposed_owner_key@) + evidence_hash@
            + enc_u128(bond_amount),
        Action::ChallengeRecovery { target_account, counter_evidence_hash, bond_amount } => seq![
            6u8,
        ] + target_account@ + counter_evidence_hash@ + enc_u128(bond_amount),
        Action::FinalizeRecovery { target_account } => seq![7u8] + target_account@,
        Action::RegisterVerifier { stake_amount } => seq![8u8] + enc_u128(stake_amount),
        Action::VoteRecovery { target_account, approve, fee_bid } => seq![9u8] + target_account@
            + enc_bool(approve) + enc_u128(fee_bid),
        Action::OpenClaim { lock_id } => seq![10u8] + lock_id.0@,
        Action::SubmitClaimCommit { lock_id, commit_hash, bond_amount } => seq![11u8] + lock_id.0@
            + commit_hash@ + enc_u128(bond_amount),
        Action::RevealClaim { lock_id, payload, salt, certificates } => seq![12u8] + lock_id.0@
            + enc_bytes(payload@) + salt@ + enc_certs(certificates@),
        Action::ChallengeClaimReveal { lock_id, evidence_hash, bond_amount } => seq![13u8]
            + lock_id.0@ + evidence_hash@ + enc_u128(bond_amount),
        Action::FinalizeClaim { lock_id } => seq![14u8] + lock_id.0@,
        Action::RegisterProvider { provider_class, jurisdictions, bond_amount } => seq![15u8]
            + enc_str(provider_class@) + enc_strs(jurisdictions@) + enc_u128(bond_amount),
        Action::RevokeProvider { provider_id } => seq![16u8] + provider_id@,
        Action::RotateProviderKey { new_public_key } => seq![17u8] + enc_bytes(new_public_key@),
        Action::RegisterSchema {
            name,
            version,
            required_fields_hash,
            provider_class_thresholds,
            min_providers,
            max_cert_age_secs,
            bond_amount,
        } => seq![18u8] + enc_str(name@) + enc_u32(version) + required_fields_hash@ + enc_u64(
            provider_class_thresholds@.len() as u64,
        ) + enc_threshold_items(provider_class_thresholds@) + enc_u32(min_providers) + enc_i64(
            max_cert_age_secs,
        ) + enc_u128(bond_amount),
        Action::DeactivateSchema { schema_id } => seq![19u8] + enc_u64(schema_id),
        Action::SubmitOraclePrice { pair, price_cents } => seq![20u8] + enc_str(pair@) + enc_u64(
            price_cents,
        ),
    }
}

pub open spec fn enc_action_seq(s: Seq<Action>) -> Seq<u8>
    decreases s.len(),
{
    if s.len() == 0 {
        Seq::<u8>::empty()
    } else {
        enc_action(s[0]) + enc_action_seq(s.drop_first())
    }
}

pub open spec fn enc_actions(s: Seq<Action>) -> Seq<u8> {
    enc_u64(s.len() as u64) + enc_action_seq(s)
}

/// The canonical body bytes of a transaction: parents, timestamp, nonce,
/// sender, actions and auth scheme — without tx_id, signatures or pow_nonce.
pub open spec fn spec_body_bytes(t: Transaction) -> Seq<u8> {
    enc_txids(t.parents@) + enc_i64(t.timestamp) + enc_u64(t.nonce) + t.from@ + enc_actions(
        t.actions@,
    ) + enc_auth_scheme(t.auth_scheme)
}

// ── Executable encoders ──────────────────────────────────────────────────────

fn put_txids(out: &mut Vec<u8>, s: &Vec<TxId>)
    ensures
        final(out)@ == old(out)@ + enc_txids(s@),
{
    put_u64(out, s.len() as u64);
    let n: usize = s.len();
    let mut i: usize = 0;
    while i < n
        invariant
            n == s@.len(),
            i <= n,
            out@ == old(out)@ + enc_u64(s@.len() as u64) + enc_txid_seq(s@.take(i as int)),
        decreases n - i,
    {
        proof {
            lemma_enc_txid_seq_take(s@, i as int);
        }
        append_bytes(out, &s[i].0);
        i += 1;
    }
    proof {
        assert(s@.take(n as int) =~= s@);
    }
    assert(out@ =~= old(out)@ + enc_txids(s@));
}

proof fn lemma_enc_txid_seq_take(s: Seq<TxId>, i: int)
    requires
        0 <= i < s.len(),
    ensures
        enc_txid_seq(s.take(i + 1)) == enc_txid_seq(s.take(i)) + s[i]@,
    decreases i,
{
    let a = s.take(i + 1);
    let b = s.take(i);
    if i == 0 {
        assert(a =~= seq![s[0]]);
        assert(a.drop_first() =~= Seq::<TxId>::empty());
        assert(b =~= Seq::<TxId>::empty());
        assert(enc_txid_seq(a.drop_first()) =~= Seq::<u8>::empty());
        assert(enc_txid_seq(b) =~= Seq::<u8>::empty());
        assert(enc_txid_seq(a) =~= s[0]@);
    } else {
        lemma_enc_txid_seq_take(s.drop_first(), i - 1);
        assert(a.drop_first() =~= s.drop_first().take(i));
        assert(b.drop_first() =~= s.drop_first().take(i - 1));
        assert(s.drop_first()[i - 1] == s[i]);
        assert(enc_txid_seq(a) == a[0]@ + enc_txid_seq(a.drop_first()));
        assert(enc_txid_seq(b) == b[0]@ + enc_txid_seq(b.drop_first()));
        assert(enc_txid_seq(a) =~= enc_txid_seq(b) + s[i]@);
    }
}

fn put_opt_str(out: &mut Vec<u8>, o: &Option<String>)
    ensures
        final(out)@ == old(out)@ + enc_opt_str(*o),
{
    match o {
        None => put_u8(out, 0),
        Some(s) => {
            put_u8(out, 1);
            put_str(out, s.as_str());
            assert(out@ =~= old(out)@ + enc_opt_str(*o));
        },
    }
}

fn put_opt_bytes(out: &mut Vec<u8>, o: &Option<Vec<u8>>)
    ensures
        final(out)@ == old(out)@ + enc_opt_bytes(*o),
{
    match o {
        None => put_u8(out, 0),
        Some(v) => {
            put_u8(out, 1);
            put_bytes(out, v.as_slice());
            assert(out@ =~= old(out)@ + enc_opt_bytes(*o));
        },
    }
}

fn put_opt_u32(out: &mut Vec<u8>, o: &Option<u32>)
    ensures
        final(out)@ == old(out)@ + enc_opt_u32(*o),
{
    match o {
        None => put_u8(out, 0),
        Some(x) => {
            put_u8(out, 1);
            put_u32(out, *x);
            assert(out@ =~= old(out)@ + enc_opt_u32(*o));
        },
    }
}

fn put_opt_u8(out: &mut Vec<u8>, o: &Option<u8>)
    ensures
        final(out)@ == old(out)@ + enc_opt_u8(*o),
{
    match o {
        None => put_u8(out, 0),
        Some(x) => {
            put_u8(out, 1);
            put_u8(out, *x);
            assert(out@ =~= old(out)@ + enc_opt_u8(*o));
        },
    }
}

fn put_opt_bool(out: &mut Vec<u8>, o: &Option<bool>)
    ensures
        final(out)@ == old(out)@ + enc_opt_bool(*o),
{
    match o {
        None => put_u8(out, 0),
        Some(x) => {
            put_u8(out, 1);
            put_bool(out, *x);
            assert(out@ =~= old(out)@ + enc_opt_bool(*o));
        },
    }
}

fn put_strs(out: &mut Vec<u8>, s: &Vec<String>)
    ensures
        final(out)@ == old(out)@ + enc_strs(s@),
{
    put_u64(out, s.len() as u64);
    let n: usize = s.len();
    let mut i: usize = 0;
    while i < n
        invariant
            n == s@.len(),
            i <= n,
            out@ == old(out)@ + enc_u64(s@.len() as u64) + enc_str_seq(s@.take(i as int)),
        decreases n - i,
    {
        proof {
            lemma_enc_str_seq_take(s@, i as int);
        }
        put_str(out, s[i].as_str());
        i += 1;
    }
    proof {
        assert(s@.take(n as int) =~= s@);
    }
    assert(out@ =~= old(out)@ + enc_strs(s@));
}

proof fn lemma_enc_str_seq_take(s: Seq<String>, i: int)
    requires
        0 <= i < s.len(),
    ensures
        enc_str_seq(s.take(i + 1)) == enc_str_seq(s.take(i)) + enc_str(s[i]@),
    decreases i,
{
    let a = s.take(i + 1);
    let b = s.take(i);
    if i == 0 {
        assert(a =~= seq![s[0]]);
        assert(a.drop_first() =~= Seq::<String>::empty());
        assert(b =~= Seq::<String>::empty());
        assert(enc_str_seq(a.drop_first()) =~= Seq::<u8>::empty());
        assert(enc_str_seq(b) =~= Seq::<u8>::empty());
        assert(enc_str_seq(a) =~= enc_str(s[0]@));
    } else {
        lemma_enc_str_seq_take(s.drop_first(), i - 1);
        assert(a.drop_first() =~= s.drop_first().take(i));
        assert(b.drop_first() =~= s.drop_first().take(i - 1));
        assert(s.drop_first()[i - 1] == s[i]);
        assert(enc_str_seq(a) =~= enc_str_seq(b) + enc_str(s[i]@));
    }
}

fn put_opt_strs(out: &mut Vec<u8>, o: &Option<Vec<String>>)
    ensures
        final(out)@ == old(out)@ + enc_opt_strs(*o),
{
    match o {
        None => put_u8(out, 0),
        Some(v) => {
            put_u8(out, 1);
            put_strs(out, v);
            assert(out@ =~= old(out)@ + enc_opt_strs(*o));
        },
    }
}

fn put_opt_expiry(out: &mut Vec<u8>, o: &Option<ExpiryPolicy>)
    ensures
        final(out)@ == old(out)@ + enc_opt_expiry(*o),
{
    match o {
        None => put_u8(out, 0),
        Some(p) => {
            put_u8(out, 1);
            match p {
                ExpiryPolicy::ReturnToSender => put_u8(out, 0),
                ExpiryPolicy::Burn => put_u8(out, 1),
                ExpiryPolicy::RedirectTo(a) => {
                    put_u8(out, 2);
                    append_bytes(out, &a.0);
                },
            }
            assert(out@ =~= old(out)@ + enc_opt_expiry(*o));
        },
    }
}

fn put_opt_recurring(out: &mut Vec<u8>, o: &Option<RecurringPolicy>)
    ensures
        final(out)@ == old(out)@ + enc_opt_recurring(*o),
{
    match o {
        None => put_u8(out, 0),
        Some(p) => {
            put_u8(out, 1);
            match p {
                RecurringPolicy::Off => put_u8(out, 0),
                RecurringPolicy::Weekly { count } => {
                    put_u8(out, 1);
                    put_u32(out, *count);
                },
                RecurringPolicy::Monthly { count } => {
                    put_u8(out, 2);
                    put_u32(out, *count);
                },
                RecurringPolicy::Annual { count } => {
                    put_u8(out, 3);
                    put_u32(out, *count);
                },
            }
            assert(out@ =~= old(out)@ + enc_opt_recurring(*o));
        },
    }
}

fn put_opt_split(out: &mut Vec<u8>, o: &Option<SplitPolicy>)
    ensures
        final(out)@ == old(out)@ + enc_opt_split(*o),
{
    match o {
        None => put_u8(out, 0),
        Some(p) => {
            put_u8(out, 1);
            put_u64(out, p.recipients.len() as u64);
            let n: usize = p.recipients.len();
            let mut i: usize = 0;
            while i < n
                invariant
                    n == p.recipients@.len(),
                    i <= n,
                    out@ == old(out)@ + seq![1u8] + enc_u64(p.recipients@.len() as u64)
                        + enc_split_items(p.recipients@.take(i as int)),
                decreases n - i,
            {
                proof {
                    lemma_enc_split_take(p.recipients@, i as int);
                }
                let (a, bp) = &p.recipients[i];
                append_bytes(out, &a.0);
                put_u16(out, *bp);
                assert(out@ =~= old(out)@ + seq![1u8] + enc_u64(p.recipients@.len() as u64)
                    + enc_split_items(p.recipients@.take((i + 1) as int)));
                i += 1;
            }
            proof {
                assert(p.recipients@.take(n as int) =~= p.recipients@);
            }
            assert(out@ =~= old(out)@ + enc_opt_split(*o));
        },
    }
}

proof fn lemma_enc_split_take(s: Seq<(AccountId, u16)>, i: int)
    requires
        0 <= i < s.len(),
    ensures
        enc_split_items(s.take(i + 1)) == enc_split_items(s.take(i)) + s[i].0@ + enc_u16(s[i].1),
    decreases i,
{
    let a = s.take(i + 1);
    let b = s.take(i);
    if i == 0 {
        assert(a =~= seq![s[0]]);
        assert(a.drop_first() =~= Seq::<(AccountId, u16)>::empty());
        assert(b =~= Seq::<(AccountId, u16)>::empty());
        assert(enc_split_items(a.drop_first()) =~= Seq::<u8>::empty());
        assert(enc_split_items(b) =~= Seq::<u8>::empty());
        assert(enc_split_items(a) =~= s[0].0@ + enc_u16(s[0].1));
    } else {
        lemma_enc_split_take(s.drop_first(), i - 1);
        assert(a.drop_first() =~= s.drop_first().take(i));
        assert(b.drop_first() =~= s.drop_first().take(i - 1));
        assert(s.drop_first()[i - 1] == s[i]);
        assert(enc_split_items(a) =~= enc_split_items(b) + s[i].0@ + enc_u16(s[i].1));
    }
}

fn put_certs(out: &mut Vec<u8>, s: &Vec<Certificate>)
    ensures
        final(out)@ == old(out)@ + enc_certs(s@),
{
    put_u64(out, s.len() as u64);
    let n: usize = s.len();
    let mut i: usize = 0;
    while i < n
        invariant
            n == s@.len(),
            i <= n,
            out@ == old(out)@ + enc_u64(s@.len() as u64) + enc_cert_seq(s@.take(i as int)),
        decreases n - i,
    {
        proof {
            lemma_enc_cert_take(s@, i as int);
        }
        let c = &s[i];
        put_u64(out, c.schema_id);
        append_bytes(out, &c.issuer.0);
        put_bytes(out, c.payload.as_slice());
        put_bytes(out, c.signature.0.as_slice());
        assert(out@ =~= old(out)@ + enc_u64(s@.len() as u64) + enc_cert_seq(
            s@.take((i + 1) as int),
        ));
        i += 1;
    }
    proof {
        assert(s@.take(n as int) =~= s@);
    }
    assert(out@ =~= old(out)@ + enc_certs(s@));
}

proof fn lemma_enc_cert_take(s: Seq<Certificate>, i: int)
    requires
        0 <= i < s.len(),
    ensures
        enc_cert_seq(s.take(i + 1)) == enc_cert_seq(s.take(i)) + enc_cert(s[i]),
    decreases i,
{
    let a = s.take(i + 1);
    let b = s.take(i);
    if i == 0 {
        assert(a =~= seq![s[0]]);
        assert(a.drop_first() =~= Seq::<Certificate>::empty());
        assert(b =~= Seq::<Certificate>::empty());
        assert(enc_cert_seq(a.drop_first()) =~= Seq::<u8>::empty());
        assert(enc_cert_seq(b) =~= Seq::<u8>::empty());
        assert(enc_cert_seq(a) =~= enc_cert(s[0]));
    } else {
        lemma_enc_cert_take(s.drop_first(), i - 1);
        assert(a.drop_first() =~= s.drop_first().take(i));
        assert(b.drop_first() =~= s.drop_first().take(i - 1));
        assert(s.drop_first()[i - 1] == s[i]);
        assert(enc_cert_seq(a) =~= enc_cert_seq(b) + enc_cert(s[i]));
    }
}

fn put_thresholds(out: &mut Vec<u8>, s: &Vec<(String, u32)>)
    ensures
        final(out)@ == old(out)@ + enc_u64(s@.len() as u64) + enc_threshold_items(s@),
{
    put_u64(out, s.len() as u64);
    let n: usize = s.len();
    let mut i: usize = 0;
    while i < n
        invariant
            n == s@.len(),
            i <= n,
            out@ == old(out)@ + enc_u64(s@.len() as u64) + enc_threshold_items(s@.take(i as int)),
        decreases n - i,
    {
        proof {
            lemma_enc_threshold_take(s@, i as int);
        }
        let (name, c) = &s[i];
        put_str(out, name.as_str());
        put_u32(out, *c);
        assert(out@ =~= old(out)@ + enc_u64(s@.len() as u64) + enc_threshold_items(
            s@.take((i + 1) as int),
        ));
        i += 1;
    }
    proof {
        assert(s@.take(n as int) =~= s@);
    }
}

proof fn lemma_enc_threshold_take(s: Seq<(String, u32)>, i: int)
    requires
        0 <= i < s.len(),
    ensures
        enc_threshold_items(s.take(i + 1)) == enc_threshold_items(s.take(i)) + enc_str(s[i].0@)
            + enc_u32(s[i].1),
    decreases i,
{
    let a = s.take(i + 1);
    let b = s.take(i);
    if i == 0 {
        assert(a =~= seq![s[0]]);
        assert(a.drop_first() =~= Seq::<(String, u32)>::empty());
        assert(b =~= Seq::<(String, u32)>::empty());
        assert(enc_threshold_items(a.drop_first()) =~= Seq::<u8>::empty());
        assert(enc_threshold_items(b) =~= Seq::<u8>::empty());
        assert(enc_threshold_items(a) =~= enc_str(s[0].0@) + enc_u32(s[0].1));
    } else {
        lemma_enc_threshold_take(s.drop_first(), i - 1);
        assert(a.drop_first() =~= s.drop_first().take(i));
        assert(b.drop_first() =~= s.drop_first().take(i - 1));
        assert(s.drop_first()[i - 1] == s[i]);
        assert(enc_threshold_items(a) =~= enc_threshold_items(b) + enc_str(s[i].0@) + enc_u32(
            s[i].1,
        ));
    }
}

/// Append the canonical encoding of one action.
#[verifier::rlimit(100)]
pub fn put_action(out: &mut Vec<u8>, a: &Action)
    ensures
        final(out)@ == old(out)@ + enc_action(*a),
{
    match a {
        Action::Transfer { to, amount } => {
            put_u8(out, 0);
            append_bytes(out, &to.0);
            put_u128(out, *amount);
            assert(out@ =~= old(out)@ + enc_action(*a));
        },
        Action::TimeLockCreate {
            recipient,
            amount,
            unlock_at,
            memo,
            cancellation_window_secs,
            notify_recipient,
            tags,
            private,
            expiry_policy,
            split_policy,
            claim_attempts_max,
            recurring,
            extension_data,
        } => {
            put_u8(out, 1);
            put_bytes(out, recipient.0.as_slice());
            put_u128(out, *amount);
            put_i64(out, *unlock_at);
            put_opt_str(out, memo);
            put_opt_u32(out, cancellation_window_secs);
            put_opt_bool(out, notify_recipient);
            put_opt_strs(out, tags);
            put_opt_bool(out, private);
            put_opt_expiry(out, expiry_policy);
            put_opt_split(out, split_policy);
            put_opt_u8(out, claim_attempts_max);
            put_opt_recurring(out, recurring);
            put_opt_bytes(out, extension_data);
            assert(out@ =~= old(out)@ + enc_action(*a));
        },
        Action::TimeLockClaim { lock_id } => {
            put_u8(out, 2);
            append_bytes(out, &lock_id.0.0);
            assert(out@ =~= old(out)@ + enc_action(*a));
        },
        Action::TimeLockSell { lock_id, ask_price } => {
            put_u8(out, 3);
            append_bytes(out, &lock_id.0.0);
            put_u128(out, *ask_price);
            assert(out@ =~= old(out)@ + enc_action(*a));
        },
        Action::CancelTimeLock { lock_id } => {
            put_u8(out, 4);
            append_bytes(out, &lock_id.0.0);
            assert(out@ =~= old(out)@ + enc_action(*a));
        },
        Action::StartRecovery {
            target_account,
            proposed_owner_key,
            evidence_hash,
            bond_amount,
        } => {
            put_u8(out, 5);
            append_bytes(out, &target_account.0);
            put_bytes(out, proposed_owner_key.0.as_slice());
            append_bytes(out, &evidence_hash.0);
            put_u128(out, *bond_amount);
            assert(out@ =~= old(out)@ + enc_action(*a));
        },
        Action::ChallengeRecovery { target_account, counter_evidence_hash, bond_amount } => {
            put_u8(out, 6);
            append_bytes(out, &target_account.0);
            append_bytes(out, &counter_evidence_hash.0);
            put_u128(out, *bond_amount);
            assert(out@ =~= old(out)@ + enc_action(*a));
        },
        Action::FinalizeRecovery { target_account } => {
            put_u8(out, 7);
            append_bytes(out, &target_account.0);
            assert(out@ =~= old(out)@ + enc_action(*a));
        },
        Action::RegisterVerifier { stake_amount } => {
            put_u8(out, 8);
            put_u128(out, *stake_amount);
            assert(out@ =~= old(out)@ + enc_action(*a));
        },
        Action::VoteRecovery { target_account, approve, fee_bid } => {
            put_u8(out, 9);
            append_bytes(out, &target_account.0);
            put_bool(out, *approve);
            put_u128(out, *fee_bid);
            assert(out@ =~= old(out)@ + enc_action(*a));
        },
        Action::OpenClaim { lock_id } => {
            put_u8(out, 10);
            append_bytes(out, &lock_id.0.0);
            assert(out@ =~= old(out)@ + enc_action(*a));
        },
        Action::SubmitClaimCommit { lock_id, commit_hash, bond_amount } => {
            put_u8(out, 11);
            append_bytes(out, &lock_id.0.0);
            append_bytes(out, commit_hash);
            put_u128(out, *bond_amount);
            assert(out@ =~= old(out)@ + enc_action(*a));
        },
        Action::RevealClaim { lock_id, payload, salt, certificates } => {
            put_u8(out, 12);
            append_bytes(out, &lock_id.0.0);
            put_bytes(out, payload.as_slice());
            append_bytes(out, salt);
            put_certs(out, certificates);
            assert(out@ =~= old(out)@ + enc_action(*a));
        },
        Action::ChallengeClaimReveal { lock_id, evidence_hash, bond_amount } => {
            put_u8(out, 13);
            append_bytes(out, &lock_id.0.0);
            append_bytes(out, evidence_hash);
            put_u128(out, *bond_amount);
            assert(out@ =~= old(out)@ + enc_action(*a));
        },
        Action::FinalizeClaim { lock_id } => {
            put_u8(out, 14);
            append_bytes(out, &lock_id.0.0);
            assert(out@ =~= old(out)@ + enc_action(*a));
        },
        Action::RegisterProvider { provider_class, jurisdictions, bond_amount } => {
            put_u8(out, 15);
            put_str(out, provider_class.as_str());
            put_strs(out, jurisdictions);
            put_u128(out, *bond_amount);
            assert(out@ =~= old(out)@ + enc_action(*a));
        },
        Action::RevokeProvider { provider_id } => {
            put_u8(out, 16);
            append_bytes(out, &provider_id.0);
            assert(out@ =~= old(out)@ + enc_action(*a));
        },
        Action::RotateProviderKey { new_public_key } => {
            put_u8(out, 17);
            put_bytes(out, new_public_key.0.as_slice());
            assert(out@ =~= old(out)@ + enc_action(*a));
        },
        Action::RegisterSchema {
            name,
            version,
            required_fields_hash,
            provider_class_thresholds,
            min_providers,
            max_cert_age_secs,
            bond_amount,
        } => {
            put_u8(out, 18);
            put_str(out, name.as_str());
            put_u32(out, *version);
            append_bytes(out, required_fields_hash);
            put_thresholds(out, provider_class_thresholds);
            put_u32(out, *min_providers);
            put_i64(out, *max_cert_age_secs);
            put_u128(out, *bond_amount);
            assert(out@ =~= old(out)@ + enc_action(*a));
        },
        Action::DeactivateSchema { schema_id } => {
            put_u8(out, 19);
            put_u64(out, *schema_id);
            assert(out@ =~= old(out)@ + enc_action(*a));
        },
        Action::SubmitOraclePrice { pair, price_cents } => {
            put_u8(out, 20);
            put_str(out, pair.as_str());
            put_u64(out, *price_cents);
            assert(out@ =~= old(out)@ + enc_action(*a));
        },
    }
}

fn put_actions(out: &mut Vec<u8>, s: &Vec<Action>)
    ensures
        final(out)@ == old(out)@ + enc_actions(s@),
{
    put_u64(out, s.len() as u64);
    let n: usize = s.len();
    let mut i: usize = 0;
    while i < n
        invariant
            n == s@.len(),
            i <= n,
            out@ == old(out)@ + enc_u64(s@.len() as u64) + enc_action_seq(s@.take(i as int)),
        decreases n - i,
    {
        proof {
            lemma_enc_action_take(s@, i as int);
        }
        put_action(out, &s[i]);
        i += 1;
    }
    proof {
        assert(s@.take(n as int) =~= s@);
    }
    assert(out@ =~= old(out)@ + enc_actions(s@));
}

proof fn lemma_enc_action_take(s: Seq<Action>, i: int)
    requires
        0 <= i < s.len(),
    ensures
        enc_action_seq(s.take(i + 1)) == enc_action_seq(s.take(i)) + enc_action(s[i]),
    decreases i,
{
    let a = s.take(i + 1);
    let b = s.take(i);
    if i == 0 {
        assert(a =~= seq![s[0]]);
        assert(a.drop_first() =~= Seq::<Action>::empty());
        assert(b =~= Seq::<Action>::empty());
        assert(enc_action_seq(a.drop_first()) =~= Seq::<u8>::empty());
        assert(enc_action_seq(b) =~= Seq::<u8>::empty());
        assert(enc_action_seq(a) =~= enc_action(s[0]));
    } else {
        lemma_enc_action_take(s.drop_first(), i - 1);
        assert(a.drop_first() =~= s.drop_first().take(i));
        assert(b.drop_first() =~= s.drop_first().take(i - 1));
        assert(s.drop_first()[i - 1] == s[i]);
        assert(enc_action_seq(a) =~= enc_action_seq(b) + enc_action(s[i]));
    }
}

impl Transaction {
    /// Extract the borrowed body for hashing and signing; excludes tx_id,
    /// signatures and pow_nonce.
    pub fn body(&self) -> (r: TransactionBody<'_>)
        ensures
            r.parents == &self.parents,
            r.timestamp == self.timestamp,
            r.nonce == self.nonce,
            r.from == &self.from,
            r.actions == &self.actions,
            r.auth_scheme == &self.auth_scheme,
    {
        TransactionBody {
            parents: &self.parents,
            timestamp: self.timestamp,
            nonce: self.nonce,
            from: &self.from,
            actions: &self.actions,
            auth_scheme: &self.auth_scheme,
        }
    }

    /// Serialize the body to its canonical bytes.
    pub fn body_bytes(&self) -> (r: Vec<u8>)
        ensures
            r@ == spec_body_bytes(*self),
    {
        let mut out: Vec<u8> = Vec::new();
        put_txids(&mut out, &self.parents);
        put_i64(&mut out, self.timestamp);
        put_u64(&mut out, self.nonce);
        append_bytes(&mut out, &self.from.0);
        put_actions(&mut out, &self.actions);
        match &self.auth_scheme {
            AuthScheme::SingleSig => put_u8(&mut out, 0),
            AuthScheme::MultiSig { k, n } => {
                put_u8(&mut out, 1);
                put_u32(&mut out, *k);
                put_u32(&mut out, *n);
            },
        }
        assert(out@ =~= spec_body_bytes(*self));
        out
    }
}

} // verus!
