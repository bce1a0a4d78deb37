//! Fixed-width identifier types and scalar aliases for the ledger.

use vstd::prelude::*;

use vstd::array::ArrayAdditionalExecFns;
use vstd::string::StringSliceAdditionalSpecFns;

verus! {

/// Balance in Chronos (1 KX = 1_000_000 Chronos). u128 holds the full supply
/// of 8_270_000_000_000_000 Chronos with room to spare.
pub type Balance = u128;

/// Unix timestamp (seconds, UTC).
pub type Timestamp = i64;

/// Transaction sequence number per account (monotonically increasing).
pub type Nonce = u64;

// ── AccountId ────────────────────────────────────────────────────────────────

/// 32-byte account identifier derived as the content hash of the owner's
/// public key.
#[derive(Clone, Copy, PartialEq, Eq, Hash, Debug)]
pub struct AccountId(pub [u8; 32]);

impl View for AccountId {
    type V = Seq<u8>;

    open spec fn view(&self) -> Seq<u8> {
        self.0@
    }
}

impl AccountId {
    pub fn from_bytes(b: [u8; 32]) -> (r: Self)
        ensures
            r.0 == b,
    {
        AccountId(b)
    }

    pub fn as_bytes(&self) -> (r: &[u8; 32])
        ensures
            r == self.0,
    {
        &self.0
    }

    /// Structural equality on the 32 raw bytes.
    pub fn same(&self, other: &AccountId) -> (r: bool)
        ensures
            r == (self@ == other@),
    {
        bytes32_eq(&self.0, &other.0)
    }
}

// ── TxId ─────────────────────────────────────────────────────────────────────

/// 32-byte transaction identifier: content hash of the canonical serialized
/// transaction body.
#[derive(Clone, Copy, PartialEq, Eq, Hash, Debug)]
pub struct TxId(pub [u8; 32]);

impl View for TxId {
    type V = Seq<u8>;

    open spec fn view(&self) -> Seq<u8> {
        self.0@
    }
}

impl TxId {
    pub fn from_bytes(b: [u8; 32]) -> (r: Self)
        ensures
            r.0 == b,
    {
        TxId(b)
    }

    pub fn as_bytes(&self) -> (r: &[u8; 32])
        ensures
            r == self.0,
    {
        &self.0
    }

    /// Structural equality on the 32 raw bytes.
    pub fn same(&self, other: &TxId) -> (r: bool)
        ensures
            r == (self@ == other@),
    {
        bytes32_eq(&self.0, &other.0)
    }
}

// ── TimeLockId ───────────────────────────────────────────────────────────────

/// Unique identifier for a time-lock contract: the TxId of the creating
/// transaction.
#[derive(Clone, Copy, PartialEq, Eq, Hash, Debug)]
pub struct TimeLockId(pub TxId);

// ── Post-quantum key material ────────────────────────────────────────────────

/// Dilithium2 public key (1312 bytes per NIST FIPS 204).
#[derive(Debug)]
pub struct DilithiumPublicKey(pub Vec<u8>);

impl View for DilithiumPublicKey {
    type V = Seq<u8>;

    open spec fn view(&self) -> Seq<u8> {
        self.0@
    }
}

impl Clone for DilithiumPublicKey {
    fn clone(&self) -> (r: Self)
        ensures
            r@ == self@,
    {
        DilithiumPublicKey(clone_bytes(&self.0))
    }
}

impl DilithiumPublicKey {
    /// Structural equality on the raw key bytes.
    pub fn same(&self, other: &DilithiumPublicKey) -> (r: bool)
        ensures
            r == (self@ == other@),
    {
        bytes_eq(self.0.as_slice(), other.0.as_slice())
    }
}

/// Dilithium2 detached signature (2420 bytes per NIST FIPS 204).
#[derive(Debug)]
pub struct DilithiumSignature(pub Vec<u8>);

impl View for DilithiumSignature {
    type V = Seq<u8>;

    open spec fn view(&self) -> Seq<u8> {
        self.0@
    }
}

impl Clone for DilithiumSignature {
    fn clone(&self) -> (r: Self)
        ensures
            r@ == self@,
    {
        DilithiumSignature(clone_bytes(&self.0))
    }
}

// ── EvidenceHash ─────────────────────────────────────────────────────────────

/// 32-byte hash committing to off-chain recovery evidence. The protocol does
/// not interpret this data; it is a commitment only.
#[derive(Clone, Copy, PartialEq, Eq, Debug)]
pub struct EvidenceHash(pub [u8; 32]);

impl View for EvidenceHash {
    type V = Seq<u8>;

    open spec fn view(&self) -> Seq<u8> {
        self.0@
    }
}

// ── Byte helpers ─────────────────────────────────────────────────────────────

/// Compare two byte slices for element-wise equality.
pub fn bytes_eq(a: &[u8], b: &[u8]) -> (r: bool)
    ensures
        r == (a@ == b@),
{
    if a.len() != b.len() {
        assert(a@.len() != b@.len());
        return false;
    }
    let n: usize = a.len();
    let mut i: usize = 0;
    while i < n
        invariant
            n == a@.len() == b@.len(),
            i <= n,
            forall|j: int| 0 <= j < i ==> a@[j] == b@[j],
        decreases n - i,
    {
        if a[i] != b[i] {
            return false;
        }
        i += 1;
    }
    assert(a@ =~= b@);
    true
}

/// Compare two 32-byte arrays for element-wise equality.
pub fn bytes32_eq(a: &[u8; 32], b: &[u8; 32]) -> (r: bool)
    ensures
        r == (a@ == b@),
{
    bytes_eq(a.as_slice(), b.as_slice())
}

/// Copy a byte vector.
pub fn clone_bytes(v: &Vec<u8>) -> (r: Vec<u8>)
    ensures
        r@ == v@,
{
    let mut out: Vec<u8> = Vec::new();
    let n: usize = v.len();
    let mut i: usize = 0;
    while i < n
        invariant
            n == v@.len(),
            i <= n,
            out@ == v@.subrange(0, i as int),
        decreases n - i,
    {
        out.push(v[i]);
        i += 1;
    }
    assert(out@ =~= v@);
    out
}


// ── Hex rendering ────────────────────────────────────────────────────────────

/// The lower-case hex digit byte for a value below 16.
pub open spec fn spec_hex_digit(n: int) -> u8 {
    if n < 10 {
        (48 + n) as u8
    } else {
        (87 + n) as u8
    }
}

/// The ASCII bytes of the lower-case hex rendering of a byte string.
pub open spec fn spec_hex_bytes(b: Seq<u8>) -> Seq<u8> {
    Seq::new(
        2 * b.len(),
        |i: int|
            if i % 2 == 0 {
                spec_hex_digit((b[i / 2] as int) / 16)
            } else {
                spec_hex_digit((b[i / 2] as int) % 16)
            },
    )
}

/// The characters of the lower-case hex rendering of a byte string.
pub open spec fn spec_hex_str(b: Seq<u8>) -> Seq<char> {
    Seq::new(2 * b.len(), |i: int| spec_hex_bytes(b)[i] as char)
}

/// The value of a hex digit character, either case; -1 for anything else.
pub open spec fn spec_hex_val(c: char) -> int {
    if '0' <= c <= '9' {
        c as int - 48
    } else if 'a' <= c <= 'f' {
        c as int - 87
    } else if 'A' <= c <= 'F' {
        c as int - 55
    } else {
        -1
    }
}

/// The value of a hex digit byte, either case; -1 for anything else.
pub open spec fn spec_hex_byte_val(b: u8) -> int {
    if 48 <= b <= 57 {
        b as int - 48
    } else if 97 <= b <= 102 {
        b as int - 87
    } else if 65 <= b <= 70 {
        b as int - 55
    } else {
        -1
    }
}

/// A string of exactly 64 hex digit characters.
pub open spec fn spec_is_hex64(s: Seq<char>) -> bool {
    s.len() == 64 && (forall|i: int| 0 <= i < s.len() ==> spec_hex_val(#[trigger] s[i]) >= 0)
}

/// The bytes encoded by a string of hex digit character pairs.
pub open spec fn spec_hex_decode(s: Seq<char>) -> Seq<u8> {
    Seq::new(s.len() / 2, |i: int| (16 * spec_hex_val(s[2 * i]) + spec_hex_val(s[2 * i + 1])) as u8)
}

proof fn lemma_hex_val_byte_char(b: u8)
    requires
        b < 128,
    ensures
        spec_hex_val(b as char) == spec_hex_byte_val(b),
{
}

proof fn lemma_hex_val_char_byte(c: char)
    requires
        c <= '\u{7f}',
    ensures
        spec_hex_byte_val(c as u8) == spec_hex_val(c),
{
}

/// The hex rendering is ASCII: its UTF-8 encoding is the digit bytes
/// themselves, and decoding those bytes gives the rendering back.
proof fn lemma_hex_str_encode(b: Seq<u8>)
    ensures
        vstd::utf8::encode_utf8(spec_hex_str(b)) =~= spec_hex_bytes(b),
        vstd::utf8::valid_utf8(spec_hex_bytes(b)),
        vstd::utf8::decode_utf8(spec_hex_bytes(b)) == spec_hex_str(b),
{
    assert(vstd::utf8::is_ascii_chars(spec_hex_str(b))) by {
        assert forall|i: int| 0 <= i < spec_hex_str(b).len() implies '\0'
            <= #[trigger] spec_hex_str(b)[i] <= '\u{7f}' by {
            assert(spec_hex_bytes(b)[i] < 128);
        }
    }
    vstd::utf8::is_ascii_chars_encode_utf8(spec_hex_str(b));
    assert(vstd::utf8::encode_utf8(spec_hex_str(b)) =~= spec_hex_bytes(b));
    vstd::utf8::encode_utf8_valid_utf8(spec_hex_str(b));
    vstd::utf8::encode_utf8_decode_utf8(spec_hex_str(b));
}

/// A string whose UTF-8 encoding is all ASCII reads character-by-character
/// as those bytes.
proof fn lemma_ascii_str_chars(s: &str)
    requires
        forall|i: int| 0 <= i < s.spec_bytes().len() ==> #[trigger] s.spec_bytes()[i] < 128,
    ensures
        s@.len() == s.spec_bytes().len(),
        forall|i: int| 0 <= i < s@.len() ==> #[trigger] s@[i] == (s.spec_bytes()[i] as char),
{
    let bytes = s.spec_bytes();
    let cs = Seq::new(bytes.len(), |i: int| bytes[i] as char);
    assert(vstd::utf8::is_ascii_chars(cs)) by {
        assert forall|i: int| 0 <= i < cs.len() implies '\0' <= #[trigger] cs[i] <= '\u{7f}' by {
            assert(bytes[i] < 128);
        }
    }
    vstd::utf8::is_ascii_chars_encode_utf8(cs);
    assert(vstd::utf8::encode_utf8(cs) =~= bytes);
    vstd::utf8::encode_utf8_decode_utf8(cs);
    vstd::utf8::encode_utf8_decode_utf8(s@);
    assert(s@ == cs);
}

/// Lower-case hex digit byte for a nibble.
fn hex_digit(n: u8) -> (r: u8)
    requires
        n < 16,
    ensures
        r == spec_hex_digit(n as int),
{
    if n < 10 {
        48 + n
    } else {
        87 + n
    }
}

/// The value of a hex digit byte; 255 for anything else.
fn hex_val_of_byte(b: u8) -> (r: u8)
    ensures
        spec_hex_byte_val(b) >= 0 ==> r < 16 && r as int == spec_hex_byte_val(b),
        spec_hex_byte_val(b) < 0 ==> r == 255,
{
    if b >= 48 && b <= 57 {
        b - 48
    } else if b >= 97 && b <= 102 {
        b - 87
    } else if b >= 65 && b <= 70 {
        b - 55
    } else {
        255
    }
}

/// Render a byte string as lower-case hex.
pub fn hex_string_of(b: &[u8]) -> (r: String)
    ensures
        r@ == spec_hex_str(b@),
{
    let n: usize = b.len();
    let mut out: Vec<u8> = Vec::new();
    let mut i: usize = 0;
    while i < n
        invariant
            n == b@.len(),
            i <= n,
            out@.len() == 2 * i,
            forall|j: int| 0 <= j < out@.len() ==> out@[j] == spec_hex_bytes(b@)[j],
        decreases n - i,
    {
        let hi = b[i] / 16;
        let lo = b[i] % 16;
        out.push(hex_digit(hi));
        out.push(hex_digit(lo));
        i += 1;
    }
    assert(out@ =~= spec_hex_bytes(b@));
    proof {
        lemma_hex_str_encode(b@);
    }
    match crate::codec::bytes_to_string(out) {
        Some(s) => s,
        None => {
            proof {
                assert(false);
            }
            String::new()
        },
    }
}

/// Parse a string of exactly 64 hex digits (either case) into 32 bytes.
fn hex32_of_str(s: &str) -> (r: Option<[u8; 32]>)
    ensures
        r is Some <==> spec_is_hex64(s@),
        r matches Some(arr) ==> arr@ == spec_hex_decode(s@),
{
    let bytes: &[u8] = s.as_bytes();
    if bytes.len() != 64 {
        proof {
            if spec_is_hex64(s@) {
                assert(vstd::utf8::is_ascii_chars(s@)) by {
                    assert forall|i: int| 0 <= i < s@.len() implies '\0' <= #[trigger] s@[i]
                        <= '\u{7f}' by {
                        assert(spec_hex_val(s@[i]) >= 0);
                    }
                }
                vstd::utf8::is_ascii_chars_encode_utf8(s@);
                assert(false);
            }
        }
        return None;
    }
    let mut arr = [0u8; 32];
    let mut i: usize = 0;
    while i < 32
        invariant
            bytes@.len() == 64,
            bytes@ == s.spec_bytes(),
            i <= 32,
            arr@.len() == 32,
            forall|j: int| 0 <= j < 2 * i ==> spec_hex_byte_val(#[trigger] bytes@[j]) >= 0,
            forall|j: int|
                0 <= j < i ==> arr@[j] == (16 * spec_hex_byte_val(bytes@[2 * j])
                    + spec_hex_byte_val(bytes@[2 * j + 1])) as u8,
        decreases 32 - i,
    {
        let hi = hex_val_of_byte(bytes[2 * i]);
        let lo = hex_val_of_byte(bytes[2 * i + 1]);
        if hi == 255 || lo == 255 {
            proof {
                let bad: int = if hi == 255 {
                    2 * i
                } else {
                    2 * i + 1
                };
                assert(spec_hex_byte_val(bytes@[bad]) < 0);
                if spec_is_hex64(s@) {
                    assert(vstd::utf8::is_ascii_chars(s@)) by {
                        assert forall|k: int| 0 <= k < s@.len() implies '\0' <= #[trigger] s@[k]
                            <= '\u{7f}' by {
                            assert(spec_hex_val(s@[k]) >= 0);
                        }
                    }
                    vstd::utf8::is_ascii_chars_encode_utf8(s@);
                    assert(bytes@[bad] == s@[bad] as u8);
                    lemma_hex_val_char_byte(s@[bad]);
                    assert(false);
                }
            }
            return None;
        }
        arr.set(i, 16 * hi + lo);
        i += 1;
    }
    proof {
        assert forall|j: int| 0 <= j < 64 implies #[trigger] bytes@[j] < 128 by {
            assert(spec_hex_byte_val(bytes@[j]) >= 0);
        }
        lemma_ascii_str_chars(s);
        assert forall|j: int| 0 <= j < s@.len() implies spec_hex_val(#[trigger] s@[j]) >= 0 by {
            assert(s@[j] == bytes@[j] as char);
            lemma_hex_val_byte_char(bytes@[j]);
        }
        assert(spec_is_hex64(s@));
        assert forall|j: int| 0 <= j < 32 implies #[trigger] arr@[j] == spec_hex_decode(s@)[j] by {
            assert(s@[2 * j] == bytes@[2 * j] as char);
            assert(s@[2 * j + 1] == bytes@[2 * j + 1] as char);
            lemma_hex_val_byte_char(bytes@[2 * j]);
            lemma_hex_val_byte_char(bytes@[2 * j + 1]);
        }
        assert(arr@ =~= spec_hex_decode(s@));
    }
    Some(arr)
}


impl TxId {
    /// Lower-case hex rendering of the id bytes.
    pub fn to_hex(&self) -> (r: String)
        ensures
            r@ == spec_hex_str(self@),
    {
        hex_string_of(self.0.as_slice())
    }

    /// Parse a 64-digit hex string (either case) into an id.
    pub fn from_hex(s: &str) -> (r: Result<TxId, crate::errors::ChronxError>)
        ensures
            r is Ok <==> spec_is_hex64(s@),
            r matches Ok(t) ==> t@ == spec_hex_decode(s@),
            r matches Err(e) ==> e is Serialization,
    {
        match hex32_of_str(s) {
            Some(arr) => Ok(TxId(arr)),
            None => Err(crate::errors::ChronxError::Serialization),
        }
    }
}

impl EvidenceHash {
    /// Lower-case hex rendering of the evidence hash bytes.
    pub fn to_hex(&self) -> (r: String)
        ensures
            r@ == spec_hex_str(self@),
    {
        hex_string_of(self.0.as_slice())
    }
}

// ── Base-58 rendering ────────────────────────────────────────────────────────

/// The base-58 (Bitcoin alphabet) rendering of a byte string.
pub uninterp spec fn b58_of(b: Seq<u8>) -> Seq<char>;

/// The bytes a base-58 string decodes to, if it is well formed.
pub uninterp spec fn b58_bytes_of(s: Seq<char>) -> Option<Seq<u8>>;

/// Relies on bs58::encode with the default (Bitcoin) alphabet: the rendering
/// is a pure function of the input bytes, and decoding it returns them.
#[verifier::external_body]
fn b58_encode(b: &[u8]) -> (r: String)
    ensures
        r@ == b58_of(b@),
        b58_bytes_of(r@) == Some(b@),
{
    bs58::encode(b).into_string()
}

/// Relies on bs58::decode with the default alphabet: whether the string is
/// well formed, and the bytes it decodes to, are a pure function of the
/// input characters.
#[verifier::external_body]
fn b58_decode(s: &str) -> (r: Option<Vec<u8>>)
    ensures
        match r {
            Some(v) => b58_bytes_of(s@) == Some(v@),
            None => b58_bytes_of(s@) is None,
        },
{
    match bs58::decode(s).into_vec() {
        Ok(v) => Some(v),
        Err(_) => None,
    }
}

impl AccountId {
    /// Base-58 rendering of the 32 id bytes.
    pub fn to_b58(&self) -> (r: String)
        ensures
            r@ == b58_of(self@),
            b58_bytes_of(r@) == Some(self@),
    {
        b58_encode(self.0.as_slice())
    }

    /// Parse a base-58 string whose decoding holds at least 32 bytes; the id
    /// is the first 32 of them.
    pub fn from_b58(s: &str) -> (r: Result<AccountId, crate::errors::ChronxError>)
        ensures
            r is Ok <==> (b58_bytes_of(s@) matches Some(v) && v.len() >= 32),
            r matches Ok(a) ==> (b58_bytes_of(s@) matches Some(v) && a@ == v.take(32)),
            r matches Err(e) ==> e is Serialization,
    {
        match b58_decode(s) {
            Some(v) => {
                if v.len() < 32 {
                    return Err(crate::errors::ChronxError::Serialization);
                }
                let mut arr = [0u8; 32];
                let mut i: usize = 0;
                while i < 32
                    invariant
                        v@.len() >= 32,
                        i <= 32,
                        arr@.len() == 32,
                        forall|j: int| 0 <= j < i ==> arr@[j] == v@[j],
                    decreases 32 - i,
                {
                    arr.set(i, v[i]);
                    i += 1;
                }
                proof {
                    assert(arr@ =~= v@.take(32));
                }
                Ok(AccountId(arr))
            },
            None => Err(crate::errors::ChronxError::Serialization),
        }
    }
}

} // verus!
