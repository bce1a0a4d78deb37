//! The peer-to-peer gossip layer's message frame: the four messages peers
//! exchange and their canonical byte codec. Transport itself is outside the
//! library; it hands frames in and out as plain bytes.

use vstd::prelude::*;
use vstd::slice::slice_subrange;

use crate::codec::{
    append_bytes, dec_u64, enc_bytes, enc_u64, enc_u8, lemma_dec_bytes,
    lemma_dec_u64, put_bytes, put_u64, put_u8, read_bytes, read_u64, read_u8,
};
use crate::errors::ChronxError;
use crate::types::TxId;

verus! {

/// Configuration of the peer-to-peer network layer.
pub struct P2pConfig {
    /// Local listen address.
    pub listen_addr: String,
    /// Bootstrap peer addresses.
    pub bootstrap_peers: Vec<String>,
    /// Protocol version string advertised to peers.
    pub protocol_version: String,
    /// Topic name for broadcasting new vertices.
    pub vertex_topic: String,
}

impl Default for P2pConfig {
    fn default() -> (r: Self)
        ensures
            r.listen_addr@ == "/ip4/0.0.0.0/tcp/7777"@,
            r.bootstrap_peers@.len() == 0,
            r.protocol_version@ == "/chronx/1.0.0"@,
            r.vertex_topic@ == "chronx-vertices"@,
    {
        P2pConfig {
            listen_addr: "/ip4/0.0.0.0/tcp/7777".to_owned(),
            bootstrap_peers: Vec::new(),
            protocol_version: "/chronx/1.0.0".to_owned(),
            vertex_topic: "chronx-vertices".to_owned(),
        }
    }
}

/// A message exchanged between peers.
pub enum P2pMessage {
    /// A peer broadcasts a newly signed vertex; the payload carries the
    /// serialized transaction.
    NewVertex { payload: Vec<u8> },
    /// Request a specific vertex by its id during sync.
    RequestVertex { tx_id: TxId },
    /// The current set of DAG tip ids.
    SyncTips { tips: Vec<TxId> },
    /// Ask a peer for its current tip set.
    RequestTips,
}

/// The concatenated raw bytes of the first `k` tip ids.
pub open spec fn enc_tips(tips: Seq<TxId>, k: int) -> Seq<u8>
    decreases k,
{
    if k <= 0 {
        Seq::empty()
    } else {
        enc_tips(tips, k - 1) + tips[k - 1]@
    }
}

impl P2pMessage {
    /// Variable-length fields fit their length prefix.
    pub open spec fn wf(self) -> bool {
        match self {
            P2pMessage::NewVertex { payload } => payload@.len() <= u64::MAX,
            P2pMessage::SyncTips { tips } => tips@.len() <= u64::MAX,
            _ => true,
        }
    }

    /// The byte encoding: a tag byte, then the variant's fields.
    pub open spec fn spec_bytes_of(self) -> Seq<u8> {
        match self {
            P2pMessage::NewVertex { payload } => enc_u8(0) + enc_bytes(payload@),
            P2pMessage::RequestVertex { tx_id } => enc_u8(1) + tx_id@,
            P2pMessage::SyncTips { tips } => enc_u8(2) + enc_u64(tips@.len() as u64) + enc_tips(
                tips@,
                tips@.len() as int,
            ),
            P2pMessage::RequestTips => enc_u8(3),
        }
    }
}

proof fn lemma_enc_tips_len(tips: Seq<TxId>, k: int)
    requires
        0 <= k <= tips.len(),
    ensures
        enc_tips(tips, k).len() == 32 * k,
    decreases k,
{
    if k > 0 {
        lemma_enc_tips_len(tips, k - 1);
        assert(tips[k - 1]@.len() == 32);
    }
}

proof fn lemma_enc_tips_prefix(a: Seq<TxId>, b: Seq<TxId>, k: int)
    requires
        0 <= k <= a.len(),
        k <= b.len(),
        forall|t: int| 0 <= t < k ==> a[t] == b[t],
    ensures
        enc_tips(a, k) == enc_tips(b, k),
    decreases k,
{
    if k > 0 {
        lemma_enc_tips_prefix(a, b, k - 1);
    }
}

impl P2pMessage {
    /// Serialize for gossip propagation.
    pub fn to_bytes(&self) -> (r: Vec<u8>)
        ensures
            r@ == self.spec_bytes_of(),
    {
        let mut out: Vec<u8> = Vec::new();
        match self {
            P2pMessage::NewVertex { payload } => {
                put_u8(&mut out, 0);
                put_bytes(&mut out, payload.as_slice());
                assert(out@ =~= self.spec_bytes_of());
            },
            P2pMessage::RequestVertex { tx_id } => {
                put_u8(&mut out, 1);
                append_bytes(&mut out, tx_id.0.as_slice());
                assert(out@ =~= self.spec_bytes_of());
            },
            P2pMessage::SyncTips { tips } => {
                put_u8(&mut out, 2);
                put_u64(&mut out, tips.len() as u64);
                let n: usize = tips.len();
                let mut k: usize = 0;
                #[verifier::loop_isolation(false)]
                while k < n
                    invariant
                        k <= n,
                        out@ == enc_u8(2) + enc_u64(tips@.len() as u64) + enc_tips(
                            tips@,
                            k as int,
                        ),
                    decreases n - k,
                {
                    let tip = tips[k];
                    append_bytes(&mut out, tip.0.as_slice());
                    proof {
                        assert(out@ =~= enc_u8(2) + enc_u64(tips@.len() as u64) + enc_tips(
                            tips@,
                            k + 1,
                        ));
                    }
                    k += 1;
                }
                assert(out@ =~= self.spec_bytes_of());
            },
            P2pMessage::RequestTips => {
                put_u8(&mut out, 3);
                assert(out@ =~= self.spec_bytes_of());
            },
        }
        out
    }

    /// Parse a gossip frame. Exactly the well-formed encodings parse: a
    /// frame that is not the encoding of any message is rejected.
    pub fn from_bytes(b: &[u8]) -> (r: Result<P2pMessage, ChronxError>)
        ensures
            r matches Ok(m) ==> m.wf() && m.spec_bytes_of() == b@,
            r matches Err(e) ==> e is Serialization && (forall|m: P2pMessage|
                m.wf() ==> (#[trigger] m.spec_bytes_of()) != b@),
    {
        let (tag, j) = match read_u8(b, 0) {
            Some(x) => x,
            None => {
                proof {
                    assert forall|m: P2pMessage| m.wf() implies (#[trigger] m.spec_bytes_of())
                        != b@ by {
                        assert(m.spec_bytes_of().len() >= 1);
                    }
                }
                return Err(ChronxError::Serialization);
            },
        };
        proof {
            assert(b@[0] == tag && j == 1);
        }
        if tag == 0 {
            match read_bytes(b, 1) {
                Some((payload, j2)) => {
                    if j2 == b.len() {
                        let m = P2pMessage::NewVertex { payload };
                        proof {
                            vstd::bytes::lemma_auto_spec_u64_to_from_le_bytes();
                            let n = m->NewVertex_payload@.len() as int;
                            assert(dec_u64(b@, 1) == Some(
                                (m->NewVertex_payload@.len() as u64, 9int),
                            ));
                            assert(b@.subrange(1, 9) =~= enc_u64(
                                m->NewVertex_payload@.len() as u64,
                            ));
                            assert(b@.subrange(9, 9 + n) =~= m->NewVertex_payload@);
                            assert(m.spec_bytes_of() =~= b@);
                        }
                        Ok(m)
                    } else {
                        proof {
                            assert forall|m: P2pMessage| m.wf() implies (
                            #[trigger] m.spec_bytes_of()) != b@ by {
                            if m.spec_bytes_of() == b@ {
                                    match m {
                                        P2pMessage::NewVertex { payload } => {
                                            assert(b@.subrange(
                                                1,
                                                1 + enc_bytes(payload@).len() as int,
                                            ) =~= enc_bytes(payload@));
                                            lemma_dec_bytes(b@, 1, payload@);
                                        },
                                        _ => {
                                            assert(b@[0] != 0);
                                        },
                                    }
                                }
                            }
                        }
                        Err(ChronxError::Serialization)
                    }
                },
                None => {
                    proof {
                        assert forall|m: P2pMessage| m.wf() implies (
                        #[trigger] m.spec_bytes_of()) != b@ by {
                        if m.spec_bytes_of() == b@ {
                                match m {
                                    P2pMessage::NewVertex { payload } => {
                                        assert(b@.subrange(
                                            1,
                                            1 + enc_bytes(payload@).len() as int,
                                        ) =~= enc_bytes(payload@));
                                        lemma_dec_bytes(b@, 1, payload@);
                                    },
                                    _ => {
                                        assert(b@[0] != 0);
                                    },
                                }
                            }
                        }
                    }
                    Err(ChronxError::Serialization)
                },
            }
        } else if tag == 1 {
            if b.len() == 33 {
                let sub = slice_subrange(b, 1, 33);
                let mut arr = [0u8; 32];
                let mut i: usize = 0;
                while i < 32
                    invariant
                        sub@ == b@.subrange(1, 33),
                        sub@.len() == 32,
                        arr@.len() == 32,
                        i <= 32,
                        forall|t: int| 0 <= t < i ==> arr@[t] == sub@[t],
                    decreases 32 - i,
                {
                    vstd::array::ArrayAdditionalExecFns::set(&mut arr, i, sub[i]);
                    i += 1;
                }
                let m = P2pMessage::RequestVertex { tx_id: TxId(arr) };
                proof {
                    assert(arr@ =~= b@.subrange(1, 33));
                    assert(m.spec_bytes_of() =~= b@);
                }
                Ok(m)
            } else {
                proof {
                    assert forall|m: P2pMessage| m.wf() implies (#[trigger] m.spec_bytes_of())
                        != b@ by {
                        if m.spec_bytes_of() == b@ {
                            match m {
                                P2pMessage::RequestVertex { tx_id } => {
                                    assert(tx_id@.len() == 32);
                                    assert(b@.len() == 33);
                                },
                                _ => {
                                    assert(b@[0] != 1);
                                },
                            }
                        }
                    }
                }
                Err(ChronxError::Serialization)
            }
        } else if tag == 2 {
            match read_u64(b, 1) {
                Some((n, j2)) => {
                    let rem: usize = b.len() - 9;
                    if rem % 32 == 0 && (rem / 32) as u64 == n {
                        let count: usize = rem / 32;
                        let mut tips: Vec<TxId> = Vec::new();
                        let mut k: usize = 0;
                        #[verifier::loop_isolation(false)]
                        while k < count
                            invariant
                                tips@.len() == k,
                                k <= count,
                                forall|t: int|
                                    0 <= t < k ==> (#[trigger] tips@[t])@ == b@.subrange(
                                        9 + 32 * t,
                                        9 + 32 * t + 32,
                                    ),
                                enc_tips(tips@, k as int) == b@.subrange(9, 9 + 32 * k),
                            decreases count - k,
                        {
                            let sub = slice_subrange(b, 9 + 32 * k, 9 + 32 * k + 32);
                            let mut arr = [0u8; 32];
                            let mut i: usize = 0;
                            while i < 32
                                invariant
                                    sub@ == b@.subrange(
                                        9 + 32 * (k as int),
                                        9 + 32 * (k as int) + 32,
                                    ),
                                    sub@.len() == 32,
                                    arr@.len() == 32,
                                    i <= 32,
                                    forall|t: int| 0 <= t < i ==> arr@[t] == sub@[t],
                                decreases 32 - i,
                            {
                                vstd::array::ArrayAdditionalExecFns::set(&mut arr, i, sub[i]);
                                i += 1;
                            }
                            proof {
                                assert(arr@ =~= sub@);
                            }
                            let ghost tips0 = tips@;
                            tips.push(TxId(arr));
                            proof {
                                lemma_enc_tips_prefix(tips0, tips@, k as int);
                                assert(enc_tips(tips@, k + 1) == enc_tips(tips@, k as int)
                                    + tips@[k as int]@);
                                assert(enc_tips(tips@, k + 1) =~= b@.subrange(9, 9 + 32 * (k + 1)));
                            }
                            k += 1;
                        }
                        let m = P2pMessage::SyncTips { tips };
                        proof {
                            vstd::bytes::lemma_auto_spec_u64_to_from_le_bytes();
                            assert(b@.subrange(1, 9) =~= enc_u64(n));
                            assert(m->SyncTips_tips@.len() as u64 == n);
                            assert(enc_tips(m->SyncTips_tips@, count as int) == b@.subrange(
                                9,
                                9 + 32 * (count as int),
                            ));
                            assert(m.spec_bytes_of() =~= b@);
                        }
                        Ok(m)
                    } else {
                        proof {
                            assert forall|m: P2pMessage| m.wf() implies (
                            #[trigger] m.spec_bytes_of()) != b@ by {
                            if m.spec_bytes_of() == b@ {
                                    match m {
                                        P2pMessage::SyncTips { tips } => {
                                            vstd::bytes::lemma_auto_spec_u64_to_from_le_bytes();
                                            lemma_enc_tips_len(tips@, tips@.len() as int);
                                            assert(enc_u64(tips@.len() as u64).len() == 8);
                                            assert(b@.len() == 9 + 32 * tips@.len());
                                            assert(b@.subrange(1, 9) =~= enc_u64(
                                                tips@.len() as u64,
                                            ));
                                            lemma_dec_u64(b@, 1, tips@.len() as u64);
                                            assert(n == tips@.len() as u64);
                                            assert(rem == 32 * tips@.len());
                                        },
                                        _ => {
                                            assert(b@[0] != 2);
                                        },
                                    }
                                }
                            }
                        }
                        Err(ChronxError::Serialization)
                    }
                },
                None => {
                    proof {
                        assert forall|m: P2pMessage| m.wf() implies (
                        #[trigger] m.spec_bytes_of()) != b@ by {
                        if m.spec_bytes_of() == b@ {
                                match m {
                                    P2pMessage::SyncTips { tips } => {
                                        vstd::bytes::lemma_auto_spec_u64_to_from_le_bytes();
                                        lemma_enc_tips_len(tips@, tips@.len() as int);
                                        assert(enc_u64(tips@.len() as u64).len() == 8);
                                        assert(b@.len() >= 9);
                                        assert(b@.subrange(1, 9) =~= enc_u64(tips@.len() as u64));
                                        lemma_dec_u64(b@, 1, tips@.len() as u64);
                                    },
                                    _ => {
                                        assert(b@[0] != 2);
                                    },
                                }
                            }
                        }
                    }
                    Err(ChronxError::Serialization)
                },
            }
        } else if tag == 3 {
            if b.len() == 1 {
                let m = P2pMessage::RequestTips;
                proof {
                    assert(m.spec_bytes_of() =~= b@);
                }
                Ok(m)
            } else {
                proof {
                    assert forall|m: P2pMessage| m.wf() implies (#[trigger] m.spec_bytes_of())
                        != b@ by {
                        if m.spec_bytes_of() == b@ {
                            match m {
                                P2pMessage::RequestTips => {
                                    assert(b@.len() == 1);
                                },
                                _ => {
                                    assert(b@[0] != 3);
                                },
                            }
                        }
                    }
                }
                Err(ChronxError::Serialization)
            }
        } else {
            proof {
                assert forall|m: P2pMessage| m.wf() implies (#[trigger] m.spec_bytes_of())
                    != b@ by {
                    if m.spec_bytes_of() == b@ {
                        match m {
                            P2pMessage::NewVertex { payload } => {
                                assert(b@[0] == 0);
                            },
                            P2pMessage::RequestVertex { tx_id } => {
                                assert(b@[0] == 1);
                            },
                            P2pMessage::SyncTips { tips } => {
                                assert(b@[0] == 2);
                            },
                            P2pMessage::RequestTips => {
                                assert(b@[0] == 3);
                            },
                        }
                    }
                }
            }
            Err(ChronxError::Serialization)
        }
    }
}

} // verus!
