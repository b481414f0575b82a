//! Bitcoin transactions as plain values, with the consensus encodings of
//! outpoints and outputs, the transaction id and the BIP-143 signature hash,
//! all computed by the bitcoin crate.

use bitcoin::consensus::encode::{deserialize_partial, serialize};
use bitcoin::blockdata::script::Script;
use bitcoin::blockdata::transaction::{
    OutPoint as BtcOutPoint, Transaction as BtcTransaction, TxIn as BtcTxIn, TxOut as BtcTxOut,
};
use bitcoin::hash_types::Txid;
use bitcoin::hashes::Hash as HashTrait;
use bitcoin::util::bip143::SighashComponents;
use vstd::prelude::*;


verus! {

/// A reference to an output of an earlier transaction.
#[derive(Clone, Copy, Debug, PartialEq, Eq)]
pub struct Outpoint {
    pub txid: [u8; 32],
    pub vout: u32,
}

/// An output: an amount in satoshis and the script that locks it.
#[derive(Clone, Debug, PartialEq, Eq)]
pub struct TxOutput {
    pub value: u64,
    pub script_pubkey: Vec<u8>,
}

/// An input: the output it spends, its script, sequence and witness.
#[derive(Clone, Debug, PartialEq, Eq)]
pub struct TxInput {
    pub previous_output: Outpoint,
    pub script_sig: Vec<u8>,
    pub sequence: u32,
    pub witness: Vec<Vec<u8>>,
}

/// A transaction.
#[derive(Clone, Debug, PartialEq, Eq)]
pub struct Tx {
    pub version: u32,
    pub lock_time: u32,
    pub input: Vec<TxInput>,
    pub output: Vec<TxOutput>,
}

pub struct OutpointView {
    pub txid: Seq<u8>,
    pub vout: u32,
}

pub struct TxOutputView {
    pub value: u64,
    pub script_pubkey: Seq<u8>,
}

pub struct TxInputView {
    pub previous_output: OutpointView,
    pub script_sig: Seq<u8>,
    pub sequence: u32,
    pub witness: Seq<Seq<u8>>,
}

pub struct TxView {
    pub version: u32,
    pub lock_time: u32,
    pub input: Seq<TxInputView>,
    pub output: Seq<TxOutputView>,
}

impl View for Outpoint {
    type V = OutpointView;

    open spec fn view(&self) -> OutpointView {
        OutpointView { txid: self.txid@, vout: self.vout }
    }
}

impl View for TxOutput {
    type V = TxOutputView;

    open spec fn view(&self) -> TxOutputView {
        TxOutputView { value: self.value, script_pubkey: self.script_pubkey@ }
    }
}

impl View for TxInput {
    type V = TxInputView;

    open spec fn view(&self) -> TxInputView {
        TxInputView {
            previous_output: self.previous_output@,
            script_sig: self.script_sig@,
            sequence: self.sequence,
            witness: self.witness@.map_values(|w: Vec<u8>| w@),
        }
    }
}

impl View for Tx {
    type V = TxView;

    open spec fn view(&self) -> TxView {
        TxView {
            version: self.version,
            lock_time: self.lock_time,
            input: self.input@.map_values(|i: TxInput| i@),
            output: self.output@.map_values(|o: TxOutput| o@),
        }
    }
}

/// Little-endian bytes of a 16-bit integer.
pub open spec fn le16(x: u16) -> Seq<u8> {
    seq![x as u8, (x >> 8u16) as u8]
}

/// Little-endian bytes of a 32-bit integer.
pub open spec fn le32(x: u32) -> Seq<u8> {
    seq![x as u8, (x >> 8u32) as u8, (x >> 16u32) as u8, (x >> 24u32) as u8]
}

/// Little-endian bytes of a 64-bit integer.
pub open spec fn le64(x: u64) -> Seq<u8> {
    seq![
        x as u8, (x >> 8u64) as u8, (x >> 16u64) as u8, (x >> 24u64) as u8,
        (x >> 32u64) as u8, (x >> 40u64) as u8, (x >> 48u64) as u8, (x >> 56u64) as u8,
    ]
}

pub open spec fn le16_value(b: Seq<u8>) -> u16 {
    (b[0] as u16) | ((b[1] as u16) << 8u16)
}

pub open spec fn le32_value(b: Seq<u8>) -> u32 {
    (b[0] as u32) | ((b[1] as u32) << 8u32) | ((b[2] as u32) << 16u32) | ((b[3] as u32) << 24u32)
}

pub open spec fn le64_value(b: Seq<u8>) -> u64 {
    (b[0] as u64) | ((b[1] as u64) << 8u64) | ((b[2] as u64) << 16u64) | ((b[3] as u64) << 24u64)
        | ((b[4] as u64) << 32u64) | ((b[5] as u64) << 40u64) | ((b[6] as u64) << 48u64)
        | ((b[7] as u64) << 56u64)
}

/// The largest script the consensus decoder accepts.
pub const MAX_VEC_SIZE: usize = 4_000_000;

/// Bitcoin's variable-length integer ("CompactSize").
pub open spec fn compact_size(n: u64) -> Seq<u8> {
    if n < 0xFD {
        seq![n as u8]
    } else if n <= 0xFFFF {
        seq![0xFDu8] + le16(n as u16)
    } else if n <= 0xFFFF_FFFF {
        seq![0xFEu8] + le32(n as u32)
    } else {
        seq![0xFFu8] + le64(n)
    }
}

/// Reads a minimally encoded CompactSize at the start of `s`: its value and
/// its length in bytes.
pub open spec fn parse_compact_size(s: Seq<u8>) -> Option<(u64, nat)> {
    if s.len() < 1 {
        None
    } else if s[0] < 0xFD {
        Some((s[0] as u64, 1))
    } else if s[0] == 0xFD {
        if s.len() < 3 || le16_value(s.subrange(1, 3)) < 0xFD {
            None
        } else {
            Some((le16_value(s.subrange(1, 3)) as u64, 3))
        }
    } else if s[0] == 0xFE {
        if s.len() < 5 || le32_value(s.subrange(1, 5)) < 0x1_0000 {
            None
        } else {
            Some((le32_value(s.subrange(1, 5)) as u64, 5))
        }
    } else {
        if s.len() < 9 || le64_value(s.subrange(1, 9)) < 0x1_0000_0000 {
            None
        } else {
            Some((le64_value(s.subrange(1, 9)), 9))
        }
    }
}

/// Consensus encoding of an outpoint: the txid, then the index little-endian.
pub open spec fn outpoint_bytes(o: OutpointView) -> Seq<u8> {
    o.txid + le32(o.vout)
}

/// Consensus encoding of an output: the amount little-endian, then the
/// script with its CompactSize length.
pub open spec fn txout_bytes(o: TxOutputView) -> Seq<u8> {
    le64(o.value) + compact_size(o.script_pubkey.len() as u64) + o.script_pubkey
}

/// Reads an outpoint at the start of `s`.
pub open spec fn parse_outpoint(s: Seq<u8>) -> Option<(OutpointView, nat)> {
    if s.len() < 36 {
        None
    } else {
        Some((OutpointView { txid: s.subrange(0, 32), vout: le32_value(s.subrange(32, 36)) }, 36))
    }
}

/// Reads an output at the start of `s`, as the consensus decoder does.
pub open spec fn parse_txout(s: Seq<u8>) -> Option<(TxOutputView, nat)> {
    if s.len() < 8 {
        None
    } else {
        match parse_compact_size(s.subrange(8, s.len() as int)) {
            None => None,
            Some((n, k)) => if n > MAX_VEC_SIZE || 8 + k + n > s.len() {
                None
            } else {
                Some((
                    TxOutputView {
                        value: le64_value(s.subrange(0, 8)),
                        script_pubkey: s.subrange(8 + k as int, 8 + k + n),
                    },
                    (8 + k + n) as nat,
                ))
            },
        }
    }
}

/// The transaction id: double SHA-256 of the encoding without witnesses.
pub uninterp spec fn txid_of(tx: TxView) -> Seq<u8>;

/// The BIP-143 SIGHASH_ALL digest of one input, given its script code and
/// the value it spends.
pub uninterp spec fn sighash_all_of(
    tx: TxView,
    input: int,
    script_code: Seq<u8>,
    value: u64,
) -> Seq<u8>;

pub proof fn lemma_le_round_trips(a: u16, b: u32, c: u64)
    ensures
        le16_value(le16(a)) == a,
        le32_value(le32(b)) == b,
        le64_value(le64(c)) == c,
{
    let s = le16(a);
    let (s0, s1) = (s[0], s[1]);
    assert((s0 as u16) | ((s1 as u16) << 8u16) == a) by (bit_vector)
        requires
            s0 == a as u8,
            s1 == (a >> 8u16) as u8,
    ;
    let t = le32(b);
    let (t0, t1, t2, t3) = (t[0], t[1], t[2], t[3]);
    assert((t0 as u32) | ((t1 as u32) << 8u32) | ((t2 as u32) << 16u32) | ((t3 as u32) << 24u32)
        == b) by (bit_vector)
        requires
            t0 == b as u8,
            t1 == (b >> 8u32) as u8,
            t2 == (b >> 16u32) as u8,
            t3 == (b >> 24u32) as u8,
    ;
    let u = le64(c);
    let (u0, u1, u2, u3, u4, u5, u6, u7) = (u[0], u[1], u[2], u[3], u[4], u[5], u[6], u[7]);
    assert((u0 as u64) | ((u1 as u64) << 8u64) | ((u2 as u64) << 16u64) | ((u3 as u64) << 24u64)
        | ((u4 as u64) << 32u64) | ((u5 as u64) << 40u64) | ((u6 as u64) << 48u64) | ((u7 as u64)
        << 56u64) == c) by (bit_vector)
        requires
            u0 == c as u8,
            u1 == (c >> 8u64) as u8,
            u2 == (c >> 16u64) as u8,
            u3 == (c >> 24u64) as u8,
            u4 == (c >> 32u64) as u8,
            u5 == (c >> 40u64) as u8,
            u6 == (c >> 48u64) as u8,
            u7 == (c >> 56u64) as u8,
    ;
}

/// A CompactSize reads back as itself, whatever follows it.
pub proof fn lemma_compact_size_round_trip(n: u64, rest: Seq<u8>)
    ensures
        parse_compact_size(compact_size(n) + rest) == Some((n, compact_size(n).len())),
{
    let s = compact_size(n) + rest;
    if n < 0xFD {
        assert(s[0] == n as u8);
        assert((n as u8) as u64 == n) by (bit_vector)
            requires
                n < 0xFD,
        ;
    } else if n <= 0xFFFF {
        lemma_le_round_trips(n as u16, 0, 0);
        assert(s.subrange(1, 3) =~= le16(n as u16));
        assert((n as u16) as u64 == n) by (bit_vector)
            requires
                n <= 0xFFFF,
        ;
    } else if n <= 0xFFFF_FFFF {
        lemma_le_round_trips(0, n as u32, 0);
        assert(s.subrange(1, 5) =~= le32(n as u32));
        assert((n as u32) as u64 == n) by (bit_vector)
            requires
                n <= 0xFFFF_FFFF,
        ;
    } else {
        lemma_le_round_trips(0, 0, n);
        assert(s.subrange(1, 9) =~= le64(n));
    }
}

/// An encoded output reads back as itself, whatever follows it.
pub proof fn lemma_txout_round_trip(o: TxOutputView, rest: Seq<u8>)
    requires
        o.script_pubkey.len() <= MAX_VEC_SIZE,
    ensures
        parse_txout(txout_bytes(o) + rest) == Some((o, txout_bytes(o).len())),
{
    let n = o.script_pubkey.len() as u64;
    let s = txout_bytes(o) + rest;
    lemma_le_round_trips(0, 0, o.value);
    assert(s.subrange(0, 8) =~= le64(o.value));
    let tail = s.subrange(8, s.len() as int);
    assert(tail =~= compact_size(n) + (o.script_pubkey + rest));
    lemma_compact_size_round_trip(n, o.script_pubkey + rest);
    let k = compact_size(n).len();
    assert(s.subrange(8 + k as int, 8 + k + n) =~= o.script_pubkey);
    match parse_txout(s) {
        Some((v, m)) => {
            assert(v.script_pubkey =~= o.script_pubkey);
        },
        None => {},
    }
}

/// An encoded outpoint reads back as itself, whatever follows it.
pub proof fn lemma_outpoint_round_trip(o: OutpointView, rest: Seq<u8>)
    requires
        o.txid.len() == 32,
    ensures
        parse_outpoint(outpoint_bytes(o) + rest) == Some((o, 36nat)),
{
    let s = outpoint_bytes(o) + rest;
    lemma_le_round_trips(0, o.vout, 0);
    assert(s.subrange(0, 32) =~= o.txid);
    assert(s.subrange(32, 36) =~= le32(o.vout));
}

/// Relies on bitcoin::consensus::encode::serialize of an outpoint.
#[verifier::external_body]
pub fn encode_outpoint(o: &Outpoint) -> (r: Vec<u8>)
    ensures
        r@ == outpoint_bytes(o@),
{
    serialize(&BtcOutPoint { txid: Txid::from_inner(o.txid), vout: o.vout })
}

/// Relies on bitcoin::consensus::encode::serialize of an output.
#[verifier::external_body]
pub fn encode_txout(o: &TxOutput) -> (r: Vec<u8>)
    ensures
        r@ == txout_bytes(o@),
{
    serialize(&BtcTxOut { value: o.value, script_pubkey: Script::from(o.script_pubkey.clone()) })
}

/// Relies on bitcoin::consensus::encode::deserialize_partial of an outpoint
/// from the bytes at `pos`: how many it read.
#[verifier::external_body]
pub fn decode_outpoint(data: &[u8], pos: usize) -> (r: Option<(Outpoint, usize)>)
    requires
        pos <= data@.len(),
    ensures
        match parse_outpoint(data@.subrange(pos as int, data@.len() as int)) {
            Some((v, n)) => r matches Some((o, m)) && o@ == v && m == n,
            None => r is None,
        },
{
    let (o, n) = deserialize_partial::<BtcOutPoint>(&data[pos..]).ok()?;
    Some((Outpoint { txid: o.txid.into_inner(), vout: o.vout }, n))
}

/// Relies on bitcoin::consensus::encode::deserialize_partial of an output
/// from the bytes at `pos`: how many it read.
#[verifier::external_body]
pub fn decode_txout(data: &[u8], pos: usize) -> (r: Option<(TxOutput, usize)>)
    requires
        pos <= data@.len(),
    ensures
        match parse_txout(data@.subrange(pos as int, data@.len() as int)) {
            Some((v, n)) => r matches Some((o, m)) && o@ == v && m == n,
            None => r is None,
        },
{
    let (o, n) = deserialize_partial::<BtcTxOut>(&data[pos..]).ok()?;
    Some((TxOutput { value: o.value, script_pubkey: o.script_pubkey.to_bytes() }, n))
}

/// Relies on bitcoin::Transaction::txid, on the same transaction in
/// bitcoin's types.
#[verifier::external_body]
pub fn txid(tx: &Tx) -> (r: [u8; 32])
    ensures
        r@ == txid_of(tx@),
{
    let t = BtcTransaction {
        version: tx.version,
        lock_time: tx.lock_time,
        input: tx.input.iter().map(|i| BtcTxIn {
            previous_output: BtcOutPoint { txid: Txid::from_inner(i.previous_output.txid), vout: i.previous_output.vout },
            script_sig: Script::from(i.script_sig.clone()), sequence: i.sequence, witness: i.witness.clone(),
        }).collect(),
        output: tx.output.iter().map(|o| BtcTxOut { value: o.value, script_pubkey: Script::from(o.script_pubkey.clone()) }).collect(),
    };
    t.txid().into_inner()
}

/// Relies on bitcoin::util::bip143::SighashComponents::sighash_all for the
/// input at `input`, on the same transaction in bitcoin's types.
#[verifier::external_body]
pub fn sighash_all(tx: &Tx, input: usize, script_code: &[u8], value: u64) -> (r: [u8; 32])
    requires
        input < tx.input@.len(),
    ensures
        r@ == sighash_all_of(tx@, input as int, script_code@, value),
{
    let t = BtcTransaction {
        version: tx.version,
        lock_time: tx.lock_time,
        input: tx.input.iter().map(|i| BtcTxIn {
            previous_output: BtcOutPoint { txid: Txid::from_inner(i.previous_output.txid), vout: i.previous_output.vout },
            script_sig: Script::from(i.script_sig.clone()), sequence: i.sequence, witness: i.witness.clone(),
        }).collect(),
        output: tx.output.iter().map(|o| BtcTxOut { value: o.value, script_pubkey: Script::from(o.script_pubkey.clone()) }).collect(),
    };
    let code = Script::from(script_code.to_vec());
    SighashComponents::new(&t).sighash_all(&t.input[input], &code, value).into_inner()
}

} // verus!
