//! The scripts and second-stage transactions of a channel (BOLT 3), and the
//! per-commitment tweaks of keys and basepoints.

use bitcoin::blockdata::script::Builder;
use vstd::prelude::*;

use crate::bytes::push_all;
use crate::crypto::{
    be_nat, curve_order, hash160, hash160_of, is_valid_secret, point_add, point_add_of,
    point_mul, point_mul_of, pubkey_of, pubkey_valid, public_key, ripemd160, ripemd160_of,
    scalar_add, scalar_in_range, scalar_mul, sha256, sha256_of,
};
use crate::tx::{Outpoint, OutpointView, Tx, TxInput, TxInputView, TxOutput, TxOutputView, TxView};

verus! {

pub const OP_0: u8 = 0x00;
pub const OP_PUSHNUM_2: u8 = 0x52;
pub const OP_IF: u8 = 0x63;
pub const OP_NOTIF: u8 = 0x64;
pub const OP_ELSE: u8 = 0x67;
pub const OP_ENDIF: u8 = 0x68;
pub const OP_DROP: u8 = 0x75;
pub const OP_DUP: u8 = 0x76;
pub const OP_SWAP: u8 = 0x7c;
pub const OP_SIZE: u8 = 0x82;
pub const OP_EQUAL: u8 = 0x87;
pub const OP_EQUALVERIFY: u8 = 0x88;
pub const OP_HASH160: u8 = 0xa9;
pub const OP_CHECKSIG: u8 = 0xac;
pub const OP_CHECKMULTISIG: u8 = 0xae;
pub const OP_CLTV: u8 = 0xb1;
pub const OP_CSV: u8 = 0xb2;

/// Weight of an HTLC-timeout transaction.
pub const HTLC_TIMEOUT_TX_WEIGHT: u64 = 663;
/// Weight of an HTLC-success transaction.
pub const HTLC_SUCCESS_TX_WEIGHT: u64 = 703;

/// An HTLC output of a commitment transaction.
#[derive(Clone, Copy, Debug, PartialEq, Eq)]
pub struct HTLCOutputInCommitment {
    /// Whether the broadcaster of the commitment offered the HTLC.
    pub offered: bool,
    pub amount_msat: u64,
    pub cltv_expiry: u32,
    pub payment_hash: [u8; 32],
    /// The output of the commitment that holds it; `None` for dust.
    pub transaction_output_index: Option<u32>,
}

/// The per-commitment keys of one commitment transaction; `a` is its
/// broadcaster, `b` the other side.
#[derive(Clone, Copy, Debug, PartialEq, Eq)]
pub struct TxCreationKeys {
    pub per_commitment_point: [u8; 33],
    pub revocation_key: [u8; 33],
    pub a_htlc_key: [u8; 33],
    pub b_htlc_key: [u8; 33],
    pub a_delayed_payment_key: [u8; 33],
    pub b_payment_key: [u8; 33],
}

/// The bytes of the minimal script number for `n`: little-endian magnitude,
/// with a zero byte after it when its top bit is set.
pub open spec fn scriptint_magnitude(n: nat) -> Seq<u8>
    decreases n,
{
    if n <= 0xFF {
        seq![n as u8]
    } else {
        seq![(n % 256) as u8] + scriptint_magnitude(n / 256)
    }
}

pub open spec fn scriptint(n: nat) -> Seq<u8> {
    let m = scriptint_magnitude(n);
    if m.last() >= 0x80 { m.push(0u8) } else { m }
}

/// How a script pushes the non-negative integer `n`.
pub open spec fn push_int_bytes(n: nat) -> Seq<u8> {
    if n == 0 {
        seq![0x00u8]
    } else if n <= 16 {
        seq![(0x50 + n) as u8]
    } else {
        seq![scriptint(n).len() as u8] + scriptint(n)
    }
}

/// How a script pushes up to 75 bytes: their length, then them.
pub open spec fn push_bytes(data: Seq<u8>) -> Seq<u8> {
    seq![data.len() as u8] + data
}

/// Relies on bitcoin::blockdata::script::Builder::push_int for the script
/// that pushes a non-negative integer.
#[verifier::external_body]
fn script_int(n: u32) -> (r: Vec<u8>)
    ensures
        r@ == push_int_bytes(n as nat),
{
    Builder::new().push_int(n as i64).into_script().into_bytes()
}

fn push_data(out: &mut Vec<u8>, data: &[u8])
    requires
        data@.len() <= 75,
    ensures
        final(out)@ == old(out)@ + push_bytes(data@),
{
    out.push(data.len() as u8);
    push_all(out, data);
    assert(final(out)@ =~= old(out)@ + push_bytes(data@));
}

/// `a` orders before `b` byte by byte.
pub open spec fn lex_lt(a: Seq<u8>, b: Seq<u8>) -> bool {
    exists|i: int|
        0 <= i < a.len() && i < b.len() && a[i] < b[i] && forall|j: int| 0 <= j < i ==> a[j] == b[j]
}

fn key_lt(a: &[u8; 33], b: &[u8; 33]) -> (r: bool)
    ensures
        r == lex_lt(a@, b@),
{
    let mut i: usize = 0;
    while i < 33
        invariant
            i <= 33,
            a@.len() == 33,
            b@.len() == 33,
            forall|j: int| 0 <= j < i ==> a@[j] == b@[j],
        decreases 33 - i,
    {
        if a[i] != b[i] {
            let r = a[i] < b[i];
            assert forall|k: int| 0 <= k < a@.len() && k < b@.len() && a@[k] < b@[k] && (forall|j: int| 0 <= j < k ==> a@[j] == b@[j]) implies k == i by {
                if k < i {
                } else if k > i {
                    assert(a@[i as int] == b@[i as int]);
                }
            }
            return r;
        }
        i = i + 1;
    }
    false
}

/// The 2-of-2 script of the funding output, keys in lexicographic order.
pub open spec fn funding_script(a: Seq<u8>, b: Seq<u8>) -> Seq<u8> {
    let (first, second) = if lex_lt(a, b) { (a, b) } else { (b, a) };
    seq![OP_PUSHNUM_2] + push_bytes(first) + push_bytes(second) + seq![OP_PUSHNUM_2, OP_CHECKMULTISIG]
}

pub fn make_funding_redeemscript(a: &[u8; 33], b: &[u8; 33]) -> (r: Vec<u8>)
    ensures
        r@ == funding_script(a@, b@),
{
    let mut s: Vec<u8> = Vec::new();
    s.push(OP_PUSHNUM_2);
    if key_lt(a, b) {
        push_data(&mut s, a);
        push_data(&mut s, b);
    } else {
        push_data(&mut s, b);
        push_data(&mut s, a);
    }
    s.push(OP_PUSHNUM_2);
    s.push(OP_CHECKMULTISIG);
    assert(s@ =~= funding_script(a@, b@));
    s
}

/// The script of an output the broadcaster takes after `to_self_delay`
/// blocks, or the other side at once with the revocation key.
pub open spec fn revokeable_script(revocation_key: Seq<u8>, to_self_delay: u16, delayed_payment_key: Seq<u8>) -> Seq<u8> {
    seq![OP_IF] + push_bytes(revocation_key) + seq![OP_ELSE] + push_int_bytes(to_self_delay as nat)
        + seq![OP_CSV, OP_DROP] + push_bytes(delayed_payment_key) + seq![OP_ENDIF, OP_CHECKSIG]
}

pub fn get_revokeable_redeemscript(revocation_key: &[u8; 33], to_self_delay: u16, delayed_payment_key: &[u8; 33]) -> (r: Vec<u8>)
    ensures
        r@ == revokeable_script(revocation_key@, to_self_delay, delayed_payment_key@),
{
    let mut s: Vec<u8> = Vec::new();
    s.push(OP_IF);
    push_data(&mut s, revocation_key);
    s.push(OP_ELSE);
    push_all(&mut s, script_int(to_self_delay as u32).as_slice());
    s.push(OP_CSV);
    s.push(OP_DROP);
    push_data(&mut s, delayed_payment_key);
    s.push(OP_ENDIF);
    s.push(OP_CHECKSIG);
    assert(s@ =~= revokeable_script(revocation_key@, to_self_delay, delayed_payment_key@));
    s
}

/// The opening of an HTLC script: the revocation branch and the size test
/// of the witness.
pub open spec fn htlc_script_head(b_htlc_key: Seq<u8>, revocation_key: Seq<u8>) -> Seq<u8> {
    seq![OP_DUP, OP_HASH160] + push_bytes(hash160_of(revocation_key)) + seq![OP_EQUAL, OP_IF, OP_CHECKSIG, OP_ELSE]
        + push_bytes(b_htlc_key) + seq![OP_SWAP, OP_SIZE] + push_int_bytes(32) + seq![OP_EQUAL]
}

/// The payment-hash check of an HTLC script.
pub open spec fn htlc_hash_check(payment_hash: Seq<u8>) -> Seq<u8> {
    seq![OP_HASH160] + push_bytes(ripemd160_of(payment_hash)) + seq![OP_EQUALVERIFY]
}

/// The 2-of-2 branch of an HTLC script.
pub open spec fn htlc_multisig(a_htlc_key: Seq<u8>) -> Seq<u8> {
    push_int_bytes(2) + seq![OP_SWAP] + push_bytes(a_htlc_key) + push_int_bytes(2) + seq![OP_CHECKMULTISIG]
}

/// The script of an HTLC output, with `a` the broadcaster's HTLC key and
/// `b` the other side's.
pub open spec fn htlc_script(
    offered: bool,
    cltv_expiry: u32,
    payment_hash: Seq<u8>,
    a_htlc_key: Seq<u8>,
    b_htlc_key: Seq<u8>,
    revocation_key: Seq<u8>,
) -> Seq<u8> {
    let head = htlc_script_head(b_htlc_key, revocation_key);
    if offered {
        head + seq![OP_NOTIF, OP_DROP] + htlc_multisig(a_htlc_key) + seq![OP_ELSE] + htlc_hash_check(payment_hash)
            + seq![OP_CHECKSIG, OP_ENDIF, OP_ENDIF]
    } else {
        head + seq![OP_IF] + htlc_hash_check(payment_hash) + htlc_multisig(a_htlc_key) + seq![OP_ELSE, OP_DROP]
            + push_int_bytes(cltv_expiry as nat) + seq![OP_CLTV, OP_DROP, OP_CHECKSIG, OP_ENDIF, OP_ENDIF]
    }
}

fn push_htlc_script_head(s: &mut Vec<u8>, b_htlc_key: &[u8; 33], revocation_key: &[u8; 33])
    ensures
        final(s)@ == old(s)@ + htlc_script_head(b_htlc_key@, revocation_key@),
{
    s.push(OP_DUP);
    s.push(OP_HASH160);
    push_data(s, &hash160(revocation_key));
    s.push(OP_EQUAL);
    s.push(OP_IF);
    s.push(OP_CHECKSIG);
    s.push(OP_ELSE);
    push_data(s, b_htlc_key);
    s.push(OP_SWAP);
    s.push(OP_SIZE);
    push_all(s, script_int(32).as_slice());
    s.push(OP_EQUAL);
    assert(s@ =~= old(s)@ + htlc_script_head(b_htlc_key@, revocation_key@));
}

fn push_htlc_hash_check(s: &mut Vec<u8>, payment_hash: &[u8; 32])
    ensures
        final(s)@ == old(s)@ + htlc_hash_check(payment_hash@),
{
    s.push(OP_HASH160);
    push_data(s, &ripemd160(payment_hash));
    s.push(OP_EQUALVERIFY);
    assert(s@ =~= old(s)@ + htlc_hash_check(payment_hash@));
}

fn push_htlc_multisig(s: &mut Vec<u8>, a_htlc_key: &[u8; 33])
    ensures
        final(s)@ == old(s)@ + htlc_multisig(a_htlc_key@),
{
    push_all(s, script_int(2).as_slice());
    s.push(OP_SWAP);
    push_data(s, a_htlc_key);
    push_all(s, script_int(2).as_slice());
    s.push(OP_CHECKMULTISIG);
    assert(s@ =~= old(s)@ + htlc_multisig(a_htlc_key@));
}

#[verifier::rlimit(40)]
pub fn get_htlc_redeemscript_with_explicit_keys(
    htlc: &HTLCOutputInCommitment,
    a_htlc_key: &[u8; 33],
    b_htlc_key: &[u8; 33],
    revocation_key: &[u8; 33],
) -> (r: Vec<u8>)
    ensures
        r@ == htlc_script(
            htlc.offered,
            htlc.cltv_expiry,
            htlc.payment_hash@,
            a_htlc_key@,
            b_htlc_key@,
            revocation_key@,
        ),
{
    let mut s: Vec<u8> = Vec::new();
    push_htlc_script_head(&mut s, b_htlc_key, revocation_key);
    if htlc.offered {
        s.push(OP_NOTIF);
        s.push(OP_DROP);
        push_htlc_multisig(&mut s, a_htlc_key);
        s.push(OP_ELSE);
        push_htlc_hash_check(&mut s, &htlc.payment_hash);
        s.push(OP_CHECKSIG);
        s.push(OP_ENDIF);
        s.push(OP_ENDIF);
    } else {
        s.push(OP_IF);
        push_htlc_hash_check(&mut s, &htlc.payment_hash);
        push_htlc_multisig(&mut s, a_htlc_key);
        s.push(OP_ELSE);
        s.push(OP_DROP);
        push_all(&mut s, script_int(htlc.cltv_expiry).as_slice());
        s.push(OP_CLTV);
        s.push(OP_DROP);
        s.push(OP_CHECKSIG);
        s.push(OP_ENDIF);
        s.push(OP_ENDIF);
    }
    assert(s@ =~= htlc_script(
        htlc.offered,
        htlc.cltv_expiry,
        htlc.payment_hash@,
        a_htlc_key@,
        b_htlc_key@,
        revocation_key@,
    ));
    s
}

/// The HTLC script of a commitment, from its keys.
pub open spec fn htlc_script_of(htlc: HTLCOutputInCommitment, keys: TxCreationKeys) -> Seq<u8> {
    htlc_script(
        htlc.offered,
        htlc.cltv_expiry,
        htlc.payment_hash@,
        keys.a_htlc_key@,
        keys.b_htlc_key@,
        keys.revocation_key@,
    )
}

pub fn get_htlc_redeemscript(htlc: &HTLCOutputInCommitment, keys: &TxCreationKeys) -> (r: Vec<u8>)
    ensures
        r@ == htlc_script_of(*htlc, *keys),
{
    get_htlc_redeemscript_with_explicit_keys(htlc, &keys.a_htlc_key, &keys.b_htlc_key, &keys.revocation_key)
}

/// The P2WSH script paying to a witness script: `OP_0 <SHA256(script)>`.
pub open spec fn p2wsh(script: Seq<u8>) -> Seq<u8> {
    seq![OP_0] + push_bytes(sha256_of(script))
}

fn to_v0_p2wsh(script: &[u8]) -> (r: Vec<u8>)
    ensures
        r@ == p2wsh(script@),
{
    let mut s: Vec<u8> = Vec::new();
    s.push(OP_0);
    push_data(&mut s, &sha256(script));
    s
}

/// The fee of the second-stage transaction of an HTLC.
pub open spec fn htlc_tx_fee(feerate_per_kw: u32, offered: bool) -> int {
    feerate_per_kw * (if offered { HTLC_TIMEOUT_TX_WEIGHT } else { HTLC_SUCCESS_TX_WEIGHT }) / 1000
}

/// The HTLC's value, in whole satoshis, pays for its second-stage fee.
pub open spec fn htlc_fee_covered(htlc: HTLCOutputInCommitment, feerate_per_kw: u32) -> bool {
    htlc.amount_msat / 1000 >= htlc_tx_fee(feerate_per_kw, htlc.offered)
}

/// The second-stage transaction spending an HTLC output of a commitment.
pub open spec fn htlc_tx(
    commitment_txid: Seq<u8>,
    feerate_per_kw: u32,
    to_self_delay: u16,
    htlc: HTLCOutputInCommitment,
    a_delayed_payment_key: Seq<u8>,
    revocation_key: Seq<u8>,
) -> TxView {
    TxView {
        version: 2,
        lock_time: if htlc.offered { htlc.cltv_expiry } else { 0 },
        input: seq![
            TxInputView {
                previous_output: OutpointView {
                    txid: commitment_txid,
                    vout: htlc.transaction_output_index.unwrap(),
                },
                script_sig: Seq::empty(),
                sequence: 0,
                witness: Seq::empty(),
            },
        ],
        output: seq![
            TxOutputView {
                value: (htlc.amount_msat / 1000 - htlc_tx_fee(feerate_per_kw, htlc.offered)) as u64,
                script_pubkey: p2wsh(revokeable_script(revocation_key, to_self_delay, a_delayed_payment_key)),
            },
        ],
    }
}

#[verifier::rlimit(40)]
pub fn build_htlc_transaction(
    prev_hash: &[u8; 32],
    feerate_per_kw: u32,
    to_self_delay: u16,
    htlc: &HTLCOutputInCommitment,
    a_delayed_payment_key: &[u8; 33],
    revocation_key: &[u8; 33],
) -> (r: Tx)
    requires
        htlc.transaction_output_index is Some,
        htlc_fee_covered(*htlc, feerate_per_kw),
    ensures
        r@ == htlc_tx(prev_hash@, feerate_per_kw, to_self_delay, *htlc, a_delayed_payment_key@, revocation_key@),
{
    let mut input: Vec<TxInput> = Vec::new();
    input.push(TxInput {
        previous_output: Outpoint { txid: *prev_hash, vout: htlc.transaction_output_index.unwrap() },
        script_sig: Vec::new(),
        sequence: 0,
        witness: Vec::new(),
    });
    let weight = if htlc.offered { HTLC_TIMEOUT_TX_WEIGHT } else { HTLC_SUCCESS_TX_WEIGHT };
    assert(feerate_per_kw * weight <= 0xFFFF_FFFF * 703) by (nonlinear_arith)
        requires weight <= 703;
    let total_fee: u64 = feerate_per_kw as u64 * weight / 1000;
    let script = get_revokeable_redeemscript(revocation_key, to_self_delay, a_delayed_payment_key);
    let mut output: Vec<TxOutput> = Vec::new();
    output.push(TxOutput {
        script_pubkey: to_v0_p2wsh(script.as_slice()),
        value: htlc.amount_msat / 1000 - total_fee,
    });
    let r = Tx { version: 2, lock_time: if htlc.offered { htlc.cltv_expiry } else { 0 }, input, output };
    assert(r.input@[0]@.witness =~= Seq::<Seq<u8>>::empty());
    assert(r.input@[0]@.script_sig =~= Seq::<u8>::empty());
    assert(r@.input =~= htlc_tx(prev_hash@, feerate_per_kw, to_self_delay, *htlc, a_delayed_payment_key@, revocation_key@).input);
    assert(r@.output =~= htlc_tx(prev_hash@, feerate_per_kw, to_self_delay, *htlc, a_delayed_payment_key@, revocation_key@).output);
    r
}

/// The tweak of a key for a commitment: SHA-256 of the per-commitment
/// point and the base point.
pub open spec fn commitment_tweak(per_commitment_point: Seq<u8>, base_point: Seq<u8>) -> Seq<u8> {
    sha256_of(per_commitment_point + base_point)
}

/// The secret key of a commitment: base secret plus tweak, modulo the order.
pub open spec fn derived_private_key(per_commitment_point: Seq<u8>, base_secret: Seq<u8>, k: Seq<u8>) -> bool {
    let t = commitment_tweak(per_commitment_point, pubkey_of(base_secret));
    scalar_in_range(k) && be_nat(k) == (be_nat(base_secret) + be_nat(t)) % curve_order()
}

/// Whether deriving the secret key of a commitment succeeds.
pub open spec fn private_key_derivable(per_commitment_point: Seq<u8>, base_secret: Seq<u8>) -> bool {
    let t = commitment_tweak(per_commitment_point, pubkey_of(base_secret));
    be_nat(t) < curve_order() && (be_nat(base_secret) + be_nat(t)) % curve_order() != 0
}

pub fn derive_private_key(per_commitment_point: &[u8; 33], base_secret: &[u8; 32]) -> (r: Option<[u8; 32]>)
    requires
        scalar_in_range(base_secret@),
    ensures
        r is Some <==> private_key_derivable(per_commitment_point@, base_secret@),
        r matches Some(k) ==> derived_private_key(per_commitment_point@, base_secret@, k@),
{
    let mut buf: Vec<u8> = Vec::new();
    push_all(&mut buf, per_commitment_point);
    push_all(&mut buf, &public_key(base_secret));
    let res = sha256(buf.as_slice());
    scalar_add(base_secret, &res)
}

/// The public key of a commitment: base point plus the tweak's point.
pub open spec fn derived_public_key(per_commitment_point: Seq<u8>, base_point: Seq<u8>) -> Option<Seq<u8>> {
    let t = commitment_tweak(per_commitment_point, base_point);
    if scalar_in_range(t) { point_add_of(base_point, pubkey_of(t)) } else { None }
}

pub fn derive_public_key(per_commitment_point: &[u8; 33], base_point: &[u8; 33]) -> (r: Option<[u8; 33]>)
    requires
        pubkey_valid(base_point@),
    ensures
        match r {
            Some(k) => derived_public_key(per_commitment_point@, base_point@) == Some(k@) && pubkey_valid(k@),
            None => derived_public_key(per_commitment_point@, base_point@) is None,
        },
{
    let mut buf: Vec<u8> = Vec::new();
    push_all(&mut buf, per_commitment_point);
    push_all(&mut buf, base_point);
    let res = sha256(buf.as_slice());
    if !is_valid_secret(&res) {
        return None;
    }
    let hashkey = public_key(&res);
    point_add(base_point, &hashkey)
}

/// The revocation secret of a commitment, from the per-commitment secret
/// and the revocation base secret.
pub open spec fn derived_revocation_secret(per_commitment_secret: Seq<u8>, revocation_base_secret: Seq<u8>) -> Option<nat> {
    let rbp = pubkey_of(revocation_base_secret);
    let pcp = pubkey_of(per_commitment_secret);
    let h1 = be_nat(sha256_of(rbp + pcp));
    let h2 = be_nat(sha256_of(pcp + rbp));
    let a = (be_nat(revocation_base_secret) * h1) % curve_order();
    let b = (be_nat(per_commitment_secret) * h2) % curve_order();
    if h1 == 0 || h1 >= curve_order() || h2 == 0 || h2 >= curve_order() || (a + b) % curve_order() == 0 {
        None
    } else {
        Some(((a + b) % curve_order()) as nat)
    }
}

pub fn derive_private_revocation_key(per_commitment_secret: &[u8; 32], revocation_base_secret: &[u8; 32]) -> (r: Option<[u8; 32]>)
    requires
        scalar_in_range(per_commitment_secret@),
        scalar_in_range(revocation_base_secret@),
    ensures
        match r {
            Some(k) => scalar_in_range(k@) && derived_revocation_secret(per_commitment_secret@, revocation_base_secret@) == Some(be_nat(k@)),
            None => derived_revocation_secret(per_commitment_secret@, revocation_base_secret@) is None,
        },
{
    let revocation_base_point = public_key(revocation_base_secret);
    let per_commitment_point = public_key(per_commitment_secret);
    let mut buf: Vec<u8> = Vec::new();
    push_all(&mut buf, &revocation_base_point);
    push_all(&mut buf, &per_commitment_point);
    let rev_append_commit_hash_key = sha256(buf.as_slice());
    let mut buf2: Vec<u8> = Vec::new();
    push_all(&mut buf2, &per_commitment_point);
    push_all(&mut buf2, &revocation_base_point);
    let commit_append_rev_hash_key = sha256(buf2.as_slice());
    let part_a = match scalar_mul(revocation_base_secret, &rev_append_commit_hash_key) {
        Some(k) => k,
        None => return None,
    };
    let part_b = match scalar_mul(per_commitment_secret, &commit_append_rev_hash_key) {
        Some(k) => k,
        None => return None,
    };
    scalar_add(&part_a, &part_b)
}

/// The revocation public key of a commitment.
pub open spec fn derived_revocation_pubkey(per_commitment_point: Seq<u8>, revocation_base_point: Seq<u8>) -> Option<Seq<u8>> {
    let h1 = sha256_of(revocation_base_point + per_commitment_point);
    let h2 = sha256_of(per_commitment_point + revocation_base_point);
    match (point_mul_of(revocation_base_point, h1), point_mul_of(per_commitment_point, h2)) {
        (Some(a), Some(b)) => point_add_of(a, b),
        _ => None,
    }
}

pub fn derive_public_revocation_key(per_commitment_point: &[u8; 33], revocation_base_point: &[u8; 33]) -> (r: Option<[u8; 33]>)
    requires
        pubkey_valid(per_commitment_point@),
        pubkey_valid(revocation_base_point@),
    ensures
        match r {
            Some(k) => derived_revocation_pubkey(per_commitment_point@, revocation_base_point@) == Some(k@) && pubkey_valid(k@),
            None => derived_revocation_pubkey(per_commitment_point@, revocation_base_point@) is None,
        },
{
    let mut buf: Vec<u8> = Vec::new();
    push_all(&mut buf, revocation_base_point);
    push_all(&mut buf, per_commitment_point);
    let rev_append_commit_hash_key = sha256(buf.as_slice());
    let mut buf2: Vec<u8> = Vec::new();
    push_all(&mut buf2, per_commitment_point);
    push_all(&mut buf2, revocation_base_point);
    let commit_append_rev_hash_key = sha256(buf2.as_slice());
    let part_a = point_mul(revocation_base_point, &rev_append_commit_hash_key);
    let part_b = point_mul(per_commitment_point, &commit_append_rev_hash_key);
    match (part_a, part_b) {
        (Some(a), Some(b)) => point_add(&a, &b),
        _ => None,
    }
}

} // verus!
