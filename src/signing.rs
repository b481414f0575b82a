//! The signing primitives of the in-memory signer: BIP-143 SIGHASH_ALL
//! signatures for each transaction of a channel, and the funding-key
//! signature of a channel announcement.

use vstd::prelude::*;

use crate::crypto::{
    be_nat, ecdsa_sign_of, is_valid_pubkey, public_key, pubkey_of, pubkey_valid, scalar_in_range,
    sha256d, sha256d_of, sign_digest,
};
use crate::scripts::{
    build_htlc_transaction, derive_private_key, derive_private_revocation_key,
    derive_public_key, derive_public_revocation_key, derived_private_key, derived_public_key,
    derived_revocation_pubkey, derived_revocation_secret, funding_script, private_key_derivable, get_htlc_redeemscript,
    get_htlc_redeemscript_with_explicit_keys, get_revokeable_redeemscript, htlc_fee_covered,
    htlc_script, htlc_script_of, htlc_tx, make_funding_redeemscript, revokeable_script,
    HTLCOutputInCommitment, TxCreationKeys,
};
use crate::signer::InMemoryChannelKeys;
use crate::tx::{sighash_all, sighash_all_of, txid, txid_of, Tx, TxView};

verus! {

/// The signature of a digest with a secret; none for the all-zero digest.
pub open spec fn signature_of(digest: Seq<u8>, secret: Seq<u8>) -> Option<Seq<u8>> {
    if digest == Seq::new(32, |i: int| 0u8) {
        None
    } else {
        Some(ecdsa_sign_of(digest, secret))
    }
}

/// Signs a digest, refusing the all-zero one.
fn sign(digest: &[u8; 32], secret: &[u8; 32]) -> (r: Result<[u8; 64], ()>)
    requires
        scalar_in_range(secret@),
    ensures
        match signature_of(digest@, secret@) {
            Some(s) => r matches Ok(sig) && sig@ == s,
            None => r is Err,
        },
{
    match sign_digest(digest, secret) {
        Some(sig) => Ok(sig),
        None => Err(()),
    }
}

/// The digest an HTLC's second-stage transaction is signed over.
pub open spec fn htlc_digest(
    commitment_txid: Seq<u8>,
    feerate_per_kw: u32,
    to_self_delay: u16,
    htlc: HTLCOutputInCommitment,
    keys: TxCreationKeys,
) -> Seq<u8> {
    sighash_all_of(
        htlc_tx(commitment_txid, feerate_per_kw, to_self_delay, htlc, keys.a_delayed_payment_key@, keys.revocation_key@),
        0,
        htlc_script_of(htlc, keys),
        (htlc.amount_msat / 1000) as u64,
    )
}

/// `sig` signs the second-stage transaction of `htlc` with the HTLC key of
/// the commitment.
pub open spec fn is_htlc_signature(
    sig: Seq<u8>,
    commitment_txid: Seq<u8>,
    feerate_per_kw: u32,
    to_self_delay: u16,
    htlc: HTLCOutputInCommitment,
    keys: TxCreationKeys,
    htlc_base_key: Seq<u8>,
) -> bool {
    exists|k: Seq<u8>|
        derived_private_key(keys.per_commitment_point@, htlc_base_key, k) && signature_of(
            htlc_digest(commitment_txid, feerate_per_kw, to_self_delay, htlc, keys),
            k,
        ) == Some(sig)
}

/// `sigs` sign, in order, the second-stage transactions of the HTLCs of
/// `htlcs` that have an output; dust HTLCs get none.
pub open spec fn htlc_sigs_match(
    sigs: Seq<Seq<u8>>,
    htlcs: Seq<HTLCOutputInCommitment>,
    commitment_txid: Seq<u8>,
    feerate_per_kw: u32,
    to_self_delay: u16,
    keys: TxCreationKeys,
    htlc_base_key: Seq<u8>,
) -> bool
    decreases htlcs.len(),
{
    if htlcs.len() == 0 {
        sigs.len() == 0
    } else if htlcs.last().transaction_output_index is None {
        htlc_sigs_match(sigs, htlcs.drop_last(), commitment_txid, feerate_per_kw, to_self_delay, keys, htlc_base_key)
    } else {
        &&& sigs.len() > 0
        &&& is_htlc_signature(sigs.last(), commitment_txid, feerate_per_kw, to_self_delay, htlcs.last(), keys, htlc_base_key)
        &&& htlc_sigs_match(sigs.drop_last(), htlcs.drop_last(), commitment_txid, feerate_per_kw, to_self_delay, keys, htlc_base_key)
    }
}

/// Every HTLC with an output can be signed: the HTLC key derives and no
/// digest is zero.
pub open spec fn htlcs_signable(
    htlcs: Seq<HTLCOutputInCommitment>,
    commitment_txid: Seq<u8>,
    feerate_per_kw: u32,
    to_self_delay: u16,
    keys: TxCreationKeys,
    htlc_base_key: Seq<u8>,
) -> bool {
    forall|i: int|
        0 <= i < htlcs.len() && (#[trigger] htlcs[i]).transaction_output_index is Some ==> {
            &&& private_key_derivable(keys.per_commitment_point@, htlc_base_key)
            &&& htlc_digest(commitment_txid, feerate_per_kw, to_self_delay, htlcs[i], keys) != Seq::new(32, |j: int| 0u8)
        }
}

/// The HTLCs with an output pay for their second-stage fee.
pub open spec fn htlc_fees_covered(htlcs: Seq<HTLCOutputInCommitment>, feerate_per_kw: u32) -> bool {
    forall|i: int|
        0 <= i < htlcs.len() && (#[trigger] htlcs[i]).transaction_output_index is Some ==> htlc_fee_covered(htlcs[i], feerate_per_kw)
}

/// A commitment transaction as the local side holds it: the transaction,
/// its keys, its feerate and its HTLCs.
#[derive(Clone, Debug, PartialEq, Eq)]
pub struct LocalCommitmentTransaction {
    pub unsigned_tx: Tx,
    pub local_keys: TxCreationKeys,
    pub feerate_per_kw: u32,
    pub per_htlc: Vec<HTLCOutputInCommitment>,
}

impl InMemoryChannelKeys {
    /// The 2-of-2 script of the funding output.
    pub open spec fn funding_redeemscript(&self) -> Seq<u8> {
        funding_script(pubkey_of(self.funding_key@), self.remote_channel_pubkeys.unwrap().funding_pubkey@)
    }

    /// The funding-key signature of input 0 of `tx`, spending the channel's
    /// funding output.
    pub open spec fn funding_signature(&self, tx: TxView) -> Option<Seq<u8>> {
        signature_of(sighash_all_of(tx, 0, self.funding_redeemscript(), self.channel_value_satoshis), self.funding_key@)
    }

    fn sign_funding_input(&self, tx: &Tx) -> (r: Result<[u8; 64], ()>)
        requires
            self.wf(),
            self.remote_channel_pubkeys is Some,
            tx.input@.len() >= 1,
        ensures
            match self.funding_signature(tx@) {
                Some(s) => r matches Ok(sig) && sig@ == s,
                None => r is Err,
            },
    {
        let funding_pubkey = public_key(&self.funding_key);
        let remote_channel_pubkeys = self.remote_channel_pubkeys.unwrap();
        let channel_funding_redeemscript = make_funding_redeemscript(&funding_pubkey, &remote_channel_pubkeys.funding_pubkey);
        let sighash = sighash_all(tx, 0, channel_funding_redeemscript.as_slice(), self.channel_value_satoshis);
        sign(&sighash, &self.funding_key)
    }

    /// Signs a cooperative closing transaction with the funding key. It must
    /// spend one input, with an empty witness, into at most two outputs, and
    /// the counterparty's basepoints must be known.
    pub fn sign_closing_transaction(&self, closing_tx: &Tx) -> (r: Result<[u8; 64], ()>)
        requires
            self.wf(),
        ensures
            (closing_tx.input@.len() != 1 || closing_tx.input@[0].witness@.len() != 0
                || closing_tx.output@.len() > 2) ==> r is Err,
            self.remote_channel_pubkeys is None ==> r is Err,
            (closing_tx.input@.len() == 1 && closing_tx.input@[0].witness@.len() == 0
                && closing_tx.output@.len() <= 2 && self.remote_channel_pubkeys is Some) ==> match self.funding_signature(closing_tx@) {
                Some(s) => r matches Ok(sig) && sig@ == s,
                None => r is Err,
            },
    {
        if closing_tx.input.len() != 1 {
            return Err(());
        }
        if closing_tx.input[0].witness.len() != 0 {
            return Err(());
        }
        if closing_tx.output.len() > 2 {
            return Err(());
        }
        if self.remote_channel_pubkeys.is_none() {
            return Err(());
        }
        self.sign_funding_input(closing_tx)
    }

    /// Signs our commitment transaction with the funding key; refused while
    /// the counterparty's basepoints are unknown.
    pub fn sign_local_commitment(&self, local_commitment_tx: &LocalCommitmentTransaction) -> (r: Result<[u8; 64], ()>)
        requires
            self.wf(),
            local_commitment_tx.unsigned_tx.input@.len() >= 1,
        ensures
            self.remote_channel_pubkeys is None ==> r is Err,
            self.remote_channel_pubkeys is Some ==> match self.funding_signature(local_commitment_tx.unsigned_tx@) {
                Some(s) => r matches Ok(sig) && sig@ == s,
                None => r is Err,
            },
    {
        if self.remote_channel_pubkeys.is_none() {
            return Err(());
        }
        self.sign_funding_input(&local_commitment_tx.unsigned_tx)
    }

    /// As `sign_local_commitment`, for tests and recovery that sign an old
    /// commitment again; production code must not call it.
    pub fn unsafe_sign_local_commitment(&self, local_commitment_tx: &LocalCommitmentTransaction) -> (r: Result<[u8; 64], ()>)
        requires
            self.wf(),
            local_commitment_tx.unsigned_tx.input@.len() >= 1,
        ensures
            self.remote_channel_pubkeys is None ==> r is Err,
            self.remote_channel_pubkeys is Some ==> match self.funding_signature(local_commitment_tx.unsigned_tx@) {
                Some(s) => r matches Ok(sig) && sig@ == s,
                None => r is Err,
            },
    {
        if self.remote_channel_pubkeys.is_none() {
            return Err(());
        }
        self.sign_funding_input(&local_commitment_tx.unsigned_tx)
    }

    /// Signs the double SHA-256 of an encoded channel announcement with the
    /// funding key.
    pub fn sign_channel_announcement(&self, msg: &[u8]) -> (r: Result<[u8; 64], ()>)
        requires
            self.wf(),
        ensures
            match signature_of(sha256d_of(msg@), self.funding_key@) {
                Some(s) => r matches Ok(sig) && sig@ == s,
                None => r is Err,
            },
    {
        let msghash = sha256d(msg);
        sign(&msghash, &self.funding_key)
    }
}

/// Signs the second-stage transaction of a non-dust HTLC of a commitment.
fn sign_htlc(
    commitment_txid: &[u8; 32],
    feerate_per_kw: u32,
    to_self_delay: u16,
    htlc: &HTLCOutputInCommitment,
    keys: &TxCreationKeys,
    htlc_key: &[u8; 32],
) -> (r: Result<[u8; 64], ()>)
    requires
        htlc.transaction_output_index is Some,
        htlc_fee_covered(*htlc, feerate_per_kw),
        scalar_in_range(htlc_key@),
    ensures
        match signature_of(htlc_digest(commitment_txid@, feerate_per_kw, to_self_delay, *htlc, *keys), htlc_key@) {
            Some(s) => r matches Ok(sig) && sig@ == s,
            None => r is Err,
        },
{
    let htlc_tx = build_htlc_transaction(
        commitment_txid,
        feerate_per_kw,
        to_self_delay,
        htlc,
        &keys.a_delayed_payment_key,
        &keys.revocation_key,
    );
    let htlc_redeemscript = get_htlc_redeemscript(htlc, keys);
    assert(htlc_tx.input@.len() == htlc_tx@.input.len());
    let htlc_sighash = sighash_all(&htlc_tx, 0, htlc_redeemscript.as_slice(), htlc.amount_msat / 1000);
    sign(&htlc_sighash, htlc_key)
}

/// The witness script a justice transaction spends: the HTLC script of the
/// revoked commitment, or its revokeable output's script.
pub open spec fn justice_script(
    signer: InMemoryChannelKeys,
    per_commitment_secret: Seq<u8>,
    htlc: Option<HTLCOutputInCommitment>,
    on_remote_tx_csv: u16,
) -> Option<Seq<u8>> {
    let pcp = pubkey_of(per_commitment_secret);
    let remote = signer.remote_channel_pubkeys.unwrap();
    match derived_revocation_pubkey(pcp, signer.local_channel_pubkeys.revocation_basepoint@) {
        None => None,
        Some(rev) => match htlc {
            Some(h) => match (
                derived_public_key(pcp, remote.htlc_basepoint@),
                derived_public_key(pcp, signer.local_channel_pubkeys.htlc_basepoint@),
            ) {
                (Some(a), Some(b)) => Some(htlc_script(h.offered, h.cltv_expiry, h.payment_hash@, a, b, rev)),
                _ => None,
            },
            None => match derived_public_key(pcp, remote.delayed_payment_basepoint@) {
                Some(d) => Some(revokeable_script(rev, on_remote_tx_csv, d)),
                None => None,
            },
        },
    }
}

/// The witness script of an HTLC output on the counterparty's commitment.
pub open spec fn remote_htlc_script(
    signer: InMemoryChannelKeys,
    per_commitment_point: Seq<u8>,
    htlc: HTLCOutputInCommitment,
) -> Option<Seq<u8>> {
    let remote = signer.remote_channel_pubkeys.unwrap();
    match (
        derived_revocation_pubkey(per_commitment_point, signer.local_channel_pubkeys.revocation_basepoint@),
        derived_public_key(per_commitment_point, remote.htlc_basepoint@),
        derived_public_key(per_commitment_point, signer.local_channel_pubkeys.htlc_basepoint@),
    ) {
        (Some(rev), Some(a), Some(b)) => Some(htlc_script(htlc.offered, htlc.cltv_expiry, htlc.payment_hash@, a, b, rev)),
        _ => None,
    }
}

impl InMemoryChannelKeys {
    /// Signs the counterparty's commitment transaction with the funding
    /// key, and the second-stage transaction of each of its HTLCs that has
    /// an output with the commitment's HTLC key, in order. The commitment
    /// must spend exactly one input, and the counterparty's basepoints must
    /// be known.
    #[verifier::rlimit(40)]
    pub fn sign_remote_commitment(
        &self,
        feerate_per_kw: u32,
        commitment_tx: &Tx,
        keys: &TxCreationKeys,
        htlcs: &[HTLCOutputInCommitment],
        to_self_delay: u16,
    ) -> (r: Result<([u8; 64], Vec<[u8; 64]>), ()>)
        requires
            self.wf(),
            htlc_fees_covered(htlcs@, feerate_per_kw),
        ensures
            commitment_tx.input@.len() != 1 ==> r is Err,
            self.remote_channel_pubkeys is None ==> r is Err,
            (commitment_tx.input@.len() == 1 && self.remote_channel_pubkeys is Some) ==> (r is Ok <==> (self.funding_signature(commitment_tx@) is Some && htlcs_signable(htlcs@, txid_of(commitment_tx@), feerate_per_kw, to_self_delay, *keys, self.htlc_base_key@))),
            r matches Ok((sig, sigs)) ==> (Some(sig@) == self.funding_signature(commitment_tx@) && htlc_sigs_match(sigs@.map_values(|s: [u8; 64]| s@), htlcs@, txid_of(commitment_tx@), feerate_per_kw, to_self_delay, *keys, self.htlc_base_key@)),
    {
        if commitment_tx.input.len() != 1 {
            return Err(());
        }
        if self.remote_channel_pubkeys.is_none() {
            return Err(());
        }
        let commitment_sig = match self.sign_funding_input(commitment_tx) {
            Ok(s) => s,
            Err(e) => return Err(e),
        };
        let commitment_txid = txid(commitment_tx);
        let mut htlc_sigs: Vec<[u8; 64]> = Vec::new();
        let mut i: usize = 0;
        while i < htlcs.len()
            invariant
                i <= htlcs@.len(),
                self.wf(),
                htlc_fees_covered(htlcs@, feerate_per_kw),
                commitment_txid@ == txid_of(commitment_tx@),
                htlc_sigs_match(htlc_sigs@.map_values(|s: [u8; 64]| s@), htlcs@.subrange(0, i as int), commitment_txid@, feerate_per_kw, to_self_delay, *keys, self.htlc_base_key@),
                htlcs_signable(htlcs@.subrange(0, i as int), commitment_txid@, feerate_per_kw, to_self_delay, *keys, self.htlc_base_key@),
            decreases htlcs@.len() - i,
        {
            let htlc = htlcs[i];
            let ghost old_sigs = htlc_sigs@;
            assert(htlcs@.subrange(0, i + 1).drop_last() =~= htlcs@.subrange(0, i as int));
            assert(htlcs@.subrange(0, i + 1).last() == htlc);
            if htlc.transaction_output_index.is_some() {
                let our_htlc_key = match derive_private_key(&keys.per_commitment_point, &self.htlc_base_key) {
                    Some(k) => k,
                    None => return Err(()),
                };
                let sig = match sign_htlc(&commitment_txid, feerate_per_kw, to_self_delay, &htlc, keys, &our_htlc_key) {
                    Ok(s) => s,
                    Err(e) => return Err(e),
                };
                htlc_sigs.push(sig);
                assert(htlc_sigs@.map_values(|s: [u8; 64]| s@).drop_last() =~= old_sigs.map_values(|s: [u8; 64]| s@));
                assert(is_htlc_signature(sig@, commitment_txid@, feerate_per_kw, to_self_delay, htlc, *keys, self.htlc_base_key@));
            }
            assert forall|j: int|
                0 <= j < i + 1 && (#[trigger] htlcs@.subrange(0, i + 1)[j]).transaction_output_index is Some implies {
                    &&& private_key_derivable(keys.per_commitment_point@, self.htlc_base_key@)
                    &&& htlc_digest(commitment_txid@, feerate_per_kw, to_self_delay, htlcs@.subrange(0, i + 1)[j], *keys) != Seq::new(32, |k: int| 0u8)
                } by {
                if j < i {
                    assert(htlcs@.subrange(0, i + 1)[j] == htlcs@.subrange(0, i as int)[j]);
                }
            }
            i = i + 1;
        }
        assert(htlcs@.subrange(0, htlcs@.len() as int) =~= htlcs@);
        Ok((commitment_sig, htlc_sigs))
    }
}

impl InMemoryChannelKeys {
    /// Signs the second-stage transaction of each HTLC of our commitment:
    /// one entry per HTLC, `None` for dust. The HTLC key of the commitment
    /// is derived first, whether or not any HTLC needs it.
    #[verifier::rlimit(40)]
    pub fn sign_local_commitment_htlc_transactions(
        &self,
        local_commitment_tx: &LocalCommitmentTransaction,
        local_csv: u16,
    ) -> (r: Result<Vec<Option<[u8; 64]>>, ()>)
        requires
            self.wf(),
            htlc_fees_covered(local_commitment_tx.per_htlc@, local_commitment_tx.feerate_per_kw),
        ensures
            ({
                let txid = txid_of(local_commitment_tx.unsigned_tx@);
                &&& (r is Ok <==> (private_key_derivable(local_commitment_tx.local_keys.per_commitment_point@, self.htlc_base_key@)
                    && htlcs_signable(local_commitment_tx.per_htlc@, txid, local_commitment_tx.feerate_per_kw, local_csv, local_commitment_tx.local_keys, self.htlc_base_key@)))
                &&& (r matches Ok(sigs) ==> {
                    &&& sigs@.len() == local_commitment_tx.per_htlc@.len()
                    &&& forall|i: int| 0 <= i < sigs@.len() ==> match #[trigger] sigs@[i] {
                        None => local_commitment_tx.per_htlc@[i].transaction_output_index is None,
                        Some(sig) => local_commitment_tx.per_htlc@[i].transaction_output_index is Some && is_htlc_signature(
                            sig@, txid, local_commitment_tx.feerate_per_kw, local_csv, local_commitment_tx.per_htlc@[i], local_commitment_tx.local_keys, self.htlc_base_key@),
                    }
                })
            }),
    {
        let keys = &local_commitment_tx.local_keys;
        let feerate_per_kw = local_commitment_tx.feerate_per_kw;
        let per_htlc = &local_commitment_tx.per_htlc;
        let commitment_txid = txid(&local_commitment_tx.unsigned_tx);
        let our_htlc_key = match derive_private_key(&keys.per_commitment_point, &self.htlc_base_key) {
            Some(k) => k,
            None => return Err(()),
        };
        let mut ret: Vec<Option<[u8; 64]>> = Vec::new();
        let mut i: usize = 0;
        while i < per_htlc.len()
            invariant
                i <= per_htlc@.len(),
                ret@.len() == i,
                *keys == local_commitment_tx.local_keys,
                per_htlc@ == local_commitment_tx.per_htlc@,
                feerate_per_kw == local_commitment_tx.feerate_per_kw,
                scalar_in_range(our_htlc_key@),
                derived_private_key(keys.per_commitment_point@, self.htlc_base_key@, our_htlc_key@),
                private_key_derivable(keys.per_commitment_point@, self.htlc_base_key@),
                htlc_fees_covered(per_htlc@, feerate_per_kw),
                commitment_txid@ == txid_of(local_commitment_tx.unsigned_tx@),
                htlcs_signable(per_htlc@.subrange(0, i as int), commitment_txid@, feerate_per_kw, local_csv, *keys, self.htlc_base_key@),
                forall|j: int| 0 <= j < i ==> match #[trigger] ret@[j] {
                    None => per_htlc@[j].transaction_output_index is None,
                    Some(sig) => per_htlc@[j].transaction_output_index is Some && is_htlc_signature(
                        sig@, commitment_txid@, feerate_per_kw, local_csv, per_htlc@[j], *keys, self.htlc_base_key@),
                },
            decreases per_htlc@.len() - i,
        {
            let htlc = per_htlc[i];
            if htlc.transaction_output_index.is_some() {
                let sig = match sign_htlc(&commitment_txid, feerate_per_kw, local_csv, &htlc, keys, &our_htlc_key) {
                    Ok(s) => s,
                    Err(e) => {
                        assert(per_htlc@[i as int] == htlc);
                        assert(!htlcs_signable(per_htlc@, commitment_txid@, feerate_per_kw, local_csv, *keys, self.htlc_base_key@));
                        return Err(e);
                    },
                };
                assert(is_htlc_signature(sig@, commitment_txid@, feerate_per_kw, local_csv, htlc, *keys, self.htlc_base_key@));
                ret.push(Some(sig));
            } else {
                ret.push(None);
            }
            assert forall|j: int|
                0 <= j < i + 1 && (#[trigger] per_htlc@.subrange(0, i + 1)[j]).transaction_output_index is Some implies {
                    &&& private_key_derivable(keys.per_commitment_point@, self.htlc_base_key@)
                    &&& htlc_digest(commitment_txid@, feerate_per_kw, local_csv, per_htlc@.subrange(0, i + 1)[j], *keys) != Seq::new(32, |k: int| 0u8)
                } by {
                if j < i {
                    assert(per_htlc@.subrange(0, i + 1)[j] == per_htlc@.subrange(0, i as int)[j]);
                }
            }
            i = i + 1;
        }
        assert(per_htlc@.subrange(0, per_htlc@.len() as int) =~= per_htlc@);
        Ok(ret)
    }

    /// The counterparty broadcast a revoked commitment: signs input `input`
    /// of a justice transaction with the revocation secret of that
    /// commitment, over the HTLC script (for an HTLC output) or the
    /// revokeable script (for the counterparty's delayed output). Refused
    /// while the counterparty's basepoints are unknown.
    #[verifier::rlimit(40)]
    pub fn sign_justice_transaction(
        &self,
        justice_tx: &Tx,
        input: usize,
        amount: u64,
        per_commitment_key: &[u8; 32],
        htlc: &Option<HTLCOutputInCommitment>,
        on_remote_tx_csv: u16,
    ) -> (r: Result<[u8; 64], ()>)
        requires
            self.wf(),
            input < justice_tx.input@.len(),
            scalar_in_range(per_commitment_key@),
        ensures
            self.remote_channel_pubkeys is None ==> r is Err,
            ({
                let ws = justice_script(*self, per_commitment_key@, *htlc, on_remote_tx_csv);
                let rev = derived_revocation_secret(per_commitment_key@, self.revocation_base_key@);
                &&& (self.remote_channel_pubkeys is Some ==> (r is Ok <==> (rev is Some && ws is Some && sighash_all_of(justice_tx@, input as int, ws.unwrap(), amount) != Seq::new(32, |i: int| 0u8))))
                &&& (r matches Ok(sig) ==> exists|k: Seq<u8>| scalar_in_range(k) && rev == Some(be_nat(k))
                    && signature_of(sighash_all_of(justice_tx@, input as int, ws.unwrap(), amount), k) == Some(sig@))
            }),
    {
        if self.remote_channel_pubkeys.is_none() {
            return Err(());
        }
        let revocation_key = match derive_private_revocation_key(per_commitment_key, &self.revocation_base_key) {
            Some(k) => k,
            None => return Err(()),
        };
        let per_commitment_point = public_key(per_commitment_key);
        let revocation_pubkey = match derive_public_revocation_key(&per_commitment_point, &self.local_channel_pubkeys.revocation_basepoint) {
            Some(k) => k,
            None => return Err(()),
        };
        let remote = self.remote_channel_pubkeys.unwrap();
        let witness_script = match htlc {
            Some(h) => {
                let remote_htlcpubkey = match derive_public_key(&per_commitment_point, &remote.htlc_basepoint) {
                    Some(k) => k,
                    None => return Err(()),
                };
                let local_htlcpubkey = match derive_public_key(&per_commitment_point, &self.local_channel_pubkeys.htlc_basepoint) {
                    Some(k) => k,
                    None => return Err(()),
                };
                get_htlc_redeemscript_with_explicit_keys(h, &remote_htlcpubkey, &local_htlcpubkey, &revocation_pubkey)
            },
            None => {
                let remote_delayedpubkey = match derive_public_key(&per_commitment_point, &remote.delayed_payment_basepoint) {
                    Some(k) => k,
                    None => return Err(()),
                };
                get_revokeable_redeemscript(&revocation_pubkey, on_remote_tx_csv, &remote_delayedpubkey)
            },
        };
        assert(justice_tx.input@.len() == justice_tx@.input.len());
        let sighash = sighash_all(justice_tx, input, witness_script.as_slice(), amount);
        sign(&sighash, &revocation_key)
    }

    /// Signs input `input` of a transaction claiming an HTLC output of the
    /// counterparty's commitment, with our HTLC key of that commitment. A
    /// per-commitment point that is no curve point, or a signer whose
    /// counterparty basepoints are unknown, is refused.
    pub fn sign_remote_htlc_transaction(
        &self,
        htlc_tx: &Tx,
        input: usize,
        amount: u64,
        per_commitment_point: &[u8; 33],
        htlc: &HTLCOutputInCommitment,
    ) -> (r: Result<[u8; 64], ()>)
        requires
            self.wf(),
            input < htlc_tx.input@.len(),
        ensures
            self.remote_channel_pubkeys is None ==> r is Err,
            ({
                let ws = remote_htlc_script(*self, per_commitment_point@, *htlc);
                &&& (self.remote_channel_pubkeys is Some ==> (r is Ok <==> (pubkey_valid(per_commitment_point@) && private_key_derivable(per_commitment_point@, self.htlc_base_key@) && ws is Some
                    && sighash_all_of(htlc_tx@, input as int, ws.unwrap(), amount) != Seq::new(32, |i: int| 0u8))))
                &&& (r matches Ok(sig) ==> exists|k: Seq<u8>| derived_private_key(per_commitment_point@, self.htlc_base_key@, k)
                    && signature_of(sighash_all_of(htlc_tx@, input as int, ws.unwrap(), amount), k) == Some(sig@))
            }),
    {
        if self.remote_channel_pubkeys.is_none() || !is_valid_pubkey(per_commitment_point) {
            return Err(());
        }
        let htlc_key = match derive_private_key(per_commitment_point, &self.htlc_base_key) {
            Some(k) => k,
            None => return Err(()),
        };
        let remote = self.remote_channel_pubkeys.unwrap();
        let revocation_pubkey = match derive_public_revocation_key(per_commitment_point, &self.local_channel_pubkeys.revocation_basepoint) {
            Some(k) => k,
            None => return Err(()),
        };
        let remote_htlcpubkey = match derive_public_key(per_commitment_point, &remote.htlc_basepoint) {
            Some(k) => k,
            None => return Err(()),
        };
        let local_htlcpubkey = match derive_public_key(per_commitment_point, &self.local_channel_pubkeys.htlc_basepoint) {
            Some(k) => k,
            None => return Err(()),
        };
        let witness_script = get_htlc_redeemscript_with_explicit_keys(htlc, &remote_htlcpubkey, &local_htlcpubkey, &revocation_pubkey);
        assert(htlc_tx.input@.len() == htlc_tx@.input.len());
        let sighash = sighash_all(htlc_tx, input, witness_script.as_slice(), amount);
        sign(&sighash, &htlc_key)
    }
}

} // verus!
