//! The signer and key-source interfaces a channel uses, so that keys may
//! live elsewhere (a hardware wallet, a remote signer), and their in-memory
//! implementations. Each method checks at run time what the verified
//! methods of the in-memory types require, and refuses otherwise.

use vstd::prelude::*;

use crate::crypto::{be_nat, is_valid_pubkey, is_valid_secret, public_key, pubkey_valid, scalar_in_range, sha256d_of};
use crate::manager::{channel_params, KeysManager};
use crate::scripts::{derived_private_key, derived_revocation_secret, htlc_fee_covered, private_key_derivable, HTLCOutputInCommitment, TxCreationKeys, HTLC_SUCCESS_TX_WEIGHT, HTLC_TIMEOUT_TX_WEIGHT};
use crate::signer::{ChannelPublicKeys, InMemoryChannelKeys};
use crate::signing::{
    htlc_fees_covered, htlc_sigs_match, htlcs_signable, is_htlc_signature, justice_script,
    remote_htlc_script, signature_of, LocalCommitmentTransaction,
};
use crate::tx::{sighash_all_of, txid_of, Tx, TxView};

verus! {

/// The keys of one channel, and the signatures the channel needs from them.
pub trait ChannelKeys {
    /// The seed of the per-commitment secrets.
    fn commitment_seed(&self) -> [u8; 32];

    /// Our public keys and basepoints.
    fn pubkeys(&self) -> ChannelPublicKeys;

    /// What identifies these keys, so that they can be derived again.
    fn key_derivation_params(&self) -> (u64, u64);

    /// Signs the counterparty's commitment and the second-stage
    /// transactions of its non-dust HTLCs.
    fn sign_remote_commitment(
        &self,
        feerate_per_kw: u32,
        commitment_tx: &Tx,
        keys: &TxCreationKeys,
        htlcs: &[HTLCOutputInCommitment],
        to_self_delay: u16,
    ) -> Result<([u8; 64], Vec<[u8; 64]>), ()>;

    /// Signs our commitment transaction.
    fn sign_local_commitment(&self, local_commitment_tx: &LocalCommitmentTransaction) -> Result<[u8; 64], ()>;

    /// Signs the second-stage transactions of the HTLCs of our commitment.
    fn sign_local_commitment_htlc_transactions(
        &self,
        local_commitment_tx: &LocalCommitmentTransaction,
        local_csv: u16,
    ) -> Result<Vec<Option<[u8; 64]>>, ()>;

    /// Signs one input of a justice transaction.
    fn sign_justice_transaction(
        &self,
        justice_tx: &Tx,
        input: usize,
        amount: u64,
        per_commitment_key: &[u8; 32],
        htlc: &Option<HTLCOutputInCommitment>,
        on_remote_tx_csv: u16,
    ) -> Result<[u8; 64], ()>;

    /// Signs one input claiming an HTLC of the counterparty's commitment.
    fn sign_remote_htlc_transaction(
        &self,
        htlc_tx: &Tx,
        input: usize,
        amount: u64,
        per_commitment_point: &[u8; 33],
        htlc: &HTLCOutputInCommitment,
    ) -> Result<[u8; 64], ()>;

    /// Signs a cooperative closing transaction.
    fn sign_closing_transaction(&self, closing_tx: &Tx) -> Result<[u8; 64], ()>;

    /// Signs an encoded channel announcement.
    fn sign_channel_announcement(&self, msg: &[u8]) -> Result<[u8; 64], ()>;

    /// Records the counterparty's basepoints; refused once they are set.
    fn set_remote_channel_pubkeys(&mut self, channel_points: &ChannelPublicKeys) -> Result<(), ()>;
}

/// A source of node secrets and of channel keys.
pub trait KeysInterface {
    /// Our node's secret key.
    fn get_node_secret(&self) -> [u8; 32];

    /// The script that static protocol exits pay to.
    fn get_destination_script(&self) -> Vec<u8>;

    /// The key of our cooperative-close outputs.
    fn get_shutdown_pubkey(&self) -> [u8; 33];

    /// Keys for a new channel, unique to it; `None` when none can be made.
    fn get_channel_keys(&mut self, inbound: bool, channel_value_satoshis: u64) -> Option<InMemoryChannelKeys>;

    /// A secret and a PRNG seed for an onion packet.
    fn get_onion_rand(&mut self) -> Option<([u8; 32], [u8; 32])>;

    /// A unique temporary channel id.
    fn get_channel_id(&mut self) -> Option<[u8; 32]>;
}

fn key_eq(a: &[u8; 33], b: &[u8; 33]) -> (r: bool)
    ensures
        r == (a@ == b@),
{
    let mut i: usize = 0;
    while i < 33
        invariant
            i <= 33,
            a@.len() == 33,
            b@.len() == 33,
            forall|j: int| 0 <= j < i ==> a@[j] == b@[j],
        decreases 33 - i,
    {
        if a[i] != b[i] {
            return false;
        }
        i = i + 1;
    }
    assert(a@ =~= b@);
    true
}

fn keys_valid(k: &ChannelPublicKeys) -> (r: bool)
    ensures
        r == k.valid(),
{
    is_valid_pubkey(&k.funding_pubkey) && is_valid_pubkey(&k.revocation_basepoint) && is_valid_pubkey(
        &k.payment_point,
    ) && is_valid_pubkey(&k.delayed_payment_basepoint) && is_valid_pubkey(&k.htlc_basepoint)
}

/// Whether every non-dust HTLC pays for its second-stage fee.
pub fn htlc_fees_ok(htlcs: &[HTLCOutputInCommitment], feerate_per_kw: u32) -> (r: bool)
    ensures
        r == htlc_fees_covered(htlcs@, feerate_per_kw),
{
    let mut i: usize = 0;
    while i < htlcs.len()
        invariant
            i <= htlcs@.len(),
            forall|j: int| 0 <= j < i && (#[trigger] htlcs@[j]).transaction_output_index is Some ==> htlc_fee_covered(htlcs@[j], feerate_per_kw),
        decreases htlcs@.len() - i,
    {
        let h = htlcs[i];
        if h.transaction_output_index.is_some() {
            let weight = if h.offered { HTLC_TIMEOUT_TX_WEIGHT } else { HTLC_SUCCESS_TX_WEIGHT };
            assert(feerate_per_kw * weight <= 0xFFFF_FFFF * 703) by (nonlinear_arith)
                requires weight <= 703;
            if h.amount_msat / 1000 < feerate_per_kw as u64 * weight / 1000 {
                return false;
            }
        }
        i = i + 1;
    }
    true
}

impl InMemoryChannelKeys {
    /// Whether this signer is well formed: what its verified methods require.
    pub fn is_well_formed(&self) -> (r: bool)
        ensures
            r == self.wf(),
    {
        if !(is_valid_secret(&self.funding_key) && is_valid_secret(&self.revocation_base_key)
            && is_valid_secret(&self.payment_key) && is_valid_secret(&self.delayed_payment_base_key)
            && is_valid_secret(&self.htlc_base_key)) {
            return false;
        }
        let l = &self.local_channel_pubkeys;
        if !(key_eq(&l.funding_pubkey, &public_key(&self.funding_key))
            && key_eq(&l.revocation_basepoint, &public_key(&self.revocation_base_key))
            && key_eq(&l.payment_point, &public_key(&self.payment_key))
            && key_eq(&l.delayed_payment_basepoint, &public_key(&self.delayed_payment_base_key))
            && key_eq(&l.htlc_basepoint, &public_key(&self.htlc_base_key))) {
            return false;
        }
        match &self.remote_channel_pubkeys {
            Some(k) => keys_valid(k),
            None => true,
        }
    }
}

/// What signing a closing transaction gives: refused unless it spends one
/// input with an empty witness into at most two outputs and the
/// counterparty's basepoints are known; else the funding-key signature.
pub open spec fn closing_result(k: InMemoryChannelKeys, tx: TxView, r: Result<[u8; 64], ()>) -> bool {
    if tx.input.len() != 1 || tx.input[0].witness.len() != 0 || tx.output.len() > 2
        || k.remote_channel_pubkeys is None {
        r is Err
    } else {
        match k.funding_signature(tx) {
            Some(s) => r matches Ok(sig) && sig@ == s,
            None => r is Err,
        }
    }
}

/// What signing our commitment gives: refused while the counterparty's
/// basepoints are unknown; else the funding-key signature of input 0.
pub open spec fn local_commitment_result(k: InMemoryChannelKeys, tx: TxView, r: Result<[u8; 64], ()>) -> bool {
    if k.remote_channel_pubkeys is None {
        r is Err
    } else {
        match k.funding_signature(tx) {
            Some(s) => r matches Ok(sig) && sig@ == s,
            None => r is Err,
        }
    }
}

impl ChannelKeys for InMemoryChannelKeys {
    fn commitment_seed(&self) -> (r: [u8; 32])
        ensures
            r == self.commitment_seed,
    {
        self.commitment_seed
    }

    fn pubkeys(&self) -> (r: ChannelPublicKeys)
        ensures
            r == self.local_channel_pubkeys,
    {
        self.local_channel_pubkeys
    }

    fn key_derivation_params(&self) -> (r: (u64, u64))
        ensures
            r == self.key_derivation_params,
    {
        self.key_derivation_params
    }

    fn sign_remote_commitment(
        &self,
        feerate_per_kw: u32,
        commitment_tx: &Tx,
        keys: &TxCreationKeys,
        htlcs: &[HTLCOutputInCommitment],
        to_self_delay: u16,
    ) -> (r: Result<([u8; 64], Vec<[u8; 64]>), ()>)
        ensures
            !(self.wf() && htlc_fees_covered(htlcs@, feerate_per_kw)) ==> r is Err,
            commitment_tx.input@.len() != 1 ==> r is Err,
            self.remote_channel_pubkeys is None ==> r is Err,
            (self.wf() && htlc_fees_covered(htlcs@, feerate_per_kw) && commitment_tx.input@.len() == 1 && self.remote_channel_pubkeys is Some) ==> (r is Ok <==> (self.funding_signature(commitment_tx@) is Some && htlcs_signable(htlcs@, txid_of(commitment_tx@), feerate_per_kw, to_self_delay, *keys, self.htlc_base_key@))),
            r matches Ok((sig, sigs)) ==> (Some(sig@) == self.funding_signature(commitment_tx@) && htlc_sigs_match(sigs@.map_values(|s: [u8; 64]| s@), htlcs@, txid_of(commitment_tx@), feerate_per_kw, to_self_delay, *keys, self.htlc_base_key@)),
    {
        if !self.is_well_formed() || !htlc_fees_ok(htlcs, feerate_per_kw) {
            return Err(());
        }
        InMemoryChannelKeys::sign_remote_commitment(self, feerate_per_kw, commitment_tx, keys, htlcs, to_self_delay)
    }

    fn sign_local_commitment(&self, local_commitment_tx: &LocalCommitmentTransaction) -> (r: Result<[u8; 64], ()>)
        ensures
            !(self.wf() && local_commitment_tx.unsigned_tx.input@.len() >= 1) ==> r is Err,
            (self.wf() && local_commitment_tx.unsigned_tx.input@.len() >= 1) ==> local_commitment_result(*self, local_commitment_tx.unsigned_tx@, r),
    {
        if !self.is_well_formed() || local_commitment_tx.unsigned_tx.input.len() == 0 {
            return Err(());
        }
        InMemoryChannelKeys::sign_local_commitment(self, local_commitment_tx)
    }

    fn sign_local_commitment_htlc_transactions(
        &self,
        local_commitment_tx: &LocalCommitmentTransaction,
        local_csv: u16,
    ) -> (r: Result<Vec<Option<[u8; 64]>>, ()>)
        ensures
            ({
                let ok = self.wf() && htlc_fees_covered(local_commitment_tx.per_htlc@, local_commitment_tx.feerate_per_kw);
                let txid = txid_of(local_commitment_tx.unsigned_tx@);
                &&& (!ok ==> r is Err)
                &&& (ok ==> (r is Ok <==> (private_key_derivable(local_commitment_tx.local_keys.per_commitment_point@, self.htlc_base_key@)
                    && htlcs_signable(local_commitment_tx.per_htlc@, txid, local_commitment_tx.feerate_per_kw, local_csv, local_commitment_tx.local_keys, self.htlc_base_key@))))
                &&& (r matches Ok(sigs) ==> {
                    &&& sigs@.len() == local_commitment_tx.per_htlc@.len()
                    &&& forall|i: int| 0 <= i < sigs@.len() ==> match #[trigger] sigs@[i] {
                        None => local_commitment_tx.per_htlc@[i].transaction_output_index is None,
                        Some(sig) => local_commitment_tx.per_htlc@[i].transaction_output_index is Some && is_htlc_signature(
                            sig@, txid, local_commitment_tx.feerate_per_kw, local_csv, local_commitment_tx.per_htlc@[i], local_commitment_tx.local_keys, self.htlc_base_key@),
                    }
                })
            }),
    {
        if !self.is_well_formed() || !htlc_fees_ok(local_commitment_tx.per_htlc.as_slice(), local_commitment_tx.feerate_per_kw) {
            return Err(());
        }
        InMemoryChannelKeys::sign_local_commitment_htlc_transactions(self, local_commitment_tx, local_csv)
    }

    fn sign_justice_transaction(
        &self,
        justice_tx: &Tx,
        input: usize,
        amount: u64,
        per_commitment_key: &[u8; 32],
        htlc: &Option<HTLCOutputInCommitment>,
        on_remote_tx_csv: u16,
    ) -> (r: Result<[u8; 64], ()>)
        ensures
            ({
                let ok = self.wf() && input < justice_tx.input@.len() && scalar_in_range(per_commitment_key@)
                    && self.remote_channel_pubkeys is Some;
                let ws = justice_script(*self, per_commitment_key@, *htlc, on_remote_tx_csv);
                let rev = derived_revocation_secret(per_commitment_key@, self.revocation_base_key@);
                &&& (!ok ==> r is Err)
                &&& (ok ==> (r is Ok <==> (rev is Some && ws is Some && sighash_all_of(justice_tx@, input as int, ws.unwrap(), amount) != Seq::new(32, |i: int| 0u8))))
                &&& (r matches Ok(sig) ==> exists|k: Seq<u8>| scalar_in_range(k) && rev == Some(be_nat(k))
                    && signature_of(sighash_all_of(justice_tx@, input as int, ws.unwrap(), amount), k) == Some(sig@))
            }),
    {
        if !self.is_well_formed() || input >= justice_tx.input.len() || !is_valid_secret(per_commitment_key) {
            return Err(());
        }
        InMemoryChannelKeys::sign_justice_transaction(self, justice_tx, input, amount, per_commitment_key, htlc, on_remote_tx_csv)
    }

    fn sign_remote_htlc_transaction(
        &self,
        htlc_tx: &Tx,
        input: usize,
        amount: u64,
        per_commitment_point: &[u8; 33],
        htlc: &HTLCOutputInCommitment,
    ) -> (r: Result<[u8; 64], ()>)
        ensures
            ({
                let ok = self.wf() && input < htlc_tx.input@.len() && self.remote_channel_pubkeys is Some;
                let ws = remote_htlc_script(*self, per_commitment_point@, *htlc);
                &&& (!ok ==> r is Err)
                &&& (ok ==> (r is Ok <==> (pubkey_valid(per_commitment_point@) && private_key_derivable(per_commitment_point@, self.htlc_base_key@) && ws is Some
                    && sighash_all_of(htlc_tx@, input as int, ws.unwrap(), amount) != Seq::new(32, |i: int| 0u8))))
                &&& (r matches Ok(sig) ==> exists|k: Seq<u8>| derived_private_key(per_commitment_point@, self.htlc_base_key@, k)
                    && signature_of(sighash_all_of(htlc_tx@, input as int, ws.unwrap(), amount), k) == Some(sig@))
            }),
    {
        if !self.is_well_formed() || input >= htlc_tx.input.len() {
            return Err(());
        }
        InMemoryChannelKeys::sign_remote_htlc_transaction(self, htlc_tx, input, amount, per_commitment_point, htlc)
    }

    fn sign_closing_transaction(&self, closing_tx: &Tx) -> (r: Result<[u8; 64], ()>)
        ensures
            !self.wf() ==> r is Err,
            self.wf() ==> closing_result(*self, closing_tx@, r),
    {
        if !self.is_well_formed() {
            return Err(());
        }
        InMemoryChannelKeys::sign_closing_transaction(self, closing_tx)
    }

    fn sign_channel_announcement(&self, msg: &[u8]) -> (r: Result<[u8; 64], ()>)
        ensures
            !self.wf() ==> r is Err,
            self.wf() ==> match signature_of(sha256d_of(msg@), self.funding_key@) {
                Some(s) => r matches Ok(sig) && sig@ == s,
                None => r is Err,
            },
    {
        if !self.is_well_formed() {
            return Err(());
        }
        InMemoryChannelKeys::sign_channel_announcement(self, msg)
    }

    fn set_remote_channel_pubkeys(&mut self, channel_points: &ChannelPublicKeys) -> (r: Result<(), ()>)
        ensures
            (old(self).remote_channel_pubkeys is None && old(self).wf() && channel_points.valid()) ==> (r == Ok::<(), ()>(())
                && *final(self) == (InMemoryChannelKeys { remote_channel_pubkeys: Some(*channel_points), ..*old(self) })),
            !(old(self).remote_channel_pubkeys is None && old(self).wf() && channel_points.valid()) ==> (r == Err::<(), ()>(())
                && *final(self) == *old(self)),
    {
        if !self.is_well_formed() || !keys_valid(channel_points) {
            return Err(());
        }
        InMemoryChannelKeys::set_remote_channel_pubkeys(self, channel_points)
    }
}

impl KeysInterface for KeysManager {
    fn get_node_secret(&self) -> (r: [u8; 32])
        ensures
            r@ == self.node_secret_spec(),
    {
        KeysManager::get_node_secret(self)
    }

    fn get_destination_script(&self) -> (r: Vec<u8>)
        ensures
            r@ == self.destination_script_spec(),
    {
        KeysManager::get_destination_script(self)
    }

    fn get_shutdown_pubkey(&self) -> (r: [u8; 33])
        ensures
            r@ == self.shutdown_pubkey_spec(),
    {
        KeysManager::get_shutdown_pubkey(self)
    }

    fn get_channel_keys(&mut self, inbound: bool, channel_value_satoshis: u64) -> (r: Option<InMemoryChannelKeys>)
        ensures
            old(self).counters().0 >= 0x8000_0000 ==> (r is None && *final(self) == *old(self)),
            old(self).counters().0 < 0x8000_0000 ==> {
                &&& final(self).seed_spec() == old(self).seed_spec()
                &&& final(self).starting_time_secs_spec() == old(self).starting_time_secs_spec()
                &&& final(self).starting_time_nanos_spec() == old(self).starting_time_nanos_spec()
                &&& final(self).counters() == ((old(self).counters().0 + 1) as u32, old(self).counters().1, old(self).counters().2)
                &&& ({
                    let params = channel_params(old(self).counters().0, old(self).starting_time_secs_spec(), old(self).starting_time_nanos_spec());
                    old(self).derived(r, channel_value_satoshis, params.0, params.1)
                })
            },
    {
        if self.counters_exec().0 >= 0x8000_0000 {
            return None;
        }
        KeysManager::get_channel_keys(self, inbound, channel_value_satoshis)
    }

    fn get_onion_rand(&mut self) -> (r: Option<([u8; 32], [u8; 32])>)
        ensures
            old(self).counters().1 >= 0x8000_0000 ==> (r is None && *final(self) == *old(self)),
            old(self).counters().1 < 0x8000_0000 ==> {
                &&& final(self).seed_spec() == old(self).seed_spec()
                &&& final(self).starting_time_secs_spec() == old(self).starting_time_secs_spec()
                &&& final(self).starting_time_nanos_spec() == old(self).starting_time_nanos_spec()
                &&& final(self).counters() == (old(self).counters().0, (old(self).counters().1 + 1) as u32, old(self).counters().2)
                &&& old(self).onion_rand_result(r)
            },
    {
        if self.counters_exec().1 >= 0x8000_0000 {
            return None;
        }
        KeysManager::get_onion_rand(self)
    }

    fn get_channel_id(&mut self) -> (r: Option<[u8; 32]>)
        ensures
            old(self).counters().2 >= 0x8000_0000 ==> (r is None && *final(self) == *old(self)),
            old(self).counters().2 < 0x8000_0000 ==> {
                &&& final(self).seed_spec() == old(self).seed_spec()
                &&& final(self).starting_time_secs_spec() == old(self).starting_time_secs_spec()
                &&& final(self).starting_time_nanos_spec() == old(self).starting_time_nanos_spec()
                &&& final(self).counters() == (old(self).counters().0, old(self).counters().1, (old(self).counters().2 + 1) as u32)
                &&& old(self).channel_id_result(r)
            },
    {
        if self.counters_exec().2 >= 0x8000_0000 {
            return None;
        }
        KeysManager::get_channel_id(self)
    }
}

} // verus!
