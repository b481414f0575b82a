//! The in-memory channel signer: per-channel secrets, their basepoints, and
//! the counterparty's basepoints once they are known.

use vstd::prelude::*;

use crate::crypto::{public_key, pubkey_of, pubkey_valid, scalar_in_range};

verus! {

/// The five public keys and basepoints of one side of a channel.
#[derive(Clone, Copy, Debug, PartialEq, Eq)]
pub struct ChannelPublicKeys {
    pub funding_pubkey: [u8; 33],
    pub revocation_basepoint: [u8; 33],
    pub payment_point: [u8; 33],
    pub delayed_payment_basepoint: [u8; 33],
    pub htlc_basepoint: [u8; 33],
}

impl ChannelPublicKeys {
    /// Every key is the encoding of a curve point.
    pub open spec fn valid(&self) -> bool {
        &&& pubkey_valid(self.funding_pubkey@)
        &&& pubkey_valid(self.revocation_basepoint@)
        &&& pubkey_valid(self.payment_point@)
        &&& pubkey_valid(self.delayed_payment_basepoint@)
        &&& pubkey_valid(self.htlc_basepoint@)
    }
}

/// A channel signer that keeps its secret keys in memory.
#[derive(Clone, Copy)]
pub struct InMemoryChannelKeys {
    /// Secret key of the funding output.
    pub funding_key: [u8; 32],
    /// Secret key behind the revocation basepoint.
    pub revocation_base_key: [u8; 32],
    /// Secret key of our balance in commitments the counterparty broadcasts.
    pub payment_key: [u8; 32],
    /// Secret key behind the delayed payment basepoint.
    pub delayed_payment_base_key: [u8; 32],
    /// Secret key behind the HTLC basepoint.
    pub htlc_base_key: [u8; 32],
    /// Seed of the per-commitment secrets.
    pub commitment_seed: [u8; 32],
    /// Our public keys and basepoints.
    pub local_channel_pubkeys: ChannelPublicKeys,
    /// The counterparty's public keys and basepoints, once known.
    pub remote_channel_pubkeys: Option<ChannelPublicKeys>,
    /// The value of the channel.
    pub channel_value_satoshis: u64,
    /// The parameters the keys were derived from.
    pub key_derivation_params: (u64, u64),
}

/// The basepoints that five secret keys give.
pub open spec fn is_local_keys_of(
    k: ChannelPublicKeys,
    funding_key: Seq<u8>,
    revocation_base_key: Seq<u8>,
    payment_key: Seq<u8>,
    delayed_payment_base_key: Seq<u8>,
    htlc_base_key: Seq<u8>,
) -> bool {
    &&& k.funding_pubkey@ == pubkey_of(funding_key)
    &&& k.revocation_basepoint@ == pubkey_of(revocation_base_key)
    &&& k.payment_point@ == pubkey_of(payment_key)
    &&& k.delayed_payment_basepoint@ == pubkey_of(delayed_payment_base_key)
    &&& k.htlc_basepoint@ == pubkey_of(htlc_base_key)
}

impl InMemoryChannelKeys {
    /// The secrets are valid keys, the local basepoints are theirs, and the
    /// counterparty's basepoints, once set, are curve points.
    pub open spec fn wf(&self) -> bool {
        &&& scalar_in_range(self.funding_key@)
        &&& scalar_in_range(self.revocation_base_key@)
        &&& scalar_in_range(self.payment_key@)
        &&& scalar_in_range(self.delayed_payment_base_key@)
        &&& scalar_in_range(self.htlc_base_key@)
        &&& is_local_keys_of(
            self.local_channel_pubkeys,
            self.funding_key@,
            self.revocation_base_key@,
            self.payment_key@,
            self.delayed_payment_base_key@,
            self.htlc_base_key@,
        )
        &&& self.local_channel_pubkeys.valid()
        &&& (self.remote_channel_pubkeys matches Some(k) ==> k.valid())
    }

    /// A signer over the given secrets, with no counterparty basepoints yet.
    pub fn new(
        funding_key: [u8; 32],
        revocation_base_key: [u8; 32],
        payment_key: [u8; 32],
        delayed_payment_base_key: [u8; 32],
        htlc_base_key: [u8; 32],
        commitment_seed: [u8; 32],
        channel_value_satoshis: u64,
        key_derivation_params: (u64, u64),
    ) -> (r: InMemoryChannelKeys)
        requires
            scalar_in_range(funding_key@),
            scalar_in_range(revocation_base_key@),
            scalar_in_range(payment_key@),
            scalar_in_range(delayed_payment_base_key@),
            scalar_in_range(htlc_base_key@),
        ensures
            r.wf(),
            r.funding_key == funding_key,
            r.revocation_base_key == revocation_base_key,
            r.payment_key == payment_key,
            r.delayed_payment_base_key == delayed_payment_base_key,
            r.htlc_base_key == htlc_base_key,
            r.commitment_seed == commitment_seed,
            r.channel_value_satoshis == channel_value_satoshis,
            r.key_derivation_params == key_derivation_params,
            r.remote_channel_pubkeys is None,
    {
        let local_channel_pubkeys = InMemoryChannelKeys::make_local_keys(
            &funding_key,
            &revocation_base_key,
            &payment_key,
            &delayed_payment_base_key,
            &htlc_base_key,
        );
        InMemoryChannelKeys {
            funding_key,
            revocation_base_key,
            payment_key,
            delayed_payment_base_key,
            htlc_base_key,
            commitment_seed,
            local_channel_pubkeys,
            remote_channel_pubkeys: None,
            channel_value_satoshis,
            key_derivation_params,
        }
    }

    fn make_local_keys(
        funding_key: &[u8; 32],
        revocation_base_key: &[u8; 32],
        payment_key: &[u8; 32],
        delayed_payment_base_key: &[u8; 32],
        htlc_base_key: &[u8; 32],
    ) -> (r: ChannelPublicKeys)
        requires
            scalar_in_range(funding_key@),
            scalar_in_range(revocation_base_key@),
            scalar_in_range(payment_key@),
            scalar_in_range(delayed_payment_base_key@),
            scalar_in_range(htlc_base_key@),
        ensures
            is_local_keys_of(
                r,
                funding_key@,
                revocation_base_key@,
                payment_key@,
                delayed_payment_base_key@,
                htlc_base_key@,
            ),
            r.valid(),
    {
        ChannelPublicKeys {
            funding_pubkey: public_key(funding_key),
            revocation_basepoint: public_key(revocation_base_key),
            payment_point: public_key(payment_key),
            delayed_payment_basepoint: public_key(delayed_payment_base_key),
            htlc_basepoint: public_key(htlc_base_key),
        }
    }

    /// The seed of the per-commitment secrets.
    pub fn commitment_seed(&self) -> (r: [u8; 32])
        ensures
            r == self.commitment_seed,
    {
        self.commitment_seed
    }

    /// Our public keys and basepoints.
    pub fn pubkeys(&self) -> (r: ChannelPublicKeys)
        ensures
            r == self.local_channel_pubkeys,
    {
        self.local_channel_pubkeys
    }

    /// The counterparty's public keys and basepoints, once set.
    pub fn remote_pubkeys(&self) -> (r: Option<ChannelPublicKeys>)
        ensures
            r == self.remote_channel_pubkeys,
    {
        self.remote_channel_pubkeys
    }

    /// The parameters this signer was derived from.
    pub fn key_derivation_params(&self) -> (r: (u64, u64))
        ensures
            r == self.key_derivation_params,
    {
        self.key_derivation_params
    }

    /// The value of the channel in satoshis.
    pub fn channel_value_satoshis(&self) -> (r: u64)
        ensures
            r == self.channel_value_satoshis,
    {
        self.channel_value_satoshis
    }

    /// Records the counterparty's basepoints. This happens once per channel,
    /// before anything is signed: once they are set, a second call is
    /// refused and changes nothing.
    pub fn set_remote_channel_pubkeys(&mut self, channel_pubkeys: &ChannelPublicKeys) -> (r: Result<(), ()>)
        requires
            old(self).wf(),
            channel_pubkeys.valid(),
        ensures
            final(self).wf(),
            old(self).remote_channel_pubkeys is None ==> (r == Ok::<(), ()>(()) && *final(self) == (InMemoryChannelKeys {
                remote_channel_pubkeys: Some(*channel_pubkeys),
                ..*old(self)
            })),
            old(self).remote_channel_pubkeys is Some ==> (r == Err::<(), ()>(()) && *final(self) == *old(self)),
    {
        if self.remote_channel_pubkeys.is_some() {
            return Err(());
        }
        self.remote_channel_pubkeys = Some(*channel_pubkeys);
        Ok(())
    }
}

} // verus!
