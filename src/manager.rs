//! The key root: a BIP-32 tree over a 32-byte seed, from which the node
//! identity, the static sweep script, the shutdown key, every channel signer,
//! onion randomness and temporary channel ids are derived.

use vstd::prelude::*;
use vstd::string::StringSliceAdditionalSpecFns;

use crate::bytes::{be32, be64, push_all, push_be32, push_be64};
use crate::crypto::{
    bip32_hardened, bip32_hardened_of, bip32_master, bip32_master_of, hash160, hash160_of,
    is_valid_secret, public_key, pubkey_of, scalar_in_range, sha256, sha256_of, ExtendedKey,
    Network,
};
use crate::signer::InMemoryChannelKeys;

verus! {

/// Key material of a BIP-32 node as one sequence: secret, then chain code.
pub open spec fn ext_key_bytes(k: ExtendedKey) -> Seq<u8> {
    k.secret@ + k.chain_code@
}

/// The hardened child `m/i'` of the master key of `seed`, if both steps succeed.
pub open spec fn master_child(seed: Seq<u8>, i: u32) -> Option<Seq<u8>> {
    let m = bip32_master_of(seed);
    if scalar_in_range(m.subrange(0, 32)) {
        bip32_hardened_of(m.subrange(0, 32), m.subrange(32, 64), i)
    } else {
        None
    }
}

/// The hardened child `m/master'/index'` of `seed`, where both steps succeed.
pub open spec fn grandchild(seed: Seq<u8>, master: u32, index: u32) -> Option<Seq<u8>> {
    match master_child(seed, master) {
        Some(m) => bip32_hardened_of(m.subrange(0, 32), m.subrange(32, 64), index),
        None => None,
    }
}

/// The P2WPKH script paying to a public key: `OP_0 <HASH160(pubkey)>`.
pub open spec fn p2wpkh_script(pubkey: Seq<u8>) -> Seq<u8> {
    seq![0x00u8, 0x14u8] + hash160_of(pubkey)
}

/// What makes derivations of one root run unique: start time and seed.
pub open spec fn unique_start(secs: u64, nanos: u32, seed: Seq<u8>) -> Seq<u8> {
    be64(secs) + be32(nanos) + seed
}

/// The index of the channel in the first derivation parameter.
pub open spec fn chan_index(params_1: u64) -> u32 {
    (params_1 >> 32u64) as u32
}

/// The 32-byte seed of a channel: SHA-256 over the second parameter, the low
/// half of the first, the root seed and the channel's BIP-32 child secret.
pub open spec fn channel_seed(root_seed: Seq<u8>, child_secret: Seq<u8>, params_1: u64, params_2: u64) -> Seq<u8> {
    sha256_of(be64(params_2) + be32(params_1 as u32) + root_seed + child_secret)
}

/// One link of the chain of channel secrets.
pub open spec fn key_step(seed: Seq<u8>, prev: Seq<u8>, label: &str) -> Seq<u8> {
    sha256_of(seed + prev + label.spec_bytes())
}

pub open spec fn commitment_seed_of(seed: Seq<u8>) -> Seq<u8> {
    sha256_of(seed + "commitment seed".spec_bytes())
}

pub open spec fn funding_key_of(seed: Seq<u8>) -> Seq<u8> {
    key_step(seed, commitment_seed_of(seed), "funding key")
}

pub open spec fn revocation_base_key_of(seed: Seq<u8>) -> Seq<u8> {
    key_step(seed, funding_key_of(seed), "revocation base key")
}

pub open spec fn payment_key_of(seed: Seq<u8>) -> Seq<u8> {
    key_step(seed, revocation_base_key_of(seed), "payment key")
}

pub open spec fn delayed_payment_base_key_of(seed: Seq<u8>) -> Seq<u8> {
    key_step(seed, payment_key_of(seed), "delayed payment base key")
}

pub open spec fn htlc_base_key_of(seed: Seq<u8>) -> Seq<u8> {
    key_step(seed, delayed_payment_base_key_of(seed), "HTLC base key")
}

/// All five secrets of a channel seed are valid keys.
pub open spec fn channel_secrets_valid(seed: Seq<u8>) -> bool {
    &&& scalar_in_range(funding_key_of(seed))
    &&& scalar_in_range(revocation_base_key_of(seed))
    &&& scalar_in_range(payment_key_of(seed))
    &&& scalar_in_range(delayed_payment_base_key_of(seed))
    &&& scalar_in_range(htlc_base_key_of(seed))
}

/// `k` holds exactly the secrets of channel seed `seed`.
pub open spec fn has_channel_secrets(k: InMemoryChannelKeys, seed: Seq<u8>) -> bool {
    &&& k.commitment_seed@ == commitment_seed_of(seed)
    &&& k.funding_key@ == funding_key_of(seed)
    &&& k.revocation_base_key@ == revocation_base_key_of(seed)
    &&& k.payment_key@ == payment_key_of(seed)
    &&& k.delayed_payment_base_key@ == delayed_payment_base_key_of(seed)
    &&& k.htlc_base_key@ == htlc_base_key_of(seed)
}

/// A key root over a 32-byte seed.
pub struct KeysManager {
    network: Network,
    node_secret: [u8; 32],
    destination_script: Vec<u8>,
    shutdown_pubkey: [u8; 33],
    channel_master_key: ExtendedKey,
    channel_child_index: u32,
    session_master_key: ExtendedKey,
    session_child_index: u32,
    channel_id_master_key: ExtendedKey,
    channel_id_child_index: u32,
    seed: [u8; 32],
    starting_time_secs: u64,
    starting_time_nanos: u32,
}

impl KeysManager {
    pub closed spec fn seed_spec(&self) -> Seq<u8> {
        self.seed@
    }

    pub closed spec fn network_spec(&self) -> Network {
        self.network
    }

    pub closed spec fn starting_time_secs_spec(&self) -> u64 {
        self.starting_time_secs
    }

    pub closed spec fn starting_time_nanos_spec(&self) -> u32 {
        self.starting_time_nanos
    }

    /// How many channel signers, onion sessions and channel ids were handed out.
    pub closed spec fn counters(&self) -> (u32, u32, u32) {
        (self.channel_child_index, self.session_child_index, self.channel_id_child_index)
    }

    /// The root was built from its seed as `new` builds it.
    #[verifier::type_invariant]
    spec fn wf(self) -> bool {
        &&& master_child(self.seed@, 0) == Some(self.node_secret@ + master_child(self.seed@, 0).unwrap().subrange(32, 64))
        &&& scalar_in_range(self.node_secret@)
        &&& master_child(self.seed@, 3) == Some(ext_key_bytes(self.channel_master_key))
        &&& master_child(self.seed@, 4) == Some(ext_key_bytes(self.session_master_key))
        &&& master_child(self.seed@, 5) == Some(ext_key_bytes(self.channel_id_master_key))
        &&& scalar_in_range(self.channel_master_key.secret@)
        &&& scalar_in_range(self.session_master_key.secret@)
        &&& scalar_in_range(self.channel_id_master_key.secret@)
    }

    /// The secret key of `m/i'`, where the root derives it.
    pub open spec fn master_child_secret(seed: Seq<u8>, i: u32) -> Seq<u8> {
        master_child(seed, i).unwrap().subrange(0, 32)
    }

    /// Builds the root of `seed`: `m/0'` is the node secret, `m/1'` pays the
    /// destination script, `m/2'` is the shutdown key, and `m/3'`, `m/4'`,
    /// `m/5'` are the masters of channels, onion sessions and channel ids.
    /// `None` when any of these derivations fails, which a sound seed never
    /// makes happen.
    #[verifier::rlimit(40)]
    pub fn new(seed: &[u8; 32], network: Network, starting_time_secs: u64, starting_time_nanos: u32) -> (r: Option<KeysManager>)
        ensures
            r is Some <==> (forall|i: u32| 0 <= i < 6 ==> (#[trigger] master_child(seed@, i)) is Some),
            r matches Some(m) ==> {
                &&& m.seed_spec() == seed@
                &&& m.network_spec() == network
                &&& m.starting_time_secs_spec() == starting_time_secs
                &&& m.starting_time_nanos_spec() == starting_time_nanos
                &&& m.counters() == (0u32, 0u32, 0u32)
                &&& m.node_secret_spec() == Self::master_child_secret(seed@, 0)
                &&& m.destination_script_spec() == p2wpkh_script(pubkey_of(Self::master_child_secret(seed@, 1)))
                &&& m.shutdown_pubkey_spec() == pubkey_of(Self::master_child_secret(seed@, 2))
            },
    {
        let master = match bip32_master(network, seed) {
            Some(m) => m,
            None => {
                assert(master_child(seed@, 0) is None);
                return None;
            },
        };
        assert(ext_key_bytes(master).subrange(0, 32) =~= master.secret@);
        assert(ext_key_bytes(master).subrange(32, 64) =~= master.chain_code@);
        let mut children: Vec<ExtendedKey> = Vec::new();
        let mut i: u32 = 0;
        while i < 6
            invariant
                i <= 6,
                children@.len() == i,
                scalar_in_range(master.secret@),
                ext_key_bytes(master) == bip32_master_of(seed@),
                forall|j: int| 0 <= j < i ==> {
                    &&& master_child(seed@, j as u32) == Some(#[trigger] ext_key_bytes(children@[j]))
                    &&& scalar_in_range(children@[j].secret@)
                },
            decreases 6 - i,
        {
            assert(ext_key_bytes(master).subrange(0, 32) =~= master.secret@);
            assert(ext_key_bytes(master).subrange(32, 64) =~= master.chain_code@);
            match bip32_hardened(&master, i) {
                Some(c) => children.push(c),
                None => {
                    assert(master_child(seed@, i) is None);
                    return None;
                },
            }
            i = i + 1;
        }
        let ghost cs = children@;
        assert forall|j: u32| 0 <= j < 6 implies (#[trigger] master_child(seed@, j)) is Some by {
            assert(master_child(seed@, j as int as u32) == Some(ext_key_bytes(cs[j as int])));
        }
        assert(ext_key_bytes(cs[0]).subrange(0, 32) =~= cs[0].secret@);
        assert(ext_key_bytes(cs[1]).subrange(0, 32) =~= cs[1].secret@);
        assert(ext_key_bytes(cs[2]).subrange(0, 32) =~= cs[2].secret@);
        assert(ext_key_bytes(cs[0]).subrange(32, 64) =~= cs[0].chain_code@);
        let channel_id_master_key = children.pop().unwrap();
        let session_master_key = children.pop().unwrap();
        let channel_master_key = children.pop().unwrap();
        assert(channel_id_master_key == cs[5] && session_master_key == cs[4] && channel_master_key == cs[3]);
        assert(children@ =~= cs.subrange(0, 3));
        assert(cs[0].secret@ + cs[0].chain_code@ == ext_key_bytes(cs[0]));
        let shutdown_pubkey = public_key(&children[2].secret);
        let destination_pubkey = public_key(&children[1].secret);
        let wpubkey_hash = hash160(&destination_pubkey);
        let mut destination_script: Vec<u8> = Vec::new();
        destination_script.push(0x00u8);
        destination_script.push(0x14u8);
        push_all(&mut destination_script, &wpubkey_hash);
        assert(destination_script@ =~= p2wpkh_script(pubkey_of(Self::master_child_secret(seed@, 1))));
        assert(master_child(seed@, 0) == Some(ext_key_bytes(cs[0])));
        assert(master_child(seed@, 3) == Some(ext_key_bytes(cs[3])));
        assert(master_child(seed@, 4) == Some(ext_key_bytes(cs[4])));
        assert(master_child(seed@, 5) == Some(ext_key_bytes(cs[5])));
        assert(scalar_in_range(cs[3].secret@) && scalar_in_range(cs[4].secret@) && scalar_in_range(cs[5].secret@));
        assert(scalar_in_range(cs[0].secret@));
        let m = KeysManager {
            network,
            node_secret: children[0].secret,
            destination_script,
            shutdown_pubkey,
            channel_master_key,
            channel_child_index: 0,
            session_master_key,
            session_child_index: 0,
            channel_id_master_key,
            channel_id_child_index: 0,
            seed: *seed,
            starting_time_secs,
            starting_time_nanos,
        };
        assert(m.node_secret_spec() == Self::master_child_secret(seed@, 0));
        assert(m.shutdown_pubkey_spec() == pubkey_of(Self::master_child_secret(seed@, 2)));
        assert(m.seed_spec() == seed@);
        Some(m)
    }

    pub closed spec fn node_secret_spec(&self) -> Seq<u8> {
        self.node_secret@
    }

    pub closed spec fn destination_script_spec(&self) -> Seq<u8> {
        self.destination_script@
    }

    pub closed spec fn shutdown_pubkey_spec(&self) -> Seq<u8> {
        self.shutdown_pubkey@
    }
}

/// Appends `seed || prev || label` and hashes it.
fn key_step_exec(seed: &[u8; 32], prev: &[u8; 32], label: &str) -> (r: [u8; 32])
    ensures
        r@ == key_step(seed@, prev@, label),
{
    let mut buf: Vec<u8> = Vec::new();
    push_all(&mut buf, seed);
    push_all(&mut buf, prev);
    push_all(&mut buf, label.as_bytes());
    sha256(buf.as_slice())
}

/// The derivation parameters of the channel with index `index` under a
/// root started at (`secs`, `nanos`).
pub open spec fn channel_params(index: u32, secs: u64, nanos: u32) -> (u64, u64) {
    ((((index as u64) << 32u64) | (nanos as u64)), secs)
}

/// The channel index and the nanoseconds come back out of the parameters.
pub proof fn lemma_channel_params_index(index: u32, nanos: u32)
    ensures
        chan_index(((index as u64) << 32u64) | (nanos as u64)) == index,
        (((index as u64) << 32u64) | (nanos as u64)) as u32 == nanos,
{
    assert((((index as u64) << 32u64) | (nanos as u64)) >> 32u64 == index as u64) by (bit_vector);
    assert((((((index as u64) << 32u64) | (nanos as u64)) >> 32u64) as u32) == index) by (bit_vector);
    assert((((index as u64) << 32u64) | (nanos as u64)) as u32 == nanos) by (bit_vector);
}

impl KeysManager {
    /// `r` is what deriving the channel signer of these parameters gives:
    /// `None` when the BIP-32 child of the channel index fails or a secret
    /// is out of range, else the signer of the channel seed.
    pub open spec fn derived(&self, r: Option<InMemoryChannelKeys>, value: u64, params_1: u64, params_2: u64) -> bool {
        match grandchild(self.seed_spec(), 3, chan_index(params_1)) {
            None => r is None,
            Some(child) => {
                let seed = channel_seed(self.seed_spec(), child.subrange(0, 32), params_1, params_2);
                match r {
                    Some(k) => {
                        &&& channel_secrets_valid(seed)
                        &&& k.wf()
                        &&& has_channel_secrets(k, seed)
                        &&& k.channel_value_satoshis == value
                        &&& k.key_derivation_params == (params_1, params_2)
                        &&& k.remote_channel_pubkeys is None
                    },
                    None => !channel_secrets_valid(seed),
                }
            },
        }
    }

    /// What the next onion randomness of this root is: from the unique
    /// start and the next session child, salted two ways; `None` only when
    /// the BIP-32 child fails or the salted hash is no valid secret.
    pub open spec fn onion_rand_result(&self, r: Option<([u8; 32], [u8; 32])>) -> bool {
        match grandchild(self.seed_spec(), 4, self.counters().1) {
            None => r is None,
            Some(child) => {
                let pre = unique_start(self.starting_time_secs_spec(), self.starting_time_nanos_spec(), self.seed_spec()) + child.subrange(0, 32);
                let key = sha256_of(pre + "Session Key Salt".spec_bytes());
                match r {
                    Some((k, rng)) => scalar_in_range(key) && k@ == key && rng@ == sha256_of(pre + "RNG Seed Salt".spec_bytes()),
                    None => !scalar_in_range(key),
                }
            },
        }
    }

    /// What the next temporary channel id of this root is: SHA-256 of the
    /// unique start and the next channel-id child; `None` only when the
    /// BIP-32 child fails.
    pub open spec fn channel_id_result(&self, r: Option<[u8; 32]>) -> bool {
        match grandchild(self.seed_spec(), 5, self.counters().2) {
            None => r is None,
            Some(child) => r matches Some(id) && id@ == sha256_of(
                unique_start(self.starting_time_secs_spec(), self.starting_time_nanos_spec(), self.seed_spec())
                    + child.subrange(0, 32),
            ),
        }
    }

    /// The start of every per-session and per-channel-id hash:
    /// `be64(secs) || be32(nanos) || seed`.
    fn derive_unique_start(&self) -> (r: Vec<u8>)
        ensures
            r@ == unique_start(self.starting_time_secs, self.starting_time_nanos, self.seed@),
    {
        let mut start: Vec<u8> = Vec::new();
        push_be64(&mut start, self.starting_time_secs);
        push_be32(&mut start, self.starting_time_nanos);
        push_all(&mut start, &self.seed);
        assert(start@ =~= unique_start(self.starting_time_secs, self.starting_time_nanos, self.seed@));
        start
    }

    /// Re-derives the signer of the given parameters. The channel index is
    /// the high half of `params_1` and must be a hardened index; the rest of
    /// the parameters only make the result unique. A pure function of the
    /// root and the parameters: `None` only when a derivation step or a
    /// secret's range check fails, as no sound seed makes happen.
    #[verifier::rlimit(40)]
    pub fn derive_channel_keys(&self, channel_value_satoshis: u64, params_1: u64, params_2: u64) -> (r: Option<InMemoryChannelKeys>)
        requires
            chan_index(params_1) < 0x8000_0000,
        ensures
            self.derived(r, channel_value_satoshis, params_1, params_2),
    {
        proof {
            use_type_invariant(self);
            assert(ext_key_bytes(self.channel_master_key).subrange(0, 32) =~= self.channel_master_key.secret@);
            assert(ext_key_bytes(self.channel_master_key).subrange(32, 64) =~= self.channel_master_key.chain_code@);
        }
        let chan_id: u32 = (params_1 >> 32u64) as u32;
        let mut unique_start: Vec<u8> = Vec::new();
        push_be64(&mut unique_start, params_2);
        push_be32(&mut unique_start, params_1 as u32);
        push_all(&mut unique_start, &self.seed);
        // Only the channel master key carries real entropy; the rest makes
        // the result unique to this run and these parameters.
        let child_privkey = match bip32_hardened(&self.channel_master_key, chan_id) {
            Some(c) => c,
            None => return None,
        };
        assert(ext_key_bytes(child_privkey).subrange(0, 32) =~= child_privkey.secret@);
        push_all(&mut unique_start, &child_privkey.secret);
        assert(unique_start@ =~= be64(params_2) + be32(params_1 as u32) + self.seed@ + child_privkey.secret@);
        let seed = sha256(unique_start.as_slice());

        let mut buf: Vec<u8> = Vec::new();
        push_all(&mut buf, &seed);
        push_all(&mut buf, "commitment seed".as_bytes());
        let commitment_seed = sha256(buf.as_slice());

        let funding_key = key_step_exec(&seed, &commitment_seed, "funding key");
        let revocation_base_key = key_step_exec(&seed, &funding_key, "revocation base key");
        let payment_key = key_step_exec(&seed, &revocation_base_key, "payment key");
        let delayed_payment_base_key = key_step_exec(&seed, &payment_key, "delayed payment base key");
        let htlc_base_key = key_step_exec(&seed, &delayed_payment_base_key, "HTLC base key");
        if !(is_valid_secret(&funding_key) && is_valid_secret(&revocation_base_key)
            && is_valid_secret(&payment_key) && is_valid_secret(&delayed_payment_base_key)
            && is_valid_secret(&htlc_base_key)) {
            return None;
        }
        Some(InMemoryChannelKeys::new(
            funding_key,
            revocation_base_key,
            payment_key,
            delayed_payment_base_key,
            htlc_base_key,
            commitment_seed,
            channel_value_satoshis,
            (params_1, params_2),
        ))
    }

    /// The node's identity secret, `m/0'`.
    pub fn get_node_secret(&self) -> (r: [u8; 32])
        ensures
            r@ == self.node_secret_spec(),
    {
        self.node_secret
    }

    /// The script that static protocol exits pay to: P2WPKH of `m/1'`.
    pub fn get_destination_script(&self) -> (r: Vec<u8>)
        ensures
            r@ == self.destination_script_spec(),
    {
        self.destination_script.clone()
    }

    /// The key of cooperative-close outputs, the public key of `m/2'`.
    pub fn get_shutdown_pubkey(&self) -> (r: [u8; 33])
        ensures
            r@ == self.shutdown_pubkey_spec(),
    {
        self.shutdown_pubkey
    }

    /// How many channel signers, onion sessions and channel ids were handed out.
    pub fn counters_exec(&self) -> (r: (u32, u32, u32))
        ensures
            r == self.counters(),
    {
        (self.channel_child_index, self.session_child_index, self.channel_id_child_index)
    }

    /// The chain this root was made for.
    pub fn network(&self) -> (r: Network)
        ensures
            r == self.network_spec(),
    {
        self.network
    }

    /// A signer for a new channel: the next channel index in the high half of
    /// the first parameter, the start time's nanoseconds in its low half, its
    /// seconds in the second. Whether the channel is inbound does not enter
    /// the derivation.
    pub fn get_channel_keys(&mut self, inbound: bool, channel_value_satoshis: u64) -> (r: Option<InMemoryChannelKeys>)
        requires
            old(self).counters().0 < 0x8000_0000,
        ensures
            final(self).seed_spec() == old(self).seed_spec(),
            final(self).starting_time_secs_spec() == old(self).starting_time_secs_spec(),
            final(self).starting_time_nanos_spec() == old(self).starting_time_nanos_spec(),
            final(self).counters() == (
                (old(self).counters().0 + 1) as u32,
                old(self).counters().1,
                old(self).counters().2,
            ),
            ({
                let params = channel_params(
                    old(self).counters().0,
                    old(self).starting_time_secs_spec(),
                    old(self).starting_time_nanos_spec(),
                );
                old(self).derived(r, channel_value_satoshis, params.0, params.1)
            }),
    {
        proof {
            use_type_invariant(&*self);
        }
        let child_ix = self.channel_child_index;
        self.channel_child_index = child_ix + 1;
        let ix_and_nanos: u64 = ((child_ix as u64) << 32u64) | (self.starting_time_nanos as u64);
        proof {
            lemma_channel_params_index(child_ix, self.starting_time_nanos);
        }
        self.derive_channel_keys(channel_value_satoshis, ix_and_nanos, self.starting_time_secs)
    }

    /// A secret and a PRNG seed for an onion packet: from the unique start
    /// and the next session child, salted two ways. `None` only when the
    /// BIP-32 child fails or the salted hash is no valid secret.
    pub fn get_onion_rand(&mut self) -> (r: Option<([u8; 32], [u8; 32])>)
        requires
            old(self).counters().1 < 0x8000_0000,
        ensures
            final(self).seed_spec() == old(self).seed_spec(),
            final(self).starting_time_secs_spec() == old(self).starting_time_secs_spec(),
            final(self).starting_time_nanos_spec() == old(self).starting_time_nanos_spec(),
            final(self).counters() == (
                old(self).counters().0,
                (old(self).counters().1 + 1) as u32,
                old(self).counters().2,
            ),
            old(self).onion_rand_result(r),
    {
        proof {
            use_type_invariant(&*self);
            assert(ext_key_bytes(self.session_master_key).subrange(0, 32) =~= self.session_master_key.secret@);
            assert(ext_key_bytes(self.session_master_key).subrange(32, 64) =~= self.session_master_key.chain_code@);
        }
        let mut sha = self.derive_unique_start();
        let child_ix = self.session_child_index;
        self.session_child_index = child_ix + 1;
        let child_privkey = match bip32_hardened(&self.session_master_key, child_ix) {
            Some(c) => c,
            None => return None,
        };
        assert(ext_key_bytes(child_privkey).subrange(0, 32) =~= child_privkey.secret@);
        push_all(&mut sha, &child_privkey.secret);
        let mut rng_seed = sha.clone();
        push_all(&mut rng_seed, "RNG Seed Salt".as_bytes());
        push_all(&mut sha, "Session Key Salt".as_bytes());
        let key = sha256(sha.as_slice());
        if !is_valid_secret(&key) {
            return None;
        }
        Some((key, sha256(rng_seed.as_slice())))
    }

    /// A temporary channel id: SHA-256 of the unique start and the next
    /// channel-id child. `None` only when the BIP-32 child fails.
    pub fn get_channel_id(&mut self) -> (r: Option<[u8; 32]>)
        requires
            old(self).counters().2 < 0x8000_0000,
        ensures
            final(self).seed_spec() == old(self).seed_spec(),
            final(self).starting_time_secs_spec() == old(self).starting_time_secs_spec(),
            final(self).starting_time_nanos_spec() == old(self).starting_time_nanos_spec(),
            final(self).counters() == (
                old(self).counters().0,
                old(self).counters().1,
                (old(self).counters().2 + 1) as u32,
            ),
            old(self).channel_id_result(r),
    {
        proof {
            use_type_invariant(&*self);
            assert(ext_key_bytes(self.channel_id_master_key).subrange(0, 32) =~= self.channel_id_master_key.secret@);
            assert(ext_key_bytes(self.channel_id_master_key).subrange(32, 64) =~= self.channel_id_master_key.chain_code@);
        }
        let mut sha = self.derive_unique_start();
        let child_ix = self.channel_id_child_index;
        self.channel_id_child_index = child_ix + 1;
        let child_privkey = match bip32_hardened(&self.channel_id_master_key, child_ix) {
            Some(c) => c,
            None => return None,
        };
        assert(ext_key_bytes(child_privkey).subrange(0, 32) =~= child_privkey.secret@);
        push_all(&mut sha, &child_privkey.secret);
        Some(sha256(sha.as_slice()))
    }
}

/// Deriving the signer of the same parameters from two roots over the same
/// seed, whatever their start times and networks, gives the same secrets,
/// basepoints, value and parameters.
pub proof fn lemma_derivation_deterministic(
    root_a: &KeysManager,
    root_b: &KeysManager,
    value: u64,
    params_1: u64,
    params_2: u64,
    a: Option<InMemoryChannelKeys>,
    b: Option<InMemoryChannelKeys>,
)
    requires
        root_a.seed_spec() == root_b.seed_spec(),
        root_a.derived(a, value, params_1, params_2),
        root_b.derived(b, value, params_1, params_2),
    ensures
        a is Some <==> b is Some,
        a matches Some(x) ==> b matches Some(y) && {
            &&& x.funding_key@ == y.funding_key@
            &&& x.revocation_base_key@ == y.revocation_base_key@
            &&& x.payment_key@ == y.payment_key@
            &&& x.delayed_payment_base_key@ == y.delayed_payment_base_key@
            &&& x.htlc_base_key@ == y.htlc_base_key@
            &&& x.commitment_seed@ == y.commitment_seed@
            &&& x.local_channel_pubkeys.funding_pubkey@ == y.local_channel_pubkeys.funding_pubkey@
            &&& x.local_channel_pubkeys.revocation_basepoint@ == y.local_channel_pubkeys.revocation_basepoint@
            &&& x.local_channel_pubkeys.payment_point@ == y.local_channel_pubkeys.payment_point@
            &&& x.local_channel_pubkeys.delayed_payment_basepoint@ == y.local_channel_pubkeys.delayed_payment_basepoint@
            &&& x.local_channel_pubkeys.htlc_basepoint@ == y.local_channel_pubkeys.htlc_basepoint@
            &&& x.channel_value_satoshis == y.channel_value_satoshis
            &&& x.key_derivation_params == y.key_derivation_params
        },
{
}

/// Two signers handed out one after the other by the same root carry
/// different derivation parameters, and the high half of each first
/// parameter is the channel counter when it was handed out.
pub proof fn lemma_channel_params_unique(i: u32, j: u32, secs: u64, nanos: u32)
    requires
        i != j,
    ensures
        channel_params(i, secs, nanos) != channel_params(j, secs, nanos),
        chan_index(channel_params(i, secs, nanos).0) == i,
{
    lemma_channel_params_index(i, nanos);
    lemma_channel_params_index(j, nanos);
}

} // verus!
