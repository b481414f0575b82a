use bitcoin::hashes::Hash as HashTrait;
use bitcoin::secp256k1::{Message, PublicKey, Secp256k1, SecretKey, Signature};
use bitcoin::util::bip32::{ChildNumber, ExtendedPrivKey};

use keysinterface::crypto::{public_key, sha256, Network};
use keysinterface::interface::{ChannelKeys, KeysInterface};
use keysinterface::manager::KeysManager;
use keysinterface::scripts::{
    derive_private_key, derive_private_revocation_key, derive_public_key,
    derive_public_revocation_key, get_revokeable_redeemscript, make_funding_redeemscript,
    HTLCOutputInCommitment, TxCreationKeys,
};
use keysinterface::signer::{ChannelPublicKeys, InMemoryChannelKeys};
use keysinterface::signing::LocalCommitmentTransaction;
use keysinterface::tx::{sighash_all, txid, Outpoint, Tx, TxInput, TxOutput};

fn seq_seed() -> [u8; 32] {
    let mut s = [0u8; 32];
    for i in 0..32 {
        s[i] = (i + 1) as u8;
    }
    s
}

fn child_secret(seed: &[u8; 32], path: &[u32]) -> [u8; 32] {
    let secp = Secp256k1::new();
    let mut k = ExtendedPrivKey::new_master(bitcoin::Network::Bitcoin, seed).unwrap();
    for i in path {
        k = k.ckd_priv(&secp, ChildNumber::from_hardened_idx(*i).unwrap()).unwrap();
    }
    let mut out = [0u8; 32];
    out.copy_from_slice(&k.private_key.key[..]);
    out
}

fn sha(parts: &[&[u8]]) -> [u8; 32] {
    let mut v = Vec::new();
    for p in parts {
        v.extend_from_slice(p);
    }
    bitcoin::hashes::sha256::Hash::hash(&v).into_inner()
}

fn verify(digest: &[u8; 32], sig: &[u8; 64], pubkey: &[u8; 33]) -> bool {
    let secp = Secp256k1::verification_only();
    let msg = Message::from_slice(digest).unwrap();
    let sig = Signature::from_compact(sig).unwrap();
    secp.verify(&msg, &sig, &PublicKey::from_slice(pubkey).unwrap()).is_ok()
}

fn secret(b: u8) -> [u8; 32] {
    let mut s = [0u8; 32];
    s[31] = b;
    s[0] = 0x11;
    s
}

fn remote_keys() -> ChannelPublicKeys {
    ChannelPublicKeys {
        funding_pubkey: public_key(&secret(21)),
        revocation_basepoint: public_key(&secret(22)),
        payment_point: public_key(&secret(23)),
        delayed_payment_basepoint: public_key(&secret(24)),
        htlc_basepoint: public_key(&secret(25)),
    }
}

fn bound_signer() -> InMemoryChannelKeys {
    let mut k = InMemoryChannelKeys::new(
        secret(1), secret(2), secret(3), secret(4), secret(5), [7u8; 32], 1_000_000, (5, 6),
    );
    k.set_remote_channel_pubkeys(&remote_keys()).unwrap();
    k
}

fn tx(inputs: usize, outputs: usize) -> Tx {
    let mut t = Tx { version: 2, lock_time: 0, input: Vec::new(), output: Vec::new() };
    for i in 0..inputs {
        t.input.push(TxInput {
            previous_output: Outpoint { txid: [9u8; 32], vout: i as u32 },
            script_sig: Vec::new(),
            sequence: 0xFFFF_FFFF,
            witness: Vec::new(),
        });
    }
    for i in 0..outputs {
        t.output.push(TxOutput { value: 1000 * (i as u64 + 1), script_pubkey: vec![0x00, 0x14, i as u8] });
    }
    t
}

#[test]
fn node_identity_from_zero_seed() {
    let seed = [0u8; 32];
    let m = KeysManager::new(&seed, Network::Bitcoin, 0, 0).unwrap();
    assert_eq!(m.get_node_secret(), child_secret(&seed, &[0]));
    let pk = public_key(&child_secret(&seed, &[1]));
    let h = bitcoin::hashes::hash160::Hash::hash(&pk).into_inner();
    let mut expected = vec![0x00, 0x14];
    expected.extend_from_slice(&h);
    assert_eq!(m.get_destination_script(), expected);
    assert_eq!(m.get_shutdown_pubkey(), public_key(&child_secret(&seed, &[2])));
}

#[test]
fn channel_derivation_follows_the_key_chain() {
    let seed = seq_seed();
    let m = KeysManager::new(&seed, Network::Testnet, 7, 9).unwrap();
    let params_1: u64 = 0x0000_0001_DEAD_BEEF;
    let params_2: u64 = 0x1234_5678_90AB_CDEF;
    let k = m.derive_channel_keys(5000, params_1, params_2).unwrap();
    let child = child_secret(&seed, &[3, 1]);
    let s = sha(&[&params_2.to_be_bytes(), &0xDEAD_BEEFu32.to_be_bytes(), &seed, &child]);
    let commitment_seed = sha(&[&s, b"commitment seed"]);
    let funding = sha(&[&s, &commitment_seed, b"funding key"]);
    let revocation = sha(&[&s, &funding, b"revocation base key"]);
    let payment = sha(&[&s, &revocation, b"payment key"]);
    let delayed = sha(&[&s, &payment, b"delayed payment base key"]);
    let htlc = sha(&[&s, &delayed, b"HTLC base key"]);
    assert_eq!(k.commitment_seed, commitment_seed);
    assert_eq!(k.funding_key, funding);
    assert_eq!(k.revocation_base_key, revocation);
    assert_eq!(k.payment_key, payment);
    assert_eq!(k.delayed_payment_base_key, delayed);
    assert_eq!(k.htlc_base_key, htlc);
    assert_eq!(k.pubkeys().funding_pubkey, public_key(&funding));
    assert_eq!(k.key_derivation_params(), (params_1, params_2));
    assert_eq!(k.channel_value_satoshis(), 5000);
    assert!(k.remote_pubkeys().is_none());
}

#[test]
fn derivation_is_deterministic() {
    let seed = seq_seed();
    let a = KeysManager::new(&seed, Network::Bitcoin, 1, 2).unwrap();
    let b = KeysManager::new(&seed, Network::Regtest, 100, 200).unwrap();
    let x = a.derive_channel_keys(10, 3 << 32 | 4, 5).unwrap();
    let y = b.derive_channel_keys(10, 3 << 32 | 4, 5).unwrap();
    assert_eq!(x.encode(), y.encode());
    assert_eq!(x.pubkeys(), y.pubkeys());
    let z = a.derive_channel_keys(10, 3 << 32 | 5, 5).unwrap();
    assert_ne!(x.funding_key, z.funding_key);
}

#[test]
fn channel_keys_get_distinct_parameters() {
    let mut m = KeysManager::new(&seq_seed(), Network::Bitcoin, 1234, 0xABCD).unwrap();
    let a = m.get_channel_keys(true, 100).unwrap();
    let b = m.get_channel_keys(false, 100).unwrap();
    assert_eq!(a.key_derivation_params(), (0xABCD, 1234));
    assert_eq!(b.key_derivation_params(), (1 << 32 | 0xABCD, 1234));
    assert_ne!(a.funding_key, b.funding_key);
    let again = m.derive_channel_keys(100, 1 << 32 | 0xABCD, 1234).unwrap();
    assert_eq!(again.encode(), b.encode());
}

#[test]
fn onion_rand_and_channel_ids_follow_their_counters() {
    let seed = seq_seed();
    let mut m = KeysManager::new(&seed, Network::Bitcoin, 3, 4).unwrap();
    let (k1, r1) = m.get_onion_rand().unwrap();
    let (k2, _) = m.get_onion_rand().unwrap();
    assert_ne!(k1, k2);
    let start: Vec<u8> = [&3u64.to_be_bytes()[..], &4u32.to_be_bytes()[..], &seed[..]].concat();
    let child = child_secret(&seed, &[4, 0]);
    assert_eq!(k1, sha(&[&start, &child, b"Session Key Salt"]));
    assert_eq!(r1, sha(&[&start, &child, b"RNG Seed Salt"]));
    let id1 = m.get_channel_id().unwrap();
    let id2 = m.get_channel_id().unwrap();
    assert_ne!(id1, id2);
    assert_eq!(id1, sha(&[&start, &child_secret(&seed, &[5, 0])]));
}

#[test]
fn funding_script_orders_keys() {
    let a = public_key(&secret(1));
    let b = public_key(&secret(2));
    let s1 = make_funding_redeemscript(&a, &b);
    let s2 = make_funding_redeemscript(&b, &a);
    assert_eq!(s1, s2);
    let (lo, hi) = if a < b { (a, b) } else { (b, a) };
    let mut expected = vec![0x52, 33];
    expected.extend_from_slice(&lo);
    expected.push(33);
    expected.extend_from_slice(&hi);
    expected.extend_from_slice(&[0x52, 0xae]);
    assert_eq!(s1, expected);
}

#[test]
fn revokeable_script_pushes_delay_as_script_number() {
    let r = public_key(&secret(1));
    let d = public_key(&secret(2));
    let s = get_revokeable_redeemscript(&r, 144, &d);
    assert_eq!(s[0], 0x63);
    assert_eq!(&s[35..40], &[0x67, 0x02, 0x90, 0x00, 0xb2]);
    assert_eq!(s.len(), 1 + 34 + 1 + 3 + 2 + 34 + 2);
    let small = get_revokeable_redeemscript(&r, 6, &d);
    assert_eq!(&small[35..38], &[0x67, 0x56, 0xb2]);
}

#[test]
fn sha256_wrapper_hashes() {
    assert_eq!(
        sha256(b"abc").to_vec(),
        vec![
            0xba, 0x78, 0x16, 0xbf, 0x8f, 0x01, 0xcf, 0xea, 0x41, 0x41, 0x40, 0xde, 0x5d, 0xae, 0x22, 0x23,
            0xb0, 0x03, 0x61, 0xa3, 0x96, 0x17, 0x7a, 0x9c, 0xb4, 0x10, 0xff, 0x61, 0xf2, 0x00, 0x15, 0xad,
        ]
    );
}

#[test]
fn closing_transaction_structural_gates() {
    let k = bound_signer();
    assert!(k.sign_closing_transaction(&tx(1, 3)).is_err());
    assert!(k.sign_closing_transaction(&tx(2, 2)).is_err());
    assert!(k.sign_closing_transaction(&tx(0, 1)).is_err());
    let mut witnessed = tx(1, 2);
    witnessed.input[0].witness.push(vec![1]);
    assert!(k.sign_closing_transaction(&witnessed).is_err());
    let t = tx(1, 2);
    let sig = k.sign_closing_transaction(&t).unwrap();
    let script = make_funding_redeemscript(&k.pubkeys().funding_pubkey, &remote_keys().funding_pubkey);
    let digest = sighash_all(&t, 0, &script, 1_000_000);
    assert!(verify(&digest, &sig, &k.pubkeys().funding_pubkey));
    assert!(!verify(&digest, &sig, &remote_keys().funding_pubkey));
}

fn creation_keys() -> TxCreationKeys {
    TxCreationKeys {
        per_commitment_point: public_key(&secret(30)),
        revocation_key: public_key(&secret(31)),
        a_htlc_key: public_key(&secret(32)),
        b_htlc_key: public_key(&secret(33)),
        a_delayed_payment_key: public_key(&secret(34)),
        b_payment_key: public_key(&secret(35)),
    }
}

fn htlc(offered: bool, index: Option<u32>) -> HTLCOutputInCommitment {
    HTLCOutputInCommitment {
        offered,
        amount_msat: 5_000_000,
        cltv_expiry: 500_000,
        payment_hash: [0x42; 32],
        transaction_output_index: index,
    }
}

#[test]
fn remote_commitment_signs_non_dust_htlcs() {
    let k = bound_signer();
    let keys = creation_keys();
    let htlcs = vec![htlc(true, Some(1)), htlc(false, None)];
    assert!(k.sign_remote_commitment(253, &tx(2, 2), &keys, &htlcs, 144).is_err());
    let t = tx(1, 3);
    let (sig, htlc_sigs) = k.sign_remote_commitment(253, &t, &keys, &htlcs, 144).unwrap();
    assert_eq!(htlc_sigs.len(), 1);
    let script = make_funding_redeemscript(&k.pubkeys().funding_pubkey, &remote_keys().funding_pubkey);
    assert!(verify(&sighash_all(&t, 0, &script, 1_000_000), &sig, &k.pubkeys().funding_pubkey));
    let htlc_key = derive_private_key(&keys.per_commitment_point, &k.htlc_base_key).unwrap();
    let htlc_tx = keysinterface::scripts::build_htlc_transaction(&txid(&t), 253, 144, &htlcs[0], &keys.a_delayed_payment_key, &keys.revocation_key);
    assert_eq!(htlc_tx.output[0].value, 5000 - 253 * 663 / 1000);
    assert_eq!(htlc_tx.lock_time, 500_000);
    let hs = keysinterface::scripts::get_htlc_redeemscript(&htlcs[0], &keys);
    let digest = sighash_all(&htlc_tx, 0, &hs, 5000);
    assert!(verify(&digest, &htlc_sigs[0], &public_key(&htlc_key)));
    let derived = derive_public_key(&keys.per_commitment_point, &k.pubkeys().htlc_basepoint).unwrap();
    assert_eq!(derived, public_key(&htlc_key));
}

#[test]
fn local_commitment_and_its_htlcs() {
    let k = bound_signer();
    let lct = LocalCommitmentTransaction {
        unsigned_tx: tx(1, 2),
        local_keys: creation_keys(),
        feerate_per_kw: 1000,
        per_htlc: vec![htlc(false, None), htlc(false, Some(0))],
    };
    let sig = k.sign_local_commitment(&lct).unwrap();
    assert_eq!(k.unsafe_sign_local_commitment(&lct).unwrap(), sig);
    let script = make_funding_redeemscript(&k.pubkeys().funding_pubkey, &remote_keys().funding_pubkey);
    assert!(verify(&sighash_all(&lct.unsigned_tx, 0, &script, 1_000_000), &sig, &k.pubkeys().funding_pubkey));
    let sigs = k.sign_local_commitment_htlc_transactions(&lct, 6).unwrap();
    assert_eq!(sigs.len(), 2);
    assert!(sigs[0].is_none());
    let htlc_key = derive_private_key(&lct.local_keys.per_commitment_point, &k.htlc_base_key).unwrap();
    let htlc_tx = keysinterface::scripts::build_htlc_transaction(&txid(&lct.unsigned_tx), 1000, 6, &lct.per_htlc[1], &lct.local_keys.a_delayed_payment_key, &lct.local_keys.revocation_key);
    assert_eq!(htlc_tx.output[0].value, 5000 - 703);
    assert_eq!(htlc_tx.lock_time, 0);
    let hs = keysinterface::scripts::get_htlc_redeemscript(&lct.per_htlc[1], &lct.local_keys);
    assert!(verify(&sighash_all(&htlc_tx, 0, &hs, 5000), &sigs[1].unwrap(), &public_key(&htlc_key)));
}

#[test]
fn justice_signature_uses_revocation_key() {
    let k = bound_signer();
    let per_commitment_secret = secret(77);
    let t = tx(2, 1);
    let sig = k.sign_justice_transaction(&t, 1, 40_000, &per_commitment_secret, &None, 144).unwrap();
    let rev_secret = derive_private_revocation_key(&per_commitment_secret, &k.revocation_base_key).unwrap();
    let pcp = public_key(&per_commitment_secret);
    let rev_pub = derive_public_revocation_key(&pcp, &k.pubkeys().revocation_basepoint).unwrap();
    assert_eq!(rev_pub, public_key(&rev_secret));
    let delayed = derive_public_key(&pcp, &remote_keys().delayed_payment_basepoint).unwrap();
    let ws = get_revokeable_redeemscript(&rev_pub, 144, &delayed);
    assert!(verify(&sighash_all(&t, 1, &ws, 40_000), &sig, &rev_pub));
    let p2wsh = {
        let mut v = vec![0x00, 0x20];
        v.extend_from_slice(&sha256(&ws));
        v
    };
    assert_eq!(p2wsh.len(), 34);
    let with_htlc = k.sign_justice_transaction(&t, 0, 5000, &per_commitment_secret, &Some(htlc(true, Some(2))), 144).unwrap();
    assert_ne!(with_htlc, sig);
}

#[test]
fn remote_htlc_signature_uses_htlc_key() {
    let k = bound_signer();
    let pcp = public_key(&secret(88));
    let t = tx(1, 1);
    let h = htlc(false, Some(3));
    let sig = k.sign_remote_htlc_transaction(&t, 0, 5000, &pcp, &h).unwrap();
    let htlc_key = derive_private_key(&pcp, &k.htlc_base_key).unwrap();
    let rev = derive_public_revocation_key(&pcp, &k.pubkeys().revocation_basepoint).unwrap();
    let remote_htlc = derive_public_key(&pcp, &remote_keys().htlc_basepoint).unwrap();
    let local_htlc = derive_public_key(&pcp, &k.pubkeys().htlc_basepoint).unwrap();
    let ws = keysinterface::scripts::get_htlc_redeemscript_with_explicit_keys(&h, &remote_htlc, &local_htlc, &rev);
    assert!(verify(&sighash_all(&t, 0, &ws, 5000), &sig, &public_key(&htlc_key)));
}

#[test]
fn channel_announcement_signed_with_funding_key() {
    let k = bound_signer();
    let msg = vec![1u8, 2, 3, 4, 5];
    let sig = k.sign_channel_announcement(&msg).unwrap();
    let digest = bitcoin::hashes::sha256d::Hash::hash(&msg).into_inner();
    assert!(verify(&digest, &sig, &k.pubkeys().funding_pubkey));
}

#[test]
fn secret_keys_check_range() {
    assert!(SecretKey::from_slice(&secret(1)).is_ok());
    assert!(keysinterface::crypto::is_valid_secret(&secret(1)));
    assert!(!keysinterface::crypto::is_valid_secret(&[0u8; 32]));
    assert!(!keysinterface::crypto::is_valid_secret(&[0xFFu8; 32]));
}

#[test]
fn remote_basepoints_are_set_once_through_the_interface() {
    let mut k = InMemoryChannelKeys::new(
        secret(1), secret(2), secret(3), secret(4), secret(5), [7u8; 32], 1_000_000, (5, 6),
    );
    assert!(ChannelKeys::sign_closing_transaction(&k, &tx(1, 2)).is_err());
    assert_eq!(ChannelKeys::set_remote_channel_pubkeys(&mut k, &remote_keys()), Ok(()));
    assert_eq!(ChannelKeys::set_remote_channel_pubkeys(&mut k, &remote_keys()), Err(()));
    assert_eq!(
        ChannelKeys::sign_closing_transaction(&k, &tx(1, 2)),
        k.sign_closing_transaction(&tx(1, 2))
    );
    assert_eq!(ChannelKeys::pubkeys(&k), k.pubkeys());
}

#[test]
fn interface_refuses_what_the_signer_cannot_sign() {
    let k = bound_signer();
    let t = tx(1, 1);
    assert!(ChannelKeys::sign_remote_htlc_transaction(&k, &t, 1, 5000, &public_key(&secret(88)), &htlc(true, Some(0))).is_err());
    assert!(ChannelKeys::sign_remote_htlc_transaction(&k, &t, 0, 5000, &[0u8; 33], &htlc(true, Some(0))).is_err());
    assert!(ChannelKeys::sign_justice_transaction(&k, &t, 0, 5000, &[0u8; 32], &None, 144).is_err());
    let poor = HTLCOutputInCommitment { amount_msat: 1000, ..htlc(true, Some(0)) };
    assert!(ChannelKeys::sign_remote_commitment(&k, 10_000, &t, &creation_keys(), &[poor], 144).is_err());
    let mut broken = bound_signer();
    broken.funding_key = secret(9);
    assert!(!broken.is_well_formed());
    assert!(ChannelKeys::sign_closing_transaction(&broken, &t).is_err());
}

#[test]
fn key_source_interface_advances_counters() {
    let mut m = KeysManager::new(&seq_seed(), Network::Bitcoin, 1, 2).unwrap();
    let a = KeysInterface::get_channel_keys(&mut m, true, 10).unwrap();
    assert_eq!(a.key_derivation_params(), (2, 1));
    assert_eq!(m.counters_exec(), (1, 0, 0));
    KeysInterface::get_channel_id(&mut m).unwrap();
    KeysInterface::get_onion_rand(&mut m).unwrap();
    assert_eq!(m.counters_exec(), (1, 1, 1));
    assert_eq!(KeysInterface::get_node_secret(&m), m.get_node_secret());
}

#[test]
fn unbound_signer_refuses_to_sign() {
    let k = InMemoryChannelKeys::new(
        secret(1), secret(2), secret(3), secret(4), secret(5), [7u8; 32], 1_000_000, (5, 6),
    );
    assert!(k.sign_closing_transaction(&tx(1, 2)).is_err());
    assert!(k.sign_closing_transaction(&tx(1, 3)).is_err());
    assert!(k.sign_remote_commitment(253, &tx(1, 2), &creation_keys(), &[htlc(true, Some(1))], 144).is_err());
    let lct = LocalCommitmentTransaction {
        unsigned_tx: tx(1, 2),
        local_keys: creation_keys(),
        feerate_per_kw: 1000,
        per_htlc: vec![],
    };
    assert!(k.sign_local_commitment(&lct).is_err());
    assert!(k.unsafe_sign_local_commitment(&lct).is_err());
    assert!(k.sign_justice_transaction(&tx(1, 1), 0, 5000, &secret(77), &None, 144).is_err());
    assert!(k.sign_remote_htlc_transaction(&tx(1, 1), 0, 5000, &public_key(&secret(88)), &htlc(false, Some(0))).is_err());
    assert!(k.sign_channel_announcement(&[1, 2, 3]).is_ok());
    assert!(k.sign_local_commitment_htlc_transactions(&lct, 6).is_ok());
}
