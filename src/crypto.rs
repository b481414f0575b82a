//! The cryptographic primitives this library takes from the bitcoin crate
//! (and the secp256k1 and bitcoin_hashes crates it re-exports). Each is a
//! small trusted wrapper; hashes, curve points and signatures are named
//! results, while what a few lines can state (scalar ranges, modular
//! arithmetic on scalars) is stated.

use bitcoin::hashes::Hash as HashTrait;
use bitcoin::secp256k1::{Message, PublicKey, Secp256k1, SecretKey};
use bitcoin::util::bip32::{ChainCode, ChildNumber, ExtendedPrivKey};
use vstd::prelude::*;

verus! {

/// The big-endian value of a byte string.
pub open spec fn be_nat(s: Seq<u8>) -> nat
    decreases s.len(),
{
    if s.len() == 0 {
        0
    } else {
        be_nat(s.drop_last()) * 256 + s.last() as nat
    }
}

/// The order of the secp256k1 group.
pub open spec fn curve_order() -> nat {
    (0xFFFF_FFFF_FFFF_FFFF_FFFF_FFFF_FFFF_FFFEu128 as nat) * (0x1_0000_0000_0000_0000u128 as nat)
        * (0x1_0000_0000_0000_0000u128 as nat) + (0xBAAE_DCE6_AF48_A03B_BFD2_5E8C_D036_4141u128 as nat)
}

/// 32 bytes that are a valid secret key: a scalar in `1 .. curve_order()`.
pub open spec fn scalar_in_range(s: Seq<u8>) -> bool {
    s.len() == 32 && 0 < be_nat(s) < curve_order()
}

/// SHA-256 of a byte string.
pub uninterp spec fn sha256_of(data: Seq<u8>) -> Seq<u8>;

/// Double SHA-256 of a byte string.
pub open spec fn sha256d_of(data: Seq<u8>) -> Seq<u8> {
    sha256_of(sha256_of(data))
}

/// RIPEMD-160 of a byte string.
pub uninterp spec fn ripemd160_of(data: Seq<u8>) -> Seq<u8>;

/// RIPEMD-160 of SHA-256 of a byte string.
pub open spec fn hash160_of(data: Seq<u8>) -> Seq<u8> {
    ripemd160_of(sha256_of(data))
}

/// The compressed public key of a secret key.
pub uninterp spec fn pubkey_of(secret: Seq<u8>) -> Seq<u8>;

/// Whether 33 bytes are the compressed encoding of a curve point.
pub uninterp spec fn pubkey_valid(p: Seq<u8>) -> bool;

/// The sum of two curve points, if it is not the point at infinity.
pub uninterp spec fn point_add_of(p: Seq<u8>, q: Seq<u8>) -> Option<Seq<u8>>;

/// A curve point multiplied by a scalar tweak, if the tweak is usable.
pub uninterp spec fn point_mul_of(p: Seq<u8>, tweak: Seq<u8>) -> Option<Seq<u8>>;

/// The deterministic (RFC 6979) ECDSA signature, compact form, of a digest.
pub uninterp spec fn ecdsa_sign_of(digest: Seq<u8>, secret: Seq<u8>) -> Seq<u8>;

/// BIP-32 master key material of a seed: the 64-byte HMAC-SHA512 output,
/// secret key candidate first, chain code second.
pub uninterp spec fn bip32_master_of(seed: Seq<u8>) -> Seq<u8>;

/// BIP-32 hardened child of (secret, chain code) at an index below 2^31: the
/// child's secret key followed by its chain code, if the derivation succeeds.
pub uninterp spec fn bip32_hardened_of(secret: Seq<u8>, chain_code: Seq<u8>, index: u32) -> Option<
    Seq<u8>,
>;

/// Relies on bitcoin::hashes::sha256::Hash::hash for the SHA-256 digest.
#[verifier::external_body]
pub fn sha256(data: &[u8]) -> (r: [u8; 32])
    ensures
        r@ == sha256_of(data@),
{
    bitcoin::hashes::sha256::Hash::hash(data).into_inner()
}

/// Relies on bitcoin::hashes::sha256d::Hash::hash: SHA-256 applied twice.
#[verifier::external_body]
pub fn sha256d(data: &[u8]) -> (r: [u8; 32])
    ensures
        r@ == sha256d_of(data@),
{
    bitcoin::hashes::sha256d::Hash::hash(data).into_inner()
}

/// Relies on bitcoin::hashes::ripemd160::Hash::hash for the RIPEMD-160 digest.
#[verifier::external_body]
pub fn ripemd160(data: &[u8]) -> (r: [u8; 20])
    ensures
        r@ == ripemd160_of(data@),
{
    bitcoin::hashes::ripemd160::Hash::hash(data).into_inner()
}

/// Relies on bitcoin::hashes::hash160::Hash::hash: RIPEMD-160 of SHA-256.
#[verifier::external_body]
pub fn hash160(data: &[u8]) -> (r: [u8; 20])
    ensures
        r@ == hash160_of(data@),
{
    bitcoin::hashes::hash160::Hash::hash(data).into_inner()
}

/// Relies on secp256k1::SecretKey::from_slice, which accepts exactly the
/// 32-byte scalars in `1 .. curve_order()`.
#[verifier::external_body]
pub fn is_valid_secret(s: &[u8; 32]) -> (r: bool)
    ensures
        r == scalar_in_range(s@),
{
    SecretKey::from_slice(s).is_ok()
}

/// Relies on secp256k1::PublicKey::from_secret_key and its compressed
/// serialization, which parses back as a valid point.
#[verifier::external_body]
pub fn public_key(secret: &[u8; 32]) -> (r: [u8; 33])
    requires
        scalar_in_range(secret@),
    ensures
        r@ == pubkey_of(secret@),
        pubkey_valid(r@),
{
    PublicKey::from_secret_key(&Secp256k1::signing_only(), &SecretKey::from_slice(secret).unwrap()).serialize()
}

/// Relies on secp256k1::PublicKey::from_slice to tell a valid point encoding.
#[verifier::external_body]
pub fn is_valid_pubkey(p: &[u8; 33]) -> (r: bool)
    ensures
        r == pubkey_valid(p@),
{
    PublicKey::from_slice(p).is_ok()
}

/// Relies on secp256k1::PublicKey::combine to add two points.
#[verifier::external_body]
pub fn point_add(p: &[u8; 33], q: &[u8; 33]) -> (r: Option<[u8; 33]>)
    requires
        pubkey_valid(p@),
        pubkey_valid(q@),
    ensures
        match r {
            Some(k) => point_add_of(p@, q@) == Some(k@) && pubkey_valid(k@),
            None => point_add_of(p@, q@) is None,
        },
{
    let (a, b) = (PublicKey::from_slice(p).unwrap(), PublicKey::from_slice(q).unwrap());
    a.combine(&b).ok().map(|k| k.serialize())
}

/// Relies on secp256k1::PublicKey::mul_assign to multiply a point by a tweak.
#[verifier::external_body]
pub fn point_mul(p: &[u8; 33], tweak: &[u8; 32]) -> (r: Option<[u8; 33]>)
    requires
        pubkey_valid(p@),
    ensures
        match r {
            Some(k) => point_mul_of(p@, tweak@) == Some(k@) && pubkey_valid(k@),
            None => point_mul_of(p@, tweak@) is None,
        },
{
    let mut a = PublicKey::from_slice(p).unwrap();
    a.mul_assign(&Secp256k1::verification_only(), tweak).ok().map(|_| a.serialize())
}

/// Relies on secp256k1::SecretKey::add_assign: the sum modulo the curve
/// order, refused when the tweak is not below the order or the sum is zero.
#[verifier::external_body]
pub fn scalar_add(s: &[u8; 32], tweak: &[u8; 32]) -> (r: Option<[u8; 32]>)
    requires
        scalar_in_range(s@),
    ensures
        r is Some <==> (be_nat(tweak@) < curve_order() && (be_nat(s@) + be_nat(tweak@)) % curve_order() != 0),
        r matches Some(k) ==> (scalar_in_range(k@) && be_nat(k@) == (be_nat(s@) + be_nat(tweak@)) % curve_order()),
{
    let mut k = SecretKey::from_slice(s).unwrap();
    k.add_assign(tweak).ok().map(|_| { let mut a = [0u8; 32]; a.copy_from_slice(&k[..]); a })
}

/// Relies on secp256k1::SecretKey::mul_assign: the product modulo the curve
/// order, refused when the tweak is zero or not below the order.
#[verifier::external_body]
pub fn scalar_mul(s: &[u8; 32], tweak: &[u8; 32]) -> (r: Option<[u8; 32]>)
    requires
        scalar_in_range(s@),
    ensures
        r is Some <==> 0 < be_nat(tweak@) < curve_order(),
        r matches Some(k) ==> (scalar_in_range(k@) && be_nat(k@) == (be_nat(s@) * be_nat(tweak@)) % curve_order()),
{
    let mut k = SecretKey::from_slice(s).unwrap();
    k.mul_assign(tweak).ok().map(|_| { let mut a = [0u8; 32]; a.copy_from_slice(&k[..]); a })
}

/// Relies on secp256k1::Message::from_slice, which refuses the all-zero
/// digest, and secp256k1::Secp256k1::sign, which signs with an RFC 6979 nonce.
#[verifier::external_body]
pub fn sign_digest(digest: &[u8; 32], secret: &[u8; 32]) -> (r: Option<[u8; 64]>)
    requires
        scalar_in_range(secret@),
    ensures
        r is None <==> digest@ == Seq::new(32, |i: int| 0u8),
        r matches Some(sig) ==> sig@ == ecdsa_sign_of(digest@, secret@),
{
    let msg = Message::from_slice(digest).ok()?;
    let key = SecretKey::from_slice(secret).unwrap();
    Some(Secp256k1::signing_only().sign(&msg, &key).serialize_compact())
}

/// The chain a key root serves. Key material does not depend on it.
#[derive(Clone, Copy, Debug, PartialEq, Eq)]
pub enum Network {
    Bitcoin,
    Testnet,
    Regtest,
}

/// BIP-32 key material that hardened derivation needs: a secret key and a
/// chain code.
pub struct ExtendedKey {
    pub secret: [u8; 32],
    pub chain_code: [u8; 32],
}

/// Relies on bitcoin::util::bip32::ExtendedPrivKey::new_master, which refuses
/// the seed exactly when the first half of its HMAC output is no valid secret;
/// the network does not enter the key material.
#[verifier::external_body]
pub fn bip32_master(network: Network, seed: &[u8; 32]) -> (r: Option<ExtendedKey>)
    ensures
        match r {
            Some(k) => k.secret@ + k.chain_code@ == bip32_master_of(seed@) && scalar_in_range(
                k.secret@,
            ),
            None => !scalar_in_range(bip32_master_of(seed@).subrange(0, 32)),
        },
{
    let network = match network {
        Network::Bitcoin => bitcoin::Network::Bitcoin,
        Network::Testnet => bitcoin::Network::Testnet,
        Network::Regtest => bitcoin::Network::Regtest,
    };
    let m = ExtendedPrivKey::new_master(network, seed).ok()?;
    let (mut secret, mut chain_code) = ([0u8; 32], [0u8; 32]);
    secret.copy_from_slice(&m.private_key.key[..]);
    chain_code.copy_from_slice(&m.chain_code[..]);
    Some(ExtendedKey { secret, chain_code })
}

/// Relies on bitcoin::util::bip32::ExtendedPrivKey::ckd_priv for a hardened
/// child; the network, depth, fingerprint and child number of the parent do
/// not enter the child's key material.
#[verifier::external_body]
pub fn bip32_hardened(parent: &ExtendedKey, index: u32) -> (r: Option<ExtendedKey>)
    requires
        index < 0x8000_0000,
        scalar_in_range(parent.secret@),
    ensures
        match r {
            Some(k) => bip32_hardened_of(parent.secret@, parent.chain_code@, index) == Some(
                k.secret@ + k.chain_code@,
            ) && scalar_in_range(k.secret@),
            None => bip32_hardened_of(parent.secret@, parent.chain_code@, index) is None,
        },
{
    let key = SecretKey::from_slice(&parent.secret).unwrap();
    let m = ExtendedPrivKey {
        network: bitcoin::Network::Bitcoin, depth: 0, parent_fingerprint: Default::default(),
        child_number: ChildNumber::Normal { index: 0 },
        private_key: bitcoin::PrivateKey { compressed: true, network: bitcoin::Network::Bitcoin, key },
        chain_code: ChainCode::from(&parent.chain_code[..]),
    };
    let c = m.ckd_priv(&Secp256k1::signing_only(), ChildNumber::from_hardened_idx(index).unwrap()).ok()?;
    let (mut secret, mut chain_code) = ([0u8; 32], [0u8; 32]);
    secret.copy_from_slice(&c.private_key.key[..]);
    chain_code.copy_from_slice(&c.chain_code[..]);
    Some(ExtendedKey { secret, chain_code })
}

} // verus!
