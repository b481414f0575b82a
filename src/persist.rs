//! The binary form in which a channel signer is persisted: its secrets, the
//! commitment seed, the counterparty's basepoints if known, the channel
//! value and the derivation parameters. Our basepoints are not stored; they
//! are recomputed from the secrets on reading.

use vstd::prelude::*;

use crate::bytes::{be64, push_all, push_be64};
use crate::codec::{
    lemma_be64_at, lemma_u8_at, parse_be64_at, parse_bytes32_at, parse_pubkey_at,
    parse_secret_at, parse_u8_at, read_be64_at, read_bytes32_at, read_pubkey_at,
    read_secret_at, read_u8, DecodeError,
};
use crate::crypto::{pubkey_valid, scalar_in_range};
use crate::signer::{ChannelPublicKeys, InMemoryChannelKeys};

verus! {

/// The five keys of one side, as byte strings.
pub struct KeysView {
    pub funding_pubkey: Seq<u8>,
    pub revocation_basepoint: Seq<u8>,
    pub payment_point: Seq<u8>,
    pub delayed_payment_basepoint: Seq<u8>,
    pub htlc_basepoint: Seq<u8>,
}

/// What a persisted signer holds.
pub struct SignerData {
    pub funding_key: Seq<u8>,
    pub revocation_base_key: Seq<u8>,
    pub payment_key: Seq<u8>,
    pub delayed_payment_base_key: Seq<u8>,
    pub htlc_base_key: Seq<u8>,
    pub commitment_seed: Seq<u8>,
    pub remote: Option<KeysView>,
    pub channel_value_satoshis: u64,
    pub key_derivation_params: (u64, u64),
}

pub open spec fn keys_view(k: ChannelPublicKeys) -> KeysView {
    KeysView {
        funding_pubkey: k.funding_pubkey@,
        revocation_basepoint: k.revocation_basepoint@,
        payment_point: k.payment_point@,
        delayed_payment_basepoint: k.delayed_payment_basepoint@,
        htlc_basepoint: k.htlc_basepoint@,
    }
}

/// What of a signer is persisted.
pub open spec fn signer_data(k: InMemoryChannelKeys) -> SignerData {
    SignerData {
        funding_key: k.funding_key@,
        revocation_base_key: k.revocation_base_key@,
        payment_key: k.payment_key@,
        delayed_payment_base_key: k.delayed_payment_base_key@,
        htlc_base_key: k.htlc_base_key@,
        commitment_seed: k.commitment_seed@,
        remote: match k.remote_channel_pubkeys {
            Some(r) => Some(keys_view(r)),
            None => None,
        },
        channel_value_satoshis: k.channel_value_satoshis,
        key_derivation_params: k.key_derivation_params,
    }
}

pub open spec fn keys_bytes(k: KeysView) -> Seq<u8> {
    k.funding_pubkey + k.revocation_basepoint + k.payment_point + k.delayed_payment_basepoint
        + k.htlc_basepoint
}

/// The persisted form: secrets, seed, `0` or `1` and five keys, then the
/// value and the parameters big-endian.
pub open spec fn signer_bytes(d: SignerData) -> Seq<u8> {
    d.funding_key + d.revocation_base_key + d.payment_key + d.delayed_payment_base_key
        + d.htlc_base_key + d.commitment_seed + match d.remote {
        None => seq![0u8],
        Some(k) => seq![1u8] + keys_bytes(k),
    } + be64(d.channel_value_satoshis) + be64(d.key_derivation_params.0) + be64(
        d.key_derivation_params.1,
    )
}

/// Five public keys from position `p`.
pub open spec fn parse_keys_at(s: Seq<u8>, p: int) -> Result<(KeysView, int), DecodeError> {
    match parse_pubkey_at(s, p) {
        Err(e) => Err(e),
        Ok((a, at1)) => match parse_pubkey_at(s, at1) {
            Err(e) => Err(e),
            Ok((b, at2)) => match parse_pubkey_at(s, at2) {
                Err(e) => Err(e),
                Ok((c, at3)) => match parse_pubkey_at(s, at3) {
                    Err(e) => Err(e),
                    Ok((d, at4)) => match parse_pubkey_at(s, at4) {
                        Err(e) => Err(e),
                        Ok((e5, at5)) => Ok((
                            KeysView {
                                funding_pubkey: a,
                                revocation_basepoint: b,
                                payment_point: c,
                                delayed_payment_basepoint: d,
                                htlc_basepoint: e5,
                            },
                            at5,
                        )),
                    },
                },
            },
        },
    }
}

/// The counterparty's keys from position `p`: a tag `0` for none, `1` for
/// five keys; any other tag is an invalid value.
pub open spec fn parse_remote_at(s: Seq<u8>, p: int) -> Result<(Option<KeysView>, int), DecodeError> {
    match parse_u8_at(s, p) {
        Err(e) => Err(e),
        Ok((tag, at1)) => if tag == 0 {
            Ok((None, at1))
        } else if tag == 1 {
            match parse_keys_at(s, at1) {
                Err(e) => Err(e),
                Ok((k, at2)) => Ok((Some(k), at2)),
            }
        } else {
            Err(DecodeError::InvalidValue)
        },
    }
}

/// The five secrets from position `p`.
pub open spec fn parse_secrets_at(s: Seq<u8>, p: int) -> Result<(Seq<Seq<u8>>, int), DecodeError> {
    match parse_secret_at(s, p) {
        Err(e) => Err(e),
        Ok((a, at1)) => match parse_secret_at(s, at1) {
            Err(e) => Err(e),
            Ok((b, at2)) => match parse_secret_at(s, at2) {
                Err(e) => Err(e),
                Ok((c, at3)) => match parse_secret_at(s, at3) {
                    Err(e) => Err(e),
                    Ok((d, at4)) => match parse_secret_at(s, at4) {
                        Err(e) => Err(e),
                        Ok((e5, at5)) => Ok((seq![a, b, c, d, e5], at5)),
                    },
                },
            },
        },
    }
}

/// Reads a persisted signer at the start of `s`.
pub open spec fn parse_signer(s: Seq<u8>) -> Result<(SignerData, int), DecodeError> {
    match parse_secrets_at(s, 0) {
        Err(e) => Err(e),
        Ok((k, at5)) => match parse_bytes32_at(s, at5) {
            Err(e) => Err(e),
            Ok((commitment_seed, at6)) => match parse_remote_at(s, at6) {
                Err(e) => Err(e),
                Ok((remote, at7)) => match parse_be64_at(s, at7) {
                    Err(e) => Err(e),
                    Ok((value, at8)) => match parse_be64_at(s, at8) {
                        Err(e) => Err(e),
                        Ok((params_1, at9)) => match parse_be64_at(s, at9) {
                            Err(e) => Err(e),
                            Ok((params_2, at10)) => Ok((
                                SignerData {
                                    funding_key: k[0],
                                    revocation_base_key: k[1],
                                    payment_key: k[2],
                                    delayed_payment_base_key: k[3],
                                    htlc_base_key: k[4],
                                    commitment_seed,
                                    remote,
                                    channel_value_satoshis: value,
                                    key_derivation_params: (params_1, params_2),
                                },
                                at10,
                            )),
                        },
                    },
                },
            },
        },
    }
}

fn push_keys(out: &mut Vec<u8>, k: &ChannelPublicKeys)
    ensures
        final(out)@ == old(out)@ + keys_bytes(keys_view(*k)),
{
    push_all(out, &k.funding_pubkey);
    push_all(out, &k.revocation_basepoint);
    push_all(out, &k.payment_point);
    push_all(out, &k.delayed_payment_basepoint);
    push_all(out, &k.htlc_basepoint);
    assert(out@ =~= old(out)@ + keys_bytes(keys_view(*k)));
}

fn read_keys_at(data: &[u8], p: usize) -> (r: Result<(ChannelPublicKeys, usize), DecodeError>)
    ensures
        match parse_keys_at(data@, p as int) {
            Ok((v, q)) => r matches Ok((k, m)) && keys_view(k) == v && m == q && k.valid(),
            Err(e) => r matches Err(f) && f == e,
        },
{
    let (funding_pubkey, at1) = match read_pubkey_at(data, p) {
        Ok(x) => x,
        Err(e) => return Err(e),
    };
    let (revocation_basepoint, at2) = match read_pubkey_at(data, at1) {
        Ok(x) => x,
        Err(e) => return Err(e),
    };
    let (payment_point, at3) = match read_pubkey_at(data, at2) {
        Ok(x) => x,
        Err(e) => return Err(e),
    };
    let (delayed_payment_basepoint, at4) = match read_pubkey_at(data, at3) {
        Ok(x) => x,
        Err(e) => return Err(e),
    };
    let (htlc_basepoint, at5) = match read_pubkey_at(data, at4) {
        Ok(x) => x,
        Err(e) => return Err(e),
    };
    Ok((
        ChannelPublicKeys {
            funding_pubkey,
            revocation_basepoint,
            payment_point,
            delayed_payment_basepoint,
            htlc_basepoint,
        },
        at5,
    ))
}

fn read_remote_at(data: &[u8], p: usize) -> (r: Result<(Option<ChannelPublicKeys>, usize), DecodeError>)
    ensures
        match parse_remote_at(data@, p as int) {
            Ok((v, q)) => r matches Ok((k, m)) && m == q && match k {
                Some(k) => v == Some(keys_view(k)) && k.valid(),
                None => v is None,
            },
            Err(e) => r matches Err(f) && f == e,
        },
{
    let (tag, at1) = match read_u8(data, p) {
        Ok(x) => x,
        Err(e) => return Err(e),
    };
    if tag == 0 {
        Ok((None, at1))
    } else if tag == 1 {
        match read_keys_at(data, at1) {
            Ok((k, at2)) => Ok((Some(k), at2)),
            Err(e) => Err(e),
        }
    } else {
        Err(DecodeError::InvalidValue)
    }
}

fn read_secrets_at(data: &[u8], p: usize) -> (r: Result<([[u8; 32]; 5], usize), DecodeError>)
    ensures
        match parse_secrets_at(data@, p as int) {
            Ok((v, q)) => r matches Ok((k, m)) && m == q && k@.map_values(|a: [u8; 32]| a@) == v,
            Err(e) => r matches Err(f) && f == e,
        },
{
    let (a, at1) = match read_secret_at(data, p) {
        Ok(x) => x,
        Err(e) => return Err(e),
    };
    let (b, at2) = match read_secret_at(data, at1) {
        Ok(x) => x,
        Err(e) => return Err(e),
    };
    let (c, at3) = match read_secret_at(data, at2) {
        Ok(x) => x,
        Err(e) => return Err(e),
    };
    let (d, at4) = match read_secret_at(data, at3) {
        Ok(x) => x,
        Err(e) => return Err(e),
    };
    let (e5, at5) = match read_secret_at(data, at4) {
        Ok(x) => x,
        Err(e) => return Err(e),
    };
    let k = [a, b, c, d, e5];
    assert(k@.map_values(|a: [u8; 32]| a@) =~= seq![a@, b@, c@, d@, e5@]);
    Ok((k, at5))
}

impl InMemoryChannelKeys {
    /// Appends the persisted form of this signer.
    pub fn write(&self, out: &mut Vec<u8>)
        ensures
            final(out)@ == old(out)@ + signer_bytes(signer_data(*self)),
    {
        let ghost start = out@;
        push_all(out, &self.funding_key);
        push_all(out, &self.revocation_base_key);
        push_all(out, &self.payment_key);
        push_all(out, &self.delayed_payment_base_key);
        push_all(out, &self.htlc_base_key);
        push_all(out, &self.commitment_seed);
        match &self.remote_channel_pubkeys {
            None => out.push(0u8),
            Some(k) => {
                out.push(1u8);
                push_keys(out, k);
            },
        }
        push_be64(out, self.channel_value_satoshis);
        push_be64(out, self.key_derivation_params.0);
        push_be64(out, self.key_derivation_params.1);
        assert(out@ =~= start + signer_bytes(signer_data(*self)));
    }

    /// The persisted form of this signer.
    pub fn encode(&self) -> (r: Vec<u8>)
        ensures
            r@ == signer_bytes(signer_data(*self)),
    {
        let mut out: Vec<u8> = Vec::new();
        self.write(&mut out);
        assert(out@ =~= signer_bytes(signer_data(*self)));
        out
    }

    /// Reads a persisted signer at the start of `data`, recomputing our
    /// basepoints from the secrets: the signer and the bytes it took. A
    /// secret that is no valid key, a counterparty key that is no curve
    /// point, or a tag other than `0` or `1` is an invalid value; bytes that
    /// end early are a short read.
    #[verifier::rlimit(40)]
    pub fn read(data: &[u8]) -> (r: Result<(InMemoryChannelKeys, usize), DecodeError>)
        ensures
            match parse_signer(data@) {
                Ok((v, n)) => r matches Ok((k, m)) && k.wf() && signer_data(k) == v && m == n,
                Err(e) => r matches Err(f) && f == e,
            },
    {
        let (k, at5) = match read_secrets_at(data, 0) {
            Ok(x) => x,
            Err(e) => return Err(e),
        };
        let (commitment_seed, at6) = match read_bytes32_at(data, at5) {
            Ok(x) => x,
            Err(e) => return Err(e),
        };
        let (remote_channel_pubkeys, at7) = match read_remote_at(data, at6) {
            Ok(x) => x,
            Err(e) => return Err(e),
        };
        let (channel_value_satoshis, at8) = match read_be64_at(data, at7) {
            Ok(x) => x,
            Err(e) => return Err(e),
        };
        let (params_1, at9) = match read_be64_at(data, at8) {
            Ok(x) => x,
            Err(e) => return Err(e),
        };
        let (params_2, at10) = match read_be64_at(data, at9) {
            Ok(x) => x,
            Err(e) => return Err(e),
        };
        assert(k@.map_values(|a: [u8; 32]| a@)[0] == k[0]@);
        assert(k@.map_values(|a: [u8; 32]| a@)[1] == k[1]@);
        assert(k@.map_values(|a: [u8; 32]| a@)[2] == k[2]@);
        assert(k@.map_values(|a: [u8; 32]| a@)[3] == k[3]@);
        assert(k@.map_values(|a: [u8; 32]| a@)[4] == k[4]@);
        let mut signer = InMemoryChannelKeys::new(
            k[0],
            k[1],
            k[2],
            k[3],
            k[4],
            commitment_seed,
            channel_value_satoshis,
            (params_1, params_2),
        );
        signer.remote_channel_pubkeys = remote_channel_pubkeys;
        Ok((signer, at10))
    }
}

proof fn lemma_secret_at(s: Seq<u8>, pos: int, k: Seq<u8>)
    requires
        0 <= pos,
        scalar_in_range(k),
        pos + 32 <= s.len(),
        s.subrange(pos, pos + 32) == k,
    ensures
        parse_secret_at(s, pos) == Ok::<(Seq<u8>, int), DecodeError>((k, pos + 32)),
{
}

proof fn lemma_pubkey_at(s: Seq<u8>, pos: int, k: Seq<u8>)
    requires
        0 <= pos,
        pubkey_valid(k),
        k.len() == 33,
        pos + 33 <= s.len(),
        s.subrange(pos, pos + 33) == k,
    ensures
        parse_pubkey_at(s, pos) == Ok::<(Seq<u8>, int), DecodeError>((k, pos + 33)),
{
}

#[verifier::rlimit(40)]
proof fn lemma_keys_round_trip(k: ChannelPublicKeys, s: Seq<u8>, pos: int)
    requires
        k.valid(),
        0 <= pos,
        pos + 165 <= s.len(),
        s.subrange(pos, pos + 165) == keys_bytes(keys_view(k)),
    ensures
        parse_keys_at(s, pos) == Ok::<(KeysView, int), DecodeError>((keys_view(k), pos + 165)),
{
    let kb = keys_bytes(keys_view(k));
    assert(k.funding_pubkey@.len() == 33 && k.revocation_basepoint@.len() == 33 && k.payment_point@.len() == 33);
    assert(k.delayed_payment_basepoint@.len() == 33 && k.htlc_basepoint@.len() == 33);
    assert(kb.subrange(0, 33) =~= k.funding_pubkey@);
    assert(kb.subrange(33, 66) =~= k.revocation_basepoint@);
    assert(kb.subrange(66, 99) =~= k.payment_point@);
    assert(kb.subrange(99, 132) =~= k.delayed_payment_basepoint@);
    assert(kb.subrange(132, 165) =~= k.htlc_basepoint@);
    assert(s.subrange(pos, pos + 33) =~= kb.subrange(0, 33));
    assert(s.subrange(pos + 33, pos + 66) =~= kb.subrange(33, 66));
    assert(s.subrange(pos + 66, pos + 99) =~= kb.subrange(66, 99));
    assert(s.subrange(pos + 99, pos + 132) =~= kb.subrange(99, 132));
    assert(s.subrange(pos + 132, pos + 165) =~= kb.subrange(132, 165));
    lemma_pubkey_at(s, pos, k.funding_pubkey@);
    lemma_pubkey_at(s, pos + 33, k.revocation_basepoint@);
    lemma_pubkey_at(s, pos + 66, k.payment_point@);
    lemma_pubkey_at(s, pos + 99, k.delayed_payment_basepoint@);
    lemma_pubkey_at(s, pos + 132, k.htlc_basepoint@);
}

#[verifier::rlimit(40)]
proof fn lemma_secrets_round_trip(k: InMemoryChannelKeys, s: Seq<u8>)
    requires
        k.wf(),
        160 <= s.len(),
        s.subrange(0, 160) == k.funding_key@ + k.revocation_base_key@ + k.payment_key@
            + k.delayed_payment_base_key@ + k.htlc_base_key@,
    ensures
        parse_secrets_at(s, 0) == Ok::<(Seq<Seq<u8>>, int), DecodeError>((
            seq![k.funding_key@, k.revocation_base_key@, k.payment_key@, k.delayed_payment_base_key@, k.htlc_base_key@],
            160,
        )),
{
    let kb = k.funding_key@ + k.revocation_base_key@ + k.payment_key@ + k.delayed_payment_base_key@
        + k.htlc_base_key@;
    assert(kb.subrange(0, 32) =~= k.funding_key@);
    assert(kb.subrange(32, 64) =~= k.revocation_base_key@);
    assert(kb.subrange(64, 96) =~= k.payment_key@);
    assert(kb.subrange(96, 128) =~= k.delayed_payment_base_key@);
    assert(kb.subrange(128, 160) =~= k.htlc_base_key@);
    assert(s.subrange(0, 32) =~= kb.subrange(0, 32));
    assert(s.subrange(32, 64) =~= kb.subrange(32, 64));
    assert(s.subrange(64, 96) =~= kb.subrange(64, 96));
    assert(s.subrange(96, 128) =~= kb.subrange(96, 128));
    assert(s.subrange(128, 160) =~= kb.subrange(128, 160));
    lemma_secret_at(s, 0, k.funding_key@);
    lemma_secret_at(s, 32, k.revocation_base_key@);
    lemma_secret_at(s, 64, k.payment_key@);
    lemma_secret_at(s, 96, k.delayed_payment_base_key@);
    lemma_secret_at(s, 128, k.htlc_base_key@);
}

/// A well-formed signer reads back from its persisted form, whatever follows
/// it; reading recomputes the same basepoints.
#[verifier::rlimit(40)]
pub proof fn lemma_signer_round_trip(k: InMemoryChannelKeys, rest: Seq<u8>)
    requires
        k.wf(),
    ensures
        parse_signer(signer_bytes(signer_data(k)) + rest) == Ok::<(SignerData, int), DecodeError>(
            (signer_data(k), signer_bytes(signer_data(k)).len() as int),
        ),
{
    let d = signer_data(k);
    let s = signer_bytes(d) + rest;
    let secrets = k.funding_key@ + k.revocation_base_key@ + k.payment_key@
        + k.delayed_payment_base_key@ + k.htlc_base_key@;
    assert(s.subrange(0, 160) =~= secrets);
    lemma_secrets_round_trip(k, s);
    assert(s.subrange(160, 192) =~= k.commitment_seed@);
    let at7: int = match k.remote_channel_pubkeys {
        None => 193,
        Some(_) => 358,
    };
    match k.remote_channel_pubkeys {
        None => {
            lemma_u8_at(s, 192, 0u8);
        },
        Some(r) => {
            lemma_u8_at(s, 192, 1u8);
            assert(s.subrange(193, 358) =~= keys_bytes(keys_view(r)));
            lemma_keys_round_trip(r, s, 193);
        },
    }
    assert(parse_remote_at(s, 192) == Ok::<(Option<KeysView>, int), DecodeError>((d.remote, at7)));
    assert(s.subrange(at7, at7 + 8) =~= be64(k.channel_value_satoshis));
    lemma_be64_at(s, at7, k.channel_value_satoshis);
    assert(s.subrange(at7 + 8, at7 + 16) =~= be64(k.key_derivation_params.0));
    lemma_be64_at(s, at7 + 8, k.key_derivation_params.0);
    assert(s.subrange(at7 + 16, at7 + 24) =~= be64(k.key_derivation_params.1));
    lemma_be64_at(s, at7 + 16, k.key_derivation_params.1);
}

/// Two well-formed signers with the same persisted data have the same
/// basepoints: reading back restores all of a signer.
pub proof fn lemma_signer_data_determines_basepoints(a: InMemoryChannelKeys, b: InMemoryChannelKeys)
    requires
        a.wf(),
        b.wf(),
        signer_data(a) == signer_data(b),
    ensures
        keys_view(a.local_channel_pubkeys) == keys_view(b.local_channel_pubkeys),
{
}

} // verus!
