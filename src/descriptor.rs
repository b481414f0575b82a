//! Outputs on chain that the node may spend, with what the wallet needs to
//! spend them, and their binary format.

use vstd::prelude::*;

use crate::bytes::{be16, be64, push_all, push_be16, push_be64};
use crate::codec::{
    lemma_be16_at, lemma_be64_at, lemma_outpoint_at, lemma_txout_at, lemma_u8_at,
    parse_be16_at, parse_be64_at, parse_outpoint_at, parse_pubkey_at, parse_txout_at,
    parse_u8_at, read_be16_at, read_be64_at, read_outpoint_at, read_pubkey_at, read_txout_at,
    read_u8, DecodeError,
};
use crate::crypto::pubkey_valid;
use crate::tx::{
    encode_outpoint, encode_txout, outpoint_bytes, txout_bytes, Outpoint, OutpointView,
    TxOutput, TxOutputView, MAX_VEC_SIZE,
};

verus! {

/// An output the node can claim on chain, and how.
#[derive(Debug, PartialEq, Eq)]
pub enum SpendableOutputDescriptor {
    /// An output to a script the node's wallet already knows how to spend.
    StaticOutput { outpoint: Outpoint, output: TxOutput },
    /// A CSV-delayed P2WSH output, spent by the delayed payment key derived
    /// from the signer of `key_derivation_params` and `per_commitment_point`,
    /// with nSequence set to `to_self_delay`.
    DynamicOutputP2WSH {
        outpoint: Outpoint,
        per_commitment_point: [u8; 33],
        to_self_delay: u16,
        output: TxOutput,
        key_derivation_params: (u64, u64),
        remote_revocation_pubkey: [u8; 33],
    },
    /// A P2WPKH output to the payment key of the signer of
    /// `key_derivation_params`.
    StaticOutputRemotePayment { outpoint: Outpoint, output: TxOutput, key_derivation_params: (u64, u64) },
}

impl Clone for SpendableOutputDescriptor {
    fn clone(&self) -> Self {
        match self {
            SpendableOutputDescriptor::StaticOutput { outpoint, output } => SpendableOutputDescriptor::StaticOutput {
                outpoint: *outpoint,
                output: output.clone(),
            },
            SpendableOutputDescriptor::DynamicOutputP2WSH {
                outpoint,
                per_commitment_point,
                to_self_delay,
                output,
                key_derivation_params,
                remote_revocation_pubkey,
            } => SpendableOutputDescriptor::DynamicOutputP2WSH {
                outpoint: *outpoint,
                per_commitment_point: *per_commitment_point,
                to_self_delay: *to_self_delay,
                output: output.clone(),
                key_derivation_params: (key_derivation_params.0, key_derivation_params.1),
                remote_revocation_pubkey: *remote_revocation_pubkey,
            },
            SpendableOutputDescriptor::StaticOutputRemotePayment { outpoint, output, key_derivation_params } => {
                SpendableOutputDescriptor::StaticOutputRemotePayment {
                    outpoint: *outpoint,
                    output: output.clone(),
                    key_derivation_params: (key_derivation_params.0, key_derivation_params.1),
                }
            },
        }
    }
}

pub enum DescriptorView {
    StaticOutput { outpoint: OutpointView, output: TxOutputView },
    DynamicOutputP2WSH {
        outpoint: OutpointView,
        per_commitment_point: Seq<u8>,
        to_self_delay: u16,
        output: TxOutputView,
        key_derivation_params: (u64, u64),
        remote_revocation_pubkey: Seq<u8>,
    },
    StaticOutputRemotePayment { outpoint: OutpointView, output: TxOutputView, key_derivation_params: (u64, u64) },
}

impl View for SpendableOutputDescriptor {
    type V = DescriptorView;

    open spec fn view(&self) -> DescriptorView {
        match *self {
            SpendableOutputDescriptor::StaticOutput { outpoint, output } => DescriptorView::StaticOutput {
                outpoint: outpoint@,
                output: output@,
            },
            SpendableOutputDescriptor::DynamicOutputP2WSH {
                outpoint,
                per_commitment_point,
                to_self_delay,
                output,
                key_derivation_params,
                remote_revocation_pubkey,
            } => DescriptorView::DynamicOutputP2WSH {
                outpoint: outpoint@,
                per_commitment_point: per_commitment_point@,
                to_self_delay,
                output: output@,
                key_derivation_params,
                remote_revocation_pubkey: remote_revocation_pubkey@,
            },
            SpendableOutputDescriptor::StaticOutputRemotePayment { outpoint, output, key_derivation_params } => {
                DescriptorView::StaticOutputRemotePayment {
                    outpoint: outpoint@,
                    output: output@,
                    key_derivation_params,
                }
            },
        }
    }
}

/// The binary form of a descriptor: a tag, then its fields in order,
/// integers big-endian, outpoint and output in their consensus encodings.
pub open spec fn descriptor_bytes(d: DescriptorView) -> Seq<u8> {
    match d {
        DescriptorView::StaticOutput { outpoint, output } => seq![0u8] + outpoint_bytes(outpoint)
            + txout_bytes(output),
        DescriptorView::DynamicOutputP2WSH {
            outpoint,
            per_commitment_point,
            to_self_delay,
            output,
            key_derivation_params,
            remote_revocation_pubkey,
        } => seq![1u8] + outpoint_bytes(outpoint) + per_commitment_point + be16(to_self_delay)
            + txout_bytes(output) + be64(key_derivation_params.0) + be64(key_derivation_params.1)
            + remote_revocation_pubkey,
        DescriptorView::StaticOutputRemotePayment { outpoint, output, key_derivation_params } =>
            seq![2u8] + outpoint_bytes(outpoint) + txout_bytes(output) + be64(key_derivation_params.0)
            + be64(key_derivation_params.1),
    }
}

/// The values a descriptor may hold and still read back: keys that are
/// curve points and an output script the consensus decoder accepts.
pub open spec fn descriptor_valid(d: DescriptorView) -> bool {
    match d {
        DescriptorView::StaticOutput { outpoint, output } => outpoint.txid.len() == 32
            && output.script_pubkey.len() <= MAX_VEC_SIZE,
        DescriptorView::DynamicOutputP2WSH { outpoint, per_commitment_point, output, remote_revocation_pubkey, .. } => {
            &&& outpoint.txid.len() == 32
            &&& output.script_pubkey.len() <= MAX_VEC_SIZE
            &&& per_commitment_point.len() == 33
            &&& pubkey_valid(per_commitment_point)
            &&& remote_revocation_pubkey.len() == 33
            &&& pubkey_valid(remote_revocation_pubkey)
        },
        DescriptorView::StaticOutputRemotePayment { outpoint, output, .. } => outpoint.txid.len() == 32
            && output.script_pubkey.len() <= MAX_VEC_SIZE,
    }
}

pub open spec fn parse_static_output(s: Seq<u8>, at0: int) -> Result<(DescriptorView, int), DecodeError> {
    match parse_outpoint_at(s, at0) {
        Err(e) => Err(e),
        Ok((outpoint, at1)) => match parse_txout_at(s, at1) {
            Err(e) => Err(e),
            Ok((output, at2)) => Ok((DescriptorView::StaticOutput { outpoint, output }, at2)),
        },
    }
}

/// The fields of a CSV-delayed output after its output: the derivation
/// parameters and the revocation key.
pub open spec fn parse_dynamic_tail(
    s: Seq<u8>,
    at4: int,
    outpoint: OutpointView,
    per_commitment_point: Seq<u8>,
    to_self_delay: u16,
    output: TxOutputView,
) -> Result<(DescriptorView, int), DecodeError> {
    match parse_be64_at(s, at4) {
        Err(e) => Err(e),
        Ok((params_1, at5)) => match parse_be64_at(s, at5) {
            Err(e) => Err(e),
            Ok((params_2, at6)) => match parse_pubkey_at(s, at6) {
                Err(e) => Err(e),
                Ok((remote_revocation_pubkey, at7)) => Ok((
                    DescriptorView::DynamicOutputP2WSH {
                        outpoint,
                        per_commitment_point,
                        to_self_delay,
                        output,
                        key_derivation_params: (params_1, params_2),
                        remote_revocation_pubkey,
                    },
                    at7,
                )),
            },
        },
    }
}

pub open spec fn parse_dynamic_output(s: Seq<u8>, at0: int) -> Result<(DescriptorView, int), DecodeError> {
    match parse_outpoint_at(s, at0) {
        Err(e) => Err(e),
        Ok((outpoint, at1)) => match parse_pubkey_at(s, at1) {
            Err(e) => Err(e),
            Ok((per_commitment_point, at2)) => match parse_be16_at(s, at2) {
                Err(e) => Err(e),
                Ok((to_self_delay, at3)) => match parse_txout_at(s, at3) {
                    Err(e) => Err(e),
                    Ok((output, at4)) => parse_dynamic_tail(s, at4, outpoint, per_commitment_point, to_self_delay, output),
                },
            },
        },
    }
}

pub open spec fn parse_remote_payment(s: Seq<u8>, at0: int) -> Result<(DescriptorView, int), DecodeError> {
    match parse_outpoint_at(s, at0) {
        Err(e) => Err(e),
        Ok((outpoint, at1)) => match parse_txout_at(s, at1) {
            Err(e) => Err(e),
            Ok((output, at2)) => match parse_be64_at(s, at2) {
                Err(e) => Err(e),
                Ok((params_1, at3)) => match parse_be64_at(s, at3) {
                    Err(e) => Err(e),
                    Ok((params_2, at4)) => Ok((
                        DescriptorView::StaticOutputRemotePayment {
                            outpoint,
                            output,
                            key_derivation_params: (params_1, params_2),
                        },
                        at4,
                    )),
                },
            },
        },
    }
}

/// Reads a descriptor at the start of `s`: the descriptor and how many bytes
/// it took.
pub open spec fn parse_descriptor(s: Seq<u8>) -> Result<(DescriptorView, int), DecodeError> {
    match parse_u8_at(s, 0) {
        Err(e) => Err(e),
        Ok((tag, at0)) => if tag == 0 {
            parse_static_output(s, at0)
        } else if tag == 1 {
            parse_dynamic_output(s, at0)
        } else if tag == 2 {
            parse_remote_payment(s, at0)
        } else {
            Err(DecodeError::InvalidValue)
        },
    }
}

impl SpendableOutputDescriptor {
    /// Appends the binary form of this descriptor.
    pub fn write(&self, out: &mut Vec<u8>)
        ensures
            final(out)@ == old(out)@ + descriptor_bytes(self@),
    {
        let ghost start = out@;
        match self {
            SpendableOutputDescriptor::StaticOutput { outpoint, output } => {
                out.push(0u8);
                push_all(out, encode_outpoint(outpoint).as_slice());
                push_all(out, encode_txout(output).as_slice());
            },
            SpendableOutputDescriptor::DynamicOutputP2WSH {
                outpoint,
                per_commitment_point,
                to_self_delay,
                output,
                key_derivation_params,
                remote_revocation_pubkey,
            } => {
                out.push(1u8);
                push_all(out, encode_outpoint(outpoint).as_slice());
                push_all(out, per_commitment_point);
                push_be16(out, *to_self_delay);
                push_all(out, encode_txout(output).as_slice());
                push_be64(out, key_derivation_params.0);
                push_be64(out, key_derivation_params.1);
                push_all(out, remote_revocation_pubkey);
            },
            SpendableOutputDescriptor::StaticOutputRemotePayment { outpoint, output, key_derivation_params } => {
                out.push(2u8);
                push_all(out, encode_outpoint(outpoint).as_slice());
                push_all(out, encode_txout(output).as_slice());
                push_be64(out, key_derivation_params.0);
                push_be64(out, key_derivation_params.1);
            },
        }
        assert(out@ =~= start + descriptor_bytes(self@));
    }

    /// The binary form of this descriptor.
    pub fn encode(&self) -> (r: Vec<u8>)
        ensures
            r@ == descriptor_bytes(self@),
    {
        let mut out: Vec<u8> = Vec::new();
        self.write(&mut out);
        assert(out@ =~= descriptor_bytes(self@));
        out
    }

    /// Reads a descriptor at the start of `data`: the descriptor and the
    /// number of bytes it took. An unknown tag, a key that is no curve point
    /// or an output the consensus decoder refuses is an invalid value; bytes
    /// that end inside a fixed-size field are a short read.
    pub fn read(data: &[u8]) -> (r: Result<(SpendableOutputDescriptor, usize), DecodeError>)
        ensures
            match parse_descriptor(data@) {
                Ok((v, n)) => r matches Ok((d, m)) && d@ == v && m == n,
                Err(e) => r matches Err(f) && f == e,
            },
    {
        let (tag, at0) = match read_u8(data, 0) {
            Ok(x) => x,
            Err(e) => return Err(e),
        };
        if tag == 0 {
            Self::read_static_output(data, at0)
        } else if tag == 1 {
            Self::read_dynamic_output(data, at0)
        } else if tag == 2 {
            Self::read_remote_payment(data, at0)
        } else {
            Err(DecodeError::InvalidValue)
        }
    }

    fn read_static_output(data: &[u8], at0: usize) -> (r: Result<(SpendableOutputDescriptor, usize), DecodeError>)
        requires
            at0 <= data@.len(),
        ensures
            match parse_static_output(data@, at0 as int) {
                Ok((v, n)) => r matches Ok((d, m)) && d@ == v && m == n,
                Err(e) => r matches Err(f) && f == e,
            },
    {
        let (outpoint, at1) = match read_outpoint_at(data, at0) {
            Ok(x) => x,
            Err(e) => return Err(e),
        };
        let (output, at2) = match read_txout_at(data, at1) {
            Ok(x) => x,
            Err(e) => return Err(e),
        };
        Ok((SpendableOutputDescriptor::StaticOutput { outpoint, output }, at2))
    }

    #[verifier::rlimit(40)]
    fn read_dynamic_output(data: &[u8], at0: usize) -> (r: Result<(SpendableOutputDescriptor, usize), DecodeError>)
        requires
            at0 <= data@.len(),
        ensures
            match parse_dynamic_output(data@, at0 as int) {
                Ok((v, n)) => r matches Ok((d, m)) && d@ == v && m == n,
                Err(e) => r matches Err(f) && f == e,
            },
    {
        let (outpoint, at1) = match read_outpoint_at(data, at0) {
            Ok(x) => x,
            Err(e) => return Err(e),
        };
        let (per_commitment_point, at2) = match read_pubkey_at(data, at1) {
            Ok(x) => x,
            Err(e) => return Err(e),
        };
        let (to_self_delay, at3) = match read_be16_at(data, at2) {
            Ok(x) => x,
            Err(e) => return Err(e),
        };
        let (output, at4) = match read_txout_at(data, at3) {
            Ok(x) => x,
            Err(e) => return Err(e),
        };
        Self::read_dynamic_tail(data, at4, outpoint, per_commitment_point, to_self_delay, output)
    }

    #[verifier::rlimit(40)]
    fn read_dynamic_tail(
        data: &[u8],
        at4: usize,
        outpoint: Outpoint,
        per_commitment_point: [u8; 33],
        to_self_delay: u16,
        output: TxOutput,
    ) -> (r: Result<(SpendableOutputDescriptor, usize), DecodeError>)
        ensures
            match parse_dynamic_tail(data@, at4 as int, outpoint@, per_commitment_point@, to_self_delay, output@) {
                Ok((v, n)) => r matches Ok((d, m)) && d@ == v && m == n,
                Err(e) => r matches Err(f) && f == e,
            },
    {
        let (params_1, at5) = match read_be64_at(data, at4) {
            Ok(x) => x,
            Err(e) => return Err(e),
        };
        let (params_2, at6) = match read_be64_at(data, at5) {
            Ok(x) => x,
            Err(e) => return Err(e),
        };
        let (remote_revocation_pubkey, at7) = match read_pubkey_at(data, at6) {
            Ok(x) => x,
            Err(e) => return Err(e),
        };
        Ok((
            SpendableOutputDescriptor::DynamicOutputP2WSH {
                outpoint,
                per_commitment_point,
                to_self_delay,
                output,
                key_derivation_params: (params_1, params_2),
                remote_revocation_pubkey,
            },
            at7,
        ))
    }

    fn read_remote_payment(data: &[u8], at0: usize) -> (r: Result<(SpendableOutputDescriptor, usize), DecodeError>)
        requires
            at0 <= data@.len(),
        ensures
            match parse_remote_payment(data@, at0 as int) {
                Ok((v, n)) => r matches Ok((d, m)) && d@ == v && m == n,
                Err(e) => r matches Err(f) && f == e,
            },
    {
        let (outpoint, at1) = match read_outpoint_at(data, at0) {
            Ok(x) => x,
            Err(e) => return Err(e),
        };
        let (output, at2) = match read_txout_at(data, at1) {
            Ok(x) => x,
            Err(e) => return Err(e),
        };
        let (params_1, at3) = match read_be64_at(data, at2) {
            Ok(x) => x,
            Err(e) => return Err(e),
        };
        let (params_2, at4) = match read_be64_at(data, at3) {
            Ok(x) => x,
            Err(e) => return Err(e),
        };
        Ok((
            SpendableOutputDescriptor::StaticOutputRemotePayment {
                outpoint,
                output,
                key_derivation_params: (params_1, params_2),
            },
            at4,
        ))
    }
}

#[verifier::rlimit(40)]
proof fn lemma_static_output_round_trip(d: DescriptorView, rest: Seq<u8>)
    requires
        descriptor_valid(d),
        d is StaticOutput,
    ensures
        parse_static_output(descriptor_bytes(d) + rest, 1) == Ok::<(DescriptorView, int), DecodeError>(
            (d, descriptor_bytes(d).len() as int),
        ),
{
    let s = descriptor_bytes(d) + rest;
    match d {
        DescriptorView::StaticOutput { outpoint, output } => {
        let tb = txout_bytes(output);
        assert(s.subrange(1, 37) =~= outpoint_bytes(outpoint));
        lemma_outpoint_at(s, 1, outpoint);
        assert(s.subrange(37, 37 + tb.len() as int) =~= tb);
        lemma_txout_at(s, 37, output);
        },
        _ => {},
    }
}

#[verifier::rlimit(40)]
proof fn lemma_dynamic_tail_round_trip(d: DescriptorView, rest: Seq<u8>)
    requires
        descriptor_valid(d),
        d is DynamicOutputP2WSH,
    ensures
        ({
            let s = descriptor_bytes(d) + rest;
            match d {
                DescriptorView::DynamicOutputP2WSH { outpoint, per_commitment_point, to_self_delay, output, .. } =>
                    parse_dynamic_tail(s, 72 + txout_bytes(output).len() as int, outpoint, per_commitment_point, to_self_delay, output)
                        == Ok::<(DescriptorView, int), DecodeError>((d, descriptor_bytes(d).len() as int)),
                _ => true,
            }
        }),
{
    let s = descriptor_bytes(d) + rest;
    match d {
        DescriptorView::DynamicOutputP2WSH { outpoint, per_commitment_point, to_self_delay, output, key_derivation_params, remote_revocation_pubkey } => {
            let at4: int = 72 + txout_bytes(output).len() as int;
            assert(s.subrange(at4, at4 + 8) =~= be64(key_derivation_params.0));
            lemma_be64_at(s, at4, key_derivation_params.0);
            assert(s.subrange(at4 + 8, at4 + 16) =~= be64(key_derivation_params.1));
            lemma_be64_at(s, at4 + 8, key_derivation_params.1);
            assert(s.subrange(at4 + 16, at4 + 49) =~= remote_revocation_pubkey);
        },
        _ => {},
    }
}

#[verifier::rlimit(40)]
proof fn lemma_dynamic_output_round_trip(d: DescriptorView, rest: Seq<u8>)
    requires
        descriptor_valid(d),
        d is DynamicOutputP2WSH,
    ensures
        parse_dynamic_output(descriptor_bytes(d) + rest, 1) == Ok::<(DescriptorView, int), DecodeError>(
            (d, descriptor_bytes(d).len() as int),
        ),
{
    let s = descriptor_bytes(d) + rest;
    match d {
        DescriptorView::DynamicOutputP2WSH { outpoint, per_commitment_point, to_self_delay, output, .. } => {
            let tb = txout_bytes(output);
            let at4: int = 72 + tb.len() as int;
            assert(s.subrange(1, 37) =~= outpoint_bytes(outpoint));
            lemma_outpoint_at(s, 1, outpoint);
            assert(s.subrange(37, 70) =~= per_commitment_point);
            assert(s.subrange(70, 72) =~= be16(to_self_delay));
            lemma_be16_at(s, 70, to_self_delay);
            assert(s.subrange(72, at4) =~= tb);
            lemma_txout_at(s, 72, output);
            lemma_dynamic_tail_round_trip(d, rest);
        },
        _ => {},
    }
}

#[verifier::rlimit(40)]
proof fn lemma_remote_payment_round_trip(d: DescriptorView, rest: Seq<u8>)
    requires
        descriptor_valid(d),
        d is StaticOutputRemotePayment,
    ensures
        parse_remote_payment(descriptor_bytes(d) + rest, 1) == Ok::<(DescriptorView, int), DecodeError>(
            (d, descriptor_bytes(d).len() as int),
        ),
{
    let s = descriptor_bytes(d) + rest;
    match d {
        DescriptorView::StaticOutputRemotePayment { outpoint, output, key_derivation_params } => {
        let tb = txout_bytes(output);
        let at2: int = 37 + tb.len() as int;
        assert(s.subrange(1, 37) =~= outpoint_bytes(outpoint));
        lemma_outpoint_at(s, 1, outpoint);
        assert(s.subrange(37, at2) =~= tb);
        lemma_txout_at(s, 37, output);
        assert(s.subrange(at2, at2 + 8) =~= be64(key_derivation_params.0));
        lemma_be64_at(s, at2, key_derivation_params.0);
        assert(s.subrange(at2 + 8, at2 + 16) =~= be64(key_derivation_params.1));
        lemma_be64_at(s, at2 + 8, key_derivation_params.1);
        },
        _ => {},
    }
}

/// A valid descriptor reads back from its binary form, whatever follows it,
/// taking exactly the bytes of that form.
pub proof fn lemma_descriptor_round_trip(d: DescriptorView, rest: Seq<u8>)
    requires
        descriptor_valid(d),
    ensures
        parse_descriptor(descriptor_bytes(d) + rest) == Ok::<(DescriptorView, int), DecodeError>(
            (d, descriptor_bytes(d).len() as int),
        ),
{
    let s = descriptor_bytes(d) + rest;
    match d {
        DescriptorView::StaticOutput { .. } => {
            lemma_u8_at(s, 0, 0u8);
            lemma_static_output_round_trip(d, rest);
        },
        DescriptorView::DynamicOutputP2WSH { .. } => {
            lemma_u8_at(s, 0, 1u8);
            lemma_dynamic_output_round_trip(d, rest);
        },
        DescriptorView::StaticOutputRemotePayment { .. } => {
            lemma_u8_at(s, 0, 2u8);
            lemma_remote_payment_round_trip(d, rest);
        },
    }
}

} // verus!
