//! Reading the fields of this library's binary formats at a position, each
//! step stated over the bytes, with the facts that make encoded fields read
//! back.

use vstd::prelude::*;

use crate::bytes::{be16, be16_value, be64, be64_value, lemma_be16_round_trip, lemma_be64_round_trip, read_array, read_be16, read_be64};
use crate::crypto::{is_valid_pubkey, is_valid_secret, pubkey_valid, scalar_in_range};
use crate::tx::{
    decode_outpoint, decode_txout, lemma_outpoint_round_trip, lemma_txout_round_trip,
    outpoint_bytes, parse_outpoint, parse_txout, txout_bytes, Outpoint, OutpointView, TxOutput,
    TxOutputView, MAX_VEC_SIZE,
};

verus! {

/// Why bytes do not decode.
#[derive(Clone, Copy, Debug, PartialEq, Eq)]
pub enum DecodeError {
    /// A field or tag holds a value that is not allowed.
    InvalidValue,
    /// The bytes end before a fixed-size field does.
    ShortRead,
}

/// A field read at a position: its value and the position after it.
pub type Step<T> = Result<(T, int), DecodeError>;

pub open spec fn parse_u8_at(s: Seq<u8>, pos: int) -> Step<u8> {
    if pos + 1 > s.len() { Err(DecodeError::ShortRead) } else { Ok((s[pos], pos + 1)) }
}

pub open spec fn parse_be16_at(s: Seq<u8>, pos: int) -> Step<u16> {
    if pos + 2 > s.len() {
        Err(DecodeError::ShortRead)
    } else {
        Ok((be16_value(s.subrange(pos, pos + 2)), pos + 2))
    }
}

pub open spec fn parse_be64_at(s: Seq<u8>, pos: int) -> Step<u64> {
    if pos + 8 > s.len() {
        Err(DecodeError::ShortRead)
    } else {
        Ok((be64_value(s.subrange(pos, pos + 8)), pos + 8))
    }
}

pub open spec fn parse_bytes32_at(s: Seq<u8>, pos: int) -> Step<Seq<u8>> {
    if pos + 32 > s.len() { Err(DecodeError::ShortRead) } else { Ok((s.subrange(pos, pos + 32), pos + 32)) }
}

/// A secret key: 32 bytes that must be a valid scalar.
pub open spec fn parse_secret_at(s: Seq<u8>, pos: int) -> Step<Seq<u8>> {
    if pos + 32 > s.len() {
        Err(DecodeError::ShortRead)
    } else if !scalar_in_range(s.subrange(pos, pos + 32)) {
        Err(DecodeError::InvalidValue)
    } else {
        Ok((s.subrange(pos, pos + 32), pos + 32))
    }
}

/// A public key: 33 bytes that must encode a curve point.
pub open spec fn parse_pubkey_at(s: Seq<u8>, pos: int) -> Step<Seq<u8>> {
    if pos + 33 > s.len() {
        Err(DecodeError::ShortRead)
    } else if !pubkey_valid(s.subrange(pos, pos + 33)) {
        Err(DecodeError::InvalidValue)
    } else {
        Ok((s.subrange(pos, pos + 33), pos + 33))
    }
}

pub open spec fn parse_outpoint_at(s: Seq<u8>, pos: int) -> Step<OutpointView> {
    match parse_outpoint(s.subrange(pos, s.len() as int)) {
        Some((o, n)) => Ok((o, pos + n)),
        None => Err(DecodeError::ShortRead),
    }
}

/// An output; whatever the consensus decoder refuses is an invalid value.
pub open spec fn parse_txout_at(s: Seq<u8>, pos: int) -> Step<TxOutputView> {
    match parse_txout(s.subrange(pos, s.len() as int)) {
        Some((o, n)) => Ok((o, pos + n)),
        None => Err(DecodeError::InvalidValue),
    }
}

pub fn read_u8(data: &[u8], pos: usize) -> (r: Result<(u8, usize), DecodeError>)
    ensures
        match parse_u8_at(data@, pos as int) {
            Ok((v, p)) => r matches Ok((a, q)) && a == v && q == p,
            Err(e) => r matches Err(f) && f == e,
        },
{
    if pos >= data.len() {
        return Err(DecodeError::ShortRead);
    }
    Ok((data[pos], pos + 1))
}

pub fn read_be16_at(data: &[u8], pos: usize) -> (r: Result<(u16, usize), DecodeError>)
    ensures
        match parse_be16_at(data@, pos as int) {
            Ok((v, p)) => r matches Ok((a, q)) && a == v && q == p,
            Err(e) => r matches Err(f) && f == e,
        },
{
    let _len = data.len();
    match read_be16(data, pos) {
        Some(v) => Ok((v, pos + 2)),
        None => Err(DecodeError::ShortRead),
    }
}

pub fn read_be64_at(data: &[u8], pos: usize) -> (r: Result<(u64, usize), DecodeError>)
    ensures
        match parse_be64_at(data@, pos as int) {
            Ok((v, p)) => r matches Ok((a, q)) && a == v && q == p,
            Err(e) => r matches Err(f) && f == e,
        },
{
    let _len = data.len();
    match read_be64(data, pos) {
        Some(v) => Ok((v, pos + 8)),
        None => Err(DecodeError::ShortRead),
    }
}

pub fn read_bytes32_at(data: &[u8], pos: usize) -> (r: Result<([u8; 32], usize), DecodeError>)
    ensures
        match parse_bytes32_at(data@, pos as int) {
            Ok((v, p)) => r matches Ok((a, q)) && a@ == v && q == p,
            Err(e) => r matches Err(f) && f == e,
        },
{
    let _len = data.len();
    match read_array::<32>(data, pos) {
        Some(a) => Ok((a, pos + 32)),
        None => Err(DecodeError::ShortRead),
    }
}

pub fn read_secret_at(data: &[u8], pos: usize) -> (r: Result<([u8; 32], usize), DecodeError>)
    ensures
        match parse_secret_at(data@, pos as int) {
            Ok((v, p)) => r matches Ok((a, q)) && a@ == v && q == p,
            Err(e) => r matches Err(f) && f == e,
        },
{
    let _len = data.len();
    match read_array::<32>(data, pos) {
        Some(a) => if is_valid_secret(&a) {
            Ok((a, pos + 32))
        } else {
            Err(DecodeError::InvalidValue)
        },
        None => Err(DecodeError::ShortRead),
    }
}

pub fn read_pubkey_at(data: &[u8], pos: usize) -> (r: Result<([u8; 33], usize), DecodeError>)
    ensures
        match parse_pubkey_at(data@, pos as int) {
            Ok((v, p)) => r matches Ok((a, q)) && a@ == v && q == p,
            Err(e) => r matches Err(f) && f == e,
        },
{
    let _len = data.len();
    match read_array::<33>(data, pos) {
        Some(a) => if is_valid_pubkey(&a) {
            Ok((a, pos + 33))
        } else {
            Err(DecodeError::InvalidValue)
        },
        None => Err(DecodeError::ShortRead),
    }
}

pub fn read_outpoint_at(data: &[u8], pos: usize) -> (r: Result<(Outpoint, usize), DecodeError>)
    requires
        pos <= data@.len(),
    ensures
        match parse_outpoint_at(data@, pos as int) {
            Ok((v, p)) => r matches Ok((o, q)) && o@ == v && q == p,
            Err(e) => r matches Err(f) && f == e,
        },
{
    let _len = data.len();
    match decode_outpoint(data, pos) {
        Some((o, n)) => {
            assert(n == 36);
            Ok((o, pos + n))
        },
        None => Err(DecodeError::ShortRead),
    }
}

pub fn read_txout_at(data: &[u8], pos: usize) -> (r: Result<(TxOutput, usize), DecodeError>)
    requires
        pos <= data@.len(),
    ensures
        match parse_txout_at(data@, pos as int) {
            Ok((v, p)) => r matches Ok((o, q)) && o@ == v && q == p,
            Err(e) => r matches Err(f) && f == e,
        },
{
    let _len = data.len();
    match decode_txout(data, pos) {
        Some((o, n)) => {
            assert(n <= data@.len() - pos);
            Ok((o, pos + n))
        },
        None => Err(DecodeError::InvalidValue),
    }
}

pub proof fn lemma_u8_at(s: Seq<u8>, pos: int, b: u8)
    requires
        0 <= pos,
        pos + 1 <= s.len(),
        s[pos] == b,
    ensures
        parse_u8_at(s, pos) == Ok::<(u8, int), DecodeError>((b, pos + 1)),
{
}

pub proof fn lemma_be16_at(s: Seq<u8>, pos: int, x: u16)
    requires
        0 <= pos,
        pos + 2 <= s.len(),
        s.subrange(pos, pos + 2) == be16(x),
    ensures
        parse_be16_at(s, pos) == Ok::<(u16, int), DecodeError>((x, pos + 2)),
{
    lemma_be16_round_trip(x);
}

pub proof fn lemma_be64_at(s: Seq<u8>, pos: int, x: u64)
    requires
        0 <= pos,
        pos + 8 <= s.len(),
        s.subrange(pos, pos + 8) == be64(x),
    ensures
        parse_be64_at(s, pos) == Ok::<(u64, int), DecodeError>((x, pos + 8)),
{
    lemma_be64_round_trip(x);
}

pub proof fn lemma_outpoint_at(s: Seq<u8>, pos: int, o: OutpointView)
    requires
        0 <= pos,
        o.txid.len() == 32,
        pos + 36 <= s.len(),
        s.subrange(pos, pos + 36) == outpoint_bytes(o),
    ensures
        parse_outpoint_at(s, pos) == Ok::<(OutpointView, int), DecodeError>((o, pos + 36)),
{
    let rest = s.subrange(pos + 36, s.len() as int);
    assert(s.subrange(pos, s.len() as int) =~= outpoint_bytes(o) + rest);
    lemma_outpoint_round_trip(o, rest);
}

pub proof fn lemma_txout_at(s: Seq<u8>, pos: int, o: TxOutputView)
    requires
        0 <= pos,
        o.script_pubkey.len() <= MAX_VEC_SIZE,
        pos + txout_bytes(o).len() <= s.len(),
        s.subrange(pos, pos + txout_bytes(o).len()) == txout_bytes(o),
    ensures
        parse_txout_at(s, pos) == Ok::<(TxOutputView, int), DecodeError>((o, pos + txout_bytes(o).len())),
{
    let rest = s.subrange(pos + txout_bytes(o).len(), s.len() as int);
    assert(s.subrange(pos, s.len() as int) =~= txout_bytes(o) + rest);
    lemma_txout_round_trip(o, rest);
}

} // verus!
