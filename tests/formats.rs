use keysinterface::codec::DecodeError;
use keysinterface::crypto::public_key;
use keysinterface::descriptor::SpendableOutputDescriptor;
use keysinterface::signer::{ChannelPublicKeys, InMemoryChannelKeys};
use keysinterface::tx::{encode_outpoint, encode_txout, Outpoint, TxOutput};

fn secret(b: u8) -> [u8; 32] {
    let mut s = [0u8; 32];
    s[31] = b;
    s[0] = 0x22;
    s
}

fn outpoint() -> Outpoint {
    Outpoint { txid: [0xAB; 32], vout: 0x0102_0304 }
}

fn output() -> TxOutput {
    TxOutput { value: 0x1122_3344_5566_7788, script_pubkey: vec![0x00, 0x20, 1, 2, 3] }
}

fn dynamic(delay: u16) -> SpendableOutputDescriptor {
    SpendableOutputDescriptor::DynamicOutputP2WSH {
        outpoint: outpoint(),
        per_commitment_point: public_key(&secret(1)),
        to_self_delay: delay,
        output: output(),
        key_derivation_params: (0x0000_0002_0000_0007, 99),
        remote_revocation_pubkey: public_key(&secret(2)),
    }
}

#[test]
fn consensus_encodings_of_outpoint_and_output() {
    let o = encode_outpoint(&outpoint());
    assert_eq!(o.len(), 36);
    assert_eq!(&o[32..], &[0x04, 0x03, 0x02, 0x01]);
    let t = encode_txout(&output());
    assert_eq!(&t[..8], &[0x88, 0x77, 0x66, 0x55, 0x44, 0x33, 0x22, 0x11]);
    assert_eq!(t[8], 5);
    assert_eq!(&t[9..], &[0x00, 0x20, 1, 2, 3]);
    let long = TxOutput { value: 1, script_pubkey: vec![7u8; 300] };
    let e = encode_txout(&long);
    assert_eq!(&e[8..11], &[0xFD, 0x2C, 0x01]);
    assert_eq!(e.len(), 8 + 3 + 300);
}

#[test]
fn dynamic_descriptor_round_trip_is_byte_identical() {
    let d = dynamic(144);
    let bytes = d.encode();
    assert_eq!(bytes[0], 1);
    assert_eq!(&bytes[70..72], &[0x00, 0x90]);
    assert_eq!(bytes.len(), 1 + 36 + 33 + 2 + 14 + 8 + 8 + 33);
    let (back, used) = SpendableOutputDescriptor::read(&bytes).unwrap();
    assert_eq!(used, bytes.len());
    assert_eq!(back, d);
    assert_eq!(back.encode(), bytes);
}

#[test]
fn static_descriptors_round_trip() {
    let a = SpendableOutputDescriptor::StaticOutput { outpoint: outpoint(), output: output() };
    let b = SpendableOutputDescriptor::StaticOutputRemotePayment {
        outpoint: outpoint(),
        output: output(),
        key_derivation_params: (1, 2),
    };
    for d in [a, b] {
        let mut bytes = d.encode();
        let n = bytes.len();
        bytes.extend_from_slice(&[0xEE, 0xEE]);
        let (back, used) = SpendableOutputDescriptor::read(&bytes).unwrap();
        assert_eq!(used, n);
        assert_eq!(back, d);
    }
    let b_bytes = SpendableOutputDescriptor::StaticOutputRemotePayment {
        outpoint: outpoint(),
        output: output(),
        key_derivation_params: (1, 2),
    }
    .encode();
    assert_eq!(b_bytes[0], 2);
    assert_eq!(&b_bytes[b_bytes.len() - 16..], &[0, 0, 0, 0, 0, 0, 0, 1, 0, 0, 0, 0, 0, 0, 0, 2]);
}

#[test]
fn descriptor_decode_errors() {
    assert_eq!(SpendableOutputDescriptor::read(&[]), Err(DecodeError::ShortRead));
    assert_eq!(SpendableOutputDescriptor::read(&[3u8, 0, 0]), Err(DecodeError::InvalidValue));
    let bytes = dynamic(6).encode();
    assert_eq!(SpendableOutputDescriptor::read(&bytes[..50]), Err(DecodeError::ShortRead));
    assert_eq!(SpendableOutputDescriptor::read(&bytes[..bytes.len() - 1]), Err(DecodeError::ShortRead));
    let mut bad_point = bytes.clone();
    bad_point[37] = 0x07;
    assert_eq!(SpendableOutputDescriptor::read(&bad_point), Err(DecodeError::InvalidValue));
    let mut bad_output = bytes.clone();
    bad_output[80] = 0xFD;
    bad_output[81] = 0x05;
    bad_output[82] = 0x00;
    assert_eq!(SpendableOutputDescriptor::read(&bad_output), Err(DecodeError::InvalidValue));
}

fn signer() -> InMemoryChannelKeys {
    InMemoryChannelKeys::new(secret(1), secret(2), secret(3), secret(4), secret(5), [9u8; 32], 77, (8, 9))
}

#[test]
fn signer_round_trip_without_remote_keys() {
    let k = signer();
    let bytes = k.encode();
    assert_eq!(bytes.len(), 6 * 32 + 1 + 24);
    assert_eq!(bytes[192], 0);
    let (back, used) = InMemoryChannelKeys::read(&bytes).unwrap();
    assert_eq!(used, bytes.len());
    assert_eq!(back.encode(), bytes);
    assert_eq!(back.pubkeys(), k.pubkeys());
    assert_eq!(back.key_derivation_params(), (8, 9));
    assert_eq!(back.channel_value_satoshis(), 77);
}

#[test]
fn signer_round_trip_with_remote_keys() {
    let mut k = signer();
    let remote = ChannelPublicKeys {
        funding_pubkey: public_key(&secret(11)),
        revocation_basepoint: public_key(&secret(12)),
        payment_point: public_key(&secret(13)),
        delayed_payment_basepoint: public_key(&secret(14)),
        htlc_basepoint: public_key(&secret(15)),
    };
    k.set_remote_channel_pubkeys(&remote).unwrap();
    assert_eq!(k.set_remote_channel_pubkeys(&remote), Err(()));
    let bytes = k.encode();
    assert_eq!(bytes.len(), 6 * 32 + 1 + 5 * 33 + 24);
    assert_eq!(bytes[192], 1);
    let (back, _) = InMemoryChannelKeys::read(&bytes).unwrap();
    assert_eq!(back.remote_pubkeys(), Some(remote));
    assert_eq!(back.pubkeys(), k.pubkeys());
    assert_eq!(back.encode(), bytes);
}

#[test]
fn signer_decode_errors() {
    let bytes = signer().encode();
    let mut bad_tag = bytes.clone();
    bad_tag[192] = 2;
    assert!(matches!(InMemoryChannelKeys::read(&bad_tag), Err(DecodeError::InvalidValue)));
    let mut zero_secret = bytes.clone();
    for b in &mut zero_secret[32..64] {
        *b = 0;
    }
    assert!(matches!(InMemoryChannelKeys::read(&zero_secret), Err(DecodeError::InvalidValue)));
    assert!(matches!(InMemoryChannelKeys::read(&bytes[..100]), Err(DecodeError::ShortRead)));
    assert!(matches!(InMemoryChannelKeys::read(&bytes[..bytes.len() - 3]), Err(DecodeError::ShortRead)));
}

