use ln_offers::offer::{Amount, OfferBuilder, Quantity, MAX_VALUE_MSAT};
use ln_offers::types::{BlindedPath, Network, OfferFeatures, PublicKey};
use ln_offers::wire::encode_tlv_stream;

fn pubkey(byte: u8) -> PublicKey {
    let secp_ctx = bitcoin::secp256k1::Secp256k1::new();
    let secret = bitcoin::secp256k1::SecretKey::from_slice(&[byte; 32]).unwrap();
    let key = bitcoin::secp256k1::PublicKey::from_secret_key(&secp_ctx, &secret);
    PublicKey::from_bytes(key.serialize())
}

/// Minimal big-endian bytes of an integer: empty for zero, no leading zero
/// byte otherwise.
fn minimal_be(n: u64) -> Vec<u8> {
    let bytes = n.to_be_bytes();
    match bytes.iter().position(|&b| b != 0) {
        Some(i) => bytes[i..].to_vec(),
        None => Vec::new(),
    }
}

/// One expected record, for types and lengths below 128: the type byte, the
/// length byte unless the value is empty, then the value.
fn record(t: u8, value: &[u8]) -> Vec<u8> {
    let mut bytes = vec![t];
    if !value.is_empty() {
        bytes.push(value.len() as u8);
        bytes.extend_from_slice(value);
    }
    bytes
}

fn base_records(byte: u8) -> (Vec<u8>, Vec<u8>) {
    (record(10, b"foo"), record(22, pubkey(byte).as_bytes()))
}

#[test]
fn defaults_wire_form() {
    let offer = OfferBuilder::new("foo".into(), pubkey(42)).build().unwrap();
    let (description, node_id) = base_records(42);
    let expected: Vec<u8> = [description, node_id].concat();
    assert_eq!(offer.bytes().as_slice(), expected.as_slice());
}

#[test]
fn chains_wire_form() {
    let (description, node_id) = base_records(42);

    let offer = OfferBuilder::new("foo".into(), pubkey(42))
        .chain(Network::Bitcoin)
        .build()
        .unwrap();
    let expected: Vec<u8> = [description.clone(), node_id.clone()].concat();
    assert_eq!(offer.bytes().as_slice(), expected.as_slice());

    let testnet =
        bitcoin::blockdata::constants::ChainHash::using_genesis_block(
            bitcoin::network::constants::Network::Testnet,
        )
        .to_bytes();
    let offer = OfferBuilder::new("foo".into(), pubkey(42))
        .chain(Network::Testnet)
        .build()
        .unwrap();
    let expected: Vec<u8> = [record(2, &testnet), description, node_id].concat();
    assert_eq!(offer.bytes().as_slice(), expected.as_slice());
    assert_eq!(offer.chains()[0].as_bytes(), &testnet);
}

#[test]
fn amount_wire_form() {
    let (description, node_id) = base_records(42);

    let offer = OfferBuilder::new("foo".into(), pubkey(42))
        .amount_msats(1000)
        .build()
        .unwrap();
    let expected: Vec<u8> =
        [record(8, &minimal_be(1000)), description.clone(), node_id.clone()].concat();
    assert_eq!(offer.bytes().as_slice(), expected.as_slice());
    assert_eq!(minimal_be(1000), vec![3, 232]);

    let offer = OfferBuilder::new("foo".into(), pubkey(42))
        .amount_msats(0)
        .build()
        .unwrap();
    let expected: Vec<u8> = [record(8, &[]), description.clone(), node_id.clone()].concat();
    assert_eq!(offer.bytes().as_slice(), expected.as_slice());

    let offer = OfferBuilder::new("foo".into(), pubkey(42))
        .amount_msats(300)
        .build()
        .unwrap();
    let expected: Vec<u8> = [record(8, &[1, 44]), description, node_id].concat();
    assert_eq!(offer.bytes().as_slice(), expected.as_slice());
}

#[test]
fn amount_at_bound_succeeds() {
    let offer = OfferBuilder::new("foo".into(), pubkey(42))
        .amount_msats(MAX_VALUE_MSAT)
        .build()
        .unwrap();
    assert_eq!(offer.amount(), Some(&Amount::Bitcoin { amount_msats: MAX_VALUE_MSAT }));

    match OfferBuilder::new("foo".into(), pubkey(42)).amount_msats(MAX_VALUE_MSAT + 1).build() {
        Ok(_) => panic!("expected error"),
        Err(e) => assert_eq!(e, ()),
    }
}

#[test]
fn currency_wire_form() {
    let (description, node_id) = base_records(42);
    let builder = OfferBuilder::new("foo".into(), pubkey(42))
        .amount(Amount::Currency { iso4217_code: *b"USD", amount: 10 });
    let bytes = encode_tlv_stream(&builder.offer.as_tlv_stream());
    let expected: Vec<u8> =
        [record(6, b"USD"), record(8, &[10]), description, node_id].concat();
    assert_eq!(bytes.as_slice(), expected.as_slice());
}

#[test]
fn metadata_wire_form() {
    let (description, node_id) = base_records(42);
    let offer = OfferBuilder::new("foo".into(), pubkey(42))
        .metadata(vec![1, 2, 3])
        .build()
        .unwrap();
    let expected: Vec<u8> = [record(4, &[1, 2, 3]), description, node_id].concat();
    assert_eq!(offer.bytes().as_slice(), expected.as_slice());
}

#[test]
fn features_wire_form() {
    let (description, node_id) = base_records(42);
    let offer = OfferBuilder::new("foo".into(), pubkey(42))
        .features(OfferFeatures::from_flag_bytes(vec![32]))
        .build()
        .unwrap();
    let expected: Vec<u8> = [description, record(12, &[32]), node_id].concat();
    assert_eq!(offer.bytes().as_slice(), expected.as_slice());
}

#[test]
fn expiry_wire_form() {
    let (description, node_id) = base_records(42);

    let offer = OfferBuilder::new("foo".into(), pubkey(42))
        .absolute_expiry(0)
        .build()
        .unwrap();
    let expected: Vec<u8> = [description.clone(), record(14, &[]), node_id.clone()].concat();
    assert_eq!(offer.bytes().as_slice(), expected.as_slice());

    let offer = OfferBuilder::new("foo".into(), pubkey(42))
        .absolute_expiry(u64::MAX)
        .build()
        .unwrap();
    let expected: Vec<u8> = [description, record(14, &[255; 8]), node_id].concat();
    assert_eq!(offer.bytes().as_slice(), expected.as_slice());
}

#[test]
fn issuer_wire_form() {
    let (description, node_id) = base_records(42);
    let offer = OfferBuilder::new("foo".into(), pubkey(42))
        .issuer("bar".into())
        .build()
        .unwrap();
    let expected: Vec<u8> = [description, record(18, b"bar"), node_id].concat();
    assert_eq!(offer.bytes().as_slice(), expected.as_slice());
}

#[test]
fn quantity_wire_form() {
    let (description, node_id) = base_records(42);

    let offer = OfferBuilder::new("foo".into(), pubkey(42))
        .supported_quantity(Quantity::Unbounded)
        .build()
        .unwrap();
    let expected: Vec<u8> = [description.clone(), record(20, &[]), node_id.clone()].concat();
    assert_eq!(offer.bytes().as_slice(), expected.as_slice());

    let offer = OfferBuilder::new("foo".into(), pubkey(42))
        .supported_quantity(Quantity::Bounded(10))
        .build()
        .unwrap();
    let expected: Vec<u8> = [description.clone(), record(20, &[10]), node_id.clone()].concat();
    assert_eq!(offer.bytes().as_slice(), expected.as_slice());

    let offer = OfferBuilder::new("foo".into(), pubkey(42))
        .supported_quantity(Quantity::Bounded(10))
        .supported_quantity(Quantity::one())
        .build()
        .unwrap();
    let expected: Vec<u8> = [description, node_id].concat();
    assert_eq!(offer.bytes().as_slice(), expected.as_slice());
}

#[test]
fn paths_wire_form_no_dedup() {
    let (description, node_id) = base_records(42);
    let path = BlindedPath::from_bytes(vec![7, 7, 7]);
    let offer = OfferBuilder::new("foo".into(), pubkey(42))
        .path(path.clone())
        .path(path.clone())
        .build()
        .unwrap();
    assert_eq!(offer.paths(), vec![path.clone(), path]);
    let expected: Vec<u8> =
        [description, record(16, &[7, 7, 7, 7, 7, 7]), node_id].concat();
    assert_eq!(offer.bytes().as_slice(), expected.as_slice());
}

#[test]
fn encoding_is_deterministic() {
    let build = || {
        OfferBuilder::new("foo".into(), pubkey(42))
            .chain(Network::Testnet)
            .metadata(vec![9, 9])
            .amount_msats(500)
            .absolute_expiry(1000)
            .issuer("bar".into())
            .path(BlindedPath::from_bytes(vec![1, 2]))
            .supported_quantity(Quantity::Bounded(3))
            .build()
            .unwrap()
    };
    let first = build();
    let second = build();
    assert_eq!(first.bytes(), second.bytes());

    let stream = first.as_tlv_stream();
    assert_eq!(encode_tlv_stream(&stream), encode_tlv_stream(&stream));
    assert_eq!(encode_tlv_stream(&stream).as_slice(), first.bytes().as_slice());
}
