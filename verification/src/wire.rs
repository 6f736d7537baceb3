//! The offer's wire form: a fixed table of optional fields, serialized as a
//! TLV stream in ascending type order.
//!
//! [`OfferTlvStream`] holds each field already reduced to the value its
//! record carries; [`stream_bytes`] is the byte-exact specification of the
//! stream and [`encode_tlv_stream`] the verified encoder. A field that is
//! `None` emits no record at all.

use vstd::prelude::*;
use vstd::utf8::encode_utf8;
use vstd::slice::slice_to_vec;
use vstd::string::StrSliceExecFns;
use vstd::string::StringSliceAdditionalSpecFns;
use crate::tlv::{append_record, big_size, big_size_bytes, concat_all, opt_record, push_bytes};
use crate::types::{BlindedPath, ChainHash, OfferFeatures, PublicKey};

verus! {

/// Record type number of the supported-chains field.
pub const TLV_TYPE_CHAINS: u64 = 2;

/// Record type number of the metadata field.
pub const TLV_TYPE_METADATA: u64 = 4;

/// Record type number of the currency-code field.
pub const TLV_TYPE_CURRENCY: u64 = 6;

/// Record type number of the amount field.
pub const TLV_TYPE_AMOUNT: u64 = 8;

/// Record type number of the description field.
pub const TLV_TYPE_DESCRIPTION: u64 = 10;

/// Record type number of the features field.
pub const TLV_TYPE_FEATURES: u64 = 12;

/// Record type number of the absolute-expiry field.
pub const TLV_TYPE_ABSOLUTE_EXPIRY: u64 = 14;

/// Record type number of the paths field.
pub const TLV_TYPE_PATHS: u64 = 16;

/// Record type number of the issuer field.
pub const TLV_TYPE_ISSUER: u64 = 18;

/// Record type number of the quantity-max field.
pub const TLV_TYPE_QUANTITY_MAX: u64 = 20;

/// Record type number of the signing-key field.
pub const TLV_TYPE_NODE_ID: u64 = 22;

/// An ISO 4217 three-letter currency code (e.g., USD).
pub type CurrencyCode = [u8; 3];

/// The offer's statically-ordered field table, each field reduced to the
/// value its record carries. `None` means the field emits no record.
pub struct OfferTlvStream {
    /// Chain hashes, concatenated on the wire with no per-element length.
    pub chains: Option<Vec<ChainHash>>,
    /// Opaque originator bytes, emitted raw.
    pub metadata: Option<Vec<u8>>,
    /// Fixed 3-byte currency code; present only for currency amounts.
    pub currency: Option<CurrencyCode>,
    /// Amount in the minimal unit, emitted as a minimal big-endian integer.
    pub amount: Option<u64>,
    /// Description text, emitted as its UTF-8 bytes.
    pub description: Option<String>,
    /// Feature bitset, emitted as its own canonical encoding.
    pub features: Option<OfferFeatures>,
    /// Seconds since the epoch, emitted as a minimal big-endian integer.
    pub absolute_expiry: Option<u64>,
    /// Blinded paths, their canonical encodings concatenated.
    pub paths: Option<Vec<BlindedPath>>,
    /// Issuer text, emitted as its UTF-8 bytes.
    pub issuer: Option<String>,
    /// Maximum quantity, emitted as a minimal big-endian integer.
    pub quantity_max: Option<u64>,
    /// Signing key in its fixed-size compressed encoding.
    pub node_id: Option<PublicKey>,
}

/// The mathematical model of a stream: each field as the plain values it
/// carries.
pub ghost struct TlvStreamModel {
    /// Chain hashes, 32 bytes each.
    pub chains: Option<Seq<Seq<u8>>>,
    /// Opaque originator bytes.
    pub metadata: Option<Seq<u8>>,
    /// 3-byte currency code.
    pub currency: Option<Seq<u8>>,
    /// Amount in the minimal unit.
    pub amount: Option<u64>,
    /// Description text.
    pub description: Option<Seq<char>>,
    /// Canonical feature-bitset bytes.
    pub features: Option<Seq<u8>>,
    /// Seconds since the epoch.
    pub absolute_expiry: Option<u64>,
    /// Canonical blinded-path encodings.
    pub paths: Option<Seq<Seq<u8>>>,
    /// Issuer text.
    pub issuer: Option<Seq<char>>,
    /// Maximum quantity.
    pub quantity_max: Option<u64>,
    /// Compressed signing-key bytes, 33 of them.
    pub node_id: Option<Seq<u8>>,
}

/// The views of a sequence of byte-valued items.
pub open spec fn views_of<T: View<V = Seq<u8>>>(items: Seq<T>) -> Seq<Seq<u8>> {
    Seq::new(items.len(), |i: int| items[i]@)
}

impl View for OfferTlvStream {
    type V = TlvStreamModel;

    open spec fn view(&self) -> TlvStreamModel {
        TlvStreamModel {
            chains: match self.chains {
                Some(v) => Some(views_of(v@)),
                None => None,
            },
            metadata: match self.metadata {
                Some(v) => Some(v@),
                None => None,
            },
            currency: match self.currency {
                Some(c) => Some(c@),
                None => None,
            },
            amount: self.amount,
            description: match self.description {
                Some(s) => Some(s@),
                None => None,
            },
            features: match self.features {
                Some(f) => Some(f@),
                None => None,
            },
            absolute_expiry: self.absolute_expiry,
            paths: match self.paths {
                Some(v) => Some(views_of(v@)),
                None => None,
            },
            issuer: match self.issuer {
                Some(s) => Some(s@),
                None => None,
            },
            quantity_max: self.quantity_max,
            node_id: match self.node_id {
                Some(k) => Some(k@),
                None => None,
            },
        }
    }
}

/// The record value of an optional integer field: its minimal big-endian
/// bytes (zero encodes as the empty string).
pub open spec fn opt_big_size(v: Option<u64>) -> Option<Seq<u8>> {
    match v {
        Some(n) => Some(big_size(n as nat)),
        None => None,
    }
}

/// The record value of an optional list field: the concatenation of its
/// elements' bytes.
pub open spec fn opt_concat(v: Option<Seq<Seq<u8>>>) -> Option<Seq<u8>> {
    match v {
        Some(parts) => Some(concat_all(parts)),
        None => None,
    }
}

/// The record value of an optional text field: its UTF-8 bytes.
pub open spec fn opt_utf8(v: Option<Seq<char>>) -> Option<Seq<u8>> {
    match v {
        Some(s) => Some(encode_utf8(s)),
        None => None,
    }
}

/// The canonical bytes of a stream: the records of the present fields, in
/// ascending type order.
pub open spec fn stream_bytes(s: TlvStreamModel) -> Seq<u8> {
    opt_record(TLV_TYPE_CHAINS as nat, opt_concat(s.chains))
        + opt_record(TLV_TYPE_METADATA as nat, s.metadata)
        + opt_record(TLV_TYPE_CURRENCY as nat, s.currency)
        + opt_record(TLV_TYPE_AMOUNT as nat, opt_big_size(s.amount))
        + opt_record(TLV_TYPE_DESCRIPTION as nat, opt_utf8(s.description))
        + opt_record(TLV_TYPE_FEATURES as nat, s.features)
        + opt_record(TLV_TYPE_ABSOLUTE_EXPIRY as nat, opt_big_size(s.absolute_expiry))
        + opt_record(TLV_TYPE_PATHS as nat, opt_concat(s.paths))
        + opt_record(TLV_TYPE_ISSUER as nat, opt_utf8(s.issuer))
        + opt_record(TLV_TYPE_QUANTITY_MAX as nat, opt_big_size(s.quantity_max))
        + opt_record(TLV_TYPE_NODE_ID as nat, s.node_id)
}

/// Concatenates the chain hashes, with no per-element length: the outer
/// record's length bounds the list.
fn chains_value(chains: &Vec<ChainHash>) -> (r: Vec<u8>)
    ensures
        r@ == concat_all(views_of(chains@)),
{
    let ghost vs = views_of(chains@);
    let mut buf: Vec<u8> = Vec::new();
    let mut i: usize = 0;
    while i < chains.len()
        invariant
            i <= chains@.len(),
            vs == views_of(chains@),
            buf@ == concat_all(vs.take(i as int)),
        decreases chains@.len() - i,
    {
        push_bytes(&mut buf, chains[i].as_bytes().as_slice());
        i = i + 1;
        assert(vs.take(i as int).drop_last() =~= vs.take(i - 1));
        assert(buf@ == concat_all(vs.take(i as int)));
    }
    assert(vs.take(chains@.len() as int) =~= vs);
    buf
}

/// Concatenates the paths' canonical encodings.
fn paths_value(paths: &Vec<BlindedPath>) -> (r: Vec<u8>)
    ensures
        r@ == concat_all(views_of(paths@)),
{
    let ghost vs = views_of(paths@);
    let mut buf: Vec<u8> = Vec::new();
    let mut i: usize = 0;
    while i < paths.len()
        invariant
            i <= paths@.len(),
            vs == views_of(paths@),
            buf@ == concat_all(vs.take(i as int)),
        decreases paths@.len() - i,
    {
        push_bytes(&mut buf, paths[i].as_bytes().as_slice());
        i = i + 1;
        assert(vs.take(i as int).drop_last() =~= vs.take(i - 1));
        assert(buf@ == concat_all(vs.take(i as int)));
    }
    assert(vs.take(paths@.len() as int) =~= vs);
    buf
}

/// The UTF-8 bytes of a text field.
fn text_value(s: &String) -> (r: Vec<u8>)
    ensures
        r@ == encode_utf8(s@),
{
    s.as_str().as_bytes_vec()
}

/// Serializes the stream: one record per present field, in ascending type
/// order. The result is exactly [`stream_bytes`] of the stream's model, so
/// encoding the same fields always yields byte-identical output.
pub fn encode_tlv_stream(stream: &OfferTlvStream) -> (r: Vec<u8>)
    ensures
        r@ == stream_bytes(stream@),
{
    let ghost s = stream@;
    let ghost p2 = opt_record(TLV_TYPE_CHAINS as nat, opt_concat(s.chains));
    let ghost p4 = p2 + opt_record(TLV_TYPE_METADATA as nat, s.metadata);
    let ghost p6 = p4 + opt_record(TLV_TYPE_CURRENCY as nat, s.currency);
    let ghost p8 = p6 + opt_record(TLV_TYPE_AMOUNT as nat, opt_big_size(s.amount));
    let ghost p10 = p8 + opt_record(TLV_TYPE_DESCRIPTION as nat, opt_utf8(s.description));
    let ghost p12 = p10 + opt_record(TLV_TYPE_FEATURES as nat, s.features);
    let ghost p14 = p12 + opt_record(TLV_TYPE_ABSOLUTE_EXPIRY as nat, opt_big_size(s.absolute_expiry));
    let ghost p16 = p14 + opt_record(TLV_TYPE_PATHS as nat, opt_concat(s.paths));
    let ghost p18 = p16 + opt_record(TLV_TYPE_ISSUER as nat, opt_utf8(s.issuer));
    let ghost p20 = p18 + opt_record(TLV_TYPE_QUANTITY_MAX as nat, opt_big_size(s.quantity_max));
    let ghost p22 = p20 + opt_record(TLV_TYPE_NODE_ID as nat, s.node_id);

    let mut buf: Vec<u8> = Vec::new();
    if let Some(chains) = &stream.chains {
        let value = chains_value(chains);
        append_record(&mut buf, TLV_TYPE_CHAINS, &value);
    }
    assert(buf@ =~= p2);
    if let Some(metadata) = &stream.metadata {
        let value = slice_to_vec(metadata.as_slice());
        append_record(&mut buf, TLV_TYPE_METADATA, &value);
    }
    assert(buf@ =~= p4);
    if let Some(currency) = &stream.currency {
        let value = slice_to_vec(currency.as_slice());
        append_record(&mut buf, TLV_TYPE_CURRENCY, &value);
    }
    assert(buf@ =~= p6);
    if let Some(amount) = &stream.amount {
        let value = big_size_bytes(*amount);
        append_record(&mut buf, TLV_TYPE_AMOUNT, &value);
    }
    assert(buf@ =~= p8);
    if let Some(description) = &stream.description {
        let value = text_value(description);
        append_record(&mut buf, TLV_TYPE_DESCRIPTION, &value);
    }
    assert(buf@ =~= p10);
    if let Some(features) = &stream.features {
        let value = slice_to_vec(features.as_flag_bytes().as_slice());
        append_record(&mut buf, TLV_TYPE_FEATURES, &value);
    }
    assert(buf@ =~= p12);
    if let Some(absolute_expiry) = &stream.absolute_expiry {
        let value = big_size_bytes(*absolute_expiry);
        append_record(&mut buf, TLV_TYPE_ABSOLUTE_EXPIRY, &value);
    }
    assert(buf@ =~= p14);
    if let Some(paths) = &stream.paths {
        let value = paths_value(paths);
        append_record(&mut buf, TLV_TYPE_PATHS, &value);
    }
    assert(buf@ =~= p16);
    if let Some(issuer) = &stream.issuer {
        let value = text_value(issuer);
        append_record(&mut buf, TLV_TYPE_ISSUER, &value);
    }
    assert(buf@ =~= p18);
    if let Some(quantity_max) = &stream.quantity_max {
        let value = big_size_bytes(*quantity_max);
        append_record(&mut buf, TLV_TYPE_QUANTITY_MAX, &value);
    }
    assert(buf@ =~= p20);
    if let Some(node_id) = &stream.node_id {
        let value = slice_to_vec(node_id.as_bytes().as_slice());
        append_record(&mut buf, TLV_TYPE_NODE_ID, &value);
    }
    assert(buf@ =~= p22);
    assert(buf@ =~= stream_bytes(s));
    buf
}

} // verus!
