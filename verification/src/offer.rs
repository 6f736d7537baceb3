//! Building and freezing offers.
//!
//! An [`OfferBuilder`] accumulates the fields of an offer with per-field
//! override or append semantics, validates only at finalization, and then
//! freezes the result as an immutable [`Offer`]: the semantic contents
//! together with their canonical wire bytes, computed exactly once.

use vstd::prelude::*;
use vstd::slice::slice_to_vec;
use crate::types::{BlindedPath, ChainHash, Network, OfferFeatures, PrintableString, PublicKey, genesis_hash};
use crate::wire::{CurrencyCode, OfferTlvStream, TlvStreamModel, encode_tlv_stream, stream_bytes, views_of};

verus! {

/// The maximum payable amount in the minimal unit: 21 million whole units
/// expressed in the minor unit. A bitcoin-denominated amount above this
/// bound fails finalization.
pub const MAX_VALUE_MSAT: u64 = 2_100_000_000_000_000;

/// The minimum amount required for an item, denominated in either bitcoin
/// or another currency.
#[derive(Clone, Debug, PartialEq)]
pub enum Amount {
    /// An amount of bitcoin.
    Bitcoin {
        /// The amount in millisatoshi.
        amount_msats: u64,
    },
    /// An amount of currency specified using ISO 4217.
    Currency {
        /// The currency that the amount is denominated in.
        iso4217_code: CurrencyCode,
        /// The amount in the currency unit adjusted by the ISO 4217 exponent.
        amount: u64,
    },
}

/// Quantity of items supported by an offer.
#[derive(Clone, Copy, Debug, PartialEq)]
pub enum Quantity {
    /// Up to a specific number of items (inclusive); at least one.
    Bounded(u64),
    /// One or more items.
    Unbounded,
}

/// Whether a quantity is a value the builder hands out: a bound is at
/// least one.
pub open spec fn quantity_wf(q: Quantity) -> bool {
    match q {
        Quantity::Bounded(n) => n >= 1,
        Quantity::Unbounded => true,
    }
}

impl Quantity {
    /// The value its quantity-max record carries: omitted for the default
    /// bound of one, zero for no bound, the bound itself otherwise.
    pub open spec fn spec_to_tlv_record(self) -> Option<u64> {
        match self {
            Quantity::Bounded(n) => if n == 1 {
                None
            } else {
                Some(n)
            },
            Quantity::Unbounded => Some(0u64),
        }
    }

    /// The default quantity: exactly one item.
    pub fn one() -> (r: Self)
        ensures
            r == Quantity::Bounded(1u64),
    {
        Quantity::Bounded(1)
    }

    /// Reduces the quantity to the value its record carries, canonicalizing
    /// the default to an omitted record.
    pub fn to_tlv_record(&self) -> (r: Option<u64>)
        ensures
            r == self.spec_to_tlv_record(),
    {
        match self {
            Quantity::Bounded(n) => {
                if *n == 1 {
                    None
                } else {
                    Some(*n)
                }
            },
            Quantity::Unbounded => Some(0),
        }
    }
}

/// The mathematical model of an offer's contents: every field as the plain
/// values it holds.
#[verifier::ext_equal]
pub ghost struct OfferModel {
    /// Explicit chain hashes, in insertion order, or `None` for the implied
    /// default chain alone.
    pub chains: Option<Seq<Seq<u8>>>,
    /// Opaque originator bytes.
    pub metadata: Option<Seq<u8>>,
    /// The amount required for a single item.
    pub amount: Option<Amount>,
    /// The required description text.
    pub description: Seq<char>,
    /// Canonical feature-bitset bytes; empty is the distinguished default.
    pub features: Seq<u8>,
    /// Seconds since the epoch after which the offer is expired.
    pub absolute_expiry: Option<u64>,
    /// The issuer text.
    pub issuer: Option<Seq<char>>,
    /// Canonical blinded-path encodings, in insertion order.
    pub paths: Option<Seq<Seq<u8>>>,
    /// The quantity of items supported.
    pub supported_quantity: Quantity,
    /// Compressed signing-key bytes; always present once an offer exists.
    pub signing_pubkey: Option<Seq<u8>>,
}

/// The explicit chain list of a model, empty when none was set.
pub open spec fn chains_seq(m: OfferModel) -> Seq<Seq<u8>> {
    match m.chains {
        Some(c) => c,
        None => Seq::empty(),
    }
}

/// The path list of a model, empty when none was set.
pub open spec fn paths_seq(m: OfferModel) -> Seq<Seq<u8>> {
    match m.paths {
        Some(p) => p,
        None => Seq::empty(),
    }
}

/// The model after adding a chain hash: appended only if not already
/// present, insertion order preserved.
pub open spec fn add_chain(m: OfferModel, hash: Seq<u8>) -> OfferModel {
    let cur = chains_seq(m);
    if cur.contains(hash) {
        OfferModel { chains: Some(cur), ..m }
    } else {
        OfferModel { chains: Some(cur.push(hash)), ..m }
    }
}

/// The model after overriding the metadata.
pub open spec fn with_metadata(m: OfferModel, metadata: Seq<u8>) -> OfferModel {
    OfferModel { metadata: Some(metadata), ..m }
}

/// The model after overriding the amount.
pub open spec fn with_amount(m: OfferModel, amount: Amount) -> OfferModel {
    OfferModel { amount: Some(amount), ..m }
}

/// The model after overriding the features.
pub open spec fn with_features(m: OfferModel, features: Seq<u8>) -> OfferModel {
    OfferModel { features, ..m }
}

/// The model after overriding the absolute expiry.
pub open spec fn with_absolute_expiry(m: OfferModel, absolute_expiry: u64) -> OfferModel {
    OfferModel { absolute_expiry: Some(absolute_expiry), ..m }
}

/// The model after overriding the issuer.
pub open spec fn with_issuer(m: OfferModel, issuer: Seq<char>) -> OfferModel {
    OfferModel { issuer: Some(issuer), ..m }
}

/// The model after appending a path: always appended, never de-duplicated.
pub open spec fn add_path(m: OfferModel, path: Seq<u8>) -> OfferModel {
    OfferModel { paths: Some(paths_seq(m).push(path)), ..m }
}

/// The model after overriding the supported quantity.
pub open spec fn with_quantity(m: OfferModel, quantity: Quantity) -> OfferModel {
    OfferModel { supported_quantity: quantity, ..m }
}

/// A freshly constructed model: only the description and signing key set,
/// every optional field empty and the quantity at its default of one.
pub open spec fn new_offer_model(description: Seq<char>, signing_pubkey: Seq<u8>) -> OfferModel {
    OfferModel {
        chains: None,
        metadata: None,
        amount: None,
        description: description,
        features: Seq::empty(),
        absolute_expiry: None,
        issuer: None,
        paths: None,
        supported_quantity: Quantity::Bounded(1u64),
        signing_pubkey: Some(signing_pubkey),
    }
}

/// The canonicalization applied at finalization: a chain list that is
/// exactly the singleton implied default chain is dropped entirely.
pub open spec fn canonicalize_chains(m: OfferModel) -> OfferModel {
    match m.chains {
        Some(c) => if c.len() == 1 && c[0] == genesis_hash(Network::Bitcoin) {
            OfferModel { chains: None, ..m }
        } else {
            m
        },
        None => m,
    }
}

/// The single validation of finalization: a bitcoin-denominated amount must
/// not exceed the maximum payable value. Currency amounts are not
/// bound-checked by this crate.
pub open spec fn amount_within_bound(m: OfferModel) -> bool {
    match m.amount {
        Some(Amount::Bitcoin { amount_msats }) => amount_msats <= MAX_VALUE_MSAT,
        _ => true,
    }
}

/// The field table a model serializes through: amounts split into currency
/// code and integer value, default features and default quantity reduced to
/// omitted records, description and signing key always present.
pub open spec fn tlv_stream_model(m: OfferModel) -> TlvStreamModel {
    TlvStreamModel {
        chains: m.chains,
        metadata: m.metadata,
        currency: match m.amount {
            Some(Amount::Currency { iso4217_code, amount }) => Some(iso4217_code@),
            _ => None,
        },
        amount: match m.amount {
            Some(Amount::Bitcoin { amount_msats }) => Some(amount_msats),
            Some(Amount::Currency { iso4217_code, amount }) => Some(amount),
            None => None,
        },
        description: Some(m.description),
        features: if m.features == Seq::<u8>::empty() {
            None
        } else {
            Some(m.features)
        },
        absolute_expiry: m.absolute_expiry,
        paths: m.paths,
        issuer: m.issuer,
        quantity_max: m.supported_quantity.spec_to_tlv_record(),
        node_id: m.signing_pubkey,
    }
}

/// The canonical wire bytes of a model: its field table, serialized.
pub open spec fn offer_wire_bytes(m: OfferModel) -> Seq<u8> {
    stream_bytes(tlv_stream_model(m))
}

/// The invariant of every finalized offer: the signing key is present, a
/// bitcoin amount is within bound, and the chain list is never the bare
/// singleton implied default.
pub open spec fn offer_invariant(m: OfferModel) -> bool {
    &&& m.signing_pubkey is Some
    &&& amount_within_bound(m)
    &&& match m.chains {
        Some(c) => !(c.len() == 1 && c[0] == genesis_hash(Network::Bitcoin)),
        None => true,
    }
}

/// The contents of an offer: the semantic record the builder stages and a
/// finalized offer freezes.
#[derive(Clone, Debug)]
pub struct OfferContents {
    /// Explicit chain hashes, insertion order preserved, duplicates
    /// rejected on insert; `None` means only the implied default chain.
    pub chains: Option<Vec<ChainHash>>,
    /// Opaque originator bytes.
    pub metadata: Option<Vec<u8>>,
    /// The amount required for a single item.
    pub amount: Option<Amount>,
    /// The required description text.
    pub description: String,
    /// The feature bitset.
    pub features: OfferFeatures,
    /// Seconds since the epoch after which the offer is expired.
    pub absolute_expiry: Option<u64>,
    /// The issuer text.
    pub issuer: Option<String>,
    /// Blinded paths, append-only.
    pub paths: Option<Vec<BlindedPath>>,
    /// The quantity of items supported.
    pub supported_quantity: Quantity,
    /// The signing key; optional only to allow incremental construction.
    pub signing_pubkey: Option<PublicKey>,
}

impl View for OfferContents {
    type V = OfferModel;

    open spec fn view(&self) -> OfferModel {
        OfferModel {
            chains: match self.chains {
                Some(v) => Some(views_of(v@)),
                None => None,
            },
            metadata: match self.metadata {
                Some(v) => Some(v@),
                None => None,
            },
            amount: self.amount,
            description: self.description@,
            features: self.features@,
            absolute_expiry: self.absolute_expiry,
            issuer: match self.issuer {
                Some(s) => Some(s@),
                None => None,
            },
            paths: match self.paths {
                Some(v) => Some(views_of(v@)),
                None => None,
            },
            supported_quantity: self.supported_quantity,
            signing_pubkey: match self.signing_pubkey {
                Some(k) => Some(k@),
                None => None,
            },
        }
    }
}

/// Copies a path list; the copies carry the same canonical bytes.
fn clone_paths(paths: &Vec<BlindedPath>) -> (r: Vec<BlindedPath>)
    ensures
        views_of(r@) == views_of(paths@),
{
    let mut out: Vec<BlindedPath> = Vec::new();
    let mut i: usize = 0;
    while i < paths.len()
        invariant
            i <= paths@.len(),
            out@.len() == i,
            forall|j: int| 0 <= j < i ==> out@[j]@ == paths@[j]@,
        decreases paths@.len() - i,
    {
        out.push(BlindedPath::from_bytes(slice_to_vec(paths[i].as_bytes().as_slice())));
        i = i + 1;
    }
    assert(views_of(out@) =~= views_of(paths@));
    out
}

/// Whether the list already holds a hash with the given bytes.
fn contains_hash(chains: &Vec<ChainHash>, hash: &ChainHash) -> (r: bool)
    ensures
        r == views_of(chains@).contains(hash@),
{
    let mut i: usize = 0;
    while i < chains.len()
        invariant
            i <= chains@.len(),
            forall|j: int| 0 <= j < i ==> views_of(chains@)[j] != hash@,
        decreases chains@.len() - i,
    {
        if chains[i].matches(hash) {
            assert(views_of(chains@)[i as int] == hash@);
            return true;
        }
        i = i + 1;
    }
    assert(!views_of(chains@).contains(hash@));
    false
}

impl OfferContents {
    /// The chain assumed when no explicit chain list is present.
    pub fn implied_chain(&self) -> (r: ChainHash)
        ensures
            r@ == genesis_hash(Network::Bitcoin),
    {
        ChainHash::using_genesis_block(Network::Bitcoin)
    }

    /// The quantity of items supported.
    pub fn supported_quantity(&self) -> (r: Quantity)
        ensures
            r == self@.supported_quantity,
    {
        self.supported_quantity
    }

    /// Reduces the contents to their field table, canonicalizing the
    /// default features and the default quantity to omitted records.
    pub fn as_tlv_stream(&self) -> (r: OfferTlvStream)
        ensures
            r@ == tlv_stream_model(self@),
    {
        let (currency, amount): (Option<CurrencyCode>, Option<u64>) = match &self.amount {
            None => (None, None),
            Some(Amount::Bitcoin { amount_msats }) => (None, Some(*amount_msats)),
            Some(Amount::Currency { iso4217_code, amount }) => (Some(*iso4217_code), Some(*amount)),
        };

        let features: Option<OfferFeatures> = if self.features.is_empty() {
            None
        } else {
            Some(OfferFeatures::from_flag_bytes(slice_to_vec(self.features.as_flag_bytes().as_slice())))
        };

        OfferTlvStream {
            chains: match &self.chains {
                Some(v) => Some(slice_to_vec(v.as_slice())),
                None => None,
            },
            metadata: match &self.metadata {
                Some(v) => Some(slice_to_vec(v.as_slice())),
                None => None,
            },
            currency,
            amount,
            description: Some(self.description.clone()),
            features,
            absolute_expiry: self.absolute_expiry,
            paths: match &self.paths {
                Some(v) => Some(clone_paths(v)),
                None => None,
            },
            issuer: match &self.issuer {
                Some(s) => Some(s.clone()),
                None => None,
            },
            quantity_max: self.supported_quantity.to_tlv_record(),
            node_id: match &self.signing_pubkey {
                Some(k) => Some(*k),
                None => None,
            },
        }
    }

    /// Serializes the contents into their canonical wire bytes. The result
    /// is a function of the contents alone, so encoding the same contents
    /// twice yields byte-identical output.
    pub fn encode(&self) -> (r: Vec<u8>)
        ensures
            r@ == offer_wire_bytes(self@),
    {
        let stream = self.as_tlv_stream();
        encode_tlv_stream(&stream)
    }
}

/// Builds an [`Offer`]: a single-owner staging record, mutated through
/// chained consuming setters and finalized by [`OfferBuilder::build`].
pub struct OfferBuilder {
    /// The staged contents.
    pub offer: OfferContents,
}

impl OfferBuilder {
    /// Creates a builder with the required description and signing key;
    /// every optional field starts empty and the quantity at one.
    pub fn new(description: String, signing_pubkey: PublicKey) -> (r: Self)
        ensures
            r.offer@ == new_offer_model(description@, signing_pubkey@),
    {
        let offer = OfferContents {
            chains: None,
            metadata: None,
            amount: None,
            description,
            features: OfferFeatures::empty(),
            absolute_expiry: None,
            issuer: None,
            paths: None,
            supported_quantity: Quantity::one(),
            signing_pubkey: Some(signing_pubkey),
        };
        OfferBuilder { offer }
    }

    /// Adds the chain hash of the given network, unless already present;
    /// insertion order is preserved. If never called, only the implied
    /// default chain is assumed.
    pub fn chain(self, network: Network) -> (r: Self)
        ensures
            r.offer@ == add_chain(self.offer@, genesis_hash(network)),
    {
        let hash = ChainHash::using_genesis_block(network);
        let mut offer = self.offer;
        let mut chains: Vec<ChainHash> = match offer.chains {
            Some(c) => c,
            None => Vec::new(),
        };
        proof {
            assert(views_of(chains@) =~= chains_seq(self.offer@));
        }
        if !contains_hash(&chains, &hash) {
            chains.push(hash);
            proof {
                assert(views_of(chains@) =~= chains_seq(self.offer@).push(hash@));
            }
        }
        offer.chains = Some(chains);
        OfferBuilder { offer }
    }

    /// Overrides the metadata; the last write wins.
    pub fn metadata(self, metadata: Vec<u8>) -> (r: Self)
        ensures
            r.offer@ == with_metadata(self.offer@, metadata@),
    {
        let mut offer = self.offer;
        offer.metadata = Some(metadata);
        OfferBuilder { offer }
    }

    /// Sets a bitcoin-denominated amount, overriding any prior amount of
    /// either variant; the last write wins.
    pub fn amount_msats(self, amount_msats: u64) -> (r: Self)
        ensures
            r.offer@ == with_amount(self.offer@, Amount::Bitcoin { amount_msats }),
    {
        self.amount(Amount::Bitcoin { amount_msats })
    }

    /// Overrides the amount; the last write wins.
    pub fn amount(self, amount: Amount) -> (r: Self)
        ensures
            r.offer@ == with_amount(self.offer@, amount),
    {
        let mut offer = self.offer;
        offer.amount = Some(amount);
        OfferBuilder { offer }
    }

    /// Overrides the features; the last write wins.
    pub fn features(self, features: OfferFeatures) -> (r: Self)
        ensures
            r.offer@ == with_features(self.offer@, features@),
    {
        let mut offer = self.offer;
        offer.features = features;
        OfferBuilder { offer }
    }

    /// Overrides the absolute expiry, in seconds since the epoch; values
    /// already in the past are accepted, as expiry is advisory. The last
    /// write wins.
    pub fn absolute_expiry(self, absolute_expiry: u64) -> (r: Self)
        ensures
            r.offer@ == with_absolute_expiry(self.offer@, absolute_expiry),
    {
        let mut offer = self.offer;
        offer.absolute_expiry = Some(absolute_expiry);
        OfferBuilder { offer }
    }

    /// Overrides the issuer; the last write wins.
    pub fn issuer(self, issuer: String) -> (r: Self)
        ensures
            r.offer@ == with_issuer(self.offer@, issuer@),
    {
        let mut offer = self.offer;
        offer.issuer = Some(issuer);
        OfferBuilder { offer }
    }

    /// Appends a blinded path; paths are never de-duplicated.
    pub fn path(self, path: BlindedPath) -> (r: Self)
        ensures
            r.offer@ == add_path(self.offer@, path@),
    {
        let mut offer = self.offer;
        let mut paths: Vec<BlindedPath> = match offer.paths {
            Some(p) => p,
            None => Vec::new(),
        };
        proof {
            assert(views_of(paths@) =~= paths_seq(self.offer@));
        }
        paths.push(path);
        proof {
            assert(views_of(paths@) =~= paths_seq(self.offer@).push(path@));
        }
        offer.paths = Some(paths);
        OfferBuilder { offer }
    }

    /// Overrides the supported quantity; the last write wins.
    pub fn supported_quantity(self, quantity: Quantity) -> (r: Self)
        requires
            quantity_wf(quantity),
        ensures
            r.offer@ == with_quantity(self.offer@, quantity),
    {
        let mut offer = self.offer;
        offer.supported_quantity = quantity;
        OfferBuilder { offer }
    }

    /// Finalizes the offer: fails with the single validation error exactly
    /// when a bitcoin amount exceeds the maximum payable value; otherwise
    /// drops a chain list equal to the bare implied default, encodes the
    /// contents once, and freezes them with their canonical bytes.
    pub fn build(self) -> (r: Result<Offer, ()>)
        requires
            self.offer@.signing_pubkey is Some,
        ensures
            r is Ok <==> amount_within_bound(self.offer@),
            r matches Ok(offer) ==> offer@ == canonicalize_chains(self.offer@)
                && offer.wire() == offer_wire_bytes(canonicalize_chains(self.offer@)),
    {
        match &self.offer.amount {
            Some(Amount::Bitcoin { amount_msats }) => {
                if *amount_msats > MAX_VALUE_MSAT {
                    return Err(());
                }
            },
            _ => {},
        }

        let mut offer = self.offer;
        let drop_chains: bool = match &offer.chains {
            Some(chains) => chains.len() == 1 && {
                let implied = offer.implied_chain();
                chains[0].matches(&implied)
            },
            None => false,
        };
        if drop_chains {
            offer.chains = None;
        }
        proof {
            assert(offer@ == canonicalize_chains(self.offer@));
        }

        let bytes = offer.encode();
        Ok(Offer { bytes, contents: offer })
    }
}

/// An immutable, finalized offer: its semantic contents frozen together
/// with their canonical wire bytes.
#[derive(Debug)]
pub struct Offer {
    bytes: Vec<u8>,
    contents: OfferContents,
}

impl View for Offer {
    type V = OfferModel;

    closed spec fn view(&self) -> OfferModel {
        self.contents@
    }
}

impl Offer {
    /// The frozen wire bytes.
    pub closed spec fn wire(&self) -> Seq<u8> {
        self.bytes@
    }

    #[verifier::type_invariant]
    spec fn type_inv(self) -> bool {
        offer_invariant(self.contents@) && self.bytes@ == offer_wire_bytes(self.contents@)
    }

    /// The canonical wire bytes: always exactly the codec's output for the
    /// frozen contents.
    pub fn bytes(&self) -> (r: &Vec<u8>)
        ensures
            r@ == self.wire(),
            r@ == offer_wire_bytes(self@),
    {
        proof {
            use_type_invariant(&*self);
        }
        &self.bytes
    }

    /// The chains that may be used when paying: the explicit list, or the
    /// implied default chain alone when none was set.
    pub fn chains(&self) -> (r: Vec<ChainHash>)
        ensures
            views_of(r@) == match self@.chains {
                Some(c) => c,
                None => seq![genesis_hash(Network::Bitcoin)],
            },
    {
        match &self.contents.chains {
            Some(chains) => slice_to_vec(chains.as_slice()),
            None => {
                let mut v: Vec<ChainHash> = Vec::new();
                v.push(self.contents.implied_chain());
                proof {
                    assert(views_of(v@) =~= seq![genesis_hash(Network::Bitcoin)]);
                }
                v
            },
        }
    }

    /// Opaque bytes set by the originator, if any.
    pub fn metadata(&self) -> (r: Option<&Vec<u8>>)
        ensures
            r is Some <==> self@.metadata is Some,
            r matches Some(v) ==> Some(v@) == self@.metadata,
    {
        self.contents.metadata.as_ref()
    }

    /// The minimum amount required for a single item, if any.
    pub fn amount(&self) -> (r: Option<&Amount>)
        ensures
            r is Some <==> self@.amount is Some,
            r matches Some(a) ==> Some(*a) == self@.amount,
    {
        self.contents.amount.as_ref()
    }

    /// The description of the purpose of the payment, unverified
    /// pass-through text.
    pub fn description(&self) -> (r: PrintableString)
        ensures
            r@ == self@.description,
    {
        PrintableString(self.contents.description.clone())
    }

    /// The offer's feature bitset.
    pub fn features(&self) -> (r: &OfferFeatures)
        ensures
            r@ == self@.features,
    {
        &self.contents.features
    }

    /// Seconds since the epoch when an invoice should no longer be
    /// requested; `None` means the offer does not expire.
    pub fn absolute_expiry(&self) -> (r: Option<u64>)
        ensures
            r == self@.absolute_expiry,
    {
        self.contents.absolute_expiry
    }

    /// Whether the elapsed time strictly exceeds an expiry: false whenever
    /// no expiry is set or no time reading is available.
    pub fn is_expired_at(&self, now: Option<u64>) -> (r: bool)
        ensures
            r == match (self@.absolute_expiry, now) {
                (Some(expiry), Some(t)) => t > expiry,
                _ => false,
            },
    {
        match (self.contents.absolute_expiry, now) {
            (Some(expiry), Some(t)) => t > expiry,
            _ => false,
        }
    }

    /// Whether the offer has expired against the wall clock; a failed clock
    /// reading counts as not expired, and an offer without expiry never
    /// expires.
    pub fn is_expired(&self) -> (r: bool)
        ensures
            self@.absolute_expiry is None ==> !r,
    {
        let now = seconds_since_epoch();
        self.is_expired_at(now)
    }

    /// The issuer of the offer, if any, as unverified pass-through text.
    pub fn issuer(&self) -> (r: Option<PrintableString>)
        ensures
            r is Some <==> self@.issuer is Some,
            r matches Some(p) ==> Some(p@) == self@.issuer,
    {
        match &self.contents.issuer {
            Some(s) => Some(PrintableString(s.clone())),
            None => None,
        }
    }

    /// The blinded paths to the recipient; empty when none were added.
    pub fn paths(&self) -> (r: Vec<BlindedPath>)
        ensures
            views_of(r@) == paths_seq(self@),
    {
        match &self.contents.paths {
            Some(paths) => clone_paths(paths),
            None => {
                let v: Vec<BlindedPath> = Vec::new();
                proof {
                    assert(views_of(v@) =~= paths_seq(self@));
                }
                v
            },
        }
    }

    /// The quantity of items supported.
    pub fn supported_quantity(&self) -> (r: Quantity)
        ensures
            r == self@.supported_quantity,
    {
        self.contents.supported_quantity()
    }

    /// The public key the recipient signs invoices with; present in every
    /// finalized offer.
    pub fn signing_pubkey(&self) -> (r: PublicKey)
        ensures
            Some(r@) == self@.signing_pubkey,
    {
        proof {
            use_type_invariant(&*self);
        }
        match &self.contents.signing_pubkey {
            Some(k) => *k,
            None => unreached(),
        }
    }

    /// The offer's field table, as it serializes.
    pub fn as_tlv_stream(&self) -> (r: OfferTlvStream)
        ensures
            r@ == tlv_stream_model(self@),
    {
        self.contents.as_tlv_stream()
    }
}

/// Relies on std's `SystemTime`: the whole seconds elapsed since the Unix
/// epoch, or `None` when the clock reads earlier than the epoch. The result
/// depends on the wall clock, so nothing is promised of it.
#[verifier::external_body]
fn seconds_since_epoch() -> Option<u64> {
    match std::time::SystemTime::UNIX_EPOCH.elapsed() {
        Ok(elapsed) => Some(elapsed.as_secs()),
        Err(_) => None,
    }
}

} // verus!
