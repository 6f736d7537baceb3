//! Collaborator value types consumed by an offer.
//!
//! Chain hashes, public keys, blinded paths and feature bitsets are produced
//! and interpreted elsewhere; an offer only stores them, compares them and
//! emits their canonical bytes. Each is therefore modelled here by the plain
//! bytes the offer logic reads, with the one computation this crate cannot do
//! itself — hashing a network's genesis block — delegated to the `bitcoin`
//! crate behind a trusted wrapper.

use vstd::prelude::*;

verus! {

/// A named network whose genesis block identifies the chain an amount is
/// denominated against.
#[derive(Clone, Copy, Debug, PartialEq, Eq)]
pub enum Network {
    /// Mainnet.
    Bitcoin,
    /// Testnet.
    Testnet,
    /// Signet.
    Signet,
    /// Regtest.
    Regtest,
}

/// The 32 bytes of the hash of a network's genesis block. Each network has
/// one fixed such value; its computation is delegated to the `bitcoin` crate
/// (see [`ChainHash::using_genesis_block`]), so the bytes are not further
/// specified here.
pub uninterp spec fn genesis_hash(network: Network) -> Seq<u8>;

/// A fixed-size identifier of the ledger/network a payment is denominated
/// against: the hash of that network's genesis block.
#[derive(Clone, Copy, Debug, PartialEq, Eq)]
pub struct ChainHash {
    bytes: [u8; 32],
}

impl View for ChainHash {
    type V = Seq<u8>;

    closed spec fn view(&self) -> Seq<u8> {
        self.bytes@
    }
}

impl ChainHash {
    /// Relies on `bitcoin::blockdata::constants::ChainHash::using_genesis_block`:
    /// the chain hash of the given network's genesis block, a fixed 32-byte
    /// constant per network.
    #[verifier::external_body]
    pub(crate) fn using_genesis_block(network: Network) -> (r: ChainHash)
        ensures
            r@ == genesis_hash(network),
    {
        let net = match network {
            Network::Bitcoin => bitcoin::network::constants::Network::Bitcoin,
            Network::Testnet => bitcoin::network::constants::Network::Testnet,
            Network::Signet => bitcoin::network::constants::Network::Signet,
            Network::Regtest => bitcoin::network::constants::Network::Regtest,
        };
        ChainHash { bytes: bitcoin::blockdata::constants::ChainHash::using_genesis_block(net).to_bytes() }
    }

    /// Wraps 32 raw hash bytes.
    pub fn from_bytes(bytes: [u8; 32]) -> (r: ChainHash)
        ensures
            r@ == bytes@,
    {
        ChainHash { bytes }
    }

    /// The raw hash bytes.
    pub fn as_bytes(&self) -> (r: &[u8; 32])
        ensures
            r@ == self@,
    {
        &self.bytes
    }

    /// Whether two chain hashes hold the same bytes.
    pub fn matches(&self, other: &ChainHash) -> (r: bool)
        ensures
            r == (self@ == other@),
    {
        let mut i: usize = 0;
        while i < 32
            invariant
                i <= 32,
                self.bytes@.subrange(0, i as int) == other.bytes@.subrange(0, i as int),
            decreases 32 - i,
        {
            if self.bytes[i] != other.bytes[i] {
                assert(self@ != other@);
                return false;
            }
            assert(self.bytes@.subrange(0, i + 1) =~= other.bytes@.subrange(0, i + 1));
            i = i + 1;
        }
        assert(self.bytes@.len() == 32 && other.bytes@.len() == 32);
        assert(self.bytes@ =~= self.bytes@.subrange(0, 32));
        assert(other.bytes@ =~= other.bytes@.subrange(0, 32));
        true
    }
}

/// A public key in its fixed-size compressed encoding. This crate performs no
/// key validation beyond presence; the 33 bytes are stored and emitted as is.
#[derive(Clone, Copy, Debug, PartialEq, Eq)]
pub struct PublicKey {
    bytes: [u8; 33],
}

impl View for PublicKey {
    type V = Seq<u8>;

    closed spec fn view(&self) -> Seq<u8> {
        self.bytes@
    }
}

impl PublicKey {
    /// Wraps a 33-byte compressed-key encoding.
    pub fn from_bytes(bytes: [u8; 33]) -> (r: PublicKey)
        ensures
            r@ == bytes@,
    {
        PublicKey { bytes }
    }

    /// The compressed-key bytes.
    pub fn as_bytes(&self) -> (r: &[u8; 33])
        ensures
            r@ == self@,
    {
        &self.bytes
    }
}

/// A blinded routing path. The structure is defined and encoded elsewhere;
/// an offer consumes it as a black box, so it is carried here as its own
/// canonical byte encoding.
#[derive(Clone, Debug, PartialEq, Eq)]
pub struct BlindedPath {
    encoded: Vec<u8>,
}

impl View for BlindedPath {
    type V = Seq<u8>;

    closed spec fn view(&self) -> Seq<u8> {
        self.encoded@
    }
}

impl BlindedPath {
    /// Wraps a path's canonical byte encoding.
    pub fn from_bytes(encoded: Vec<u8>) -> (r: BlindedPath)
        ensures
            r@ == encoded@,
    {
        BlindedPath { encoded }
    }

    /// The path's canonical byte encoding.
    pub fn as_bytes(&self) -> (r: &Vec<u8>)
        ensures
            r@ == self@,
    {
        &self.encoded
    }
}

/// A feature bitset. Its interpretation and encoding are defined elsewhere;
/// an offer only asks whether it equals the empty default and, if not, emits
/// its canonical bytes.
#[derive(Clone, Debug, PartialEq, Eq)]
pub struct OfferFeatures {
    flags: Vec<u8>,
}

impl View for OfferFeatures {
    type V = Seq<u8>;

    closed spec fn view(&self) -> Seq<u8> {
        self.flags@
    }
}

impl OfferFeatures {
    /// The empty bitset, the distinguished default.
    pub fn empty() -> (r: OfferFeatures)
        ensures
            r@ == Seq::<u8>::empty(),
    {
        OfferFeatures { flags: Vec::new() }
    }

    /// Wraps a bitset's canonical byte encoding.
    pub fn from_flag_bytes(flags: Vec<u8>) -> (r: OfferFeatures)
        ensures
            r@ == flags@,
    {
        OfferFeatures { flags }
    }

    /// The bitset's canonical byte encoding.
    pub fn as_flag_bytes(&self) -> (r: &Vec<u8>)
        ensures
            r@ == self@,
    {
        &self.flags
    }

    /// Whether the bitset equals the empty default.
    pub fn is_empty(&self) -> (r: bool)
        ensures
            r == (self@ == Seq::<u8>::empty()),
    {
        let r = self.flags.is_empty();
        if r {
            assert(self@ =~= Seq::<u8>::empty());
        }
        r
    }
}

/// Text to be shown to a user, passed through unexamined: this crate adds no
/// guarantee about its content.
#[derive(Debug, PartialEq, Eq)]
pub struct PrintableString(pub String);

impl View for PrintableString {
    type V = Seq<char>;

    open spec fn view(&self) -> Seq<char> {
        self.0@
    }
}

} // verus!
