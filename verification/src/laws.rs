//! Laws of the builder's field semantics and of finalization, stated over
//! the offer model and proved once for all inputs.

use vstd::prelude::*;
use vstd::utf8::encode_utf8;
use crate::offer::{
    add_chain, add_path, canonicalize_chains, chains_seq, new_offer_model, offer_wire_bytes,
    paths_seq, with_absolute_expiry, with_amount, with_issuer, with_metadata, with_quantity,
    Amount, OfferModel, Quantity,
};
use crate::tlv::tlv_record;
use crate::types::{genesis_hash, Network};
use crate::wire::{TLV_TYPE_DESCRIPTION, TLV_TYPE_NODE_ID};

verus! {

/// Adding a chain hash preserves the existing entries and their order: the
/// list either stays as it was (the hash was already present) or grows by
/// exactly that hash at the end.
pub proof fn lemma_chain_order_preserved(m: OfferModel, hash: Seq<u8>)
    ensures
        chains_seq(add_chain(m, hash)).take(chains_seq(m).len() as int) == chains_seq(m),
        chains_seq(add_chain(m, hash)) == chains_seq(m) || chains_seq(add_chain(m, hash))
            == chains_seq(m).push(hash),
{
    let cur = chains_seq(m);
    if cur.contains(hash) {
        assert(chains_seq(add_chain(m, hash)).take(cur.len() as int) =~= cur);
    } else {
        assert(cur.push(hash).take(cur.len() as int) =~= cur);
    }
}

/// Adding a chain hash twice is the same as adding it once: duplicates are
/// rejected on insert.
pub proof fn lemma_chain_dedup(m: OfferModel, hash: Seq<u8>)
    ensures
        add_chain(add_chain(m, hash), hash) == add_chain(m, hash),
{
    let cur = chains_seq(m);
    if !cur.contains(hash) {
        assert(cur.push(hash)[cur.len() as int] == hash);
        assert(cur.push(hash).contains(hash));
    }
}

/// A path is always appended, never de-duplicated: adding the same path
/// twice yields two entries.
pub proof fn lemma_path_always_appended(m: OfferModel, path: Seq<u8>)
    ensures
        paths_seq(add_path(m, path)) == paths_seq(m).push(path),
{
}

/// The last write wins for metadata: setting it twice retains only the
/// second value.
pub proof fn lemma_metadata_last_write_wins(m: OfferModel, first: Seq<u8>, second: Seq<u8>)
    ensures
        with_metadata(with_metadata(m, first), second) == with_metadata(m, second),
{
}

/// The last write wins for the amount: setting it twice, with either
/// variant, retains only the second value.
pub proof fn lemma_amount_last_write_wins(m: OfferModel, first: Amount, second: Amount)
    ensures
        with_amount(with_amount(m, first), second) == with_amount(m, second),
{
}

/// The last write wins for the absolute expiry: setting it twice retains
/// only the second value.
pub proof fn lemma_absolute_expiry_last_write_wins(m: OfferModel, first: u64, second: u64)
    ensures
        with_absolute_expiry(with_absolute_expiry(m, first), second) == with_absolute_expiry(
            m,
            second,
        ),
{
}

/// The last write wins for the issuer: setting it twice retains only the
/// second value.
pub proof fn lemma_issuer_last_write_wins(m: OfferModel, first: Seq<char>, second: Seq<char>)
    ensures
        with_issuer(with_issuer(m, first), second) == with_issuer(m, second),
{
}

/// The last write wins for the supported quantity: setting it twice retains
/// only the second value.
pub proof fn lemma_quantity_last_write_wins(m: OfferModel, first: Quantity, second: Quantity)
    ensures
        with_quantity(with_quantity(m, first), second) == with_quantity(m, second),
{
}

/// The quantity-max record is omitted exactly for the default bound of one,
/// and carries zero exactly for an unbounded quantity.
pub proof fn lemma_quantity_canonicalization(q: Quantity)
    ensures
        q.spec_to_tlv_record() is None <==> q == Quantity::Bounded(1u64),
        q == Quantity::Unbounded ==> q.spec_to_tlv_record() == Some(0u64),
{
}

/// Finalization drops the chain list exactly when it is the bare singleton
/// implied default chain; any other list, the implied default among others
/// included, is retained unchanged.
pub proof fn lemma_canonical_chain_omission(m: OfferModel)
    ensures
        (m.chains matches Some(c) && c.len() == 1 && c[0] == genesis_hash(Network::Bitcoin))
            ==> canonicalize_chains(m) == (OfferModel { chains: None, ..m }),
        (m.chains matches Some(c) && !(c.len() == 1 && c[0] == genesis_hash(Network::Bitcoin)))
            ==> (canonicalize_chains(m) == m),
        m.chains is None ==> (canonicalize_chains(m) == m),
{
}

/// A freshly constructed offer, finalized with no other setters, serializes
/// as exactly two records: the description and the signing key.
pub proof fn lemma_defaults_wire_form(description: Seq<char>, signing_pubkey: Seq<u8>)
    ensures
        offer_wire_bytes(canonicalize_chains(new_offer_model(description, signing_pubkey))) == (
        tlv_record(TLV_TYPE_DESCRIPTION as nat, encode_utf8(description)) + tlv_record(
            TLV_TYPE_NODE_ID as nat,
            signing_pubkey,
        )),
{
    let wire = offer_wire_bytes(canonicalize_chains(new_offer_model(description, signing_pubkey)));
    assert(wire =~= tlv_record(TLV_TYPE_DESCRIPTION as nat, encode_utf8(description)) + tlv_record(
        TLV_TYPE_NODE_ID as nat,
        signing_pubkey,
    ));
}

} // verus!
