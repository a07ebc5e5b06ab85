//! Adding fetched item metadata to flattened events.

use vstd::prelude::*;
use crate::config::NesConfig;
use crate::dup::duplicate_vec;
use crate::event::{
    EventData, EventView, MintItem, NearEvent, Nep171Data, Nep171MintData, Nep171TransferData,
    Payload, TransferItem, event_views, flatten_of, with_data,
};
use crate::token::{Token, TokenMetadata, extras_fit, get_metadatas, metadatas_of};

verus! {

/// The flattened copies of an event that enrichment works on: none when
/// enrichment is switched off or the event has no provenance.
pub open spec fn targets_of(e: EventView, enrich: bool) -> Seq<EventView> {
    if enrich && e.emit_info is Some {
        flatten_of(e)
    } else {
        Seq::empty()
    }
}

/// The item identifiers that a flat record refers to; none for any other
/// payload.
pub open spec fn item_ids_of(p: Payload) -> Seq<String> {
    match p {
        Payload::MintFlat(d) => d.token_ids,
        Payload::TransferFlat(d) => d.token_ids,
        _ => Seq::empty(),
    }
}

/// A flat record with the metadata and the parsed extras attached; any
/// other payload as it is.
pub open spec fn with_item_metadata(
    p: Payload,
    metas: Seq<Option<TokenMetadata>>,
    extras: Seq<Option<serde_json::Value>>,
) -> Payload {
    match p {
        Payload::MintFlat(d) => Payload::MintFlat(
            MintItem { metadatas: Some(metas), metadata_extras: Some(extras), ..d },
        ),
        Payload::TransferFlat(d) => Payload::TransferFlat(
            TransferItem { metadatas: Some(metas), metadata_extras: Some(extras), ..d },
        ),
        _ => p,
    }
}

/// The flattened copies of `event` to enrich: none when enrichment is
/// switched off or the event has no provenance, else one per record of a
/// batched payload.
pub fn enrichment_targets(event: &NearEvent, cfg: &NesConfig) -> (r: Vec<NearEvent>)
    ensures
        event_views(r@) == targets_of(event@, cfg.enrich_metadata),
{
    if !cfg.enrich_metadata || event.emit_info.is_none() {
        let r: Vec<NearEvent> = Vec::new();
        assert(event_views(r@) =~= Seq::<EventView>::empty());
        return r;
    }
    event.try_flatten_nep171_event()
}

/// The item identifiers of a flat record, in order; none for any other
/// payload.
pub fn item_token_ids(event: &NearEvent) -> (r: Vec<String>)
    ensures
        r@ == item_ids_of(event@.data),
{
    match &event.data {
        EventData::Nep171(Nep171Data::MintFlat(d)) => duplicate_vec(&d.token_ids),
        EventData::Nep171(Nep171Data::TransferFlat(d)) => duplicate_vec(&d.token_ids),
        _ => Vec::new(),
    }
}

/// The event with `metas` and `extras` attached to its flat record; any
/// other event as it is.
pub fn attach_metadatas(
    event: &NearEvent,
    metas: Vec<Option<TokenMetadata>>,
    extras: Vec<Option<serde_json::Value>>,
) -> (r: NearEvent)
    ensures
        r@ == with_data(event@, with_item_metadata(event@.data, metas@, extras@)),
{
    let data = match &event.data {
        EventData::Nep171(Nep171Data::MintFlat(d)) => {
            let mut d2: Nep171MintData = d.duplicate();
            d2.metadatas = Some(metas);
            d2.metadata_extras = Some(extras);
            EventData::Nep171(Nep171Data::MintFlat(d2))
        },
        EventData::Nep171(Nep171Data::TransferFlat(d)) => {
            let mut d2: Nep171TransferData = d.duplicate();
            d2.metadatas = Some(metas);
            d2.metadata_extras = Some(extras);
            EventData::Nep171(Nep171Data::TransferFlat(d2))
        },
        _ => event.data.duplicate(),
    };
    event.with_payload(data)
}

/// Enriches a flattened event with the items fetched for its identifiers:
/// the `i`-th fetched item's metadata (nothing where the fetch failed) and
/// its parsed extra field, in input order. Any other event comes back as it
/// is.
pub fn enrich_event_metadata(event: &NearEvent, tokens: &Vec<Option<Token>>) -> (r: NearEvent)
    ensures
        exists|extras: Seq<Option<serde_json::Value>>|
            extras_fit(metadatas_of(tokens@), extras) && r@ == with_data(
                event@,
                with_item_metadata(event@.data, metadatas_of(tokens@), extras),
            ),
{
    let (metas, extras) = get_metadatas(tokens);
    let ghost x = extras@;
    let r = attach_metadatas(event, metas, extras);
    assert(extras_fit(metadatas_of(tokens@), x));
    r
}

} // verus!
