//! The event record published downstream, the identifiers derived from it,
//! and the flattening of batched payloads.

use vstd::prelude::*;
use vstd::string::StringExecFns;
use crate::dup::{Duplicate, duplicate_opt_vec, duplicate_vec, opt_seq};
use crate::token::TokenMetadata;

verus! {

/// Provenance of an event: the receipt, block, shard and contract it came from.
#[derive(Debug, Clone, PartialEq)]
pub struct EmitInfo {
    pub receipt_id: String,
    pub block_timestamp: u64,
    pub block_height: u64,
    pub shard_id: u64,
    pub contract_account_id: String,
}

impl Duplicate for EmitInfo {
    fn duplicate(&self) -> (r: Self) {
        EmitInfo {
            receipt_id: self.receipt_id.duplicate(),
            block_timestamp: self.block_timestamp,
            block_height: self.block_height,
            shard_id: self.shard_id,
            contract_account_id: self.contract_account_id.duplicate(),
        }
    }
}

/// One mint record of the nep171 standard.
#[derive(Debug, Clone)]
pub struct Nep171MintData {
    pub owner_id: String,
    pub token_ids: Vec<String>,
    pub memo: Option<String>,
    pub metadatas: Option<Vec<Option<TokenMetadata>>>,
    pub metadata_extras: Option<Vec<Option<serde_json::Value>>>,
    pub _ids: Option<Vec<Option<String>>>,
}

/// One transfer record of the nep171 standard.
#[derive(Debug, Clone)]
pub struct Nep171TransferData {
    pub authorized_id: Option<String>,
    pub old_owner_id: String,
    pub new_owner_id: String,
    pub token_ids: Vec<String>,
    pub memo: Option<String>,
    pub metadatas: Option<Vec<Option<TokenMetadata>>>,
    pub metadata_extras: Option<Vec<Option<serde_json::Value>>>,
    pub _ids: Option<Vec<Option<String>>>,
}

/// A nep171 payload: a batch of records, or one record alone.
#[derive(Debug, Clone)]
pub enum Nep171Data {
    Mint(Vec<Nep171MintData>),
    Transfer(Vec<Nep171TransferData>),
    MintFlat(Nep171MintData),
    TransferFlat(Nep171TransferData),
}

/// The payload of an event: of a known standard, or any JSON document.
#[derive(Debug, Clone)]
pub enum EventData {
    Nep171(Nep171Data),
    Generic(serde_json::Value),
}

/// An application-level event taken from a log line.
#[derive(Debug, Clone)]
pub struct NearEvent {
    pub standard: String,
    pub version: String,
    pub event: String,
    pub data: EventData,
    pub emit_info: Option<EmitInfo>,
}

/// What a mint record holds, with its vectors as sequences.
pub struct MintItem {
    pub owner_id: String,
    pub token_ids: Seq<String>,
    pub memo: Option<String>,
    pub metadatas: Option<Seq<Option<TokenMetadata>>>,
    pub metadata_extras: Option<Seq<Option<serde_json::Value>>>,
    pub ids: Option<Seq<Option<String>>>,
}

/// What a transfer record holds, with its vectors as sequences.
pub struct TransferItem {
    pub authorized_id: Option<String>,
    pub old_owner_id: String,
    pub new_owner_id: String,
    pub token_ids: Seq<String>,
    pub memo: Option<String>,
    pub metadatas: Option<Seq<Option<TokenMetadata>>>,
    pub metadata_extras: Option<Seq<Option<serde_json::Value>>>,
    pub ids: Option<Seq<Option<String>>>,
}

/// The payload of an event, both levels of variants in one.
pub enum Payload {
    Mint(Seq<MintItem>),
    Transfer(Seq<TransferItem>),
    MintFlat(MintItem),
    TransferFlat(TransferItem),
    Generic(serde_json::Value),
}

/// What an event holds.
pub struct EventView {
    pub standard: Seq<char>,
    pub version: Seq<char>,
    pub event: Seq<char>,
    pub data: Payload,
    pub emit_info: Option<EmitInfo>,
}

impl View for Nep171MintData {
    type V = MintItem;

    open spec fn view(&self) -> MintItem {
        MintItem {
            owner_id: self.owner_id,
            token_ids: self.token_ids@,
            memo: self.memo,
            metadatas: opt_seq(self.metadatas),
            metadata_extras: opt_seq(self.metadata_extras),
            ids: opt_seq(self._ids),
        }
    }
}

impl View for Nep171TransferData {
    type V = TransferItem;

    open spec fn view(&self) -> TransferItem {
        TransferItem {
            authorized_id: self.authorized_id,
            old_owner_id: self.old_owner_id,
            new_owner_id: self.new_owner_id,
            token_ids: self.token_ids@,
            memo: self.memo,
            metadatas: opt_seq(self.metadatas),
            metadata_extras: opt_seq(self.metadata_extras),
            ids: opt_seq(self._ids),
        }
    }
}

impl View for EventData {
    type V = Payload;

    open spec fn view(&self) -> Payload {
        match self {
            EventData::Nep171(Nep171Data::Mint(v)) => Payload::Mint(
                v@.map_values(|d: Nep171MintData| d@),
            ),
            EventData::Nep171(Nep171Data::Transfer(v)) => Payload::Transfer(
                v@.map_values(|d: Nep171TransferData| d@),
            ),
            EventData::Nep171(Nep171Data::MintFlat(d)) => Payload::MintFlat(d@),
            EventData::Nep171(Nep171Data::TransferFlat(d)) => Payload::TransferFlat(d@),
            EventData::Generic(v) => Payload::Generic(*v),
        }
    }
}

impl View for NearEvent {
    type V = EventView;

    open spec fn view(&self) -> EventView {
        EventView {
            standard: self.standard@,
            version: self.version@,
            event: self.event@,
            data: self.data@,
            emit_info: self.emit_info,
        }
    }
}

/// `"{standard}.{event}"`.
pub open spec fn default_key_of(e: EventView) -> Seq<char> {
    e.standard + seq!['.'] + e.event
}

/// The partition key: the emitting contract when provenance is known, else
/// the default key.
pub open spec fn key_of(e: EventView) -> Seq<char> {
    match e.emit_info {
        Some(info) => info.contract_account_id@,
        None => default_key_of(e),
    }
}

/// `"{prefix}.{standard}.{event}"`.
pub open spec fn topic_of(e: EventView, prefix: Seq<char>) -> Seq<char> {
    prefix + seq!['.'] + default_key_of(e)
}

/// The event with its payload replaced and everything else kept.
pub open spec fn with_data(e: EventView, data: Payload) -> EventView {
    EventView { data, ..e }
}

/// One event per record of a batched payload, each carrying that record
/// alone; nothing for any other payload.
pub open spec fn flatten_of(e: EventView) -> Seq<EventView> {
    match e.data {
        Payload::Mint(items) => items.map_values(|d: MintItem| with_data(e, Payload::MintFlat(d))),
        Payload::Transfer(items) => items.map_values(
            |d: TransferItem| with_data(e, Payload::TransferFlat(d)),
        ),
        _ => Seq::empty(),
    }
}

/// Whether the payload is a batch of records.
pub open spec fn is_batched(p: Payload) -> bool {
    p is Mint || p is Transfer
}

/// The views of a vector of events.
pub open spec fn event_views(v: Seq<NearEvent>) -> Seq<EventView> {
    v.map_values(|e: NearEvent| e@)
}

impl Nep171MintData {
    /// A copy of the record.
    pub fn duplicate(&self) -> (r: Self)
        ensures
            r@ == self@,
    {
        Nep171MintData {
            owner_id: self.owner_id.duplicate(),
            token_ids: duplicate_vec(&self.token_ids),
            memo: self.memo.duplicate(),
            metadatas: duplicate_opt_vec(&self.metadatas),
            metadata_extras: duplicate_opt_vec(&self.metadata_extras),
            _ids: duplicate_opt_vec(&self._ids),
        }
    }
}

impl Nep171TransferData {
    /// A copy of the record.
    pub fn duplicate(&self) -> (r: Self)
        ensures
            r@ == self@,
    {
        Nep171TransferData {
            authorized_id: self.authorized_id.duplicate(),
            old_owner_id: self.old_owner_id.duplicate(),
            new_owner_id: self.new_owner_id.duplicate(),
            token_ids: duplicate_vec(&self.token_ids),
            memo: self.memo.duplicate(),
            metadatas: duplicate_opt_vec(&self.metadatas),
            metadata_extras: duplicate_opt_vec(&self.metadata_extras),
            _ids: duplicate_opt_vec(&self._ids),
        }
    }
}

impl NearEvent {
    /// The same event with `data` in place of its payload.
    pub fn with_payload(&self, data: EventData) -> (r: NearEvent)
        ensures
            r@ == with_data(self@, data@),
    {
        NearEvent {
            standard: self.standard.duplicate(),
            version: self.version.duplicate(),
            event: self.event.duplicate(),
            data,
            emit_info: self.emit_info.duplicate(),
        }
    }

    /// The partition key: the emitting contract when provenance is present,
    /// else `"{standard}.{event}"`.
    pub fn to_key(&self) -> (r: String)
        ensures
            r@ == key_of(self@),
    {
        match &self.emit_info {
            Some(info) => info.contract_account_id.clone(),
            None => self.default_key(),
        }
    }

    /// `"{standard}.{event}"`, whatever the provenance.
    pub fn default_key(&self) -> (r: String)
        ensures
            r@ == default_key_of(self@),
    {
        let mut r = self.standard.clone();
        r.append(".");
        proof {
            reveal_strlit(".");
        }
        r.append(self.event.as_str());
        r
    }

    /// `"{prefix}.{standard}.{event}"`.
    pub fn to_topic(&self, prefix: &str) -> (r: String)
        ensures
            r@ == topic_of(self@, prefix@),
    {
        let mut r = prefix.to_owned();
        r.append(".");
        proof {
            reveal_strlit(".");
        }
        let k = self.default_key();
        r.append(k.as_str());
        assert(r@ =~= topic_of(self@, prefix@));
        r
    }

    /// One copy of the event per record of a batched nep171 payload, each
    /// holding that record alone and the same provenance; nothing for a
    /// payload that is already flat or generic.
    pub fn try_flatten_nep171_event(&self) -> (r: Vec<NearEvent>)
        ensures
            event_views(r@) == flatten_of(self@),
    {
        let mut r: Vec<NearEvent> = Vec::new();
        match &self.data {
            EventData::Nep171(Nep171Data::Mint(items)) => {
                let ghost items_v = items@.map_values(|d: Nep171MintData| d@);
                let mut i: usize = 0;
                while i < items.len()
                    invariant
                        i <= items@.len(),
                        self@.data == Payload::Mint(items_v),
                        items_v == items@.map_values(|d: Nep171MintData| d@),
                        event_views(r@) == flatten_of(self@).subrange(0, i as int),
                    decreases items@.len() - i,
                {
                    let flat = self.with_payload(
                        EventData::Nep171(Nep171Data::MintFlat(items[i].duplicate())),
                    );
                    assert(flat@ == flatten_of(self@)[i as int]);
                    let ghost prev = r@;
                    r.push(flat);
                    i = i + 1;
                    assert(event_views(r@) =~= event_views(prev).push(flat@));
                    assert(event_views(r@) =~= flatten_of(self@).subrange(0, i as int));
                }
                assert(flatten_of(self@).subrange(0, i as int) =~= flatten_of(self@));
            },
            EventData::Nep171(Nep171Data::Transfer(items)) => {
                let ghost items_v = items@.map_values(|d: Nep171TransferData| d@);
                let mut i: usize = 0;
                while i < items.len()
                    invariant
                        i <= items@.len(),
                        self@.data == Payload::Transfer(items_v),
                        items_v == items@.map_values(|d: Nep171TransferData| d@),
                        event_views(r@) == flatten_of(self@).subrange(0, i as int),
                    decreases items@.len() - i,
                {
                    let flat = self.with_payload(
                        EventData::Nep171(Nep171Data::TransferFlat(items[i].duplicate())),
                    );
                    assert(flat@ == flatten_of(self@)[i as int]);
                    let ghost prev = r@;
                    r.push(flat);
                    i = i + 1;
                    assert(event_views(r@) =~= event_views(prev).push(flat@));
                    assert(event_views(r@) =~= flatten_of(self@).subrange(0, i as int));
                }
                assert(flatten_of(self@).subrange(0, i as int) =~= flatten_of(self@));
            },
            _ => {
                assert(event_views(r@) =~= flatten_of(self@));
            },
        }
        r
    }
}

/// A copy of every mint record, in order.
fn duplicate_mints(v: &Vec<Nep171MintData>) -> (r: Vec<Nep171MintData>)
    ensures
        r@.map_values(|d: Nep171MintData| d@) == v@.map_values(|d: Nep171MintData| d@),
{
    let mut r: Vec<Nep171MintData> = Vec::new();
    let mut i: usize = 0;
    while i < v.len()
        invariant
            i <= v@.len(),
            r@.len() == i,
            forall|j: int| 0 <= j < i ==> (#[trigger] r@[j])@ == v@[j]@,
        decreases v@.len() - i,
    {
        r.push(v[i].duplicate());
        i = i + 1;
    }
    assert(r@.map_values(|d: Nep171MintData| d@) =~= v@.map_values(|d: Nep171MintData| d@));
    r
}

/// A copy of every transfer record, in order.
fn duplicate_transfers(v: &Vec<Nep171TransferData>) -> (r: Vec<Nep171TransferData>)
    ensures
        r@.map_values(|d: Nep171TransferData| d@) == v@.map_values(|d: Nep171TransferData| d@),
{
    let mut r: Vec<Nep171TransferData> = Vec::new();
    let mut i: usize = 0;
    while i < v.len()
        invariant
            i <= v@.len(),
            r@.len() == i,
            forall|j: int| 0 <= j < i ==> (#[trigger] r@[j])@ == v@[j]@,
        decreases v@.len() - i,
    {
        r.push(v[i].duplicate());
        i = i + 1;
    }
    assert(r@.map_values(|d: Nep171TransferData| d@) =~= v@.map_values(|d: Nep171TransferData| d@));
    r
}

impl EventData {
    /// A copy of the payload.
    pub fn duplicate(&self) -> (r: Self)
        ensures
            r@ == self@,
    {
        match self {
            EventData::Nep171(Nep171Data::Mint(v)) => EventData::Nep171(
                Nep171Data::Mint(duplicate_mints(v)),
            ),
            EventData::Nep171(Nep171Data::Transfer(v)) => EventData::Nep171(
                Nep171Data::Transfer(duplicate_transfers(v)),
            ),
            EventData::Nep171(Nep171Data::MintFlat(d)) => EventData::Nep171(
                Nep171Data::MintFlat(d.duplicate()),
            ),
            EventData::Nep171(Nep171Data::TransferFlat(d)) => EventData::Nep171(
                Nep171Data::TransferFlat(d.duplicate()),
            ),
            EventData::Generic(v) => EventData::Generic(v.duplicate()),
        }
    }
}

impl NearEvent {
    /// A copy of the event.
    pub fn duplicate(&self) -> (r: Self)
        ensures
            r@ == self@,
    {
        self.with_payload(self.data.duplicate())
    }

    /// A copy of the event with `info` as its provenance.
    pub fn with_emit_info(&self, info: EmitInfo) -> (r: Self)
        ensures
            r@ == (EventView { emit_info: Some(info), ..self@ }),
    {
        NearEvent {
            standard: self.standard.duplicate(),
            version: self.version.duplicate(),
            event: self.event.duplicate(),
            data: self.data.duplicate(),
            emit_info: Some(info),
        }
    }
}

/// The derived identifiers are functions of the event: two events with the
/// same standard and kind have the same default key and topic, whatever
/// their provenance or payload; and with the same provenance too, the same
/// key.
pub proof fn lemma_keys_deterministic(e1: EventView, e2: EventView, prefix: Seq<char>)
    requires
        e1.standard == e2.standard,
        e1.event == e2.event,
    ensures
        default_key_of(e1) == default_key_of(e2),
        topic_of(e1, prefix) == topic_of(e2, prefix),
        e1.emit_info == e2.emit_info ==> key_of(e1) == key_of(e2),
{
}

/// Flattening a batch of k records gives k events; the i-th holds the i-th
/// record alone and the batch's provenance, standard, version and kind. A
/// payload that is not a batch gives no event.
pub proof fn lemma_flatten_shape(e: EventView)
    ensures
        match e.data {
            Payload::Mint(items) => {
                &&& flatten_of(e).len() == items.len()
                &&& forall|i: int|
                    0 <= i < items.len() ==> #[trigger] flatten_of(e)[i] == with_data(
                        e,
                        Payload::MintFlat(items[i]),
                    )
            },
            Payload::Transfer(items) => {
                &&& flatten_of(e).len() == items.len()
                &&& forall|i: int|
                    0 <= i < items.len() ==> #[trigger] flatten_of(e)[i] == with_data(
                        e,
                        Payload::TransferFlat(items[i]),
                    )
            },
            _ => flatten_of(e).len() == 0,
        },
        forall|i: int|
            0 <= i < flatten_of(e).len() ==> (#[trigger] flatten_of(e)[i]).emit_info == e.emit_info
                && flatten_of(e)[i].standard == e.standard && flatten_of(e)[i].version == e.version
                && flatten_of(e)[i].event == e.event && !is_batched(flatten_of(e)[i].data),
{
}

} // verus!
