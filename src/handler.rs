//! Per block: the events to publish, and where each one goes.

use vstd::prelude::*;
use vstd::string::StringExecFns;
use crate::config::NesConfig;
use crate::event::{EventView, NearEvent, event_views, key_of, topic_of};
use crate::extract::{
    CandidateView, EventCandidate, candidate_views, decoding_pairs, extract_events, filter_events, filtered,
    stamped,
};

verus! {

/// Ending of the topic that gets every event, after the prefix.
pub const ALL_EVENTS_SUFFIX: &'static str = ".all";

/// Ending of a metadata topic, after the event's own topic.
pub const METADATA_SUFFIX: &'static str = "_metadata";

/// `"{prefix}.all"`: the topic that gets every event.
pub open spec fn all_topic_of(prefix: Seq<char>) -> Seq<char> {
    prefix + seq!['.', 'a', 'l', 'l']
}

/// `"{topic}_metadata"`: where the enriched copies of an event go.
pub open spec fn metadata_topic_of(topic: Seq<char>) -> Seq<char> {
    topic + seq!['_', 'm', 'e', 't', 'a', 'd', 'a', 't', 'a']
}

/// The events of a block that are published: the decoded candidates with
/// their provenance, in order, that pass the contract filter.
pub open spec fn block_events_of(
    cands: Seq<CandidateView>,
    decoded: Seq<Option<NearEvent>>,
    cfg: NesConfig,
) -> Seq<EventView> {
    filtered(
        stamped(decoding_pairs(cands, decoded)),
        cfg.whitelist_contract_ids@,
        cfg.blacklist_contract_ids@,
    )
}

/// The topic that gets every event.
pub fn all_events_topic(prefix: &str) -> (r: String)
    ensures
        r@ == all_topic_of(prefix@),
{
    let mut r = prefix.to_owned();
    r.append(ALL_EVENTS_SUFFIX);
    proof {
        reveal_strlit(".all");
    }
    assert(r@ =~= all_topic_of(prefix@));
    r
}

/// The topic of the enriched copies of events of `event_topic`.
pub fn metadata_topic(event_topic: &str) -> (r: String)
    ensures
        r@ == metadata_topic_of(event_topic@),
{
    let mut r = event_topic.to_owned();
    r.append(METADATA_SUFFIX);
    proof {
        reveal_strlit("_metadata");
    }
    assert(r@ =~= metadata_topic_of(event_topic@));
    r
}

/// The events of a block to publish: each candidate's decoded event (the
/// `i`-th entry of `decoded`), with the candidate's provenance, in order,
/// kept when it passes the contract filter.
pub fn collect_events(
    cands: &Vec<EventCandidate>,
    decoded: &Vec<Option<NearEvent>>,
    cfg: &NesConfig,
) -> (r: Vec<NearEvent>)
    ensures
        event_views(r@) == block_events_of(candidate_views(cands@), decoded@, *cfg),
{
    let events = extract_events(cands, decoded);
    filter_events(&events, &cfg.whitelist_contract_ids, &cfg.blacklist_contract_ids)
}

/// Where one event is published, and under which key.
#[derive(Debug, Clone)]
pub struct EventRoutes {
    /// The topic that gets every event.
    pub all_topic: String,
    /// The event's own topic.
    pub event_topic: String,
    /// The topic of the event's enriched copies.
    pub metadata_topic: String,
    /// The partition key of the event.
    pub key: String,
}

/// The routes of an event under a topic prefix.
pub fn event_routes(event: &NearEvent, cfg: &NesConfig) -> (r: EventRoutes)
    ensures
        r.all_topic@ == all_topic_of(cfg.near_events_topic_prefix@),
        r.event_topic@ == topic_of(event@, cfg.near_events_topic_prefix@),
        r.metadata_topic@ == metadata_topic_of(topic_of(event@, cfg.near_events_topic_prefix@)),
        r.key@ == key_of(event@),
{
    let prefix = cfg.near_events_topic_prefix.as_str();
    let event_topic = event.to_topic(prefix);
    EventRoutes {
        all_topic: all_events_topic(prefix),
        metadata_topic: metadata_topic(event_topic.as_str()),
        event_topic,
        key: event.to_key(),
    }
}

} // verus!
