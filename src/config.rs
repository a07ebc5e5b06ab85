//! Settings of the pipeline.

use vstd::prelude::*;

verus! {

/// The recognised configuration options.
#[derive(Debug, Clone)]
pub struct NesConfig {
    /// Broker connection parameters, handed to the broker client as they are.
    pub kafka: Vec<(String, String)>,
    /// Prefix of every topic that the pipeline derives.
    pub near_events_topic_prefix: String,
    /// When not empty, only events of these contracts pass.
    pub whitelist_contract_ids: Vec<String>,
    /// When not empty, events of these contracts are dropped.
    pub blacklist_contract_ids: Vec<String>,
    /// Partition count of a topic that the pipeline creates.
    pub new_topic_partitions: i32,
    /// Replication factor of a topic that the pipeline creates.
    pub new_topic_replication: i32,
    /// Whether an absent topic is created before the first send to it.
    pub force_create_new_topic: bool,
    /// Whether item metadata is fetched and published.
    pub enrich_metadata: bool,
    /// Whether the progress logger runs.
    pub stats_enabled: bool,
}

} // verus!
