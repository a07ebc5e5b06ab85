//! Making sure that a topic exists before the first send to it.
//!
//! The decisions are a step function from what was learned last to what to
//! do next; the caller performs each action against the broker and hands
//! back what came of it.

use vstd::prelude::*;
use crate::config::NesConfig;
use crate::extract::listed;

verus! {

/// How the broker answered a request to create a topic.
#[derive(Debug, Clone)]
pub enum CreateOutcome {
    Created,
    AlreadyExists,
    Failed(String),
}

/// What the provisioning of a topic learned last.
#[derive(Debug, Clone)]
pub enum ProvisionEvent {
    /// Provisioning is asked for.
    Start,
    /// The broker's topic metadata could not be fetched; the error's text.
    MetadataUnavailable(String),
    /// The names of the topics that the broker holds.
    MetadataFetched(Vec<String>),
    /// The broker answered the request to create the topic.
    CreateFinished(CreateOutcome),
}

/// What to do next.
#[derive(Debug, Clone)]
pub enum ProvisionAction {
    /// Fetch the broker's topic metadata, with a bounded timeout.
    FetchMetadata,
    /// Ask the broker to create the topic.
    CreateTopic { name: String, partitions: i32, replication: i32 },
    /// The topic may be sent to.
    Ready,
    /// The topic could not be created; the broker's reason.
    Fail(String),
}

/// What an action holds.
pub enum ActionView {
    FetchMetadata,
    CreateTopic { name: Seq<char>, partitions: i32, replication: i32 },
    Ready,
    Fail(Seq<char>),
}

impl View for ProvisionAction {
    type V = ActionView;

    open spec fn view(&self) -> ActionView {
        match self {
            ProvisionAction::FetchMetadata => ActionView::FetchMetadata,
            ProvisionAction::CreateTopic { name, partitions, replication } => ActionView::CreateTopic {
                name: name@,
                partitions: *partitions,
                replication: *replication,
            },
            ProvisionAction::Ready => ActionView::Ready,
            ProvisionAction::Fail(m) => ActionView::Fail(m@),
        }
    }
}

/// The next action of the provisioning of `topic`: nothing to do when
/// creation is switched off; otherwise look at the broker's topics, create
/// the topic if they lack it, and go on when the metadata cannot be had
/// (best effort). A topic that already exists counts as created.
pub open spec fn provision_next(cfg: NesConfig, topic: Seq<char>, event: ProvisionEvent) -> ActionView {
    match event {
        ProvisionEvent::Start => if cfg.force_create_new_topic {
            ActionView::FetchMetadata
        } else {
            ActionView::Ready
        },
        ProvisionEvent::MetadataUnavailable(_) => ActionView::Ready,
        ProvisionEvent::MetadataFetched(names) => if listed(names@, topic) {
            ActionView::Ready
        } else {
            ActionView::CreateTopic {
                name: topic,
                partitions: cfg.new_topic_partitions,
                replication: cfg.new_topic_replication,
            }
        },
        ProvisionEvent::CreateFinished(outcome) => match outcome {
            CreateOutcome::Failed(m) => ActionView::Fail(m@),
            _ => ActionView::Ready,
        },
    }
}

/// Whether the list holds the name.
fn holds_name(names: &Vec<String>, name: &str) -> (r: bool)
    ensures
        r == listed(names@, name@),
{
    let wanted = name.to_owned();
    let mut i: usize = 0;
    while i < names.len()
        invariant
            i <= names@.len(),
            wanted@ == name@,
            forall|j: int| 0 <= j < i ==> (#[trigger] names@[j])@ != name@,
        decreases names@.len() - i,
    {
        if names[i] == wanted {
            return true;
        }
        i = i + 1;
    }
    false
}

/// The next action of the provisioning of `topic`, given what was learned
/// last.
pub fn provision_step(cfg: &NesConfig, topic: &str, event: &ProvisionEvent) -> (r: ProvisionAction)
    ensures
        r@ == provision_next(*cfg, topic@, *event),
{
    match event {
        ProvisionEvent::Start => if cfg.force_create_new_topic {
            ProvisionAction::FetchMetadata
        } else {
            ProvisionAction::Ready
        },
        ProvisionEvent::MetadataUnavailable(_) => ProvisionAction::Ready,
        ProvisionEvent::MetadataFetched(names) => if holds_name(names, topic) {
            ProvisionAction::Ready
        } else {
            ProvisionAction::CreateTopic {
                name: topic.to_owned(),
                partitions: cfg.new_topic_partitions,
                replication: cfg.new_topic_replication,
            }
        },
        ProvisionEvent::CreateFinished(outcome) => match outcome {
            CreateOutcome::Failed(m) => ProvisionAction::Fail(m.clone()),
            _ => ProvisionAction::Ready,
        },
    }
}

/// One whole provisioning of `topic`: the start, then the metadata answer
/// `fetched`, then, where a creation was asked for, the broker's `answer`.
/// Gives whether a creation was asked for, and the last action.
pub open spec fn provision_run(
    cfg: NesConfig,
    topic: Seq<char>,
    fetched: ProvisionEvent,
    answer: CreateOutcome,
) -> (bool, ActionView) {
    match provision_next(cfg, topic, ProvisionEvent::Start) {
        ActionView::FetchMetadata => match provision_next(cfg, topic, fetched) {
            ActionView::CreateTopic { .. } => (
                true,
                provision_next(cfg, topic, ProvisionEvent::CreateFinished(answer)),
            ),
            a => (false, a),
        },
        a => (false, a),
    }
}

/// Provisioning is idempotent. Take a topic that the broker lacks at the
/// first look, and two provisionings of it. The first asks for the topic
/// once (when creation is switched on) and ends ready, whether the broker
/// creates it or answers that it already exists. The second, once the topic
/// exists, ends ready too: it asks for no creation when the metadata lists
/// the topic, and a creation that finds it there counts as success.
pub proof fn lemma_provisioning_idempotent(
    cfg: NesConfig,
    topic: Seq<char>,
    first_names: Vec<String>,
    second_names: Vec<String>,
    first_answer: CreateOutcome,
    second_answer: CreateOutcome,
)
    requires
        !listed(first_names@, topic),
        !(first_answer is Failed),
        second_answer is AlreadyExists || listed(second_names@, topic),
    ensures
        cfg.force_create_new_topic ==> provision_run(
            cfg,
            topic,
            ProvisionEvent::MetadataFetched(first_names),
            first_answer,
        ).0,
        provision_run(cfg, topic, ProvisionEvent::MetadataFetched(first_names), first_answer).1
            == ActionView::Ready,
        provision_run(cfg, topic, ProvisionEvent::MetadataFetched(second_names), second_answer).1
            == ActionView::Ready,
        listed(second_names@, topic) ==> !provision_run(
            cfg,
            topic,
            ProvisionEvent::MetadataFetched(second_names),
            second_answer,
        ).0,
{
}

/// Provisioning never stands in the way of a send when the broker's
/// metadata cannot be had: it ends ready without asking for a creation.
pub proof fn lemma_metadata_failure_is_ready(
    cfg: NesConfig,
    topic: Seq<char>,
    error: String,
    answer: CreateOutcome,
)
    ensures
        provision_run(cfg, topic, ProvisionEvent::MetadataUnavailable(error), answer) == (
            false,
            ActionView::Ready,
        ),
{
}

} // verus!
