use near_event_streams::config::NesConfig;
use near_event_streams::provision::{provision_step, CreateOutcome, ProvisionAction, ProvisionEvent};

fn config(force: bool) -> NesConfig {
    NesConfig {
        kafka: vec![("bootstrap.servers".to_string(), "localhost:9092".to_string())],
        near_events_topic_prefix: "events".to_string(),
        whitelist_contract_ids: vec![],
        blacklist_contract_ids: vec![],
        new_topic_partitions: 3,
        new_topic_replication: 2,
        force_create_new_topic: force,
        enrich_metadata: false,
        stats_enabled: false,
    }
}

fn is_ready(a: &ProvisionAction) -> bool {
    matches!(a, ProvisionAction::Ready)
}

/// Runs the provisioning of `topic` against a broker holding `broker`; the
/// broker creates the topic when asked, or answers that it already exists.
/// Returns whether a creation was asked for, and whether it ended ready.
fn run(cfg: &NesConfig, topic: &str, broker: &mut Vec<String>) -> (bool, bool) {
    let mut asked = false;
    let mut action = provision_step(cfg, topic, &ProvisionEvent::Start);
    loop {
        action = match action {
            ProvisionAction::FetchMetadata => {
                provision_step(cfg, topic, &ProvisionEvent::MetadataFetched(broker.clone()))
            }
            ProvisionAction::CreateTopic { name, .. } => {
                asked = true;
                let outcome = if broker.contains(&name) {
                    CreateOutcome::AlreadyExists
                } else {
                    broker.push(name);
                    CreateOutcome::Created
                };
                provision_step(cfg, topic, &ProvisionEvent::CreateFinished(outcome))
            }
            ProvisionAction::Ready => return (asked, true),
            ProvisionAction::Fail(_) => return (asked, false),
        }
    }
}

#[test]
fn switched_off_creation_is_ready_at_once() {
    let a = provision_step(&config(false), "t", &ProvisionEvent::Start);
    assert!(is_ready(&a));
}

#[test]
fn switched_on_creation_fetches_metadata_first() {
    let a = provision_step(&config(true), "t", &ProvisionEvent::Start);
    assert!(matches!(a, ProvisionAction::FetchMetadata));
}

#[test]
fn metadata_failure_is_best_effort() {
    let a = provision_step(&config(true), "t", &ProvisionEvent::MetadataUnavailable("timeout".to_string()));
    assert!(is_ready(&a));
}

#[test]
fn present_topic_needs_no_creation() {
    let names = vec!["a".to_string(), "t".to_string()];
    let a = provision_step(&config(true), "t", &ProvisionEvent::MetadataFetched(names));
    assert!(is_ready(&a));
}

#[test]
fn absent_topic_is_created_with_configured_shape() {
    let names = vec!["a".to_string(), "tt".to_string()];
    match provision_step(&config(true), "t", &ProvisionEvent::MetadataFetched(names)) {
        ProvisionAction::CreateTopic { name, partitions, replication } => {
            assert_eq!(name, "t");
            assert_eq!(partitions, 3);
            assert_eq!(replication, 2);
        }
        other => panic!("unexpected {:?}", other),
    }
}

#[test]
fn creation_outcomes() {
    let cfg = config(true);
    assert!(is_ready(&provision_step(&cfg, "t", &ProvisionEvent::CreateFinished(CreateOutcome::Created))));
    assert!(is_ready(&provision_step(
        &cfg,
        "t",
        &ProvisionEvent::CreateFinished(CreateOutcome::AlreadyExists)
    )));
    match provision_step(&cfg, "t", &ProvisionEvent::CreateFinished(CreateOutcome::Failed("denied".to_string()))) {
        ProvisionAction::Fail(m) => assert_eq!(m, "denied"),
        other => panic!("unexpected {:?}", other),
    }
}

#[test]
fn provisioning_twice_creates_once() {
    let cfg = config(true);
    let mut broker = vec!["other".to_string()];
    assert_eq!(run(&cfg, "events.nep171.nft_mint", &mut broker), (true, true));
    assert_eq!(run(&cfg, "events.nep171.nft_mint", &mut broker), (false, true));
    assert_eq!(broker.len(), 2);
}

#[test]
fn concurrent_provisioning_both_succeed() {
    let cfg = config(true);
    let names = vec!["other".to_string()];
    let first = provision_step(&cfg, "t", &ProvisionEvent::MetadataFetched(names.clone()));
    let second = provision_step(&cfg, "t", &ProvisionEvent::MetadataFetched(names));
    assert!(matches!(first, ProvisionAction::CreateTopic { .. }));
    assert!(matches!(second, ProvisionAction::CreateTopic { .. }));
    let a = provision_step(&cfg, "t", &ProvisionEvent::CreateFinished(CreateOutcome::Created));
    let b = provision_step(&cfg, "t", &ProvisionEvent::CreateFinished(CreateOutcome::AlreadyExists));
    assert!(is_ready(&a) && is_ready(&b));
}
