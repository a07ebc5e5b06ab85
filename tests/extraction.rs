use near_event_streams::event::{EmitInfo, EventData, NearEvent, Nep171Data, Nep171MintData};
use near_event_streams::extract::{
    block_event_candidates, extract_events, filter_events, passes_contract_filter, BlockRecord,
    OutcomeRecord, ShardRecord,
};
use near_event_streams::text::event_payload;

fn outcome(receipt: &str, receiver: &str, logs: &[&str]) -> OutcomeRecord {
    OutcomeRecord {
        receipt_id: receipt.to_string(),
        receiver_id: receiver.to_string(),
        logs: logs.iter().map(|s| s.to_string()).collect(),
    }
}

fn plain_event(contract: Option<&str>) -> NearEvent {
    NearEvent {
        standard: "nep171".to_string(),
        version: "1.0.0".to_string(),
        event: "nft_mint".to_string(),
        data: EventData::Nep171(Nep171Data::Mint(vec![Nep171MintData {
            owner_id: "alice.near".to_string(),
            token_ids: vec!["1".to_string()],
            memo: None,
            metadatas: None,
            metadata_extras: None,
            _ids: None,
        }])),
        emit_info: contract.map(|c| EmitInfo {
            receipt_id: "r".to_string(),
            block_timestamp: 1,
            block_height: 2,
            shard_id: 3,
            contract_account_id: c.to_string(),
        }),
    }
}

#[test]
fn payload_after_marker_is_trimmed() {
    assert_eq!(event_payload("EVENT_JSON:{\"a\":1}"), Some("{\"a\":1}".to_string()));
    assert_eq!(
        event_payload("  \t EVENT_JSON:   {\"a\":1}  \n"),
        Some("{\"a\":1}".to_string())
    );
    assert_eq!(event_payload("EVENT_JSON:"), Some(String::new()));
}

#[test]
fn unmarked_lines_have_no_payload() {
    assert_eq!(event_payload("plain text, no marker"), None);
    assert_eq!(event_payload("event_json:{}"), None);
    assert_eq!(event_payload("x EVENT_JSON:{}"), None);
    assert_eq!(event_payload(""), None);
    assert_eq!(event_payload("EVENT_JSON"), None);
}

#[test]
fn candidates_keep_block_order_and_provenance() {
    let block = BlockRecord {
        height: 42,
        timestamp: 1000,
        shards: vec![
            ShardRecord {
                shard_id: 0,
                outcomes: vec![
                    outcome("r1", "a.near", &["EVENT_JSON:one", "noise", "EVENT_JSON:two"]),
                    outcome("r2", "b.near", &["EVENT_JSON:three"]),
                ],
            },
            ShardRecord { shard_id: 5, outcomes: vec![outcome("r3", "c.near", &[" EVENT_JSON: four "])] },
        ],
    };
    let cands = block_event_candidates(&block);
    let payloads: Vec<&str> = cands.iter().map(|c| c.payload.as_str()).collect();
    assert_eq!(payloads, vec!["one", "two", "three", "four"]);
    assert_eq!(cands[0].emit_info.receipt_id, "r1");
    assert_eq!(cands[0].emit_info.contract_account_id, "a.near");
    assert_eq!(cands[2].emit_info.contract_account_id, "b.near");
    assert_eq!(cands[3].emit_info.shard_id, 5);
    assert_eq!(cands[3].emit_info.block_height, 42);
    assert_eq!(cands[3].emit_info.block_timestamp, 1000);
    assert_eq!(cands[3].log, " EVENT_JSON: four ");
}

#[test]
fn unmarked_line_adds_no_candidate() {
    let with_noise = BlockRecord {
        height: 1,
        timestamp: 1,
        shards: vec![ShardRecord {
            shard_id: 0,
            outcomes: vec![outcome("r", "a.near", &["EVENT_JSON:x", "hello", "EVENT_JSON:y"])],
        }],
    };
    let without = BlockRecord {
        height: 1,
        timestamp: 1,
        shards: vec![ShardRecord {
            shard_id: 0,
            outcomes: vec![outcome("r", "a.near", &["EVENT_JSON:x", "EVENT_JSON:y"])],
        }],
    };
    let a: Vec<String> = block_event_candidates(&with_noise).into_iter().map(|c| c.payload).collect();
    let b: Vec<String> = block_event_candidates(&without).into_iter().map(|c| c.payload).collect();
    assert_eq!(a, b);
}

#[test]
fn undecoded_candidates_give_no_event() {
    let block = BlockRecord {
        height: 9,
        timestamp: 90,
        shards: vec![ShardRecord {
            shard_id: 1,
            outcomes: vec![outcome(
                "r",
                "nft.near",
                &["EVENT_JSON:{bad", "EVENT_JSON:{good}", "EVENT_JSON:{also bad"],
            )],
        }],
    };
    let cands = block_event_candidates(&block);
    assert_eq!(cands.len(), 3);
    let decoded = vec![None, Some(plain_event(None)), None];
    let events = extract_events(&cands, &decoded);
    assert_eq!(events.len(), 1);
    let info = events[0].emit_info.clone().unwrap();
    assert_eq!(info.block_height, 9);
    assert_eq!(info.contract_account_id, "nft.near");
    assert_eq!(info.shard_id, 1);
}

#[test]
fn missing_decode_results_count_as_failures() {
    let block = BlockRecord {
        height: 3,
        timestamp: 4,
        shards: vec![ShardRecord {
            shard_id: 0,
            outcomes: vec![outcome("r", "n.near", &["EVENT_JSON:a", "EVENT_JSON:b"])],
        }],
    };
    let cands = block_event_candidates(&block);
    let events = extract_events(&cands, &vec![Some(plain_event(None))]);
    assert_eq!(events.len(), 1);
    assert!(extract_events(&cands, &vec![]).is_empty());
}

#[test]
fn provenance_replaces_any_decoded_one() {
    let block = BlockRecord {
        height: 77,
        timestamp: 4,
        shards: vec![ShardRecord {
            shard_id: 0,
            outcomes: vec![outcome("rr", "real.near", &["EVENT_JSON:a"])],
        }],
    };
    let cands = block_event_candidates(&block);
    let events = extract_events(&cands, &vec![Some(plain_event(Some("fake.near")))]);
    let info = events[0].emit_info.clone().unwrap();
    assert_eq!(info.contract_account_id, "real.near");
    assert_eq!(info.receipt_id, "rr");
    assert_eq!(info.block_height, 77);
}

#[test]
fn whitelist_keeps_only_listed_contracts() {
    let whitelist = vec!["x.near".to_string()];
    let none: Vec<String> = vec![];
    assert!(passes_contract_filter(&plain_event(Some("x.near")), &whitelist, &none));
    assert!(!passes_contract_filter(&plain_event(Some("y.near")), &whitelist, &none));
    assert!(!passes_contract_filter(&plain_event(None), &whitelist, &none));
}

#[test]
fn blacklist_drops_listed_contracts() {
    let blacklist = vec!["y.near".to_string()];
    let none: Vec<String> = vec![];
    assert!(passes_contract_filter(&plain_event(Some("x.near")), &none, &blacklist));
    assert!(!passes_contract_filter(&plain_event(Some("y.near")), &none, &blacklist));
    assert!(passes_contract_filter(&plain_event(None), &none, &blacklist));
}

#[test]
fn empty_lists_keep_every_event() {
    let none: Vec<String> = vec![];
    let events = vec![plain_event(Some("a")), plain_event(None), plain_event(Some("b"))];
    let kept = filter_events(&events, &none, &none);
    assert_eq!(kept.len(), 3);
    assert_eq!(kept[1].emit_info, None);
}

#[test]
fn both_lists_apply_in_turn() {
    let whitelist = vec!["x.near".to_string(), "z.near".to_string()];
    let blacklist = vec!["z.near".to_string()];
    let events = vec![
        plain_event(Some("x.near")),
        plain_event(Some("y.near")),
        plain_event(Some("z.near")),
    ];
    let kept = filter_events(&events, &whitelist, &blacklist);
    assert_eq!(kept.len(), 1);
    assert_eq!(kept[0].emit_info.as_ref().unwrap().contract_account_id, "x.near");
}
