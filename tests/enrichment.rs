use near_event_streams::config::NesConfig;
use near_event_streams::enrich::{enrich_event_metadata, enrichment_targets, item_token_ids};
use near_event_streams::event::{
    EmitInfo, EventData, NearEvent, Nep171Data, Nep171MintData, Nep171TransferData,
};
use near_event_streams::token::{get_metadatas, nft_token_args, Token, TokenMetadata};

fn config(enrich: bool) -> NesConfig {
    NesConfig {
        kafka: vec![],
        near_events_topic_prefix: "events".to_string(),
        whitelist_contract_ids: vec![],
        blacklist_contract_ids: vec![],
        new_topic_partitions: 1,
        new_topic_replication: 1,
        force_create_new_topic: false,
        enrich_metadata: enrich,
        stats_enabled: false,
    }
}

fn metadata(title: &str, extra: Option<&str>) -> TokenMetadata {
    TokenMetadata {
        title: Some(title.to_string()),
        description: None,
        media: None,
        media_hash: None,
        copies: Some(1),
        issued_at: None,
        expires_at: None,
        starts_at: None,
        updated_at: None,
        extra: extra.map(|s| s.to_string()),
        reference: None,
        reference_hash: None,
        collection_id: None,
    }
}

fn token(id: &str, meta: Option<TokenMetadata>) -> Token {
    Token {
        _id: None,
        token_id: id.to_string(),
        owner_id: "alice.near".to_string(),
        metadata: meta,
        metadata_extra: None,
        approved_account_ids: None,
        contract_account_id: Some("nft.near".to_string()),
    }
}

fn mint_record(ids: &[&str]) -> Nep171MintData {
    Nep171MintData {
        owner_id: "alice.near".to_string(),
        token_ids: ids.iter().map(|s| s.to_string()).collect(),
        memo: None,
        metadatas: None,
        metadata_extras: None,
        _ids: None,
    }
}

fn mint_event(records: Vec<Nep171MintData>, provenance: bool) -> NearEvent {
    NearEvent {
        standard: "nep171".to_string(),
        version: "1.0.0".to_string(),
        event: "nft_mint".to_string(),
        data: EventData::Nep171(Nep171Data::Mint(records)),
        emit_info: if provenance {
            Some(EmitInfo {
                receipt_id: "r".to_string(),
                block_timestamp: 0,
                block_height: 100,
                shard_id: 0,
                contract_account_id: "nft.near".to_string(),
            })
        } else {
            None
        },
    }
}

#[test]
fn composite_identifier() {
    assert_eq!(Token::build_id("nft.near", "12"), "nft.near:12");
    let mut t = token("12", None);
    assert_eq!(t.derive_id(), Some("nft.near:12".to_string()));
    assert_eq!(t.get_id(), Some("nft.near:12".to_string()));
    t.set_id();
    assert_eq!(t._id, Some("nft.near:12".to_string()));
    t._id = Some("stored".to_string());
    assert_eq!(t.get_id(), Some("stored".to_string()));
    t.contract_account_id = None;
    assert_eq!(t.derive_id(), None);
    t._id = None;
    assert_eq!(t.get_id(), None);
}

#[test]
fn lookup_arguments_are_json() {
    assert_eq!(nft_token_args("1"), "{\"token_id\":\"1\"}");
    assert_eq!(nft_token_args("a\"b"), "{\"token_id\":\"a\\\"b\"}");
}

#[test]
fn metadata_order_is_kept_when_a_fetch_fails() {
    let tokens = vec![
        Some(token("a", Some(metadata("A", None)))),
        None,
        Some(token("c", Some(metadata("C", None)))),
    ];
    let (metas, extras) = get_metadatas(&tokens);
    assert_eq!(metas, vec![Some(metadata("A", None)), None, Some(metadata("C", None))]);
    assert_eq!(extras, vec![None, None, None]);
}

#[test]
fn extra_field_is_parsed_when_it_is_json() {
    let tokens = vec![
        Some(token("a", Some(metadata("A", Some("{\"level\":3}"))))),
        Some(token("b", Some(metadata("B", Some("not json"))))),
        Some(token("c", None)),
    ];
    let (metas, extras) = get_metadatas(&tokens);
    assert_eq!(metas.len(), 3);
    assert_eq!(metas[2], None);
    let mut expected = serde_json::Map::new();
    expected.insert("level".to_string(), serde_json::Value::from(3));
    assert_eq!(extras[0], Some(serde_json::Value::Object(expected)));
    assert_eq!(extras[1], None);
    assert_eq!(extras[2], None);
}

#[test]
fn targets_need_enrichment_and_provenance() {
    let e = mint_event(vec![mint_record(&["1"]), mint_record(&["2"])], true);
    assert_eq!(enrichment_targets(&e, &config(true)).len(), 2);
    assert!(enrichment_targets(&e, &config(false)).is_empty());
    let anonymous = mint_event(vec![mint_record(&["1"])], false);
    assert!(enrichment_targets(&anonymous, &config(true)).is_empty());
}

#[test]
fn enrichment_attaches_metadata_in_item_order() {
    let e = mint_event(vec![mint_record(&["a", "b", "c"])], true);
    let targets = enrichment_targets(&e, &config(true));
    assert_eq!(targets.len(), 1);
    let ids = item_token_ids(&targets[0]);
    assert_eq!(ids, vec!["a".to_string(), "b".to_string(), "c".to_string()]);
    let fetched = vec![
        Some(token("a", Some(metadata("A", None)))),
        None,
        Some(token("c", Some(metadata("C", None)))),
    ];
    let enriched = enrich_event_metadata(&targets[0], &fetched);
    match &enriched.data {
        EventData::Nep171(Nep171Data::MintFlat(d)) => {
            assert_eq!(
                d.metadatas,
                Some(vec![Some(metadata("A", None)), None, Some(metadata("C", None))])
            );
            assert_eq!(d.metadata_extras, Some(vec![None, None, None]));
            assert_eq!(d.token_ids, ids);
        }
        _ => panic!("not flat"),
    }
    assert_eq!(enriched.emit_info, e.emit_info);
}

#[test]
fn enrichment_of_a_transfer_record() {
    let e = NearEvent {
        standard: "nep171".to_string(),
        version: "1.0.0".to_string(),
        event: "nft_transfer".to_string(),
        data: EventData::Nep171(Nep171Data::TransferFlat(Nep171TransferData {
            authorized_id: None,
            old_owner_id: "a".to_string(),
            new_owner_id: "b".to_string(),
            token_ids: vec!["9".to_string()],
            memo: None,
            metadatas: None,
            metadata_extras: None,
            _ids: None,
        })),
        emit_info: None,
    };
    assert_eq!(item_token_ids(&e), vec!["9".to_string()]);
    let enriched = enrich_event_metadata(&e, &vec![Some(token("9", Some(metadata("N", Some("[1]")))))]);
    match &enriched.data {
        EventData::Nep171(Nep171Data::TransferFlat(d)) => {
            assert_eq!(d.metadatas, Some(vec![Some(metadata("N", Some("[1]")))]));
            assert_eq!(
                d.metadata_extras,
                Some(vec![Some(serde_json::Value::Array(vec![serde_json::Value::from(1)]))])
            );
        }
        _ => panic!("not flat"),
    }
}

#[test]
fn batched_events_are_not_enriched() {
    let e = mint_event(vec![mint_record(&["1"])], true);
    assert!(item_token_ids(&e).is_empty());
    let same = enrich_event_metadata(&e, &vec![None]);
    match &same.data {
        EventData::Nep171(Nep171Data::Mint(v)) => assert!(v[0].metadatas.is_none()),
        _ => panic!("payload changed"),
    }
}
