use llmconduit::json::Json;
use llmconduit::models::responses::ContentItem;
use llmconduit::models::responses::ResponseItem;
use llmconduit::response_store::durable::indexed_item_ids;
use llmconduit::response_store::durable::next_access_stamp;
use llmconduit::response_store::durable::pending_is_full;
use llmconduit::response_store::durable::row_limit;
use llmconduit::response_store::durable::schema_step;
use llmconduit::response_store::durable::SchemaStep;
use llmconduit::response_store::handle::epoch_seconds;
use llmconduit::response_store::handle::retention_seconds;
use llmconduit::response_store::handle::ResponseStoreHandle;
use llmconduit::response_store::memory::MemoryStore;
use llmconduit::response_store::serialized_size;
use llmconduit::response_store::StoredResponse;
use llmconduit::response_store::rows::rows_to_prune;
use llmconduit::response_store::rows::Row;

const NOW: i64 = 1_700_000_000;

fn history(text: &str) -> Vec<ResponseItem> {
    vec![ResponseItem::Message {
        id: None,
        role: "user".to_string(),
        content: vec![ContentItem::InputText {
            text: text.to_string(),
        }],
        phase: None,
    }]
}

fn history_with_id(id: &str, text: &str) -> Vec<ResponseItem> {
    vec![ResponseItem::Message {
        id: Some(id.to_string()),
        role: "assistant".to_string(),
        content: vec![ContentItem::OutputText {
            text: text.to_string(),
        }],
        phase: None,
    }]
}

fn insert(store: &mut ResponseStoreHandle, id: &str, history: Vec<ResponseItem>, now: i64) {
    store
        .insert(
            id.to_string(),
            "requested".to_string(),
            "served".to_string(),
            history,
            now,
            now,
        )
        .unwrap();
}

#[test]
fn memory_store_is_bounded_and_referenceable() {
    let mut store = ResponseStoreHandle::memory(2, 720);
    for index in 0..3 {
        insert(
            &mut store,
            &format!("resp_{index}"),
            history(&format!("message {index}")),
            NOW,
        );
    }
    assert!(store.get("resp_0", NOW).is_none());
    assert!(store.get("resp_2", NOW).is_some());
    assert_eq!(store.memory.len(), 2);
}

#[test]
fn prepared_memory_response_is_hidden_until_publish() {
    let mut store = ResponseStoreHandle::memory(2, 720);
    store
        .prepare(
            "resp_pending".to_string(),
            "requested".to_string(),
            "served".to_string(),
            history_with_id("msg_pending", "not delivered yet"),
            NOW,
            NOW,
        )
        .unwrap();
    assert!(store.get("resp_pending", NOW).is_none());
    assert!(store.find_item("msg_pending", NOW).is_none());
    store.publish("resp_pending").unwrap();
    assert!(store.get("resp_pending", NOW).is_some());
    assert!(store.find_item("msg_pending", NOW).is_some());
}

#[test]
fn memory_store_enforces_a_payload_byte_quota() {
    let mut store = ResponseStoreHandle::memory(10, 720);
    store.memory = MemoryStore::with_byte_quota(10, 256);
    let error = store
        .prepare(
            "resp_large".to_string(),
            "requested".to_string(),
            "served".to_string(),
            history(&"x".repeat(1024)),
            NOW,
            NOW,
        )
        .expect_err("oversized response state must fail closed");
    assert!(error.0.contains("too large"));
    assert!(store.get("resp_large", NOW).is_none());
}

#[test]
fn failed_pending_replacement_preserves_record_and_byte_accounting() {
    let expires_at = NOW + 3600;
    let old = StoredResponse {
        id: "resp_replace".to_string(),
        requested_model: "requested".to_string(),
        served_model: "served".to_string(),
        history: history("old"),
        created_at: NOW,
        expires_at,
    };
    let other = StoredResponse {
        id: "resp_other".to_string(),
        requested_model: "requested".to_string(),
        served_model: "served".to_string(),
        history: history("other"),
        created_at: NOW,
        expires_at,
    };
    let replacement = StoredResponse {
        history: history(&"replacement".repeat(512)),
        ..old.clone()
    };
    let old_size = serialized_size(&old).unwrap();
    let other_size = serialized_size(&other).unwrap();
    let replacement_size = serialized_size(&replacement).unwrap();
    assert!(old_size + other_size < replacement_size);

    let mut memory = MemoryStore::with_byte_quota(3, replacement_size);
    memory.prepare(old.clone(), NOW).unwrap();
    memory.prepare(other.clone(), NOW).unwrap();
    memory
        .prepare(replacement, NOW)
        .expect_err("a replacement must include all other pending bytes");

    assert_eq!(memory.pending(&old.id).map(|slot| &slot.record), Some(&old));
    assert_eq!(memory.pending(&old.id).map(|slot| slot.size), Some(old_size));
    assert_eq!(
        memory.pending(&other.id).map(|slot| slot.size),
        Some(other_size)
    );
    assert_eq!(memory.pending_bytes(), old_size + other_size);

    memory.publish(&old.id).unwrap();
    assert_eq!(memory.pending_bytes(), other_size);
    assert_eq!(memory.committed_bytes(), old_size);
    assert_eq!(memory.get(&old.id, NOW), Some(&old));
}

#[test]
fn delete_makes_memory_response_unreferenceable() {
    let mut store = ResponseStoreHandle::memory(2, 720);
    insert(&mut store, "resp_delete", history("delete me"), NOW);
    store.delete("resp_delete");
    assert!(store.get("resp_delete", NOW).is_none());
    assert_eq!(store.memory.len(), 0);
}

#[test]
fn size_is_that_of_the_json_text() {
    let record = StoredResponse {
        id: "r".to_string(),
        requested_model: "a".to_string(),
        served_model: "b".to_string(),
        history: history("é"),
        created_at: -1,
        expires_at: 10,
    };
    let text = r#"{"id":"r","requested_model":"a","served_model":"b","history":[{"type":"message","role":"user","content":[{"type":"input_text","text":"é"}]}],"created_at":-1,"expires_at":10}"#;
    assert_eq!(record.to_text().as_deref(), Some(text));
    assert_eq!(serialized_size(&record).unwrap(), text.len());
    let parsed = Json::parse(text).expect("json");
    assert_eq!(StoredResponse::from_json(&parsed), Some(record.clone()));
    assert_eq!(StoredResponse::from_json(&record.to_json()), Some(record));
    assert_eq!(StoredResponse::from_json(&Json::Null), None);
}

#[test]
fn least_recently_read_leaves_first() {
    let mut store = ResponseStoreHandle::memory(2, 720);
    insert(&mut store, "a", history("a"), NOW);
    insert(&mut store, "b", history("b"), NOW);
    assert!(store.get("a", NOW).is_some());
    insert(&mut store, "c", history("c"), NOW);
    assert!(store.get("b", NOW).is_none());
    assert!(store.get("a", NOW).is_some());
    assert!(store.get("c", NOW).is_some());
}

#[test]
fn expired_response_is_gone() {
    let mut store = ResponseStoreHandle::memory(2, 1);
    insert(&mut store, "a", history("a"), NOW);
    assert!(store.get("a", NOW + 3599).is_some());
    assert!(store.get("a", NOW + 3600).is_none());
    assert_eq!(store.memory.len(), 0);
    assert_eq!(store.memory.committed_bytes(), 0);
}

#[test]
fn pending_capacity_and_unknown_publish_are_refused() {
    let mut store = ResponseStoreHandle::memory(1, 720);
    let prepare = |store: &mut ResponseStoreHandle, id: &str| {
        store.prepare(
            id.to_string(),
            "m".to_string(),
            "m".to_string(),
            history("x"),
            NOW,
            NOW,
        )
    };
    prepare(&mut store, "first").unwrap();
    let error = prepare(&mut store, "second").expect_err("full");
    assert_eq!(error.0, "too many response-state writes are pending");
    prepare(&mut store, "first").unwrap();
    let error = store.publish("second").expect_err("unknown");
    assert_eq!(error.0, "prepared response state was not found");
    store.publish("first").unwrap();
    assert!(store.get("first", NOW).is_some());
}

#[test]
fn cache_follows_the_database() {
    let mut store = ResponseStoreHandle::memory(2, 720);
    let record = store.record(
        "a".to_string(),
        "m".to_string(),
        "m".to_string(),
        history_with_id("item", "x"),
        NOW,
        NOW,
    );
    store.follow("a", Some(record), NOW);
    assert!(store.get("a", NOW).is_some());
    assert!(store.find_item("item", NOW).is_some());
    store.follow("a", None, NOW);
    assert!(store.get("a", NOW).is_none());
}

#[test]
fn schema_steps_and_limits() {
    assert_eq!(schema_step(None), SchemaStep::Stamp);
    assert_eq!(schema_step(Some(1)), SchemaStep::RebuildItemIndex);
    assert_eq!(schema_step(Some(2)), SchemaStep::RebuildItemIndex);
    assert_eq!(schema_step(Some(3)), SchemaStep::AddCommittedState);
    assert_eq!(schema_step(Some(4)), SchemaStep::Nothing);
    assert_eq!(schema_step(Some(5)), SchemaStep::Refuse);
    assert_eq!(row_limit(0), 1);
    assert_eq!(row_limit(7), 7);
    assert!(pending_is_full(1, 0));
    assert!(!pending_is_full(1, 2));
    assert_eq!(next_access_stamp(None), 1);
    assert_eq!(next_access_stamp(Some(41)), 42);
    assert_eq!(next_access_stamp(Some(i64::MAX)), i64::MAX);
    assert_eq!(retention_seconds(0), 3600);
    assert_eq!(retention_seconds(720), 2_592_000);
    assert_eq!(retention_seconds(u64::MAX), i64::MAX);
    assert_eq!(epoch_seconds(None), 0);
    assert_eq!(epoch_seconds(Some(u64::MAX)), i64::MAX);
}

#[test]
fn only_items_with_an_id_are_indexed() {
    let mut items = history("x");
    items.extend(history_with_id("one", "y"));
    items.push(ResponseItem::ItemReference {
        id: "two".to_string(),
    });
    assert_eq!(indexed_item_ids(&items), vec!["one", "two"]);
}

fn row(id: &str, expires_at: i64, last_access: i64, committed: bool) -> Row {
    Row {
        id: id.to_string(),
        expires_at,
        last_access,
        committed,
    }
}

#[test]
fn expired_and_least_recently_used_rows_leave() {
    let rows = vec![
        row("a", 100, 3, true),
        row("b", 100, 1, true),
        row("c", 10, 9, true),
        row("d", 100, 1, true),
        row("e", 100, 0, false),
    ];
    assert_eq!(
        rows_to_prune(&rows, 50, 2, true),
        vec![false, true, true, false, false]
    );
    assert_eq!(
        rows_to_prune(&rows, 50, 3, true),
        vec![false, false, true, false, false]
    );
    assert_eq!(
        rows_to_prune(&rows, 10, 1, false),
        vec![false, false, true, false, false]
    );
}

#[test]
fn one_row_may_always_stay() {
    let rows = vec![row("x", 9, 1, false), row("y", 9, 2, false)];
    assert_eq!(rows_to_prune(&rows, 1, 0, false), vec![true, false]);
}

#[test]
fn stored_response_is_read_back_from_its_text() {
    let item = |text: &str| {
        ResponseItem::from_json(&Json::parse(text).expect("json")).expect("item")
    };
    let record = StoredResponse {
        id: "resp_\"1\"\n".to_string(),
        requested_model: "requested".to_string(),
        served_model: "served \u{1F600}".to_string(),
        history: vec![
            item(
                r#"{"type":"message","id":"m","role":"user","content":[{"type":"input_text","text":"a\u0001b"},
                    {"type":"vendor","z":1,"a":[-2,{"k":null}]}]}"#,
            ),
            item(
                r#"{"type":"local_shell_call","call_id":"c","status":"completed",
                    "action":{"type":"exec","command":["ls","-l"],"timeout_ms":5,"env":{"B":"2","A":"1"}}}"#,
            ),
            item(
                r#"{"type":"reasoning","id":"r","summary":[{"type":"summary_text","text":"s"}],
                    "content":[{"type":"text","text":"t"}],"encrypted_content":"e"}"#,
            ),
            item(
                r#"{"type":"web_search_call","id":"w","status":"completed",
                    "action":{"type":"search","query":"q","queries":["q"],"sources":[{"url":"u"}]}}"#,
            ),
            item(r#"{"type":"function_call_output","call_id":"c","output":"done"}"#),
        ],
        created_at: -3,
        expires_at: i64::MAX,
    };
    let text = record.to_text().expect("text");
    assert!(text.starts_with(r#"{"id":"resp_\"1\"\n","requested_model":"requested","served_model""#));
    let read = StoredResponse::from_json(&Json::parse(&text).expect("json")).expect("record");
    assert_eq!(read, record);
    assert!(StoredResponse::from_json(&Json::parse(r#"{"id":"x"}"#).expect("json")).is_none());
}

#[test]
fn record_may_give_its_fields_by_position() {
    let read = |text: &str| StoredResponse::from_json(&Json::parse(text).expect("json"));
    let record = read(r#"["r","a","b",[],1,2]"#).expect("record");
    assert_eq!((record.id.as_str(), record.created_at, record.expires_at), ("r", 1, 2));
    assert!(read(r#"["r","a","b",[],1]"#).is_none());
}
