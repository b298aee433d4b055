use llmconduit::json::Json;
use llmconduit::models::responses::ContentItem;
use llmconduit::models::responses::ResponseItem;
use llmconduit::replay::digest_payload;
use llmconduit::replay::hash_visible_history;
use llmconduit::replay::ReplayRecord;
use llmconduit::replay::ReplayStore;

fn user_msg(text: &str) -> ResponseItem {
    ResponseItem::Message {
        id: None,
        role: "user".to_string(),
        content: vec![ContentItem::InputText {
            text: text.to_string(),
        }],
        phase: None,
    }
}

fn record(history: Vec<ResponseItem>) -> ReplayRecord {
    ReplayRecord {
        model: "m".to_string(),
        instructions: "i".to_string(),
        visible_history: history,
        internal_messages: vec![],
    }
}

#[test]
fn longest_prefix_match_partial() {
    let mut store = ReplayStore::new();
    let history = vec![user_msg("a"), user_msg("b"), user_msg("c")];
    store.insert(record(history.clone()));

    let mut query = history.clone();
    query.push(user_msg("d"));
    let result = store.longest_prefix_match("m", "i", &query);
    assert!(result.is_some());
    assert_eq!(result.unwrap().visible_history.len(), 3);
}

#[test]
fn hash_visible_history_deterministic() {
    let items = vec![user_msg("hello")];
    let h1 = hash_visible_history("model", "instr", &items);
    let h2 = hash_visible_history("model", "instr", &items);
    assert_eq!(h1, h2);

    let h3 = hash_visible_history("other_model", "instr", &items);
    assert_ne!(h1, h3);
}

#[test]
fn digest_is_of_the_sorted_payload() {
    let payload = r#"{"instructions":"instr","items":[{"content":[{"text":"hello","type":"input_text"}],"role":"user","type":"message"}],"model":"model"}"#;
    assert_eq!(
        hash_visible_history("model", "instr", &vec![user_msg("hello")]),
        digest_payload(Some(payload.to_string()))
    );
    let value = Json::parse(payload).expect("json");
    assert_eq!(value.render().as_deref(), Some(payload));
}

#[test]
fn digest_of_nothing_is_that_of_no_bytes() {
    assert_eq!(
        digest_payload(None),
        "e3b0c44298fc1c149afbf4c8996fb92427ae41e4649b934ca495991b7852b855"
    );
}

#[test]
fn other_model_or_instructions_find_nothing() {
    let mut store = ReplayStore::new();
    store.insert(record(vec![user_msg("a")]));
    let query = vec![user_msg("a"), user_msg("b")];
    assert!(store.longest_prefix_match("other", "i", &query).is_none());
    assert!(store.longest_prefix_match("m", "other", &query).is_none());
    assert!(store.longest_prefix_match("m", "i", &vec![]).is_none());
}

#[test]
fn later_record_takes_the_place_of_an_equal_one() {
    let mut store = ReplayStore::new();
    store.insert(record(vec![user_msg("a")]));
    store.insert(record(vec![]));
    let mut again = record(vec![user_msg("a")]);
    again.internal_messages = vec![llmconduit::models::chat::ChatMessage {
        role: "user".to_string(),
        content: None,
        tool_call_id: None,
        name: None,
        reasoning_content: None,
        thinking: None,
        tool_calls: None,
    }];
    store.insert(again);
    let found = store
        .longest_prefix_match("m", "i", &vec![user_msg("a")])
        .expect("found");
    assert_eq!(found.internal_messages.len(), 1);
    let shorter = store
        .longest_prefix_match("m", "i", &vec![user_msg("z")])
        .expect("the empty history matches");
    assert!(shorter.visible_history.is_empty());
}
