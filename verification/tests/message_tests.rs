use redis_watcher::{event_data_to_message, EventData, Message, UpdateType};

fn strings(items: &[&str]) -> Vec<String> {
    items.iter().map(|s| s.to_string()).collect()
}

#[test]
fn test_message_serialization() {
    let message = Message::new(UpdateType::Update, "test-id".to_string());
    let json = message.to_json().unwrap();
    let parsed = Message::from_json(&json).unwrap();
    assert_eq!(message.method, parsed.method);
    assert_eq!(message.id, parsed.id);
}

#[test]
fn test_event_data_conversion() {
    let event = EventData::AddPolicy(
        "p".to_string(),
        "p".to_string(),
        vec!["alice".to_string(), "data1".to_string(), "read".to_string()],
    );

    let message = event_data_to_message(&event, "test-id");
    assert_eq!(message.method, UpdateType::UpdateForAddPolicy);
    assert_eq!(message.sec, "p");
    assert_eq!(message.ptype, "p");
    assert_eq!(message.new_rule, vec!["alice", "data1", "read"]);
}

#[test]
fn blank_message_has_exact_wire_form() {
    let message = Message::new(UpdateType::Update, "test-id".to_string());
    assert_eq!(
        message.to_json().unwrap(),
        "{\"Method\":\"Update\",\"ID\":\"test-id\"}"
    );
}

#[test]
fn add_policy_has_exact_wire_form() {
    let event = EventData::AddPolicy("p".to_string(), "p".to_string(), strings(&["alice", "data1", "read"]));
    let message = event_data_to_message(&event, "node-1");
    assert_eq!(
        message.to_json().unwrap(),
        "{\"Method\":\"UpdateForAddPolicy\",\"ID\":\"node-1\",\"Sec\":\"p\",\"Ptype\":\"p\",\"NewRule\":[\"alice\",\"data1\",\"read\"]}"
    );
}

#[test]
fn strings_are_escaped_on_the_wire() {
    let message = Message::new(UpdateType::Update, "a\"b\\c\nd".to_string());
    let json = message.to_json().unwrap();
    assert_eq!(json, "{\"Method\":\"Update\",\"ID\":\"a\\\"b\\\\c\\nd\"}");
    let parsed = Message::from_json(&json).unwrap();
    assert_eq!(parsed.id, "a\"b\\c\nd");
}
