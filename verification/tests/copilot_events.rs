use universal_agent_schema::copilot::event_to_universal;
use universal_agent_schema::json::{JsonNumber, JsonValue};
use universal_agent_schema::schema::{ContentPart, ItemKind, UniversalEventData, UniversalEventType};
use universal_agent_schema::temp_id::TempIdCounter;

fn s(text: &str) -> JsonValue {
    JsonValue::String(text.to_string())
}

fn num(n: u64) -> JsonValue {
    JsonValue::Number(JsonNumber::PosInt(n))
}

fn obj(entries: Vec<(&str, JsonValue)>) -> JsonValue {
    JsonValue::Object(entries.into_iter().map(|(k, v)| (k.to_string(), v)).collect())
}

fn arr(items: Vec<JsonValue>) -> JsonValue {
    JsonValue::Array(items)
}

fn event(event_type: &str, data: JsonValue, id: &str, timestamp: &str) -> JsonValue {
    obj(vec![
        ("type", s(event_type)),
        ("data", data),
        ("id", s(id)),
        ("timestamp", s(timestamp)),
        ("parentId", JsonValue::Null),
    ])
}

#[test]
fn test_session_start() {
    let event = event(
        "session.start",
        obj(vec![
            ("sessionId", s("test-session-123")),
            ("version", num(1)),
            ("producer", s("copilot-agent")),
            ("copilotVersion", s("0.0.401-1")),
            ("startTime", s("2026-02-03T00:00:00Z")),
        ]),
        "event-1",
        "2026-02-03T00:00:00Z",
    );

    let conversions = event_to_universal(&event, &mut TempIdCounter::new()).unwrap();
    assert_eq!(conversions.len(), 1);
    assert_eq!(conversions[0].event_type, UniversalEventType::SessionStarted);
    assert_eq!(conversions[0].native_session_id, Some("test-session-123".to_string()));
}

#[test]
fn test_user_message() {
    let event = event(
        "user.message",
        obj(vec![("content", s("Hello, world!"))]),
        "event-2",
        "2026-02-03T00:00:01Z",
    );

    let conversions = event_to_universal(&event, &mut TempIdCounter::new()).unwrap();
    assert_eq!(conversions.len(), 1);
    assert_eq!(conversions[0].event_type, UniversalEventType::ItemCompleted);
}

#[test]
fn test_assistant_message_with_tools() {
    let event = event(
        "assistant.message",
        obj(vec![
            ("messageId", s("msg-1")),
            ("content", s("")),
            (
                "toolRequests",
                arr(vec![obj(vec![
                    ("toolCallId", s("tool-1")),
                    ("name", s("view")),
                    ("arguments", obj(vec![("path", s("/home/user"))])),
                    ("type", s("function")),
                ])]),
            ),
        ]),
        "event-3",
        "2026-02-03T00:00:02Z",
    );

    let conversions = event_to_universal(&event, &mut TempIdCounter::new()).unwrap();
    assert_eq!(conversions.len(), 1);
    assert_eq!(conversions[0].event_type, UniversalEventType::ItemCompleted);
}

#[test]
fn test_tool_execution() {
    let mut ids = TempIdCounter::new();
    let start_event = event(
        "tool.execution_start",
        obj(vec![
            ("toolCallId", s("tool-1")),
            ("toolName", s("view")),
            ("arguments", obj(vec![("path", s("/home/user"))])),
        ]),
        "event-4",
        "2026-02-03T00:00:03Z",
    );

    let conversions = event_to_universal(&start_event, &mut ids).unwrap();
    assert_eq!(conversions.len(), 1);
    assert_eq!(conversions[0].event_type, UniversalEventType::ItemStarted);

    let complete_event = event(
        "tool.execution_complete",
        obj(vec![
            ("toolCallId", s("tool-1")),
            ("success", JsonValue::Bool(true)),
            ("result", obj(vec![("content", s("file1\nfile2"))])),
        ]),
        "event-5",
        "2026-02-03T00:00:04Z",
    );

    let conversions = event_to_universal(&complete_event, &mut ids).unwrap();
    assert_eq!(conversions.len(), 1);
    assert_eq!(conversions[0].event_type, UniversalEventType::ItemCompleted);
}

#[test]
fn test_session_error() {
    let event = event(
        "session.error",
        obj(vec![("errorType", s("api_error")), ("message", s("Something went wrong"))]),
        "event-6",
        "2026-02-03T00:00:05Z",
    );

    let conversions = event_to_universal(&event, &mut TempIdCounter::new()).unwrap();
    assert_eq!(conversions.len(), 1);
    assert_eq!(conversions[0].event_type, UniversalEventType::Error);
}

#[test]
fn test_user_message_with_attachments() {
    let event = event(
        "user.message",
        obj(vec![
            ("content", s("Check this file")),
            (
                "transformedContent",
                s("<current_datetime>...</current_datetime>\n\nCheck this file"),
            ),
            (
                "attachments",
                arr(vec![obj(vec![
                    ("type", s("file")),
                    ("path", s("/home/user/test.rs")),
                    ("displayName", s("test.rs")),
                ])]),
            ),
        ]),
        "event-7",
        "2026-02-03T00:00:06Z",
    );

    let conversions = event_to_universal(&event, &mut TempIdCounter::new()).unwrap();
    assert_eq!(conversions.len(), 1);
    if let UniversalEventData::Item(ref item_data) = conversions[0].data {
        // Should have text + file attachment
        assert_eq!(item_data.item.content.len(), 2);
    } else {
        panic!("Expected Item data");
    }
}

#[test]
fn test_assistant_message_with_parent() {
    let event = event(
        "assistant.message",
        obj(vec![
            ("messageId", s("msg-2")),
            ("content", s("Subagent response")),
            ("parentToolCallId", s("parent-tool-1")),
        ]),
        "event-8",
        "2026-02-03T00:00:07Z",
    );

    let conversions = event_to_universal(&event, &mut TempIdCounter::new()).unwrap();
    assert_eq!(conversions.len(), 1);
    if let UniversalEventData::Item(ref item_data) = conversions[0].data {
        assert_eq!(item_data.item.parent_id, Some("parent-tool-1".to_string()));
    } else {
        panic!("Expected Item data");
    }
}

#[test]
fn test_assistant_message_with_reasoning() {
    let event = event(
        "assistant.message",
        obj(vec![
            ("messageId", s("msg-3")),
            ("content", s("Here's the answer")),
            ("reasoningText", s("I need to think about this...")),
        ]),
        "event-9",
        "2026-02-03T00:00:08Z",
    );

    let conversions = event_to_universal(&event, &mut TempIdCounter::new()).unwrap();
    assert_eq!(conversions.len(), 1);
    if let UniversalEventData::Item(ref item_data) = conversions[0].data {
        // Should have reasoning + text
        assert_eq!(item_data.item.content.len(), 2);
    } else {
        panic!("Expected Item data");
    }
}

#[test]
fn test_missing_event_types() {
    // Event types that must all be handled
    let events = vec![
        event("session.import_legacy", obj(vec![]), "1", "2026-02-03T00:00:00Z"),
        event("session.snapshot_rewind", obj(vec![]), "2", "2026-02-03T00:00:00Z"),
        event(
            "session.shutdown",
            obj(vec![("shutdownType", s("normal"))]),
            "3",
            "2026-02-03T00:00:00Z",
        ),
        event(
            "skill.invoked",
            obj(vec![("name", s("test-skill")), ("path", s("/skills/test"))]),
            "4",
            "2026-02-03T00:00:00Z",
        ),
    ];

    let mut ids = TempIdCounter::new();
    for event in events {
        let result = event_to_universal(&event, &mut ids);
        assert!(result.is_ok(), "Event type {:?} should be handled", event.get("type"));
    }
}

#[test]
fn test_subagent_events() {
    let started = event(
        "subagent.started",
        obj(vec![
            ("toolCallId", s("tool-123")),
            ("agentName", s("explore")),
            ("agentDisplayName", s("Explore Agent")),
            ("agentDescription", s("Explores the codebase")),
        ]),
        "1",
        "2026-02-03T00:00:00Z",
    );

    let conversions = event_to_universal(&started, &mut TempIdCounter::new()).unwrap();
    assert_eq!(conversions.len(), 1);
    if let UniversalEventData::Item(ref item_data) = conversions[0].data {
        // Check that the detail contains all the important info
        if let ContentPart::Status { ref detail, .. } = item_data.item.content[0] {
            let d = detail.as_ref().unwrap();
            assert!(d.contains("Explore Agent"));
            assert!(d.contains("explore"));
            assert!(d.contains("tool-123"));
        }
    }
}

#[test]
fn test_system_message_with_role() {
    let event = event(
        "system.message",
        obj(vec![
            ("content", s("System prompt content")),
            ("role", s("developer")),
            ("name", s("custom_instructions")),
        ]),
        "1",
        "2026-02-03T00:00:00Z",
    );

    let conversions = event_to_universal(&event, &mut TempIdCounter::new()).unwrap();
    assert_eq!(conversions.len(), 1);
    if let UniversalEventData::Item(ref item_data) = conversions[0].data {
        assert_eq!(item_data.item.kind, ItemKind::System);
        assert!(item_data.item.item_id.contains("custom_instructions"));
    }
}
