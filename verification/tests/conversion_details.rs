use universal_agent_schema::copilot::event_to_universal;
use universal_agent_schema::json::{to_json_text, JsonNumber, JsonValue};
use universal_agent_schema::schema::{
    ContentPart, EventConversion, FileAction, ItemKind, ItemRole, ItemStatus, UniversalEventData,
    UniversalEventType, UniversalItem,
};
use universal_agent_schema::temp_id::{next_temp_id, TempIdCounter};

fn s(text: &str) -> JsonValue {
    JsonValue::String(text.to_string())
}

fn num(n: u64) -> JsonValue {
    JsonValue::Number(JsonNumber::PosInt(n))
}

fn obj(entries: Vec<(&str, JsonValue)>) -> JsonValue {
    JsonValue::Object(entries.into_iter().map(|(k, v)| (k.to_string(), v)).collect())
}

fn arr(items: Vec<JsonValue>) -> JsonValue {
    JsonValue::Array(items)
}

fn event(event_type: &str, data: JsonValue) -> JsonValue {
    obj(vec![("type", s(event_type)), ("data", data)])
}

fn convert(ev: &JsonValue) -> Vec<EventConversion> {
    event_to_universal(ev, &mut TempIdCounter::new()).unwrap()
}

fn item(c: &EventConversion) -> &UniversalItem {
    match c.data {
        UniversalEventData::Item(ref d) => &d.item,
        _ => panic!("expected an item"),
    }
}

fn status_detail(c: &EventConversion) -> (String, Option<String>) {
    match item(c).content[0] {
        ContentPart::Status { ref label, ref detail } => (label.clone(), detail.clone()),
        _ => panic!("expected a status part"),
    }
}

#[test]
fn temp_ids_count_up_from_one() {
    let mut ids = TempIdCounter::new();
    assert_eq!(next_temp_id(&mut ids, "copilot_status"), "copilot_status_1");
    assert_eq!(next_temp_id(&mut ids, "copilot_tool"), "copilot_tool_2");
    assert_eq!(ids.next, 3);
}

#[test]
fn temp_id_counter_wraps_around() {
    let mut ids = TempIdCounter { next: u64::MAX };
    assert_eq!(next_temp_id(&mut ids, "x"), "x_18446744073709551615");
    assert_eq!(next_temp_id(&mut ids, "x"), "x_0");
}

#[test]
fn successive_status_items_have_distinct_ids() {
    let mut ids = TempIdCounter::new();
    let a = event_to_universal(&event("session.idle", obj(vec![])), &mut ids).unwrap();
    let b = event_to_universal(&event("session.idle", obj(vec![])), &mut ids).unwrap();
    assert_eq!(item(&a[0]).item_id, "copilot_status_1");
    assert_eq!(item(&b[0]).item_id, "copilot_status_2");
    assert_ne!(item(&a[0]).item_id, item(&b[0]).item_id);
}

#[test]
fn status_event_shape() {
    let cs = convert(&event("session.idle", obj(vec![])));
    assert_eq!(cs.len(), 1);
    assert_eq!(cs[0].event_type, UniversalEventType::ItemCompleted);
    let it = item(&cs[0]);
    assert_eq!(it.kind, ItemKind::Status);
    assert_eq!(it.role, None);
    assert_eq!(it.status, ItemStatus::Completed);
    assert_eq!(status_detail(&cs[0]), ("session.idle".to_string(), None));
}

#[test]
fn session_info_detail() {
    let cs = convert(&event(
        "session.info",
        obj(vec![("infoType", s("notice")), ("message", s("hello"))]),
    ));
    assert_eq!(status_detail(&cs[0]).1, Some("notice: hello".to_string()));
}

#[test]
fn model_change_defaults() {
    let cs = convert(&event("session.model_change", obj(vec![])));
    assert_eq!(status_detail(&cs[0]).1, Some("none -> unknown".to_string()));
    let cs = convert(&event(
        "session.model_change",
        obj(vec![("previousModel", s("a")), ("newModel", s("b"))]),
    ));
    assert_eq!(status_detail(&cs[0]).1, Some("a -> b".to_string()));
}

#[test]
fn compaction_and_shutdown_details() {
    let cs = convert(&event("session.compaction_complete", obj(vec![("success", JsonValue::Bool(true))])));
    assert_eq!(status_detail(&cs[0]).1, Some("success".to_string()));
    let cs = convert(&event("session.compaction_complete", obj(vec![])));
    assert_eq!(status_detail(&cs[0]).1, Some("failed".to_string()));
    let cs = convert(&event("session.shutdown", obj(vec![])));
    assert_eq!(status_detail(&cs[0]).1, Some("unknown".to_string()));
}

#[test]
fn usage_detail_formats_token_counts() {
    let cs = convert(&event(
        "assistant.usage",
        obj(vec![("model", s("gpt-5")), ("inputTokens", num(1234)), ("outputTokens", num(0))]),
    ));
    assert_eq!(status_detail(&cs[0]).1, Some("gpt-5: 1234in/0out".to_string()));
    let cs = convert(&event(
        "assistant.usage",
        obj(vec![("inputTokens", JsonValue::Number(JsonNumber::NegInt(-3)))]),
    ));
    assert_eq!(status_detail(&cs[0]).1, Some("unknown: 0in/0out".to_string()));
}

#[test]
fn turn_and_progress_details() {
    let cs = convert(&event("assistant.turn_start", obj(vec![("turnId", s("0"))])));
    assert_eq!(status_detail(&cs[0]), ("assistant.turn_start".to_string(), Some("0".to_string())));
    let cs = convert(&event("assistant.turn_end", obj(vec![])));
    assert_eq!(status_detail(&cs[0]), ("assistant.turn_end".to_string(), None));
    let cs = convert(&event("tool.execution_progress", obj(vec![("progressMessage", s("50%"))])));
    assert_eq!(status_detail(&cs[0]), ("tool.progress".to_string(), Some("50%".to_string())));
}

#[test]
fn subagent_details() {
    let data = obj(vec![
        ("toolCallId", s("t1")),
        ("agentName", s("explore")),
        ("agentDisplayName", s("Explore Agent")),
        ("error", s("boom")),
    ]);
    let cs = convert(&event("subagent.started", data.clone()));
    assert_eq!(status_detail(&cs[0]).1, Some("Explore Agent (explore) [t1]".to_string()));
    let cs = convert(&event("subagent.completed", data.clone()));
    assert_eq!(status_detail(&cs[0]).1, Some("explore [t1]".to_string()));
    let cs = convert(&event("subagent.failed", data));
    assert_eq!(status_detail(&cs[0]).1, Some("explore [t1]: boom".to_string()));
}

#[test]
fn subagent_selected_tools() {
    let with = |tools: Option<JsonValue>| {
        let mut entries = vec![("agentDisplayName", s("Explore Agent")), ("agentName", s("explore"))];
        if let Some(t) = tools {
            entries.push(("tools", t));
        }
        let cs = convert(&event("subagent.selected", obj(entries)));
        status_detail(&cs[0]).1.unwrap()
    };
    assert_eq!(with(Some(arr(vec![s("view"), num(1), s("edit")]))), "Explore Agent (explore) tools=[view, edit]");
    assert_eq!(with(Some(arr(vec![]))), "Explore Agent (explore) tools=[]");
    assert_eq!(with(Some(JsonValue::Null)), "Explore Agent (explore) tools=[*]");
    assert_eq!(with(None), "Explore Agent (explore) tools=[*]");
    assert_eq!(with(Some(s("all"))), "Explore Agent (explore) tools=[?]");
}

#[test]
fn skill_invoked_detail() {
    let cs = convert(&event("skill.invoked", obj(vec![("name", s("lint")), ("path", s("/skills/lint"))])));
    assert_eq!(status_detail(&cs[0]).1, Some("lint (/skills/lint)".to_string()));
}

#[test]
fn unsupported_type_is_refused() {
    let mut ids = TempIdCounter::new();
    let r = event_to_universal(&event("foo.bar", obj(vec![])), &mut ids);
    assert_eq!(r.unwrap_err(), "unsupported Copilot event type: foo.bar");
    assert_eq!(ids.next, 1);
    let r = event_to_universal(&obj(vec![("data", obj(vec![]))]), &mut ids);
    assert_eq!(r.unwrap_err(), "unsupported Copilot event type: ");
    let r = event_to_universal(&obj(vec![("type", num(3))]), &mut ids);
    assert_eq!(r.unwrap_err(), "unsupported Copilot event type: ");
}

#[test]
fn ignored_event_types_give_nothing() {
    assert!(convert(&event("pending_messages.modified", obj(vec![]))).is_empty());
    assert!(convert(&event("hook.start", obj(vec![]))).is_empty());
    assert!(convert(&event("hook.end", obj(vec![]))).is_empty());
}

#[test]
fn every_event_carries_the_raw_event() {
    let ev = event("session.truncation", obj(vec![("x", num(7))]));
    let cs = convert(&ev);
    assert_eq!(to_json_text(cs[0].raw.as_ref().unwrap()), to_json_text(&ev));
}

#[test]
fn synthetic_events() {
    let resumed = convert(&event("session.resume", obj(vec![])));
    assert!(resumed[0].synthetic);
    assert_eq!(resumed[0].event_type, UniversalEventType::SessionStarted);
    let requested = convert(&event("tool.user_requested", obj(vec![("toolCallId", s("t"))])));
    assert!(requested[0].synthetic);
    let started = convert(&event("tool.execution_start", obj(vec![("toolCallId", s("t"))])));
    assert!(!started[0].synthetic);
    let begun = convert(&event("session.start", obj(vec![])));
    assert!(!begun[0].synthetic);
    assert_eq!(begun[0].native_session_id, None);
}

#[test]
fn session_error_defaults() {
    let cs = convert(&event("session.error", obj(vec![])));
    match cs[0].data {
        UniversalEventData::Error(ref e) => {
            assert_eq!(e.message, "Unknown error");
            assert_eq!(e.code, None);
            assert_eq!(to_json_text(e.details.as_ref().unwrap()), "{}");
        }
        _ => panic!("expected an error"),
    }
}

#[test]
fn abort_becomes_an_error() {
    let ev = event("abort", obj(vec![]));
    let cs = convert(&ev);
    assert_eq!(cs[0].event_type, UniversalEventType::Error);
    match cs[0].data {
        UniversalEventData::Error(ref e) => {
            assert_eq!(e.message, "aborted");
            assert_eq!(e.code, None);
            assert_eq!(to_json_text(e.details.as_ref().unwrap()), to_json_text(&ev));
        }
        _ => panic!("expected an error"),
    }
    let cs = convert(&event("abort", obj(vec![("reason", s("user cancelled"))])));
    match cs[0].data {
        UniversalEventData::Error(ref e) => assert_eq!(e.message, "user cancelled"),
        _ => panic!("expected an error"),
    }
}

#[test]
fn deltas_name_their_item() {
    let cs = convert(&event(
        "assistant.message_delta",
        obj(vec![("messageId", s("m1")), ("deltaContent", s("Hel"))]),
    ));
    assert_eq!(cs[0].event_type, UniversalEventType::ItemDelta);
    match cs[0].data {
        UniversalEventData::ItemDelta(ref d) => {
            assert_eq!(d.item_id, "m1");
            assert_eq!(d.native_item_id, Some("m1".to_string()));
            assert_eq!(d.delta, "Hel");
        }
        _ => panic!("expected a delta"),
    }
    let cs = convert(&event("assistant.reasoning_delta", obj(vec![])));
    match cs[0].data {
        UniversalEventData::ItemDelta(ref d) => {
            assert_eq!(d.item_id, "");
            assert_eq!(d.native_item_id, Some(String::new()));
            assert_eq!(d.delta, "");
        }
        _ => panic!("expected a delta"),
    }
    let cs = convert(&event(
        "tool.execution_partial_result",
        obj(vec![("toolCallId", s("t9")), ("partialOutput", s("line"))]),
    ));
    match cs[0].data {
        UniversalEventData::ItemDelta(ref d) => {
            assert_eq!(d.item_id, "t9");
            assert_eq!(d.delta, "line");
        }
        _ => panic!("expected a delta"),
    }
}

#[test]
fn reasoning_item() {
    let cs = convert(&event("assistant.reasoning", obj(vec![("content", s("hmm"))])));
    let it = item(&cs[0]);
    assert_eq!(it.item_id, "copilot_reasoning_1");
    assert_eq!(it.native_item_id, Some("copilot_reasoning_1".to_string()));
    assert_eq!(it.role, Some(ItemRole::Assistant));
    match it.content[0] {
        ContentPart::Reasoning { ref text, .. } => assert_eq!(text, "hmm"),
        _ => panic!("expected reasoning"),
    }
}

#[test]
fn tool_start_item() {
    let cs = convert(&event(
        "tool.execution_start",
        obj(vec![
            ("toolCallId", s("tool-1")),
            ("toolName", s("view")),
            ("arguments", obj(vec![("path", s("/home/user"))])),
            ("parentToolCallId", s("p1")),
        ]),
    ));
    let it = item(&cs[0]);
    assert_eq!(it.item_id, "tool-1");
    assert_eq!(it.native_item_id, Some("tool-1".to_string()));
    assert_eq!(it.parent_id, Some("p1".to_string()));
    assert_eq!(it.kind, ItemKind::ToolCall);
    assert_eq!(it.status, ItemStatus::InProgress);
    match it.content[0] {
        ContentPart::ToolCall { ref name, ref arguments, ref call_id } => {
            assert_eq!(name, "view");
            assert_eq!(arguments, "{\"path\":\"/home/user\"}");
            assert_eq!(call_id, "tool-1");
        }
        _ => panic!("expected a tool call"),
    }
    let cs = convert(&event("tool.execution_start", obj(vec![])));
    let it = item(&cs[0]);
    assert_eq!(it.item_id, "copilot_tool_1");
    match it.content[0] {
        ContentPart::ToolCall { ref name, ref arguments, .. } => {
            assert_eq!(name, "unknown");
            assert_eq!(arguments, "null");
        }
        _ => panic!("expected a tool call"),
    }
}

fn tool_output(data: JsonValue) -> (UniversalItem, String) {
    let mut cs = convert(&event("tool.execution_complete", data));
    let c = cs.remove(0);
    let it = match c.data {
        UniversalEventData::Item(d) => d.item,
        _ => panic!("expected an item"),
    };
    let out = match it.content[0] {
        ContentPart::ToolResult { ref output, .. } => output.clone(),
        _ => panic!("expected a tool result"),
    };
    (it, out)
}

#[test]
fn tool_complete_outputs() {
    let (it, out) = tool_output(obj(vec![
        ("toolCallId", s("t1")),
        ("success", JsonValue::Bool(true)),
        ("result", obj(vec![("content", s("short")), ("detailedContent", s("long"))])),
    ]));
    assert_eq!(out, "long");
    assert_eq!(it.status, ItemStatus::Completed);
    assert_eq!(it.item_id, "copilot_result_1");
    assert_eq!(it.native_item_id, Some("t1".to_string()));
    assert_eq!(it.role, Some(ItemRole::Tool));

    let (_, out) = tool_output(obj(vec![("success", JsonValue::Bool(true))]));
    assert_eq!(out, "");

    let (it, out) = tool_output(obj(vec![
        ("toolCallId", s("t1")),
        ("success", JsonValue::Bool(false)),
        ("error", obj(vec![("message", s("boom")), ("code", s("E42"))])),
    ]));
    assert_eq!(out, "[E42] boom");
    assert_eq!(it.status, ItemStatus::Failed);

    let (it, out) = tool_output(obj(vec![]));
    assert_eq!(out, "Tool execution failed");
    assert_eq!(it.native_item_id, Some("copilot_tool_1".to_string()));
    assert_eq!(it.item_id, "copilot_result_2");
}

#[test]
fn system_message_ids() {
    let cs = convert(&event("system.message", obj(vec![("content", s("be nice"))])));
    let it = item(&cs[0]);
    assert_eq!(it.item_id, "copilot_system_1");
    assert_eq!(it.role, Some(ItemRole::System));
    let cs = convert(&event("system.message", obj(vec![("name", s("x")), ("role", s("system"))])));
    assert_eq!(item(&cs[0]).item_id, "copilot_system_x");
}

#[test]
fn user_message_parts() {
    let cs = convert(&event(
        "user.message",
        obj(vec![
            ("content", s("hi")),
            (
                "attachments",
                arr(vec![
                    obj(vec![("path", s("/a.rs"))]),
                    obj(vec![("displayName", s("no path"))]),
                    obj(vec![("path", s("/b.rs")), ("type", s("folder")), ("displayName", s("b"))]),
                ]),
            ),
        ]),
    ));
    let it = item(&cs[0]);
    assert_eq!(it.item_id, "copilot_user_1");
    assert_eq!(it.role, Some(ItemRole::User));
    assert_eq!(it.content.len(), 3);
    match it.content[0] {
        ContentPart::Text { ref text } => assert_eq!(text, "hi"),
        _ => panic!("expected text"),
    }
    match it.content[1] {
        ContentPart::FileRef { ref path, action, ref diff } => {
            assert_eq!(path, "/a.rs");
            assert_eq!(action, FileAction::Read);
            assert_eq!(diff.as_deref(), Some("[file: /a.rs]"));
        }
        _ => panic!("expected a file reference"),
    }
    match it.content[2] {
        ContentPart::FileRef { ref diff, .. } => assert_eq!(diff.as_deref(), Some("[folder: b]")),
        _ => panic!("expected a file reference"),
    }
}

#[test]
fn assistant_message_cases() {
    let mut ids = TempIdCounter::new();
    let none = event_to_universal(&event("assistant.message", obj(vec![("content", s(""))])), &mut ids).unwrap();
    assert!(none.is_empty());
    // The fresh message id is drawn even when nothing is produced.
    assert_eq!(ids.next, 2);

    let only_reasoning = convert(&event("assistant.message", obj(vec![("reasoningText", s(""))])));
    assert_eq!(only_reasoning.len(), 1);
    assert_eq!(item(&only_reasoning[0]).content.len(), 0);

    let cs = convert(&event(
        "assistant.message",
        obj(vec![
            ("content", s("doing it")),
            ("reasoningText", s("plan")),
            (
                "toolRequests",
                arr(vec![obj(vec![("name", s("a"))]), obj(vec![("toolCallId", s("k")), ("arguments", arr(vec![num(1)]))])]),
            ),
        ]),
    ));
    let it = item(&cs[0]);
    assert_eq!(it.item_id, "copilot_msg_1");
    assert_eq!(it.content.len(), 4);
    match it.content[2] {
        ContentPart::ToolCall { ref name, ref arguments, ref call_id } => {
            assert_eq!(name, "a");
            assert_eq!(arguments, "null");
            assert_eq!(call_id, "copilot_tool_2");
        }
        _ => panic!("expected a tool call"),
    }
    match it.content[3] {
        ContentPart::ToolCall { ref name, ref arguments, ref call_id } => {
            assert_eq!(name, "unknown");
            assert_eq!(arguments, "[1]");
            assert_eq!(call_id, "k");
        }
        _ => panic!("expected a tool call"),
    }
}

#[test]
fn json_text_matches_serde_json() {
    let mine = arr(vec![
        num(1),
        JsonValue::Number(JsonNumber::NegInt(-9223372036854775808)),
        JsonValue::Number(JsonNumber::Float("1.5".to_string())),
        JsonValue::Bool(true),
        JsonValue::Null,
        s("a\"b\\c\n\u{1}é"),
        obj(vec![("k", arr(vec![])), ("z", obj(vec![]))]),
    ]);
    let mut map = serde_json::Map::new();
    map.insert("k".to_string(), serde_json::Value::Array(vec![]));
    map.insert("z".to_string(), serde_json::Value::Object(serde_json::Map::new()));
    let theirs = serde_json::Value::Array(vec![
        serde_json::Value::from(1u64),
        serde_json::Value::from(-9223372036854775808i64),
        serde_json::Value::from(1.5f64),
        serde_json::Value::Bool(true),
        serde_json::Value::Null,
        serde_json::Value::String("a\"b\\c\n\u{1}é".to_string()),
        serde_json::Value::Object(map),
    ]);
    assert_eq!(to_json_text(&mine), serde_json::to_string(&theirs).unwrap());
    assert_eq!(to_json_text(&mine), "[1,-9223372036854775808,1.5,true,null,\"a\\\"b\\\\c\\n\\u0001é\",{\"k\":[],\"z\":{}}]");
}

#[test]
fn clone_keeps_the_value() {
    let v = obj(vec![("a", arr(vec![num(1), s("x")])), ("b", JsonValue::Null)]);
    assert_eq!(to_json_text(&v.clone()), to_json_text(&v));
}

#[test]
fn lookup_takes_the_member() {
    let v = obj(vec![("a", num(1)), ("b", s("two"))]);
    assert_eq!(v.get("b").and_then(|x| x.as_str()), Some("two"));
    assert_eq!(v.get("a").and_then(|x| x.as_u64()), Some(1));
    assert!(v.get("c").is_none());
    assert!(num(1).get("a").is_none());
    assert_eq!(JsonValue::Bool(false).as_bool(), Some(false));
    assert!(s("x").as_array().is_none());
}

#[test]
fn same_type_and_data_convert_alike() {
    let data = obj(vec![("toolCallId", s("t1")), ("toolName", s("view"))]);
    let e1 = obj(vec![("type", s("tool.execution_start")), ("data", data.clone()), ("id", s("1"))]);
    let e2 = obj(vec![("id", s("2")), ("type", s("tool.execution_start")), ("data", data)]);
    let a = convert(&e1);
    let b = convert(&e2);
    assert_eq!(a.len(), b.len());
    assert_eq!(item(&a[0]).item_id, item(&b[0]).item_id);
    assert_eq!(to_json_text(b[0].raw.as_ref().unwrap()), to_json_text(&e2));
    let a = convert(&obj(vec![("type", s("abort")), ("id", s("1"))]));
    let b = convert(&obj(vec![("type", s("abort")), ("id", s("2"))]));
    match (&a[0].data, &b[0].data) {
        (UniversalEventData::Error(x), UniversalEventData::Error(y)) => {
            assert_eq!(x.message, y.message);
            assert_eq!(to_json_text(y.details.as_ref().unwrap()), "{\"type\":\"abort\",\"id\":\"2\"}");
        }
        _ => panic!("expected errors"),
    }
}

#[test]
fn user_requested_tool_differs_only_in_synthetic() {
    let data = obj(vec![("toolCallId", s("t1")), ("toolName", s("view")), ("arguments", obj(vec![]))]);
    let a = convert(&event("tool.user_requested", data.clone()));
    let b = convert(&event("tool.execution_start", data));
    assert!(a[0].synthetic);
    assert!(!b[0].synthetic);
    assert_eq!(a[0].event_type, b[0].event_type);
    assert_eq!(item(&a[0]).item_id, item(&b[0]).item_id);
    assert_eq!(item(&a[0]).status, item(&b[0]).status);
    match (&item(&a[0]).content[0], &item(&b[0]).content[0]) {
        (
            ContentPart::ToolCall { name: n1, arguments: a1, call_id: c1 },
            ContentPart::ToolCall { name: n2, arguments: a2, call_id: c2 },
        ) => {
            assert_eq!((n1, a1, c1), (n2, a2, c2));
            assert_eq!(a1, "{}");
        }
        _ => panic!("expected tool calls"),
    }
}

#[test]
fn many_draws_never_repeat() {
    let mut ids = TempIdCounter { next: u64::MAX - 2 };
    let drawn: Vec<String> = (0..6).map(|_| next_temp_id(&mut ids, "p")).collect();
    for i in 0..drawn.len() {
        for j in (i + 1)..drawn.len() {
            assert_ne!(drawn[i], drawn[j]);
        }
    }
    assert_eq!(drawn[3], "p_0");
    assert_eq!(ids.next, 3);
}
