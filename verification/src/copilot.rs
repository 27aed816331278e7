//! Conversion of Copilot CLI session events into universal events.
//!
//! A Copilot CLI session event is a JSON object
//! `{ "id", "timestamp", "parentId", "ephemeral", "type", "data" }`; its `type`
//! selects the conversion and its `data` holds the payload. Items without an
//! identifier of their own get a fresh one from a `TempIdCounter`.

use vstd::prelude::*;
use crate::json::{
    JsonModel, JsonValue, json_text, model_str, json_vec_view, to_json_text, field_array, field_bool, field_str, field_u64, model_get, opt_json_owned_view,
};
use crate::schema::{
    FileAction,    ContentPart, ConversionModel, DataModel, ErrorData, EventConversion, ItemDeltaData,
    ItemEventData, ItemKind, ItemModel, ItemRole, ReasoningVisibility, ItemStatus, PartModel, SessionStartedData,
    UniversalEventData, UniversalEventType, UniversalItem, conversions_view, opt_str_view, parts_view,
};
use crate::temp_id::{TempIdCounter, next_temp_id, successor, temp_id};
use crate::text::{decimal, push_decimal, str_eq};

verus! {

// ---------------------------------------------------------------------------
// Reading the payload
// ---------------------------------------------------------------------------

/// `o`, or `d` where it is absent.
pub open spec fn str_or(o: Option<Seq<char>>, d: Seq<char>) -> Seq<char> {
    match o {
        Some(s) => s,
        None => d,
    }
}

/// The member `key` of `m`, or JSON null where it is absent.
pub open spec fn field_or_null(m: JsonModel, key: Seq<char>) -> JsonModel {
    match model_get(m, key) {
        Some(v) => v,
        None => JsonModel::Null,
    }
}

/// An identifier given by the agent, or else a fresh one made from `prefix` and
/// the counter `n`; with the counter afterwards.
pub open spec fn id_or_temp(o: Option<Seq<char>>, prefix: Seq<char>, n: u64) -> (Seq<char>, u64) {
    match o {
        Some(s) => (s, n),
        None => (temp_id(prefix, n), successor(n)),
    }
}

/// The characters of an optional string slice.
pub open spec fn opt_slice_view(o: Option<&str>) -> Option<Seq<char>> {
    match o {
        Some(s) => Some(s@),
        None => None,
    }
}

fn get_str<'a>(v: &'a JsonValue, key: &str) -> (r: Option<&'a str>)
    ensures
        opt_slice_view(r) == field_str(v@, key@),
{
    match v.get(key) {
        Some(x) => x.as_str(),
        None => None,
    }
}

fn get_str_or<'a>(v: &'a JsonValue, key: &str, default: &'a str) -> (r: &'a str)
    ensures
        r@ == str_or(field_str(v@, key@), default@),
{
    match get_str(v, key) {
        Some(s) => s,
        None => default,
    }
}

fn get_string(v: &JsonValue, key: &str) -> (r: Option<String>)
    ensures
        opt_str_view(r) == field_str(v@, key@),
{
    match get_str(v, key) {
        Some(s) => Some(s.to_owned()),
        None => None,
    }
}

fn get_bool_or(v: &JsonValue, key: &str, default: bool) -> (r: bool)
    ensures
        r == match field_bool(v@, key@) {
            Some(b) => b,
            None => default,
        },
{
    match v.get(key) {
        Some(x) => match x.as_bool() {
            Some(b) => b,
            None => default,
        },
        None => default,
    }
}

fn get_u64_or(v: &JsonValue, key: &str, default: u64) -> (r: u64)
    ensures
        r == match field_u64(v@, key@) {
            Some(n) => n,
            None => default,
        },
{
    match v.get(key) {
        Some(x) => match x.as_u64() {
            Some(n) => n,
            None => default,
        },
        None => default,
    }
}

fn get_or_null(v: &JsonValue, key: &str) -> (r: JsonValue)
    ensures
        r@ == field_or_null(v@, key@),
{
    match v.get(key) {
        Some(x) => x.clone(),
        None => JsonValue::Null,
    }
}

fn id_or_next(v: &JsonValue, key: &str, prefix: &str, ids: &mut TempIdCounter) -> (r: String)
    ensures
        (r@, final(ids).next) == id_or_temp(field_str(v@, key@), prefix@, old(ids).next),
{
    match get_str(v, key) {
        Some(s) => s.to_owned(),
        None => next_temp_id(ids, prefix),
    }
}

fn one_part(p: ContentPart) -> (r: Vec<ContentPart>)
    ensures
        parts_view(r@) == seq![p@],
{
    let r = vec![p];
    assert(parts_view(r@) =~= seq![p@]);
    r
}

// ---------------------------------------------------------------------------
// Conversions of single events
// ---------------------------------------------------------------------------

/// A conversion that carries a whole item.
pub open spec fn item_event(
    event_type: UniversalEventType,
    item: ItemModel,
    raw: Option<JsonModel>,
) -> ConversionModel {
    ConversionModel {
        event_type,
        data: DataModel::Item { item },
        native_session_id: None,
        raw,
        synthetic: false,
    }
}

/// A conversion that carries an incremental update of the item `item_id`.
pub open spec fn delta_event(item_id: Seq<char>, delta: Seq<char>, raw: Option<JsonModel>) -> ConversionModel {
    ConversionModel {
        event_type: UniversalEventType::ItemDelta,
        data: DataModel::ItemDelta { item_id, native_item_id: Some(item_id), delta },
        native_session_id: None,
        raw,
        synthetic: false,
    }
}

/// A completed status item labelled `label`, with the fresh identifier numbered `n`.
pub open spec fn status_spec(
    label: Seq<char>,
    detail: Option<Seq<char>>,
    raw: Option<JsonModel>,
    n: u64,
) -> ConversionModel {
    item_event(
        UniversalEventType::ItemCompleted,
        ItemModel {
            item_id: temp_id("copilot_status"@, n),
            native_item_id: None,
            parent_id: None,
            kind: ItemKind::Status,
            role: None,
            content: seq![PartModel::Status { label, detail }],
            status: ItemStatus::Completed,
        },
        raw,
    )
}

fn status_event(
    label: &str,
    detail: Option<String>,
    raw: Option<JsonValue>,
    ids: &mut TempIdCounter,
) -> (r: EventConversion)
    ensures
        r@ == status_spec(label@, opt_str_view(detail), opt_json_owned_view(raw), old(ids).next),
        final(ids).next == successor(old(ids).next),
{
    let ghost d = opt_str_view(detail);
    let item = UniversalItem {
        item_id: next_temp_id(ids, "copilot_status"),
        native_item_id: None,
        parent_id: None,
        kind: ItemKind::Status,
        role: None,
        content: one_part(ContentPart::Status { label: label.to_owned(), detail }),
        status: ItemStatus::Completed,
    };
    let r = EventConversion::new(
        UniversalEventType::ItemCompleted,
        UniversalEventData::Item(ItemEventData { item }),
    ).with_raw(raw);
    assert(r@ =~~= status_spec(label@, d, opt_json_owned_view(raw), old(ids).next));
    r
}

/// An error event with the given message and code, whose details are the raw event.
pub open spec fn error_spec(message: Seq<char>, code: Option<Seq<char>>, raw: Option<JsonModel>) -> ConversionModel {
    ConversionModel {
        event_type: UniversalEventType::Error,
        data: DataModel::Error { message, code, details: raw },
        native_session_id: None,
        raw,
        synthetic: false,
    }
}

fn error_event(message: &str, code: Option<String>, raw: Option<JsonValue>) -> (r: EventConversion)
    ensures
        r@ == error_spec(message@, opt_str_view(code), opt_json_owned_view(raw)),
{
    let details = match &raw {
        Some(v) => Some(v.clone()),
        None => None,
    };
    EventConversion::new(
        UniversalEventType::Error,
        UniversalEventData::Error(ErrorData { message: message.to_owned(), code, details }),
    ).with_raw(raw)
}

/// `session.start`: the session starts, with the payload as metadata and the agent's session id.
pub open spec fn session_start_spec(data: JsonModel, raw: Option<JsonModel>) -> ConversionModel {
    ConversionModel {
        event_type: UniversalEventType::SessionStarted,
        data: DataModel::SessionStarted { metadata: Some(data) },
        native_session_id: field_str(data, "sessionId"@),
        raw,
        synthetic: false,
    }
}

fn session_start_to_universal(data: &JsonValue, raw: Option<JsonValue>) -> (r: EventConversion)
    ensures
        r@ == session_start_spec(data@, opt_json_owned_view(raw)),
{
    let session_id = get_string(data, "sessionId");
    EventConversion::new(
        UniversalEventType::SessionStarted,
        UniversalEventData::SessionStarted(SessionStartedData { metadata: Some(data.clone()) }),
    ).with_native_session(session_id).with_raw(raw)
}

/// `session.resume`: a session start that the daemon makes up, with the payload as metadata.
pub open spec fn session_resume_spec(data: JsonModel, raw: Option<JsonModel>) -> ConversionModel {
    ConversionModel {
        event_type: UniversalEventType::SessionStarted,
        data: DataModel::SessionStarted { metadata: Some(data) },
        native_session_id: None,
        raw,
        synthetic: true,
    }
}

fn session_resume_to_universal(data: &JsonValue, raw: Option<JsonValue>) -> (r: EventConversion)
    ensures
        r@ == session_resume_spec(data@, opt_json_owned_view(raw)),
{
    EventConversion::new(
        UniversalEventType::SessionStarted,
        UniversalEventData::SessionStarted(SessionStartedData { metadata: Some(data.clone()) }),
    ).with_raw(raw).synthetic()
}

/// `session.error`: an error with the payload's message (by default "Unknown error"),
/// its `errorType` as code and the payload as details.
pub open spec fn session_error_spec(data: JsonModel, raw: Option<JsonModel>) -> ConversionModel {
    ConversionModel {
        event_type: UniversalEventType::Error,
        data: DataModel::Error {
            message: str_or(field_str(data, "message"@), "Unknown error"@),
            code: field_str(data, "errorType"@),
            details: Some(data),
        },
        native_session_id: None,
        raw,
        synthetic: false,
    }
}

fn session_error_to_universal(data: &JsonValue, raw: Option<JsonValue>) -> (r: EventConversion)
    ensures
        r@ == session_error_spec(data@, opt_json_owned_view(raw)),
{
    let message = get_str_or(data, "message", "Unknown error").to_owned();
    let code = get_string(data, "errorType");
    EventConversion::new(
        UniversalEventType::Error,
        UniversalEventData::Error(ErrorData { message, code, details: Some(data.clone()) }),
    ).with_raw(raw)
}

/// `assistant.message_delta`: text appended to the message `messageId`.
pub open spec fn message_delta_spec(data: JsonModel, raw: Option<JsonModel>) -> ConversionModel {
    delta_event(
        str_or(field_str(data, "messageId"@), Seq::empty()),
        str_or(field_str(data, "deltaContent"@), Seq::empty()),
        raw,
    )
}

fn delta_conversion(item_id: String, delta: String, raw: Option<JsonValue>) -> (r: EventConversion)
    ensures
        r@ == delta_event(item_id@, delta@, opt_json_owned_view(raw)),
{
    let native = item_id.clone();
    EventConversion::new(
        UniversalEventType::ItemDelta,
        UniversalEventData::ItemDelta(ItemDeltaData { item_id, native_item_id: Some(native), delta }),
    ).with_raw(raw)
}

fn message_delta_to_universal(data: &JsonValue, raw: Option<JsonValue>) -> (r: EventConversion)
    ensures
        r@ == message_delta_spec(data@, opt_json_owned_view(raw)),
{
    proof {
        reveal_strlit("");
    }
    let message_id = get_str_or(data, "messageId", "").to_owned();
    let delta = get_str_or(data, "deltaContent", "").to_owned();
    delta_conversion(message_id, delta, raw)
}


/// `assistant.reasoning_delta`: reasoning text appended to the item `reasoningId`.
pub open spec fn reasoning_delta_spec(data: JsonModel, raw: Option<JsonModel>) -> ConversionModel {
    delta_event(
        str_or(field_str(data, "reasoningId"@), Seq::empty()),
        str_or(field_str(data, "deltaContent"@), Seq::empty()),
        raw,
    )
}

fn reasoning_delta_to_universal(data: &JsonValue, raw: Option<JsonValue>) -> (r: EventConversion)
    ensures
        r@ == reasoning_delta_spec(data@, opt_json_owned_view(raw)),
{
    proof {
        reveal_strlit("");
    }
    let reasoning_id = get_str_or(data, "reasoningId", "").to_owned();
    let delta = get_str_or(data, "deltaContent", "").to_owned();
    delta_conversion(reasoning_id, delta, raw)
}

/// `tool.execution_partial_result`: partial output appended to the tool call `toolCallId`.
pub open spec fn tool_partial_spec(data: JsonModel, raw: Option<JsonModel>) -> ConversionModel {
    delta_event(
        str_or(field_str(data, "toolCallId"@), Seq::empty()),
        str_or(field_str(data, "partialOutput"@), Seq::empty()),
        raw,
    )
}

fn tool_partial_to_universal(data: &JsonValue, raw: Option<JsonValue>) -> (r: EventConversion)
    ensures
        r@ == tool_partial_spec(data@, opt_json_owned_view(raw)),
{
    proof {
        reveal_strlit("");
    }
    let call_id = get_str_or(data, "toolCallId", "").to_owned();
    let partial = get_str_or(data, "partialOutput", "").to_owned();
    delta_conversion(call_id, partial, raw)
}

/// `assistant.reasoning`: a completed assistant message holding the reasoning text;
/// its identifier is `reasoningId`, or else a fresh one; with the counter afterwards.
pub open spec fn reasoning_spec(data: JsonModel, raw: Option<JsonModel>, n: u64) -> (ConversionModel, u64) {
    let (id, n1) = id_or_temp(field_str(data, "reasoningId"@), "copilot_reasoning"@, n);
    (
        item_event(
            UniversalEventType::ItemCompleted,
            ItemModel {
                item_id: id,
                native_item_id: Some(id),
                parent_id: None,
                kind: ItemKind::Message,
                role: Some(ItemRole::Assistant),
                content: seq![
                    PartModel::Reasoning {
                        text: str_or(field_str(data, "content"@), Seq::empty()),
                        visibility: ReasoningVisibility::Public,
                    },
                ],
                status: ItemStatus::Completed,
            },
            raw,
        ),
        n1,
    )
}

fn reasoning_to_universal(data: &JsonValue, raw: Option<JsonValue>, ids: &mut TempIdCounter) -> (r:
    EventConversion)
    ensures
        (r@, final(ids).next) == reasoning_spec(data@, opt_json_owned_view(raw), old(ids).next),
{
    proof {
        reveal_strlit("");
    }
    let reasoning_id = id_or_next(data, "reasoningId", "copilot_reasoning", ids);
    let content = get_str_or(data, "content", "").to_owned();
    let native = reasoning_id.clone();
    let item = UniversalItem {
        item_id: reasoning_id,
        native_item_id: Some(native),
        parent_id: None,
        kind: ItemKind::Message,
        role: Some(ItemRole::Assistant),
        content: one_part(
            ContentPart::Reasoning { text: content, visibility: ReasoningVisibility::Public },
        ),
        status: ItemStatus::Completed,
    };
    let r = EventConversion::new(
        UniversalEventType::ItemCompleted,
        UniversalEventData::Item(ItemEventData { item }),
    ).with_raw(raw);
    assert(r@ =~~= reasoning_spec(data@, opt_json_owned_view(raw), old(ids).next).0);
    r
}

/// `tool.execution_start` and `tool.user_requested`: a tool call item in progress, named
/// `toolName` (by default "unknown"), whose arguments are the JSON text of `arguments`;
/// identified by `toolCallId` or else a fresh identifier; made up by the daemon where the
/// user requested it; with the counter afterwards.
pub open spec fn tool_start_spec(data: JsonModel, raw: Option<JsonModel>, user_requested: bool, n: u64) -> (
    ConversionModel,
    u64,
) {
    let (call_id, n1) = id_or_temp(field_str(data, "toolCallId"@), "copilot_tool"@, n);
    (
        ConversionModel {
            event_type: UniversalEventType::ItemStarted,
            data: DataModel::Item {
                item: ItemModel {
                    item_id: call_id,
                    native_item_id: Some(call_id),
                    parent_id: field_str(data, "parentToolCallId"@),
                    kind: ItemKind::ToolCall,
                    role: Some(ItemRole::Assistant),
                    content: seq![
                        PartModel::ToolCall {
                            name: str_or(field_str(data, "toolName"@), "unknown"@),
                            arguments: json_text(field_or_null(data, "arguments"@)),
                            call_id,
                        },
                    ],
                    status: ItemStatus::InProgress,
                },
            },
            native_session_id: None,
            raw,
            synthetic: user_requested,
        },
        n1,
    )
}

fn tool_start_to_universal(
    data: &JsonValue,
    raw: Option<JsonValue>,
    user_requested: bool,
    ids: &mut TempIdCounter,
) -> (r: EventConversion)
    ensures
        (r@, final(ids).next) == tool_start_spec(
            data@,
            opt_json_owned_view(raw),
            user_requested,
            old(ids).next,
        ),
{
    let call_id = id_or_next(data, "toolCallId", "copilot_tool", ids);
    let name = get_str_or(data, "toolName", "unknown").to_owned();
    let arguments = get_or_null(data, "arguments");
    let native = call_id.clone();
    let part_id = call_id.clone();
    let mut item = UniversalItem {
        item_id: call_id,
        native_item_id: Some(native),
        parent_id: None,
        kind: ItemKind::ToolCall,
        role: Some(ItemRole::Assistant),
        content: one_part(
            ContentPart::ToolCall { name, arguments: to_json_text(&arguments), call_id: part_id },
        ),
        status: ItemStatus::InProgress,
    };
    if let Some(parent_id) = get_str(data, "parentToolCallId") {
        item.parent_id = Some(parent_id.to_owned());
    }
    let mut conversion = EventConversion::new(
        UniversalEventType::ItemStarted,
        UniversalEventData::Item(ItemEventData { item }),
    ).with_raw(raw);
    if user_requested {
        conversion = conversion.synthetic();
    }
    assert(conversion@ =~~= tool_start_spec(
        data@,
        opt_json_owned_view(raw),
        user_requested,
        old(ids).next,
    ).0);
    conversion
}

/// The output of a finished tool call: on success the result's `detailedContent`, else its
/// `content`, else empty; on failure the error's `message` (by default "Tool execution
/// failed"), preceded by its `code` in brackets where there is one.
pub open spec fn tool_output_spec(data: JsonModel, success: bool) -> Seq<char> {
    if success {
        match model_get(data, "result"@) {
            Some(r) => match field_str(r, "detailedContent"@) {
                Some(s) => s,
                None => str_or(field_str(r, "content"@), Seq::empty()),
            },
            None => Seq::empty(),
        }
    } else {
        let (msg, code) = match model_get(data, "error"@) {
            Some(e) => (
                str_or(field_str(e, "message"@), "Tool execution failed"@),
                field_str(e, "code"@),
            ),
            None => ("Tool execution failed"@, None),
        };
        match code {
            Some(c) => "["@ + c + "] "@ + msg,
            None => msg,
        }
    }
}

fn tool_output(data: &JsonValue, success: bool) -> (r: String)
    ensures
        r@ == tool_output_spec(data@, success),
{
    proof {
        reveal_strlit("");
    }
    if success {
        match data.get("result") {
            Some(r) => match get_str(r, "detailedContent") {
                Some(s) => s.to_owned(),
                None => get_str_or(r, "content", "").to_owned(),
            },
            None => "".to_owned(),
        }
    } else {
        let (msg, code) = match data.get("error") {
            Some(e) => (get_str_or(e, "message", "Tool execution failed"), get_str(e, "code")),
            None => ("Tool execution failed", None),
        };
        match code {
            Some(c) => {
                let mut out = "[".to_owned();
                out.append(c);
                out.append("] ");
                out.append(msg);
                out
            },
            None => msg.to_owned(),
        }
    }
}

/// `tool.execution_complete`: a tool result item for the call `toolCallId` (or a fresh
/// identifier), completed or failed as `success` says (by default failed), with a fresh
/// item identifier of its own; with the counter afterwards.
pub open spec fn tool_complete_spec(data: JsonModel, raw: Option<JsonModel>, n: u64) -> (ConversionModel, u64) {
    let (call_id, n1) = id_or_temp(field_str(data, "toolCallId"@), "copilot_tool"@, n);
    let success = match field_bool(data, "success"@) {
        Some(b) => b,
        None => false,
    };
    (
        item_event(
            UniversalEventType::ItemCompleted,
            ItemModel {
                item_id: temp_id("copilot_result"@, n1),
                native_item_id: Some(call_id),
                parent_id: field_str(data, "parentToolCallId"@),
                kind: ItemKind::ToolResult,
                role: Some(ItemRole::Tool),
                content: seq![
                    PartModel::ToolResult { call_id, output: tool_output_spec(data, success) },
                ],
                status: if success {
                    ItemStatus::Completed
                } else {
                    ItemStatus::Failed
                },
            },
            raw,
        ),
        successor(n1),
    )
}

fn tool_complete_to_universal(data: &JsonValue, raw: Option<JsonValue>, ids: &mut TempIdCounter) -> (r:
    EventConversion)
    ensures
        (r@, final(ids).next) == tool_complete_spec(data@, opt_json_owned_view(raw), old(ids).next),
{
    let call_id = id_or_next(data, "toolCallId", "copilot_tool", ids);
    let success = get_bool_or(data, "success", false);
    let output = tool_output(data, success);
    let native = call_id.clone();
    let mut item = UniversalItem {
        item_id: next_temp_id(ids, "copilot_result"),
        native_item_id: Some(native),
        parent_id: None,
        kind: ItemKind::ToolResult,
        role: Some(ItemRole::Tool),
        content: one_part(ContentPart::ToolResult { call_id, output }),
        status: if success {
            ItemStatus::Completed
        } else {
            ItemStatus::Failed
        },
    };
    if let Some(parent_id) = get_str(data, "parentToolCallId") {
        item.parent_id = Some(parent_id.to_owned());
    }
    let r = EventConversion::new(
        UniversalEventType::ItemCompleted,
        UniversalEventData::Item(ItemEventData { item }),
    ).with_raw(raw);
    assert(r@ =~~= tool_complete_spec(data@, opt_json_owned_view(raw), old(ids).next).0);
    r
}

/// `system.message`: a completed system item holding the text `content`; identified by
/// "copilot_system_" and the payload's `name`, or else by a fresh identifier; with the
/// counter afterwards.
pub open spec fn system_message_spec(data: JsonModel, raw: Option<JsonModel>, n: u64) -> (ConversionModel, u64) {
    let (item_id, n1) = match field_str(data, "name"@) {
        Some(name) => ("copilot_system_"@ + name, n),
        None => (temp_id("copilot_system"@, n), successor(n)),
    };
    (
        item_event(
            UniversalEventType::ItemCompleted,
            ItemModel {
                item_id,
                native_item_id: None,
                parent_id: None,
                kind: ItemKind::System,
                role: Some(ItemRole::System),
                content: seq![PartModel::Text { text: str_or(field_str(data, "content"@), Seq::empty()) }],
                status: ItemStatus::Completed,
            },
            raw,
        ),
        n1,
    )
}

fn system_message_to_universal(data: &JsonValue, raw: Option<JsonValue>, ids: &mut TempIdCounter) -> (r:
    EventConversion)
    ensures
        (r@, final(ids).next) == system_message_spec(data@, opt_json_owned_view(raw), old(ids).next),
{
    proof {
        reveal_strlit("");
    }
    let content = get_str_or(data, "content", "").to_owned();
    // A developer message is system-level too: both roles become `ItemRole::System`.
    let item_id = match get_str(data, "name") {
        Some(name) => {
            let mut id = "copilot_system_".to_owned();
            id.append(name);
            id
        },
        None => next_temp_id(ids, "copilot_system"),
    };
    let item = UniversalItem {
        item_id,
        native_item_id: None,
        parent_id: None,
        kind: ItemKind::System,
        role: Some(ItemRole::System),
        content: one_part(ContentPart::Text { text: content }),
        status: ItemStatus::Completed,
    };
    let r = EventConversion::new(
        UniversalEventType::ItemCompleted,
        UniversalEventData::Item(ItemEventData { item }),
    ).with_raw(raw);
    assert(r@ =~~= system_message_spec(data@, opt_json_owned_view(raw), old(ids).next).0);
    r
}


/// The file reference for an attachment that has a `path`: read, with the note
/// "[type: displayName]", the type by default "file" and the display name by default the path.
pub open spec fn attachment_part_spec(att: JsonModel) -> Option<PartModel> {
    match field_str(att, "path"@) {
        Some(path) => Some(
            PartModel::FileRef {
                path,
                action: FileAction::Read,
                diff: Some(
                    "["@ + str_or(field_str(att, "type"@), "file"@) + ": "@ + str_or(
                        field_str(att, "displayName"@),
                        path,
                    ) + "]"@,
                ),
            },
        ),
        None => None,
    }
}

/// The file references for the attachments that have a path, in order.
pub open spec fn attachment_parts(atts: Seq<JsonModel>) -> Seq<PartModel>
    decreases atts.len(),
{
    if atts.len() == 0 {
        Seq::empty()
    } else {
        let prev = attachment_parts(atts.drop_last());
        match attachment_part_spec(atts.last()) {
            Some(p) => prev.push(p),
            None => prev,
        }
    }
}

/// `user.message`: a completed user message holding the text (`transformedContent`, else
/// `content`, else empty) and then a file reference per attachment that has a path, with a
/// fresh identifier; with the counter afterwards.
pub open spec fn user_message_spec(data: JsonModel, raw: Option<JsonModel>, n: u64) -> (ConversionModel, u64) {
    let content = match field_str(data, "transformedContent"@) {
        Some(s) => s,
        None => str_or(field_str(data, "content"@), Seq::empty()),
    };
    let atts = match field_array(data, "attachments"@) {
        Some(xs) => attachment_parts(xs),
        None => Seq::empty(),
    };
    (
        item_event(
            UniversalEventType::ItemCompleted,
            ItemModel {
                item_id: temp_id("copilot_user"@, n),
                native_item_id: None,
                parent_id: None,
                kind: ItemKind::Message,
                role: Some(ItemRole::User),
                content: seq![PartModel::Text { text: content }] + atts,
                status: ItemStatus::Completed,
            },
            raw,
        ),
        successor(n),
    )
}

fn attachment_part(att: &JsonValue) -> (r: Option<ContentPart>)
    ensures
        match r {
            Some(p) => attachment_part_spec(att@) == Some(p@),
            None => attachment_part_spec(att@) is None,
        },
{
    match get_str(att, "path") {
        Some(path) => {
            let attachment_type = get_str_or(att, "type", "file");
            let display_name = get_str_or(att, "displayName", path);
            let mut diff = "[".to_owned();
            diff.append(attachment_type);
            diff.append(": ");
            diff.append(display_name);
            diff.append("]");
            Some(ContentPart::FileRef { path: path.to_owned(), action: FileAction::Read, diff: Some(diff) })
        },
        None => None,
    }
}

fn user_message_to_universal(data: &JsonValue, raw: Option<JsonValue>, ids: &mut TempIdCounter) -> (r:
    EventConversion)
    ensures
        (r@, final(ids).next) == user_message_spec(data@, opt_json_owned_view(raw), old(ids).next),
{
    proof {
        reveal_strlit("");
    }
    let content = match get_str(data, "transformedContent") {
        Some(s) => s,
        None => get_str_or(data, "content", ""),
    };
    let mut parts: Vec<ContentPart> = Vec::new();
    parts.push(ContentPart::Text { text: content.to_owned() });
    let ghost lead = seq![PartModel::Text { text: content@ }];
    assert(parts_view(parts@) =~= lead);
    let attachments_opt = match data.get("attachments") {
        Some(a) => a.as_array(),
        None => None,
    };
    if let Some(attachments) = attachments_opt {
        let ghost xs = json_vec_view(*attachments);
        assert(xs.take(0) =~= Seq::<JsonModel>::empty());
        let mut i: usize = 0;
        while i < attachments.len()
            invariant
                0 <= i <= attachments.len(),
                xs == json_vec_view(*attachments),
                parts_view(parts@) == lead + attachment_parts(xs.take(i as int)),
            decreases attachments.len() - i,
        {
            let ghost prev = parts@;
            assert(xs.take(i + 1).drop_last() =~= xs.take(i as int));
            assert(xs.take(i + 1).last() == attachments[i as int]@);
            match attachment_part(&attachments[i]) {
                Some(p) => {
                    parts.push(p);
                    assert(parts_view(parts@) =~= parts_view(prev).push(p@));
                },
                None => {},
            }
            i += 1;
        }
        assert(xs.take(attachments.len() as int) =~= xs);
    }
    let item = UniversalItem {
        item_id: next_temp_id(ids, "copilot_user"),
        native_item_id: None,
        parent_id: None,
        kind: ItemKind::Message,
        role: Some(ItemRole::User),
        content: parts,
        status: ItemStatus::Completed,
    };
    let r = EventConversion::new(
        UniversalEventType::ItemCompleted,
        UniversalEventData::Item(ItemEventData { item }),
    ).with_raw(raw);
    assert(r@ =~~= user_message_spec(data@, opt_json_owned_view(raw), old(ids).next).0);
    r
}


/// The reasoning part of an assistant message: present where the reasoning text is non-empty.
pub open spec fn reasoning_parts(reasoning: Option<Seq<char>>) -> Seq<PartModel> {
    match reasoning {
        Some(r) => if r.len() > 0 {
            seq![PartModel::Reasoning { text: r, visibility: ReasoningVisibility::Public }]
        } else {
            Seq::empty()
        },
        None => Seq::empty(),
    }
}

/// The text part of an assistant message: present where the text is non-empty.
pub open spec fn text_parts(content: Seq<char>) -> Seq<PartModel> {
    if content.len() > 0 {
        seq![PartModel::Text { text: content }]
    } else {
        Seq::empty()
    }
}

/// The tool call part for a tool request: named `name` (by default "unknown"), with the JSON
/// text of `arguments`, identified by `toolCallId` or else a fresh identifier; with the
/// counter afterwards.
pub open spec fn tool_request_part(req: JsonModel, n: u64) -> (PartModel, u64) {
    let (call_id, n1) = id_or_temp(field_str(req, "toolCallId"@), "copilot_tool"@, n);
    (
        PartModel::ToolCall {
            name: str_or(field_str(req, "name"@), "unknown"@),
            arguments: json_text(field_or_null(req, "arguments"@)),
            call_id,
        },
        n1,
    )
}

/// The tool call parts for the tool requests, in order, the counter passed from one to the next.
pub open spec fn tool_request_parts(reqs: Seq<JsonModel>, n: u64) -> (Seq<PartModel>, u64)
    decreases reqs.len(),
{
    if reqs.len() == 0 {
        (Seq::empty(), n)
    } else {
        let (ps, n1) = tool_request_parts(reqs.drop_last(), n);
        let (p, n2) = tool_request_part(reqs.last(), n1);
        (ps.push(p), n2)
    }
}

/// A completed assistant message item.
pub open spec fn assistant_item_event(
    id: Seq<char>,
    parent_id: Option<Seq<char>>,
    parts: Seq<PartModel>,
    raw: Option<JsonModel>,
) -> ConversionModel {
    item_event(
        UniversalEventType::ItemCompleted,
        ItemModel {
            item_id: id,
            native_item_id: Some(id),
            parent_id,
            kind: ItemKind::Message,
            role: Some(ItemRole::Assistant),
            content: parts,
            status: ItemStatus::Completed,
        },
        raw,
    )
}

/// `assistant.message`: identified by `messageId` or else a fresh identifier, under the
/// parent `parentToolCallId`. With `toolRequests`, one completed message holding the
/// reasoning, the text and a tool call per request; without, one completed message holding
/// the reasoning and the text where there is text or reasoning, and nothing otherwise.
/// With the counter afterwards.
pub open spec fn assistant_message_spec(data: JsonModel, raw: Option<JsonModel>, n: u64) -> (
    Seq<ConversionModel>,
    u64,
) {
    let (message_id, n1) = id_or_temp(field_str(data, "messageId"@), "copilot_msg"@, n);
    let content = str_or(field_str(data, "content"@), Seq::empty());
    let parent_id = field_str(data, "parentToolCallId"@);
    let reasoning = field_str(data, "reasoningText"@);
    let lead = reasoning_parts(reasoning) + text_parts(content);
    match field_array(data, "toolRequests"@) {
        Some(reqs) => {
            let (calls, n2) = tool_request_parts(reqs, n1);
            (seq![assistant_item_event(message_id, parent_id, lead + calls, raw)], n2)
        },
        None => if content.len() > 0 || reasoning is Some {
            (seq![assistant_item_event(message_id, parent_id, lead, raw)], n1)
        } else {
            (Seq::empty(), n1)
        },
    }
}

fn lead_parts(reasoning: Option<&str>, content: &str) -> (r: Vec<ContentPart>)
    ensures
        parts_view(r@) == reasoning_parts(opt_slice_view(reasoning)) + text_parts(content@),
{
    let mut parts: Vec<ContentPart> = Vec::new();
    if let Some(text) = reasoning {
        if !text.is_empty() {
            parts.push(ContentPart::Reasoning { text: text.to_owned(), visibility: ReasoningVisibility::Public });
        }
    }
    if !content.is_empty() {
        parts.push(ContentPart::Text { text: content.to_owned() });
    }
    assert(parts_view(parts@) =~= reasoning_parts(opt_slice_view(reasoning)) + text_parts(content@));
    parts
}

fn tool_request_to_part(req: &JsonValue, ids: &mut TempIdCounter) -> (r: ContentPart)
    ensures
        (r@, final(ids).next) == tool_request_part(req@, old(ids).next),
{
    let name = get_str_or(req, "name", "unknown").to_owned();
    let call_id = id_or_next(req, "toolCallId", "copilot_tool", ids);
    let arguments = get_or_null(req, "arguments");
    ContentPart::ToolCall { name, arguments: to_json_text(&arguments), call_id }
}

fn no_conversions() -> (r: Vec<EventConversion>)
    ensures
        conversions_view(r@) == Seq::<ConversionModel>::empty(),
{
    let r: Vec<EventConversion> = Vec::new();
    assert(conversions_view(r@) =~= Seq::<ConversionModel>::empty());
    r
}

fn single(c: EventConversion) -> (r: Vec<EventConversion>)
    ensures
        conversions_view(r@) == seq![c@],
{
    let r = vec![c];
    assert(conversions_view(r@) =~= seq![c@]);
    r
}

fn assistant_message_to_universal(data: &JsonValue, raw: Option<JsonValue>, ids: &mut TempIdCounter) -> (r:
    Vec<EventConversion>)
    ensures
        (conversions_view(r@), final(ids).next) == assistant_message_spec(
            data@,
            opt_json_owned_view(raw),
            old(ids).next,
        ),
{
    proof {
        reveal_strlit("");
    }
    let ghost spec = assistant_message_spec(data@, opt_json_owned_view(raw), old(ids).next);
    let message_id = id_or_next(data, "messageId", "copilot_msg", ids);
    let ghost n1 = ids.next;
    let content = get_str_or(data, "content", "");
    let parent_id = get_string(data, "parentToolCallId");
    let reasoning_text = get_str(data, "reasoningText");
    let tool_requests = match data.get("toolRequests") {
        Some(t) => t.as_array(),
        None => None,
    };
    if let Some(tool_requests) = tool_requests {
        let mut parts = lead_parts(reasoning_text, content);
        let ghost lead = parts_view(parts@);
        let ghost xs = json_vec_view(*tool_requests);
        assert(xs.take(0) =~= Seq::<JsonModel>::empty());
        let mut i: usize = 0;
        while i < tool_requests.len()
            invariant
                0 <= i <= tool_requests.len(),
                xs == json_vec_view(*tool_requests),
                parts_view(parts@) == lead + tool_request_parts(xs.take(i as int), n1).0,
                ids.next == tool_request_parts(xs.take(i as int), n1).1,
            decreases tool_requests.len() - i,
        {
            let ghost prev = parts@;
            assert(xs.take(i + 1).drop_last() =~= xs.take(i as int));
            assert(xs.take(i + 1).last() == tool_requests[i as int]@);
            let p = tool_request_to_part(&tool_requests[i], ids);
            parts.push(p);
            assert(parts_view(parts@) =~= parts_view(prev).push(p@));
            i += 1;
        }
        assert(xs.take(tool_requests.len() as int) =~= xs);
        let native = message_id.clone();
        let item = UniversalItem {
            item_id: message_id,
            native_item_id: Some(native),
            parent_id,
            kind: ItemKind::Message,
            role: Some(ItemRole::Assistant),
            content: parts,
            status: ItemStatus::Completed,
        };
        let c = EventConversion::new(
            UniversalEventType::ItemCompleted,
            UniversalEventData::Item(ItemEventData { item }),
        ).with_raw(raw);
        assert(c@ =~~= spec.0[0]);
        let r = single(c);
        assert(conversions_view(r@) =~~= spec.0);
        r
    } else if !content.is_empty() || reasoning_text.is_some() {
        let parts = lead_parts(reasoning_text, content);
        let native = message_id.clone();
        let item = UniversalItem {
            item_id: message_id,
            native_item_id: Some(native),
            parent_id,
            kind: ItemKind::Message,
            role: Some(ItemRole::Assistant),
            content: parts,
            status: ItemStatus::Completed,
        };
        let c = EventConversion::new(
            UniversalEventType::ItemCompleted,
            UniversalEventData::Item(ItemEventData { item }),
        ).with_raw(raw);
        assert(c@ =~~= spec.0[0]);
        let r = single(c);
        assert(conversions_view(r@) =~~= spec.0);
        r
    } else {
        let r: Vec<EventConversion> = Vec::new();
        assert(conversions_view(r@) =~~= spec.0);
        r
    }
}

/// The string elements of a JSON array, in order; other elements are left out.
pub open spec fn strings_of(xs: Seq<JsonModel>) -> Seq<Seq<char>>
    decreases xs.len(),
{
    if xs.len() == 0 {
        Seq::empty()
    } else {
        let prev = strings_of(xs.drop_last());
        match model_str(xs.last()) {
            Some(s) => prev.push(s),
            None => prev,
        }
    }
}

/// The strings joined, `sep` between each two.
pub open spec fn join(ss: Seq<Seq<char>>, sep: Seq<char>) -> Seq<char>
    decreases ss.len(),
{
    if ss.len() == 0 {
        Seq::empty()
    } else if ss.len() == 1 {
        ss[0]
    } else {
        join(ss.drop_last(), sep) + sep + ss.last()
    }
}

/// The tools of a selected subagent: the string elements of `tools` joined by ", " where it
/// is an array, "*" where it is null or absent, "?" otherwise.
pub open spec fn tools_summary(data: JsonModel) -> Seq<char> {
    match model_get(data, "tools"@) {
        Some(JsonModel::Array(xs)) => join(strings_of(xs), ", "@),
        Some(JsonModel::Null) => "*"@,
        None => "*"@,
        Some(_) => "?"@,
    }
}

fn tools_summary_of(data: &JsonValue) -> (r: String)
    ensures
        r@ == tools_summary(data@),
{
    match data.get("tools") {
        Some(tools) => match tools.as_array() {
            Some(arr) => {
                let ghost xs = json_vec_view(*arr);
                assert(xs.take(0) =~= Seq::<JsonModel>::empty());
                let mut out = String::new();
                let mut count: usize = 0;
                let mut i: usize = 0;
                while i < arr.len()
                    invariant
                        0 <= i <= arr.len(),
                        xs == json_vec_view(*arr),
                        count <= i,
                        count == strings_of(xs.take(i as int)).len(),
                        out@ == join(strings_of(xs.take(i as int)), ", "@),
                    decreases arr.len() - i,
                {
                    let ghost prev = strings_of(xs.take(i as int));
                    assert(xs.take(i + 1).drop_last() =~= xs.take(i as int));
                    assert(xs.take(i + 1).last() == arr[i as int]@);
                    match arr[i].as_str() {
                        Some(s) => {
                            if count > 0 {
                                out.append(", ");
                            }
                            out.append(s);
                            count += 1;
                            assert(prev.push(s@).drop_last() =~= prev);
                            assert(out@ =~= join(prev.push(s@), ", "@));
                        },
                        None => {},
                    }
                    i += 1;
                }
                assert(xs.take(arr.len() as int) =~= xs);
                out
            },
            None => match tools {
                JsonValue::Null => "*".to_owned(),
                _ => "?".to_owned(),
            },
        },
        None => "*".to_owned(),
    }
}


// ---------------------------------------------------------------------------
// Status details
// ---------------------------------------------------------------------------

/// The string member `key` of `m`, or empty.
pub open spec fn field_or_empty(m: JsonModel, key: Seq<char>) -> Seq<char> {
    str_or(field_str(m, key), Seq::empty())
}

/// `session.info`: "infoType: message".
pub open spec fn info_detail(data: JsonModel) -> Seq<char> {
    field_or_empty(data, "infoType"@) + ": "@ + field_or_empty(data, "message"@)
}

/// `session.model_change`: "previous -> new", by default "none" and "unknown".
pub open spec fn model_change_detail(data: JsonModel) -> Seq<char> {
    str_or(field_str(data, "previousModel"@), "none"@) + " -> "@ + str_or(
        field_str(data, "newModel"@),
        "unknown"@,
    )
}

/// `session.compaction_complete`: "success" where `success` is true, "failed" otherwise.
pub open spec fn compaction_detail(data: JsonModel) -> Seq<char> {
    if field_bool(data, "success"@) == Some(true) {
        "success"@
    } else {
        "failed"@
    }
}

/// `assistant.usage`: "model: <input>in/<output>out", the model by default "unknown" and
/// the token counts by default 0.
pub open spec fn usage_detail(data: JsonModel) -> Seq<char> {
    let input = match field_u64(data, "inputTokens"@) {
        Some(k) => k,
        None => 0,
    };
    let output = match field_u64(data, "outputTokens"@) {
        Some(k) => k,
        None => 0,
    };
    str_or(field_str(data, "model"@), "unknown"@) + ": "@ + decimal(input as nat) + "in/"@ + decimal(
        output as nat,
    ) + "out"@
}

/// `subagent.started`: "displayName (agentName) [toolCallId]".
pub open spec fn subagent_started_detail(data: JsonModel) -> Seq<char> {
    field_or_empty(data, "agentDisplayName"@) + " ("@ + field_or_empty(data, "agentName"@) + ") ["@
        + field_or_empty(data, "toolCallId"@) + "]"@
}

/// `subagent.completed`: "agentName [toolCallId]".
pub open spec fn subagent_completed_detail(data: JsonModel) -> Seq<char> {
    field_or_empty(data, "agentName"@) + " ["@ + field_or_empty(data, "toolCallId"@) + "]"@
}

/// `subagent.failed`: "agentName [toolCallId]: error".
pub open spec fn subagent_failed_detail(data: JsonModel) -> Seq<char> {
    field_or_empty(data, "agentName"@) + " ["@ + field_or_empty(data, "toolCallId"@) + "]: "@
        + field_or_empty(data, "error"@)
}

/// `subagent.selected`: "displayName (agentName) tools=[tools]".
pub open spec fn subagent_selected_detail(data: JsonModel) -> Seq<char> {
    field_or_empty(data, "agentDisplayName"@) + " ("@ + field_or_empty(data, "agentName"@)
        + ") tools=["@ + tools_summary(data) + "]"@
}

/// `skill.invoked`: "name (path)".
pub open spec fn skill_detail(data: JsonModel) -> Seq<char> {
    field_or_empty(data, "name"@) + " ("@ + field_or_empty(data, "path"@) + ")"@
}

fn concat2(a: &str, sep: &str, b: &str) -> (r: String)
    ensures
        r@ == a@ + sep@ + b@,
{
    let mut out = a.to_owned();
    out.append(sep);
    out.append(b);
    out
}

fn info_detail_of(data: &JsonValue) -> (r: String)
    ensures
        r@ == info_detail(data@),
{
    proof {
        reveal_strlit("");
    }
    concat2(get_str_or(data, "infoType", ""), ": ", get_str_or(data, "message", ""))
}

fn model_change_detail_of(data: &JsonValue) -> (r: String)
    ensures
        r@ == model_change_detail(data@),
{
    concat2(get_str_or(data, "previousModel", "none"), " -> ", get_str_or(data, "newModel", "unknown"))
}

fn compaction_detail_of(data: &JsonValue) -> (r: String)
    ensures
        r@ == compaction_detail(data@),
{
    let success = get_bool_or(data, "success", false);
    let detail = if success {
        "success"
    } else {
        "failed"
    };
    detail.to_owned()
}

fn usage_detail_of(data: &JsonValue) -> (r: String)
    ensures
        r@ == usage_detail(data@),
{
    let model = get_str_or(data, "model", "unknown");
    let input = get_u64_or(data, "inputTokens", 0);
    let output = get_u64_or(data, "outputTokens", 0);
    let mut out = model.to_owned();
    out.append(": ");
    push_decimal(&mut out, input);
    out.append("in/");
    push_decimal(&mut out, output);
    out.append("out");
    out
}

fn subagent_started_detail_of(data: &JsonValue) -> (r: String)
    ensures
        r@ == subagent_started_detail(data@),
{
    proof {
        reveal_strlit("");
    }
    let tool_call_id = get_str_or(data, "toolCallId", "");
    let name = get_str_or(data, "agentDisplayName", "");
    let agent_name = get_str_or(data, "agentName", "");
    let mut out = concat2(name, " (", agent_name);
    out.append(") [");
    out.append(tool_call_id);
    out.append("]");
    out
}

fn subagent_completed_detail_of(data: &JsonValue) -> (r: String)
    ensures
        r@ == subagent_completed_detail(data@),
{
    proof {
        reveal_strlit("");
    }
    let tool_call_id = get_str_or(data, "toolCallId", "");
    let name = get_str_or(data, "agentName", "");
    let mut out = concat2(name, " [", tool_call_id);
    out.append("]");
    out
}

fn subagent_failed_detail_of(data: &JsonValue) -> (r: String)
    ensures
        r@ == subagent_failed_detail(data@),
{
    proof {
        reveal_strlit("");
    }
    let tool_call_id = get_str_or(data, "toolCallId", "");
    let name = get_str_or(data, "agentName", "");
    let error = get_str_or(data, "error", "");
    let mut out = concat2(name, " [", tool_call_id);
    out.append("]: ");
    out.append(error);
    out
}

fn subagent_selected_detail_of(data: &JsonValue) -> (r: String)
    ensures
        r@ == subagent_selected_detail(data@),
{
    proof {
        reveal_strlit("");
    }
    let name = get_str_or(data, "agentDisplayName", "");
    let agent_name = get_str_or(data, "agentName", "");
    let tools = tools_summary_of(data);
    let mut out = concat2(name, " (", agent_name);
    out.append(") tools=[");
    out.append(tools.as_str());
    out.append("]");
    out
}

fn skill_detail_of(data: &JsonValue) -> (r: String)
    ensures
        r@ == skill_detail(data@),
{
    proof {
        reveal_strlit("");
    }
    let mut out = concat2(get_str_or(data, "name", ""), " (", get_str_or(data, "path", ""));
    out.append(")");
    out
}


// ---------------------------------------------------------------------------
// The conversion of a whole event
// ---------------------------------------------------------------------------

/// A single completed status item as the whole result; with the counter afterwards.
pub open spec fn status_result(
    label: Seq<char>,
    detail: Option<Seq<char>>,
    raw: Option<JsonModel>,
    n: u64,
) -> (Result<Seq<ConversionModel>, Seq<char>>, u64) {
    (Ok(seq![status_spec(label, detail, raw, n)]), successor(n))
}

/// The `type` of a session event, or empty.
pub open spec fn event_type_of(event: JsonModel) -> Seq<char> {
    str_or(field_str(event, "type"@), Seq::empty())
}

/// What converting `event` gives with the counter at `n`: the universal events, or the
/// message for an unsupported event type; with the counter afterwards. The payload is the
/// member `data` (null where absent), and every event produced carries `event` as raw event.
pub open spec fn event_spec(event: JsonModel, n: u64) -> (Result<Seq<ConversionModel>, Seq<char>>, u64) {
    let t = event_type_of(event);
    let data = field_or_null(event, "data"@);
    let raw = Some(event);
    if t == "session.start"@ {
        (Ok(seq![session_start_spec(data, raw)]), n)
    } else if t == "session.resume"@ {
        (Ok(seq![session_resume_spec(data, raw)]), n)
    } else if t == "session.error"@ {
        (Ok(seq![session_error_spec(data, raw)]), n)
    } else if t == "session.idle"@ {
        status_result("session.idle"@, None, raw, n)
    } else if t == "session.info"@ {
        status_result("session.info"@, Some(info_detail(data)), raw, n)
    } else if t == "session.model_change"@ {
        status_result("session.model_change"@, Some(model_change_detail(data)), raw, n)
    } else if t == "session.handoff"@ {
        status_result("session.handoff"@, None, raw, n)
    } else if t == "session.truncation"@ {
        status_result("session.truncation"@, None, raw, n)
    } else if t == "session.usage_info"@ {
        status_result("session.usage_info"@, None, raw, n)
    } else if t == "session.compaction_start"@ {
        status_result("session.compaction_start"@, None, raw, n)
    } else if t == "session.compaction_complete"@ {
        status_result("session.compaction_complete"@, Some(compaction_detail(data)), raw, n)
    } else if t == "session.import_legacy"@ {
        status_result("session.import_legacy"@, None, raw, n)
    } else if t == "session.snapshot_rewind"@ {
        status_result("session.snapshot_rewind"@, None, raw, n)
    } else if t == "session.shutdown"@ {
        status_result("session.shutdown"@, Some(str_or(field_str(data, "shutdownType"@), "unknown"@)), raw, n)
    } else if t == "user.message"@ {
        {
            let (c, n1) = user_message_spec(data, raw, n);
            (Ok(seq![c]), n1)
        }
    } else if t == "pending_messages.modified"@ {
        (Ok(Seq::empty()), n)
    } else if t == "assistant.turn_start"@ {
        status_result("assistant.turn_start"@, field_str(data, "turnId"@), raw, n)
    } else if t == "assistant.intent"@ {
        status_result("assistant.intent"@, field_str(data, "intent"@), raw, n)
    } else if t == "assistant.reasoning"@ {
        {
            let (c, n1) = reasoning_spec(data, raw, n);
            (Ok(seq![c]), n1)
        }
    } else if t == "assistant.reasoning_delta"@ {
        (Ok(seq![reasoning_delta_spec(data, raw)]), n)
    } else if t == "assistant.message"@ {
        {
            let (cs, n1) = assistant_message_spec(data, raw, n);
            (Ok(cs), n1)
        }
    } else if t == "assistant.message_delta"@ {
        (Ok(seq![message_delta_spec(data, raw)]), n)
    } else if t == "assistant.turn_end"@ {
        status_result("assistant.turn_end"@, field_str(data, "turnId"@), raw, n)
    } else if t == "assistant.usage"@ {
        status_result("assistant.usage"@, Some(usage_detail(data)), raw, n)
    } else if t == "tool.user_requested"@ {
        {
            let (c, n1) = tool_start_spec(data, raw, true, n);
            (Ok(seq![c]), n1)
        }
    } else if t == "tool.execution_start"@ {
        {
            let (c, n1) = tool_start_spec(data, raw, false, n);
            (Ok(seq![c]), n1)
        }
    } else if t == "tool.execution_partial_result"@ {
        (Ok(seq![tool_partial_spec(data, raw)]), n)
    } else if t == "tool.execution_progress"@ {
        status_result("tool.progress"@, field_str(data, "progressMessage"@), raw, n)
    } else if t == "tool.execution_complete"@ {
        {
            let (c, n1) = tool_complete_spec(data, raw, n);
            (Ok(seq![c]), n1)
        }
    } else if t == "subagent.started"@ {
        status_result("subagent.started"@, Some(subagent_started_detail(data)), raw, n)
    } else if t == "subagent.completed"@ {
        status_result("subagent.completed"@, Some(subagent_completed_detail(data)), raw, n)
    } else if t == "subagent.failed"@ {
        status_result("subagent.failed"@, Some(subagent_failed_detail(data)), raw, n)
    } else if t == "subagent.selected"@ {
        status_result("subagent.selected"@, Some(subagent_selected_detail(data)), raw, n)
    } else if t == "skill.invoked"@ {
        status_result("skill.invoked"@, Some(skill_detail(data)), raw, n)
    } else if t == "system.message"@ {
        {
            let (c, n1) = system_message_spec(data, raw, n);
            (Ok(seq![c]), n1)
        }
    } else if t == "hook.start"@ || t == "hook.end"@ {
        (Ok(Seq::empty()), n)
    } else if t == "abort"@ {
        (Ok(seq![error_spec(str_or(field_str(data, "reason"@), "aborted"@), None, raw)]), n)
    } else {
        (Err("unsupported Copilot event type: "@ + t), n)
    }
}

/// The model of a conversion result.
pub open spec fn result_view(r: Result<Vec<EventConversion>, String>) -> Result<Seq<ConversionModel>, Seq<char>> {
    match r {
        Ok(cs) => Ok(conversions_view(cs@)),
        Err(e) => Err(e@),
    }
}

/// Converts a Copilot CLI session event into universal events, taking fresh identifiers
/// from `ids`. Fails, with "unsupported Copilot event type: " and the type, on an event
/// whose type it does not know.
#[verifier::rlimit(50)]
pub fn event_to_universal(event: &JsonValue, ids: &mut TempIdCounter) -> (r: Result<
    Vec<EventConversion>,
    String,
>)
    ensures
        (result_view(r), final(ids).next) == event_spec(event@, old(ids).next),
{
    proof {
        reveal_strlit("");
        assert(""@ =~= Seq::<char>::empty());
    }
    let event_type = get_str_or(event, "type", "");
    let data = get_or_null(event, "data");
    if str_eq(event_type, "session.start") {
        Ok(single(session_start_to_universal(&data, Some(event.clone()))))
    } else if str_eq(event_type, "session.resume") {
        Ok(single(session_resume_to_universal(&data, Some(event.clone()))))
    } else if str_eq(event_type, "session.error") {
        Ok(single(session_error_to_universal(&data, Some(event.clone()))))
    } else if str_eq(event_type, "session.idle") {
        Ok(single(status_event("session.idle", None, Some(event.clone()), ids)))
    } else if str_eq(event_type, "session.info") {
        Ok(single(status_event("session.info", Some(info_detail_of(&data)), Some(event.clone()), ids)))
    } else if str_eq(event_type, "session.model_change") {
        Ok(single(status_event("session.model_change", Some(model_change_detail_of(&data)), Some(event.clone()), ids)))
    } else if str_eq(event_type, "session.handoff") {
        Ok(single(status_event("session.handoff", None, Some(event.clone()), ids)))
    } else if str_eq(event_type, "session.truncation") {
        Ok(single(status_event("session.truncation", None, Some(event.clone()), ids)))
    } else if str_eq(event_type, "session.usage_info") {
        Ok(single(status_event("session.usage_info", None, Some(event.clone()), ids)))
    } else if str_eq(event_type, "session.compaction_start") {
        Ok(single(status_event("session.compaction_start", None, Some(event.clone()), ids)))
    } else if str_eq(event_type, "session.compaction_complete") {
        Ok(single(status_event("session.compaction_complete", Some(compaction_detail_of(&data)), Some(event.clone()), ids)))
    } else if str_eq(event_type, "session.import_legacy") {
        Ok(single(status_event("session.import_legacy", None, Some(event.clone()), ids)))
    } else if str_eq(event_type, "session.snapshot_rewind") {
        Ok(single(status_event("session.snapshot_rewind", None, Some(event.clone()), ids)))
    } else if str_eq(event_type, "session.shutdown") {
        Ok(single(status_event("session.shutdown", Some(get_str_or(&data, "shutdownType", "unknown").to_owned()), Some(event.clone()), ids)))
    } else if str_eq(event_type, "user.message") {
        Ok(single(user_message_to_universal(&data, Some(event.clone()), ids)))
    } else if str_eq(event_type, "pending_messages.modified") {
        Ok(no_conversions())
    } else if str_eq(event_type, "assistant.turn_start") {
        Ok(single(status_event("assistant.turn_start", get_string(&data, "turnId"), Some(event.clone()), ids)))
    } else if str_eq(event_type, "assistant.intent") {
        Ok(single(status_event("assistant.intent", get_string(&data, "intent"), Some(event.clone()), ids)))
    } else if str_eq(event_type, "assistant.reasoning") {
        Ok(single(reasoning_to_universal(&data, Some(event.clone()), ids)))
    } else if str_eq(event_type, "assistant.reasoning_delta") {
        Ok(single(reasoning_delta_to_universal(&data, Some(event.clone()))))
    } else if str_eq(event_type, "assistant.message") {
        Ok(assistant_message_to_universal(&data, Some(event.clone()), ids))
    } else if str_eq(event_type, "assistant.message_delta") {
        Ok(single(message_delta_to_universal(&data, Some(event.clone()))))
    } else if str_eq(event_type, "assistant.turn_end") {
        Ok(single(status_event("assistant.turn_end", get_string(&data, "turnId"), Some(event.clone()), ids)))
    } else if str_eq(event_type, "assistant.usage") {
        Ok(single(status_event("assistant.usage", Some(usage_detail_of(&data)), Some(event.clone()), ids)))
    } else if str_eq(event_type, "tool.user_requested") {
        Ok(single(tool_start_to_universal(&data, Some(event.clone()), true, ids)))
    } else if str_eq(event_type, "tool.execution_start") {
        Ok(single(tool_start_to_universal(&data, Some(event.clone()), false, ids)))
    } else if str_eq(event_type, "tool.execution_partial_result") {
        Ok(single(tool_partial_to_universal(&data, Some(event.clone()))))
    } else if str_eq(event_type, "tool.execution_progress") {
        Ok(single(status_event("tool.progress", get_string(&data, "progressMessage"), Some(event.clone()), ids)))
    } else if str_eq(event_type, "tool.execution_complete") {
        Ok(single(tool_complete_to_universal(&data, Some(event.clone()), ids)))
    } else if str_eq(event_type, "subagent.started") {
        Ok(single(status_event("subagent.started", Some(subagent_started_detail_of(&data)), Some(event.clone()), ids)))
    } else if str_eq(event_type, "subagent.completed") {
        Ok(single(status_event("subagent.completed", Some(subagent_completed_detail_of(&data)), Some(event.clone()), ids)))
    } else if str_eq(event_type, "subagent.failed") {
        Ok(single(status_event("subagent.failed", Some(subagent_failed_detail_of(&data)), Some(event.clone()), ids)))
    } else if str_eq(event_type, "subagent.selected") {
        Ok(single(status_event("subagent.selected", Some(subagent_selected_detail_of(&data)), Some(event.clone()), ids)))
    } else if str_eq(event_type, "skill.invoked") {
        Ok(single(status_event("skill.invoked", Some(skill_detail_of(&data)), Some(event.clone()), ids)))
    } else if str_eq(event_type, "system.message") {
        Ok(single(system_message_to_universal(&data, Some(event.clone()), ids)))
    } else if str_eq(event_type, "hook.start") || str_eq(event_type, "hook.end") {
        Ok(no_conversions())
    } else if str_eq(event_type, "abort") {
        Ok(single(error_event(get_str_or(&data, "reason", "aborted"), None, Some(event.clone()))))
    } else {
        let mut message = "unsupported Copilot event type: ".to_owned();
        message.append(event_type);
        Err(message)
    }
}

} // verus!
