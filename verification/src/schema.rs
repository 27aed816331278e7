//! The universal event schema that agent events are converted into, with the
//! mathematical model of each type.

use vstd::prelude::*;
use crate::json::{JsonModel, JsonValue, opt_json_owned_view};

verus! {

/// The kind of a universal event.
#[derive(Clone, Copy, Debug, PartialEq, Eq, Structural)]
pub enum UniversalEventType {
    SessionStarted,
    ItemStarted,
    ItemDelta,
    ItemCompleted,
    Error,
}

/// The kind of an item.
#[derive(Clone, Copy, Debug, PartialEq, Eq, Structural)]
pub enum ItemKind {
    Message,
    ToolCall,
    ToolResult,
    System,
    Status,
}

/// Who an item comes from.
#[derive(Clone, Copy, Debug, PartialEq, Eq, Structural)]
pub enum ItemRole {
    User,
    Assistant,
    System,
    Tool,
}

/// The state of an item.
#[derive(Clone, Copy, Debug, PartialEq, Eq, Structural)]
pub enum ItemStatus {
    InProgress,
    Completed,
    Failed,
}

/// Whether reasoning text is shown.
#[derive(Clone, Copy, Debug, PartialEq, Eq, Structural)]
pub enum ReasoningVisibility {
    Public,
}

/// What was done with a referenced file.
#[derive(Clone, Copy, Debug, PartialEq, Eq, Structural)]
pub enum FileAction {
    Read,
}

/// A piece of an item's content.
#[derive(Debug)]
pub enum ContentPart {
    Text { text: String },
    FileRef { path: String, action: FileAction, diff: Option<String> },
    Reasoning { text: String, visibility: ReasoningVisibility },
    ToolCall { name: String, arguments: String, call_id: String },
    ToolResult { call_id: String, output: String },
    Status { label: String, detail: Option<String> },
}

/// A message, tool call, tool result, system or status item.
#[derive(Debug)]
pub struct UniversalItem {
    pub item_id: String,
    pub native_item_id: Option<String>,
    pub parent_id: Option<String>,
    pub kind: ItemKind,
    pub role: Option<ItemRole>,
    pub content: Vec<ContentPart>,
    pub status: ItemStatus,
}

/// The payload of a session start.
#[derive(Debug)]
pub struct SessionStartedData {
    pub metadata: Option<JsonValue>,
}

/// The payload of an error.
#[derive(Debug)]
pub struct ErrorData {
    pub message: String,
    pub code: Option<String>,
    pub details: Option<JsonValue>,
}

/// The payload of an item event.
#[derive(Debug)]
pub struct ItemEventData {
    pub item: UniversalItem,
}

/// The payload of an incremental update to an item.
#[derive(Debug)]
pub struct ItemDeltaData {
    pub item_id: String,
    pub native_item_id: Option<String>,
    pub delta: String,
}

/// The payload of a universal event.
#[derive(Debug)]
pub enum UniversalEventData {
    SessionStarted(SessionStartedData),
    Error(ErrorData),
    Item(ItemEventData),
    ItemDelta(ItemDeltaData),
}

/// One universal event produced from an agent event.
#[derive(Debug)]
pub struct EventConversion {
    pub event_type: UniversalEventType,
    pub data: UniversalEventData,
    pub native_session_id: Option<String>,
    pub raw: Option<JsonValue>,
    /// Set on events that the daemon makes up rather than the agent emits.
    pub synthetic: bool,
}

/// The model of a content part.
#[verifier::ext_equal]
pub enum PartModel {
    Text { text: Seq<char> },
    FileRef { path: Seq<char>, action: FileAction, diff: Option<Seq<char>> },
    Reasoning { text: Seq<char>, visibility: ReasoningVisibility },
    ToolCall { name: Seq<char>, arguments: Seq<char>, call_id: Seq<char> },
    ToolResult { call_id: Seq<char>, output: Seq<char> },
    Status { label: Seq<char>, detail: Option<Seq<char>> },
}

/// The model of an item.
#[verifier::ext_equal]
pub struct ItemModel {
    pub item_id: Seq<char>,
    pub native_item_id: Option<Seq<char>>,
    pub parent_id: Option<Seq<char>>,
    pub kind: ItemKind,
    pub role: Option<ItemRole>,
    pub content: Seq<PartModel>,
    pub status: ItemStatus,
}

/// The model of an event payload.
#[verifier::ext_equal]
pub enum DataModel {
    SessionStarted { metadata: Option<JsonModel> },
    Error { message: Seq<char>, code: Option<Seq<char>>, details: Option<JsonModel> },
    Item { item: ItemModel },
    ItemDelta { item_id: Seq<char>, native_item_id: Option<Seq<char>>, delta: Seq<char> },
}

/// The model of a conversion.
#[verifier::ext_equal]
pub struct ConversionModel {
    pub event_type: UniversalEventType,
    pub data: DataModel,
    pub native_session_id: Option<Seq<char>>,
    pub raw: Option<JsonModel>,
    pub synthetic: bool,
}

/// The characters of an optional string.
pub open spec fn opt_str_view(o: Option<String>) -> Option<Seq<char>> {
    match o {
        Some(s) => Some(s@),
        None => None,
    }
}

impl View for ContentPart {
    type V = PartModel;

    open spec fn view(&self) -> PartModel {
        match *self {
            ContentPart::Text { text } => PartModel::Text { text: text@ },
            ContentPart::FileRef { path, action, diff } => PartModel::FileRef {
                path: path@,
                action,
                diff: opt_str_view(diff),
            },
            ContentPart::Reasoning { text, visibility } => PartModel::Reasoning {
                text: text@,
                visibility,
            },
            ContentPart::ToolCall { name, arguments, call_id } => PartModel::ToolCall {
                name: name@,
                arguments: arguments@,
                call_id: call_id@,
            },
            ContentPart::ToolResult { call_id, output } => PartModel::ToolResult {
                call_id: call_id@,
                output: output@,
            },
            ContentPart::Status { label, detail } => PartModel::Status {
                label: label@,
                detail: opt_str_view(detail),
            },
        }
    }
}

/// The models of a sequence of content parts.
pub open spec fn parts_view(parts: Seq<ContentPart>) -> Seq<PartModel> {
    Seq::new(parts.len(), |i: int| parts[i]@)
}

impl View for UniversalItem {
    type V = ItemModel;

    open spec fn view(&self) -> ItemModel {
        ItemModel {
            item_id: self.item_id@,
            native_item_id: opt_str_view(self.native_item_id),
            parent_id: opt_str_view(self.parent_id),
            kind: self.kind,
            role: self.role,
            content: parts_view(self.content@),
            status: self.status,
        }
    }
}

impl View for UniversalEventData {
    type V = DataModel;

    open spec fn view(&self) -> DataModel {
        match *self {
            UniversalEventData::SessionStarted(d) => DataModel::SessionStarted {
                metadata: opt_json_owned_view(d.metadata),
            },
            UniversalEventData::Error(d) => DataModel::Error {
                message: d.message@,
                code: opt_str_view(d.code),
                details: opt_json_owned_view(d.details),
            },
            UniversalEventData::Item(d) => DataModel::Item { item: d.item@ },
            UniversalEventData::ItemDelta(d) => DataModel::ItemDelta {
                item_id: d.item_id@,
                native_item_id: opt_str_view(d.native_item_id),
                delta: d.delta@,
            },
        }
    }
}

impl View for EventConversion {
    type V = ConversionModel;

    open spec fn view(&self) -> ConversionModel {
        ConversionModel {
            event_type: self.event_type,
            data: self.data@,
            native_session_id: opt_str_view(self.native_session_id),
            raw: opt_json_owned_view(self.raw),
            synthetic: self.synthetic,
        }
    }
}

/// The models of a sequence of conversions.
pub open spec fn conversions_view(cs: Seq<EventConversion>) -> Seq<ConversionModel> {
    Seq::new(cs.len(), |i: int| cs[i]@)
}

impl EventConversion {
    /// A conversion of the given type and payload, from the agent, with no session or raw event.
    pub fn new(event_type: UniversalEventType, data: UniversalEventData) -> (r: Self)
        ensures
            r@ == (ConversionModel {
                event_type,
                data: data@,
                native_session_id: None,
                raw: None,
                synthetic: false,
            }),
    {
        EventConversion { event_type, data, native_session_id: None, raw: None, synthetic: false }
    }

    /// The same conversion, tied to the agent's session `session_id`.
    pub fn with_native_session(self, session_id: Option<String>) -> (r: Self)
        ensures
            r@ == (ConversionModel { native_session_id: opt_str_view(session_id), ..self@ }),
    {
        EventConversion { native_session_id: session_id, ..self }
    }

    /// The same conversion, carrying the agent event it came from.
    pub fn with_raw(self, raw: Option<JsonValue>) -> (r: Self)
        ensures
            r@ == (ConversionModel { raw: opt_json_owned_view(raw), ..self@ }),
    {
        EventConversion { raw, ..self }
    }

    /// The same conversion, marked as made up by the daemon.
    pub fn synthetic(self) -> (r: Self)
        ensures
            r@ == (ConversionModel { synthetic: true, ..self@ }),
    {
        EventConversion { synthetic: true, ..self }
    }
}

} // verus!
