//! Properties of the conversion that hold for every event.

use vstd::prelude::*;
use crate::copilot::{event_spec, event_type_of, field_or_null, tool_start_spec};
use crate::json::{JsonModel, field_array, field_bool, field_str, model_get};
use crate::schema::{
    ConversionModel, DataModel, ItemKind, ItemModel, ItemRole, ItemStatus, PartModel,
    UniversalEventType,
};
use crate::temp_id::{successor, temp_id};
use crate::text::{decimal, digit_char};

verus! {

/// The event types that the converter knows.
pub open spec fn is_supported_type(t: Seq<char>) -> bool {
    ||| t == "session.start"@
    ||| t == "session.resume"@
    ||| t == "session.error"@
    ||| t == "session.idle"@
    ||| t == "session.info"@
    ||| t == "session.model_change"@
    ||| t == "session.handoff"@
    ||| t == "session.truncation"@
    ||| t == "session.usage_info"@
    ||| t == "session.compaction_start"@
    ||| t == "session.compaction_complete"@
    ||| t == "session.import_legacy"@
    ||| t == "session.snapshot_rewind"@
    ||| t == "session.shutdown"@
    ||| t == "user.message"@
    ||| t == "pending_messages.modified"@
    ||| t == "assistant.turn_start"@
    ||| t == "assistant.intent"@
    ||| t == "assistant.reasoning"@
    ||| t == "assistant.reasoning_delta"@
    ||| t == "assistant.message"@
    ||| t == "assistant.message_delta"@
    ||| t == "assistant.turn_end"@
    ||| t == "assistant.usage"@
    ||| t == "tool.user_requested"@
    ||| t == "tool.execution_start"@
    ||| t == "tool.execution_partial_result"@
    ||| t == "tool.execution_progress"@
    ||| t == "tool.execution_complete"@
    ||| t == "subagent.started"@
    ||| t == "subagent.completed"@
    ||| t == "subagent.failed"@
    ||| t == "subagent.selected"@
    ||| t == "skill.invoked"@
    ||| t == "system.message"@
    ||| t == "hook.start"@
    ||| t == "hook.end"@
    ||| t == "abort"@
}

/// The names of the event types that the laws below speak of differ from every name
/// checked before them.
proof fn lemma_type_names_differ()
    ensures
        "session.start"@ != "session.resume"@,
        "session.start"@ != "tool.user_requested"@,
        "session.resume"@ != "tool.user_requested"@,
        "session.error"@ != "tool.user_requested"@,
        "session.idle"@ != "tool.user_requested"@,
        "session.info"@ != "tool.user_requested"@,
        "session.model_change"@ != "tool.user_requested"@,
        "session.handoff"@ != "tool.user_requested"@,
        "session.truncation"@ != "tool.user_requested"@,
        "session.usage_info"@ != "tool.user_requested"@,
        "session.compaction_start"@ != "tool.user_requested"@,
        "session.compaction_complete"@ != "tool.user_requested"@,
        "session.import_legacy"@ != "tool.user_requested"@,
        "session.snapshot_rewind"@ != "tool.user_requested"@,
        "session.shutdown"@ != "tool.user_requested"@,
        "user.message"@ != "tool.user_requested"@,
        "pending_messages.modified"@ != "tool.user_requested"@,
        "assistant.turn_start"@ != "tool.user_requested"@,
        "assistant.intent"@ != "tool.user_requested"@,
        "assistant.reasoning"@ != "tool.user_requested"@,
        "assistant.reasoning_delta"@ != "tool.user_requested"@,
        "assistant.message"@ != "tool.user_requested"@,
        "assistant.message_delta"@ != "tool.user_requested"@,
        "assistant.turn_end"@ != "tool.user_requested"@,
        "assistant.usage"@ != "tool.user_requested"@,
        "session.start"@ != "session.error"@,
        "session.resume"@ != "session.error"@,
        "session.start"@ != "abort"@,
        "session.resume"@ != "abort"@,
        "session.error"@ != "abort"@,
        "session.idle"@ != "abort"@,
        "session.info"@ != "abort"@,
        "session.model_change"@ != "abort"@,
        "session.handoff"@ != "abort"@,
        "session.truncation"@ != "abort"@,
        "session.usage_info"@ != "abort"@,
        "session.compaction_start"@ != "abort"@,
        "session.compaction_complete"@ != "abort"@,
        "session.import_legacy"@ != "abort"@,
        "session.snapshot_rewind"@ != "abort"@,
        "session.shutdown"@ != "abort"@,
        "user.message"@ != "abort"@,
        "pending_messages.modified"@ != "abort"@,
        "assistant.turn_start"@ != "abort"@,
        "assistant.intent"@ != "abort"@,
        "assistant.reasoning"@ != "abort"@,
        "assistant.reasoning_delta"@ != "abort"@,
        "assistant.message"@ != "abort"@,
        "assistant.message_delta"@ != "abort"@,
        "assistant.turn_end"@ != "abort"@,
        "assistant.usage"@ != "abort"@,
        "tool.user_requested"@ != "abort"@,
        "tool.execution_start"@ != "abort"@,
        "tool.execution_partial_result"@ != "abort"@,
        "tool.execution_progress"@ != "abort"@,
        "tool.execution_complete"@ != "abort"@,
        "subagent.started"@ != "abort"@,
        "subagent.completed"@ != "abort"@,
        "subagent.failed"@ != "abort"@,
        "subagent.selected"@ != "abort"@,
        "skill.invoked"@ != "abort"@,
        "system.message"@ != "abort"@,
        "hook.start"@ != "abort"@,
        "hook.end"@ != "abort"@,
        "session.start"@ != "tool.execution_complete"@,
        "session.resume"@ != "tool.execution_complete"@,
        "session.error"@ != "tool.execution_complete"@,
        "session.idle"@ != "tool.execution_complete"@,
        "session.info"@ != "tool.execution_complete"@,
        "session.model_change"@ != "tool.execution_complete"@,
        "session.handoff"@ != "tool.execution_complete"@,
        "session.truncation"@ != "tool.execution_complete"@,
        "session.usage_info"@ != "tool.execution_complete"@,
        "session.compaction_start"@ != "tool.execution_complete"@,
        "session.compaction_complete"@ != "tool.execution_complete"@,
        "session.import_legacy"@ != "tool.execution_complete"@,
        "session.snapshot_rewind"@ != "tool.execution_complete"@,
        "session.shutdown"@ != "tool.execution_complete"@,
        "user.message"@ != "tool.execution_complete"@,
        "pending_messages.modified"@ != "tool.execution_complete"@,
        "assistant.turn_start"@ != "tool.execution_complete"@,
        "assistant.intent"@ != "tool.execution_complete"@,
        "assistant.reasoning"@ != "tool.execution_complete"@,
        "assistant.reasoning_delta"@ != "tool.execution_complete"@,
        "assistant.message"@ != "tool.execution_complete"@,
        "assistant.message_delta"@ != "tool.execution_complete"@,
        "assistant.turn_end"@ != "tool.execution_complete"@,
        "assistant.usage"@ != "tool.execution_complete"@,
        "tool.user_requested"@ != "tool.execution_complete"@,
        "tool.execution_start"@ != "tool.execution_complete"@,
        "tool.execution_partial_result"@ != "tool.execution_complete"@,
        "tool.execution_progress"@ != "tool.execution_complete"@,
        "session.start"@ != "user.message"@,
        "session.resume"@ != "user.message"@,
        "session.error"@ != "user.message"@,
        "session.idle"@ != "user.message"@,
        "session.info"@ != "user.message"@,
        "session.model_change"@ != "user.message"@,
        "session.handoff"@ != "user.message"@,
        "session.truncation"@ != "user.message"@,
        "session.usage_info"@ != "user.message"@,
        "session.compaction_start"@ != "user.message"@,
        "session.compaction_complete"@ != "user.message"@,
        "session.import_legacy"@ != "user.message"@,
        "session.snapshot_rewind"@ != "user.message"@,
        "session.shutdown"@ != "user.message"@,
        "session.start"@ != "assistant.message"@,
        "session.resume"@ != "assistant.message"@,
        "session.error"@ != "assistant.message"@,
        "session.idle"@ != "assistant.message"@,
        "session.info"@ != "assistant.message"@,
        "session.model_change"@ != "assistant.message"@,
        "session.handoff"@ != "assistant.message"@,
        "session.truncation"@ != "assistant.message"@,
        "session.usage_info"@ != "assistant.message"@,
        "session.compaction_start"@ != "assistant.message"@,
        "session.compaction_complete"@ != "assistant.message"@,
        "session.import_legacy"@ != "assistant.message"@,
        "session.snapshot_rewind"@ != "assistant.message"@,
        "session.shutdown"@ != "assistant.message"@,
        "user.message"@ != "assistant.message"@,
        "pending_messages.modified"@ != "assistant.message"@,
        "assistant.turn_start"@ != "assistant.message"@,
        "assistant.intent"@ != "assistant.message"@,
        "assistant.reasoning"@ != "assistant.message"@,
        "assistant.reasoning_delta"@ != "assistant.message"@,
        "session.start"@ != "system.message"@,
        "session.resume"@ != "system.message"@,
        "session.error"@ != "system.message"@,
        "session.idle"@ != "system.message"@,
        "session.info"@ != "system.message"@,
        "session.model_change"@ != "system.message"@,
        "session.handoff"@ != "system.message"@,
        "session.truncation"@ != "system.message"@,
        "session.usage_info"@ != "system.message"@,
        "session.compaction_start"@ != "system.message"@,
        "session.compaction_complete"@ != "system.message"@,
        "session.import_legacy"@ != "system.message"@,
        "session.snapshot_rewind"@ != "system.message"@,
        "session.shutdown"@ != "system.message"@,
        "user.message"@ != "system.message"@,
        "pending_messages.modified"@ != "system.message"@,
        "assistant.turn_start"@ != "system.message"@,
        "assistant.intent"@ != "system.message"@,
        "assistant.reasoning"@ != "system.message"@,
        "assistant.reasoning_delta"@ != "system.message"@,
        "assistant.message"@ != "system.message"@,
        "assistant.message_delta"@ != "system.message"@,
        "assistant.turn_end"@ != "system.message"@,
        "assistant.usage"@ != "system.message"@,
        "tool.user_requested"@ != "system.message"@,
        "tool.execution_start"@ != "system.message"@,
        "tool.execution_partial_result"@ != "system.message"@,
        "tool.execution_progress"@ != "system.message"@,
        "tool.execution_complete"@ != "system.message"@,
        "subagent.started"@ != "system.message"@,
        "subagent.completed"@ != "system.message"@,
        "subagent.failed"@ != "system.message"@,
        "subagent.selected"@ != "system.message"@,
        "skill.invoked"@ != "system.message"@,
{
    reveal_strlit("session.start");
    assert("session.start"@.len() == 13);
    reveal_strlit("session.resume");
    assert("session.resume"@.len() == 14);
    reveal_strlit("tool.user_requested");
    assert("tool.user_requested"@.len() == 19);
    reveal_strlit("session.error");
    assert("session.error"@.len() == 13);
    reveal_strlit("session.idle");
    assert("session.idle"@.len() == 12);
    reveal_strlit("session.info");
    assert("session.info"@.len() == 12);
    reveal_strlit("session.model_change");
    assert("session.model_change"@.len() == 20);
    reveal_strlit("session.handoff");
    assert("session.handoff"@.len() == 15);
    reveal_strlit("session.truncation");
    assert("session.truncation"@.len() == 18);
    reveal_strlit("session.usage_info");
    assert("session.usage_info"@.len() == 18);
    reveal_strlit("session.compaction_start");
    assert("session.compaction_start"@.len() == 24);
    reveal_strlit("session.compaction_complete");
    assert("session.compaction_complete"@.len() == 27);
    reveal_strlit("session.import_legacy");
    assert("session.import_legacy"@.len() == 21);
    reveal_strlit("session.snapshot_rewind");
    assert("session.snapshot_rewind"@.len() == 23);
    reveal_strlit("session.shutdown");
    assert("session.shutdown"@.len() == 16);
    reveal_strlit("user.message");
    assert("user.message"@.len() == 12);
    reveal_strlit("pending_messages.modified");
    assert("pending_messages.modified"@.len() == 25);
    reveal_strlit("assistant.turn_start");
    assert("assistant.turn_start"@.len() == 20);
    reveal_strlit("assistant.intent");
    assert("assistant.intent"@.len() == 16);
    reveal_strlit("assistant.reasoning");
    assert("assistant.reasoning"@.len() == 19);
    reveal_strlit("assistant.reasoning_delta");
    assert("assistant.reasoning_delta"@.len() == 25);
    reveal_strlit("assistant.message");
    assert("assistant.message"@.len() == 17);
    reveal_strlit("assistant.message_delta");
    assert("assistant.message_delta"@.len() == 23);
    reveal_strlit("assistant.turn_end");
    assert("assistant.turn_end"@.len() == 18);
    reveal_strlit("assistant.usage");
    assert("assistant.usage"@.len() == 15);
    reveal_strlit("abort");
    assert("abort"@.len() == 5);
    reveal_strlit("tool.execution_start");
    assert("tool.execution_start"@.len() == 20);
    reveal_strlit("tool.execution_partial_result");
    assert("tool.execution_partial_result"@.len() == 29);
    reveal_strlit("tool.execution_progress");
    assert("tool.execution_progress"@.len() == 23);
    reveal_strlit("tool.execution_complete");
    assert("tool.execution_complete"@.len() == 23);
    reveal_strlit("subagent.started");
    assert("subagent.started"@.len() == 16);
    reveal_strlit("subagent.completed");
    assert("subagent.completed"@.len() == 18);
    reveal_strlit("subagent.failed");
    assert("subagent.failed"@.len() == 15);
    reveal_strlit("subagent.selected");
    assert("subagent.selected"@.len() == 17);
    reveal_strlit("skill.invoked");
    assert("skill.invoked"@.len() == 13);
    reveal_strlit("system.message");
    assert("system.message"@.len() == 14);
    reveal_strlit("hook.start");
    assert("hook.start"@.len() == 10);
    reveal_strlit("hook.end");
    assert("hook.end"@.len() == 8);
    assert("assistant.reasoning"@[0] != "tool.user_requested"@[0]);
    assert("session.start"@[8] != "session.error"@[8]);
    assert("session.snapshot_rewind"@[0] != "tool.execution_complete"@[0]);
    assert("assistant.message_delta"@[0] != "tool.execution_complete"@[0]);
    assert("tool.execution_progress"@[15] != "tool.execution_complete"@[15]);
    assert("session.idle"@[0] != "user.message"@[0]);
    assert("session.info"@[0] != "user.message"@[0]);
    assert("session.resume"@[1] != "system.message"@[1]);
}

/// An event is refused exactly when its type is not one the converter knows; the refusal
/// names the type, and no fresh identifier is used.
pub proof fn lemma_refused_iff_unsupported(event: JsonModel, n: u64)
    ensures
        event_spec(event, n).0 is Err <==> !is_supported_type(event_type_of(event)),
        event_spec(event, n).0 is Err ==> event_spec(event, n).0 == Err::<
            Seq<crate::schema::ConversionModel>,
            Seq<char>,
        >("unsupported Copilot event type: "@ + event_type_of(event)) && event_spec(event, n).1
            == n,
{
}


/// Every universal event that a conversion produces carries the whole Copilot event as its
/// raw event.
pub proof fn lemma_raw_is_the_event(event: JsonModel, n: u64, i: int)
    requires
        event_spec(event, n).0 is Ok,
        0 <= i < event_spec(event, n).0->Ok_0.len(),
    ensures
        event_spec(event, n).0->Ok_0[i].raw == Some(event),
{
}

/// A Copilot event becomes at most one universal event.
pub proof fn lemma_at_most_one_event(event: JsonModel, n: u64)
    requires
        event_spec(event, n).0 is Ok,
    ensures
        event_spec(event, n).0->Ok_0.len() <= 1,
{
}

/// A universal event is made up by the daemon exactly when it comes from a session resume
/// or a tool call that the user requested.
#[verifier::rlimit(60)]
pub proof fn lemma_synthetic_events(event: JsonModel, n: u64, i: int)
    requires
        event_spec(event, n).0 is Ok,
        0 <= i < event_spec(event, n).0->Ok_0.len(),
    ensures
        event_spec(event, n).0->Ok_0[i].synthetic <==> (event_type_of(event) == "session.resume"@
            || event_type_of(event) == "tool.user_requested"@),
{
    lemma_type_names_differ();
}

/// Errors come from session errors and aborts, and from nothing else.
#[verifier::rlimit(60)]
pub proof fn lemma_error_events(event: JsonModel, n: u64, i: int)
    requires
        event_spec(event, n).0 is Ok,
        0 <= i < event_spec(event, n).0->Ok_0.len(),
    ensures
        event_spec(event, n).0->Ok_0[i].event_type == UniversalEventType::Error
            <==> (event_type_of(event) == "session.error"@ || event_type_of(event) == "abort"@),
{
    lemma_type_names_differ();
}

/// An incremental update names its item both as the item and as the agent's item.
#[verifier::rlimit(40)]
pub proof fn lemma_delta_ids(event: JsonModel, n: u64, i: int)
    requires
        event_spec(event, n).0 is Ok,
        0 <= i < event_spec(event, n).0->Ok_0.len(),
        event_spec(event, n).0->Ok_0[i].data is ItemDelta,
    ensures
        event_spec(event, n).0->Ok_0[i].data->ItemDelta_native_item_id == Some(
            event_spec(event, n).0->Ok_0[i].data->ItemDelta_item_id,
        ),
        event_spec(event, n).0->Ok_0[i].event_type == UniversalEventType::ItemDelta,
{
}


/// Every decimal representation has a digit, and a number of ten or more has at least two.
proof fn lemma_decimal_len(n: nat)
    ensures
        decimal(n).len() >= 1,
        n >= 10 ==> decimal(n).len() >= 2,
    decreases n,
{
    if n >= 10 {
        lemma_decimal_len(n / 10);
    }
}

/// Different numbers have different decimal representations.
proof fn lemma_decimal_injective(a: nat, b: nat)
    requires
        decimal(a) == decimal(b),
    ensures
        a == b,
    decreases a,
{
    lemma_decimal_len(a);
    lemma_decimal_len(b);
    if a < 10 && b < 10 {
        assert(decimal(a)[0] == digit_char(a));
        assert(decimal(b)[0] == digit_char(b));
    } else if a >= 10 && b >= 10 {
        let da = decimal(a);
        assert(da == decimal(a / 10).push(digit_char(a % 10)));
        assert(decimal(b) == decimal(b / 10).push(digit_char(b % 10)));
        assert(da.last() == digit_char(a % 10));
        assert(decimal(b).last() == digit_char(b % 10));
        assert(da.drop_last() =~= decimal(a / 10));
        assert(decimal(b).drop_last() =~= decimal(b / 10));
        lemma_decimal_injective(a / 10, b / 10);
    }
}

/// Fresh identifiers made from the same prefix with different numbers differ.
pub proof fn lemma_temp_ids_distinct(prefix: Seq<char>, a: u64, b: u64)
    requires
        a != b,
    ensures
        temp_id(prefix, a) != temp_id(prefix, b),
{
    if temp_id(prefix, a) == temp_id(prefix, b) {
        let head = prefix + "_"@;
        let ia = temp_id(prefix, a);
        assert(ia =~= head + decimal(a as nat));
        assert(temp_id(prefix, b) =~= head + decimal(b as nat));
        assert(ia.subrange(head.len() as int, ia.len() as int) =~= decimal(a as nat));
        assert(ia.subrange(head.len() as int, ia.len() as int) =~= decimal(b as nat));
        lemma_decimal_injective(a as nat, b as nat);
    }
}

/// Two identifiers drawn one after the other from the same counter differ.
pub proof fn lemma_successive_ids_differ(prefix: Seq<char>, n: u64)
    ensures
        temp_id(prefix, n) != temp_id(prefix, successor(n)),
{
    lemma_temp_ids_distinct(prefix, n, successor(n));
}


/// A conversion that carries the event `e` in place of the one it came from: as its raw
/// event, and, for an event of type `abort`, as the error's details.
pub open spec fn reattached(c: ConversionModel, e: JsonModel, t: Seq<char>) -> ConversionModel {
    ConversionModel {
        raw: Some(e),
        data: if t == "abort"@ {
            match c.data {
                DataModel::Error { message, code, details } => DataModel::Error {
                    message,
                    code,
                    details: Some(e),
                },
                d => d,
            }
        } else {
            c.data
        },
        ..c
    }
}

/// Two events with the same type and the same payload convert alike from the same counter:
/// both are refused with the same message or both succeed with as many events, each of the
/// second's events being the first's with the second event carried in place of the first;
/// and the counter ends in the same place.
#[verifier::rlimit(80)]
pub proof fn lemma_same_type_and_data(e1: JsonModel, e2: JsonModel, n: u64, i: int)
    requires
        event_type_of(e1) == event_type_of(e2),
        field_or_null(e1, "data"@) == field_or_null(e2, "data"@),
    ensures
        event_spec(e2, n).1 == event_spec(e1, n).1,
        event_spec(e1, n).0 is Ok <==> event_spec(e2, n).0 is Ok,
        event_spec(e1, n).0 is Err ==> event_spec(e2, n).0 == event_spec(e1, n).0,
        event_spec(e1, n).0 is Ok ==> event_spec(e2, n).0->Ok_0.len() == event_spec(
            e1,
            n,
        ).0->Ok_0.len(),
        event_spec(e1, n).0 is Ok && 0 <= i < event_spec(e1, n).0->Ok_0.len() ==> event_spec(
            e2,
            n,
        ).0->Ok_0[i] == reattached(event_spec(e1, n).0->Ok_0[i], e2, event_type_of(e1)),
{
    lemma_type_names_differ();
}

/// A tool call that the user requested converts as one that the agent started, but for
/// being marked as made up by the daemon.
pub proof fn lemma_user_requested_only_synthetic(data: JsonModel, raw: Option<JsonModel>, n: u64)
    ensures
        tool_start_spec(data, raw, true, n).0 == (ConversionModel {
            synthetic: true,
            ..tool_start_spec(data, raw, false, n).0
        }),
        tool_start_spec(data, raw, true, n).1 == tool_start_spec(data, raw, false, n).1,
        !tool_start_spec(data, raw, false, n).0.synthetic,
{
}

/// The counter after `k` identifiers have been drawn, starting at `n`.
pub open spec fn advanced(n: u64, k: nat) -> u64
    decreases k,
{
    if k == 0 {
        n
    } else {
        successor(advanced(n, (k - 1) as nat))
    }
}

/// Drawing `k` identifiers from `n` leaves the counter at `n + k`, modulo 2^64.
pub proof fn lemma_advanced_value(n: u64, k: nat)
    ensures
        advanced(n, k) == (n + k) % 0x1_0000_0000_0000_0000,
    decreases k,
{
    if k > 0 {
        lemma_advanced_value(n, (k - 1) as nat);
        let m: int = 0x1_0000_0000_0000_0000;
        let x: int = n + k - 1;
        assert(x % m + 1 == m ==> (x + 1) % m == 0) by {
            vstd::arithmetic::div_mod::lemma_mod_add_multiples_vanish(x + 1, m);
            vstd::arithmetic::div_mod::lemma_fundamental_div_mod(x, m);
            vstd::arithmetic::div_mod::lemma_fundamental_div_mod(x + 1, m);
            vstd::arithmetic::div_mod::lemma_mod_bound(x, m);
            if x % m + 1 == m {
                vstd::arithmetic::div_mod::lemma_mod_multiples_basic(x / m + 1, m);
                assert(x + 1 == (x / m + 1) * m) by (nonlinear_arith)
                    requires
                        x == m * (x / m) + x % m,
                        x % m + 1 == m,
                ;
            }
        }
        assert(x % m + 1 < m ==> (x + 1) % m == x % m + 1) by {
            vstd::arithmetic::div_mod::lemma_mod_bound(x, m);
            if x % m + 1 < m {
                vstd::arithmetic::div_mod::lemma_mod_adds(x, 1, m);
                vstd::arithmetic::div_mod::lemma_small_mod(1, m as nat);
            }
        }
    }
}

/// Fewer than 2^64 identifiers drawn one after another from the same counter with the same
/// prefix are all different: the `i`-th and the `j`-th draw use different numbers.
pub proof fn lemma_draws_distinct(prefix: Seq<char>, n: u64, i: nat, j: nat)
    requires
        i < j < 0x1_0000_0000_0000_0000,
    ensures
        advanced(n, i) != advanced(n, j),
        temp_id(prefix, advanced(n, i)) != temp_id(prefix, advanced(n, j)),
{
    lemma_advanced_value(n, i);
    lemma_advanced_value(n, j);
    let m: int = 0x1_0000_0000_0000_0000;
    let a: int = n + i;
    let b: int = n + j;
    assert(a % m == (if a < m { a } else { a - m })) by {
        if a < m {
            vstd::arithmetic::div_mod::lemma_small_mod(a as nat, m as nat);
        } else {
            vstd::arithmetic::div_mod::lemma_mod_sub_multiples_vanish(a, m);
            vstd::arithmetic::div_mod::lemma_small_mod((a - m) as nat, m as nat);
        }
    }
    assert(b % m == (if b < m { b } else { b - m })) by {
        if b < m {
            vstd::arithmetic::div_mod::lemma_small_mod(b as nat, m as nat);
        } else {
            vstd::arithmetic::div_mod::lemma_mod_sub_multiples_vanish(b, m);
            vstd::arithmetic::div_mod::lemma_small_mod((b - m) as nat, m as nat);
        }
    }
    lemma_temp_ids_distinct(prefix, advanced(n, i), advanced(n, j));
}


/// The item of the first universal event that converting `event` gives.
pub open spec fn first_item(event: JsonModel, n: u64) -> ItemModel {
    event_spec(event, n).0->Ok_0[0].data->Item_item
}

/// A finished tool call becomes one completed or failed tool result for its call. On
/// success the output is the result's string `detailedContent`, else the result's string
/// `content`, else empty. On failure it is the error's string `message` (by default "Tool
/// execution failed"), preceded by the error's string `code` in brackets where it has one.
#[verifier::rlimit(80)]
pub proof fn lemma_tool_complete_output(event: JsonModel, n: u64)
    requires
        event_type_of(event) == "tool.execution_complete"@,
    ensures
        event_spec(event, n).0 is Ok,
        event_spec(event, n).0->Ok_0.len() == 1,
        event_spec(event, n).0->Ok_0[0].event_type == UniversalEventType::ItemCompleted,
        event_spec(event, n).0->Ok_0[0].data is Item,
        first_item(event, n).kind == ItemKind::ToolResult,
        first_item(event, n).content.len() == 1,
        first_item(event, n).content[0] is ToolResult,
        ({
            let data = field_or_null(event, "data"@);
            let item = first_item(event, n);
            let output = item.content[0]->ToolResult_output;
            let succeeded = field_bool(data, "success"@) == Some(true);
            &&& item.status == (if succeeded {
                ItemStatus::Completed
            } else {
                ItemStatus::Failed
            })
            &&& succeeded ==> match model_get(data, "result"@) {
                Some(r) => {
                    &&& field_str(r, "detailedContent"@) matches Some(d) ==> output == d
                    &&& field_str(r, "detailedContent"@) is None ==> (field_str(r, "content"@) matches Some(
                        c,
                    ) ==> output == c)
                    &&& field_str(r, "detailedContent"@) is None && field_str(r, "content"@) is None
                        ==> output.len() == 0
                },
                None => output.len() == 0,
            }
            &&& !succeeded ==> {
                let msg = match model_get(data, "error"@) {
                    Some(e) => match field_str(e, "message"@) {
                        Some(m) => m,
                        None => "Tool execution failed"@,
                    },
                    None => "Tool execution failed"@,
                };
                match model_get(data, "error"@) {
                    Some(e) => match field_str(e, "code"@) {
                        Some(c) => output == "["@ + c + "] "@ + msg,
                        None => output == msg,
                    },
                    None => output == msg,
                }
            }
        }),
{
    lemma_type_names_differ();
}

/// A user message becomes one completed user message whose first part is its text: the
/// string `transformedContent` where there is one, whatever `content` holds; else the string
/// `content`; else empty.
#[verifier::rlimit(80)]
pub proof fn lemma_user_message_text(event: JsonModel, n: u64)
    requires
        event_type_of(event) == "user.message"@,
    ensures
        event_spec(event, n).0 is Ok,
        event_spec(event, n).0->Ok_0.len() == 1,
        event_spec(event, n).0->Ok_0[0].data is Item,
        first_item(event, n).role == Some(ItemRole::User),
        first_item(event, n).content.len() >= 1,
        ({
            let data = field_or_null(event, "data"@);
            let first = first_item(event, n).content[0];
            &&& field_str(data, "transformedContent"@) matches Some(tc) ==> first == PartModel::Text {
                text: tc,
            }
            &&& field_str(data, "transformedContent"@) is None ==> (field_str(data, "content"@) matches Some(
                c,
            ) ==> first == PartModel::Text { text: c })
            &&& field_str(data, "transformedContent"@) is None && field_str(data, "content"@) is None
                ==> first == PartModel::Text { text: Seq::empty() }
        }),
{
    lemma_type_names_differ();
}

/// Every item that an assistant message becomes sits under the payload's string
/// `parentToolCallId` (none where there is no such string), with or without tool requests;
/// and with tool requests there is exactly one such item.
#[verifier::rlimit(80)]
pub proof fn lemma_assistant_message_parent(event: JsonModel, n: u64, i: int)
    requires
        event_type_of(event) == "assistant.message"@,
    ensures
        event_spec(event, n).0 is Ok,
        field_array(field_or_null(event, "data"@), "toolRequests"@) is Some ==> event_spec(
            event,
            n,
        ).0->Ok_0.len() == 1,
        0 <= i < event_spec(event, n).0->Ok_0.len() ==> {
            &&& event_spec(event, n).0->Ok_0[i].data is Item
            &&& event_spec(event, n).0->Ok_0[i].data->Item_item.parent_id == field_str(
                field_or_null(event, "data"@),
                "parentToolCallId"@,
            )
            &&& event_spec(event, n).0->Ok_0[i].data->Item_item.role == Some(ItemRole::Assistant)
        },
{
    lemma_type_names_differ();
}

/// A session error becomes one error whose code is the payload's string `errorType`, whose
/// message is the payload's string `message` (by default "Unknown error"), and whose details
/// are the payload.
#[verifier::rlimit(80)]
pub proof fn lemma_session_error_fields(event: JsonModel, n: u64)
    requires
        event_type_of(event) == "session.error"@,
    ensures
        event_spec(event, n).0 is Ok,
        event_spec(event, n).0->Ok_0.len() == 1,
        event_spec(event, n).0->Ok_0[0].event_type == UniversalEventType::Error,
        ({
            let data = field_or_null(event, "data"@);
            event_spec(event, n).0->Ok_0[0].data matches DataModel::Error { message, code, details }
                && code == field_str(data, "errorType"@) && details == Some(data) && (field_str(
                data,
                "message"@,
            ) matches Some(m) ==> message == m) && (field_str(data, "message"@) is None ==> message
                == "Unknown error"@)
        }),
        event_spec(event, n).1 == n,
{
    lemma_type_names_differ();
}

/// A system message becomes one completed system item whose only part is the text of the
/// payload's string `content` (empty where there is none), named after the payload's string
/// `name` where there is one.
#[verifier::rlimit(80)]
pub proof fn lemma_system_message_text(event: JsonModel, n: u64)
    requires
        event_type_of(event) == "system.message"@,
    ensures
        event_spec(event, n).0 is Ok,
        event_spec(event, n).0->Ok_0.len() == 1,
        event_spec(event, n).0->Ok_0[0].data is Item,
        first_item(event, n).kind == ItemKind::System,
        first_item(event, n).role == Some(ItemRole::System),
        first_item(event, n).content.len() == 1,
        ({
            let data = field_or_null(event, "data"@);
            let part = first_item(event, n).content[0];
            &&& field_str(data, "content"@) matches Some(c) ==> part == PartModel::Text { text: c }
            &&& field_str(data, "content"@) is None ==> part == PartModel::Text { text: Seq::empty() }
            &&& field_str(data, "name"@) matches Some(name) ==> first_item(event, n).item_id
                == "copilot_system_"@ + name
        }),
{
    lemma_type_names_differ();
}

} // verus!
