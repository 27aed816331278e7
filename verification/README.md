# universal_agent_schema (Copilot CLI events)

Converts GitHub Copilot CLI session events into the universal agent event
schema. The conversion is written in Verus and its contracts state, for every
event type, the universal events produced.

- `src/json.rs`: JSON values as plain data, their model, member lookup,
  copying and compact JSON text.
- `src/schema.rs`: the universal event types and their models.
- `src/temp_id.rs`: the counter that fresh item identifiers are drawn from.
- `src/text.rs`: decimal rendering and string comparison.
- `src/copilot.rs`: the conversion, event type by event type.
- `src/laws.rs`: properties that hold of every conversion.
- `app/lib.rs`: a process-wide counter and the passage to and from
  `serde_json::Value`.
