//! What a stored row means: the kinds as values a contract can speak of.

#[allow(unused_imports)]
use serde_json::Value;
use vstd::prelude::*;

#[allow(unused_imports)]
use crate::block;
use crate::block::{Block, Role};
#[allow(unused_imports)]
use crate::json;

verus! {

/// A row, read by the kind that owns its stored type.
#[allow(inconsistent_fields)]
pub enum Kind {
    Text { role: Option<Role>, content: Seq<char> },
    Quote { role: Option<Role>, text: Seq<char> },
    Code { role: Option<Role>, language: Option<Seq<char>>, content: Seq<char> },
    Thinking { role: Option<Role>, content: Seq<char>, opaque: Option<Value> },
    ToolCall {
        id: i64,
        role: Option<Role>,
        tool_call_id: Seq<char>,
        name: Seq<char>,
        input: Seq<char>,
        interactive: bool,
    },
    ToolResult {
        role: Option<Role>,
        tool_call_id: Seq<char>,
        call: Option<i64>,
        content: Seq<char>,
        ends_turn: bool,
    },
    ToolError {
        role: Option<Role>,
        tool_call_id: Seq<char>,
        call: Option<i64>,
        error: Seq<char>,
        refusal: bool,
    },
    Status { role: Option<Role>, status: Seq<char> },
    SystemPrompt { role: Option<Role>, content: Seq<char> },
    Streaming,
    StreamingThinking,
    StreamingToolCall,
    ApprovalRequest { id: i64, for_block_id: i64 },
    ApprovalDecision { id: i64, for_block_id: Option<i64>, approved: bool },
    DateMarker {
        date: Seq<char>,
        tz_abbrev: Option<Seq<char>>,
        tz_name: Option<Seq<char>>,
        written_at: Option<Seq<char>>,
    },
    HarnessMessage { role: Option<Role>, content: Seq<char> },
    AncestorReference { conversation_id: i64 },
    ToolChoice { names: Seq<Seq<char>> },
    MetadataTitleRequest { id: i64 },
    MetadataTitleResponse,
    Unknown { role: Option<Role> },
}

/// The integer a payload carries, and zero where it carries none.
pub open spec fn int_or_zero(block: Block, key: Seq<char>) -> i64 {
    match block::int_at(block, key) {
        Some(n) => n,
        None => 0,
    }
}

/// The value a payload carries, where it carries one that is not null.
pub open spec fn present(block: Block, key: Seq<char>) -> Option<Value> {
    match block::field(block, key) {
        Some(value) => if json::json(value) is Null {
            None
        } else {
            Some(value)
        },
        None => None,
    }
}

} // verus!
