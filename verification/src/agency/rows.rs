//! What a stored row is read as, told by its type string and its payload.

use vstd::prelude::*;

#[allow(unused_imports)]
use super::block_kind;
#[allow(unused_imports)]
use super::model::Kind;
#[allow(unused_imports)]
use super::projection;
#[allow(unused_imports)]
use super::projection::{Part, Projection};
#[allow(unused_imports)]
use super::{Agency, BlockKind, FromBlock, LedgerName, Run};
#[allow(unused_imports)]
use crate::agency;
#[allow(unused_imports)]
use crate::block;
use crate::block::Block;
#[allow(unused_imports)]
use crate::block::{Awaiting, Role};
#[allow(unused_imports)]
use crate::clock;
#[allow(unused_imports)]
use crate::json;

verus! {

/// A row is of a kind exactly where it carries that kind's type string.
pub proof fn a_row_is_of_the_kind_its_type_names(block: Block)
    ensures
        agency::read(block) is Text <==> block.block_type@ == "text"@,
        agency::read(block) is Quote <==> block.block_type@ == "quote"@,
        agency::read(block) is Code <==> block.block_type@ == "code"@,
        agency::read(block) is Thinking <==> block.block_type@ == "thinking"@,
        agency::read(block) is ToolCall <==> block.block_type@ == "tool_call"@,
        agency::read(block) is ToolResult <==> block.block_type@ == "tool_result"@,
        agency::read(block) is ToolError <==> block.block_type@ == "tool_error"@,
        agency::read(block) is Status <==> block.block_type@ == "status"@,
        agency::read(block) is SystemPrompt <==> block.block_type@ == "system_prompt"@,
        agency::read(block) is Streaming <==> block.block_type@ == "streaming"@,
        agency::read(block) is StreamingThinking <==> block.block_type@ == "streaming_thinking"@,
        agency::read(block) is StreamingToolCall <==> block.block_type@ == "streaming_tool_call"@,
        agency::read(block) is ApprovalRequest <==> block.block_type@ == "approval_request"@,
        agency::read(block) is ApprovalDecision <==> block.block_type@ == "approval_decision"@,
        agency::read(block) is DateMarker <==> block.block_type@ == "date_marker"@,
        agency::read(block) is HarnessMessage <==> block.block_type@ == "harness_message"@,
        agency::read(block) is AncestorReference <==> block.block_type@ == "ancestor_reference"@,
        agency::read(block) is ToolChoice <==> block.block_type@ == "tool_choice"@,
        agency::read(block) is MetadataTitleRequest <==> block.block_type@ == "title_request"@,
        agency::read(block) is MetadataTitleResponse <==> block.block_type@ == "title_response"@,
{
    block_kind::a_stored_type_has_one_owner(block.block_type@);
}

/// A kind knows of its row what the row carries: a row of words its role and
/// its words, a row of tool work the call it is or answers, and every kind
/// that names a row the row it names.
pub proof fn a_kind_holds_what_its_row_carries(block: Block)
    ensures
        match agency::read(block) {
            Kind::Text { role, content } => role == block.role && content == block::text_or_empty(
                block,
                "content"@,
            ),
            Kind::Quote { role, text } => role == block.role && text == block::text_or_empty(
                block,
                "text"@,
            ),
            Kind::Code { role, language, content } => role == block.role && language
                == block::text_at(block, "language"@) && content == block::text_or_empty(
                block,
                "content"@,
            ),
            Kind::Thinking { role, content, opaque } => role == block.role && content
                == block::text_or_empty(block, "content"@) && (match opaque {
                Some(value) => block::field(block, "opaque"@) == Some(value) && !(json::json(
                    value,
                ) is Null),
                None => block::field(block, "opaque"@) matches Some(value) ==> json::json(
                    value,
                ) is Null,
            }),
            Kind::ToolCall { id, role, tool_call_id, name, input, interactive } => id == block.id
                && role == block.role && tool_call_id == block::text_or_empty(
                block,
                "tool_call_id"@,
            ) && name == block::text_or_empty(block, "name"@) && input == block::text_or_empty(
                block,
                "input"@,
            ) && interactive == block::flag_at(block, "interactive"@),
            Kind::ToolResult { role, tool_call_id, call, content, ends_turn } => role == block.role
                && tool_call_id == block::text_or_empty(block, "tool_call_id"@) && call
                == block::row_at(block, "call_block_id"@) && content == block::text_or_empty(
                block,
                "content"@,
            ) && ends_turn == block::flag_at(block, "ends_turn"@),
            Kind::ToolError { role, tool_call_id, call, error, refusal } => role == block.role
                && tool_call_id == block::text_or_empty(block, "tool_call_id"@) && call
                == block::row_at(block, "call_block_id"@) && error == block::text_or_empty(
                block,
                "error"@,
            ) && refusal == block::flag_at(block, "refusal"@),
            Kind::Status { role, status } => role == block.role && status == block::text_or_empty(
                block,
                "status"@,
            ),
            Kind::SystemPrompt { role, content } => role == block.role && content
                == block::text_or_empty(block, "content"@),
            Kind::HarnessMessage { role, content } => role == block.role && content
                == block::text_or_empty(block, "content"@),
            Kind::DateMarker { date, tz_abbrev, tz_name, written_at } => date
                == block::text_or_empty(block, "date"@) && tz_abbrev == block::text_at(
                block,
                "tz_abbrev"@,
            ) && tz_name == block::text_at(block, "tz_name"@) && written_at == block::text_at(
                block,
                "written_at"@,
            ),
            Kind::ToolChoice { names } => names == block::texts_at(block, "names"@),
            Kind::Unknown { role } => role == block.role,
            _ => true,
        },
        match agency::read(block) {
            Kind::ApprovalRequest { id, for_block_id } => id == block.id && (match block::int_at(
                block,
                "for_block_id"@,
            ) {
                Some(row) => for_block_id == row,
                None => for_block_id == 0,
            }),
            Kind::ApprovalDecision { id, for_block_id, approved } => id == block.id && for_block_id
                == block::row_at(block, "for_block_id"@) && (approved <==> block::text_at(
                block,
                "decision"@,
            ) == Some("approved"@)),
            Kind::AncestorReference { conversation_id } => match block::int_at(
                block,
                "ancestor_conversation_id"@,
            ) {
                Some(row) => conversation_id == row,
                None => conversation_id == 0,
            },
            Kind::MetadataTitleRequest { id } => id == block.id,
            _ => true,
        },
{
}

/// Who owes a row's next move. The model owes a turn to what a user says, to
/// what the harness says, and to every outcome but a result that ends its
/// turn; the system owes a call its execution and a title request its title;
/// the user owes an interactive call its reply; a human owes an approval its
/// action; and no other row asks anybody for anything.
pub proof fn who_owes_a_rows_next_move(block: Block)
    ensures
        ({
            let stored = block.block_type@;
            let ask = BlockKind::asks(agency::read(block));
            &&& ask == Some(Awaiting::Model) <==> (stored == "text"@ || stored == "quote"@ || stored
                == "code"@) && block.role == Some(Role::User) || stored == "harness_message"@
                || stored == "tool_error"@ || stored == "tool_result"@ && !block::flag_at(
                block,
                "ends_turn"@,
            )
            &&& ask == Some(Awaiting::System) <==> stored == "title_request"@ || stored
                == "tool_call"@ && !block::flag_at(block, "interactive"@)
            &&& ask == Some(Awaiting::User) <==> stored == "tool_call"@ && block::flag_at(
                block,
                "interactive"@,
            )
            &&& ask == Some(Awaiting::OutOfBand) <==> stored == "approval_request"@ || stored
                == "approval_decision"@
        }),
{
    a_row_is_of_the_kind_its_type_names(block);
    a_kind_holds_what_its_row_carries(block);
}

/// The frontier reads through a choice of tools, a result that ends its turn
/// and a status that stores a turn's end, and through no other row.
pub proof fn what_the_frontier_reads_through(block: Block)
    ensures
        BlockKind::see_through(agency::read(block)) <==> block.block_type@ == "tool_choice"@
            || block.block_type@ == "tool_result"@ && block::flag_at(block, "ends_turn"@)
            || block.block_type@ == "status"@ && (block::text_or_empty(block, "status"@)
            == "turn_ended:closed"@ || block::text_or_empty(block, "status"@)
            == "turn_ended:errored"@ || block::text_or_empty(block, "status"@)
            == "tool_calls_exhausted"@),
{
    a_row_is_of_the_kind_its_type_names(block);
    a_kind_holds_what_its_row_carries(block);
}

/// A conversation opens with a system prompt; a row lasts unless it is one of
/// a stream that has not ended; a turn is offered tools unless the harness
/// asks for it; and no row holds its own work back.
pub proof fn what_a_rows_type_decides(block: Block)
    ensures
        BlockKind::heads(agency::read(block)) <==> block.block_type@ == "system_prompt"@,
        !BlockKind::lasts(agency::read(block)) <==> block.block_type@ == "streaming"@
            || block.block_type@ == "streaming_thinking"@ || block.block_type@
            == "streaming_tool_call"@,
        !BlockKind::tooled(agency::read(block)) <==> block.block_type@ == "harness_message"@,
        BlockKind::vetted(agency::read(block)) is Proceed,
{
    a_row_is_of_the_kind_its_type_names(block);
}

/// Only a call that the system answers and a title request have work to do.
/// The one reads the conversation, the other what is derived about it. Deferred
/// work is a call's alone, and only an approval and its request route to any.
pub proof fn which_rows_have_work(block: Block, ledger: Seq<Block>)
    ensures
        BlockKind::reads(agency::read(block)) == Some(LedgerName::Conversation)
            <==> block.block_type@ == "tool_call"@ && !block::flag_at(block, "interactive"@),
        BlockKind::reads(agency::read(block)) == Some(LedgerName::Metadata) <==> block.block_type@
            == "title_request"@,
        BlockKind::reads(agency::read(block)) is None ==> BlockKind::work(
            agency::read(block),
            ledger,
        ) == (Run { done: true, wakeup: None }),
        block.block_type@ != "tool_call"@ ==> BlockKind::deferred(
            agency::read(block),
            ledger,
        ) is None,
        block.block_type@ != "approval_request"@ && block.block_type@ != "approval_decision"@
            ==> BlockKind::route(agency::read(block), ledger) is None,
{
    a_row_is_of_the_kind_its_type_names(block);
    a_kind_holds_what_its_row_carries(block);
}

/// Whose voice a row speaks in: a date marker in the system's; what is still
/// streaming, what asks for clearance or grants it, what refers to another
/// conversation, what chooses tools and what asks for a title or gives one in
/// none; and every other row in the one it carries.
pub proof fn whose_voice_a_row_speaks_in(block: Block)
    ensures
        ({
            let stored = block.block_type@;
            let role = BlockKind::groups(agency::read(block));
            &&& stored == "date_marker"@ ==> role == Some(Role::System)
            &&& stored == "streaming"@ || stored == "streaming_thinking"@ || stored
                == "streaming_tool_call"@ || stored == "approval_request"@ || stored
                == "approval_decision"@ || stored == "ancestor_reference"@ || stored
                == "tool_choice"@ || stored == "title_request"@ || stored == "title_response"@
                ==> role is None
            &&& stored != "date_marker"@ && stored != "streaming"@ && stored
                != "streaming_thinking"@ && stored != "streaming_tool_call"@ && stored
                != "approval_request"@ && stored != "approval_decision"@ && stored
                != "ancestor_reference"@ && stored != "tool_choice"@ && stored != "title_request"@
                && stored != "title_response"@ ==> role == block.role
        }),
{
    a_row_is_of_the_kind_its_type_names(block);
    a_kind_holds_what_its_row_carries(block);
}

/// What a row says as text: its stored words as they are, a quote behind its
/// marks, code in its fence. Reasoning and calls have no text, and no other
/// row says anything.
pub proof fn what_a_row_says_as_text(block: Block)
    ensures
        ({
            let stored = block.block_type@;
            let said = BlockKind::text(agency::read(block));
            &&& stored == "text"@ || stored == "harness_message"@ || stored == "system_prompt"@
                || stored == "tool_result"@ ==> said == Some(
                block::text_or_empty(block, "content"@),
            )
            &&& stored == "tool_error"@ ==> said == Some(block::text_or_empty(block, "error"@))
            &&& stored == "quote"@ ==> said == Some(
                projection::quotation(
                    projection::lines(block::text_or_empty(block, "text"@)),
                ),
            )
            &&& stored == "code"@ ==> said == Some(
                "```"@ + block::text_or_empty(block, "language"@) + seq!['\n']
                    + block::text_or_empty(block, "content"@) + seq!['\n'] + "```"@,
            )
            &&& said is Some <==> stored == "text"@ || stored == "harness_message"@ || stored
                == "system_prompt"@ || stored == "tool_result"@ || stored == "tool_error"@ || stored
                == "quote"@ || stored == "code"@ || stored == "date_marker"@
        }),
{
    a_row_is_of_the_kind_its_type_names(block);
    a_kind_holds_what_its_row_carries(block);
}

/// What a row says as native parts, each of one part. Prose says its text; the
/// system prompt, which is no part of a message, says nothing; reasoning is
/// never flattened into prose; a call is a request for tool work; and both
/// outcomes answer the call whose id they carry. Exactly the rows of tool work
/// cannot be said in text alone.
pub proof fn what_a_row_says_as_parts(block: Block)
    ensures
        ({
            let stored = block.block_type@;
            let kind = agency::read(block);
            let said = BlockKind::parts(kind);
            &&& stored == "text"@ || stored == "harness_message"@ || stored == "quote"@ || stored
                == "code"@ || stored == "date_marker"@ ==> BlockKind::text(kind) is Some && said
                == Some(seq![Part::Text { text: BlockKind::text(kind)->0 }])
            &&& stored == "thinking"@ ==> (said matches Some(list) && list.len() == 1 && (
            list[0] matches Part::Reasoning { text, opaque } && text == block::text_or_empty(
                block,
                "content"@,
            ) && (opaque matches Some(value) ==> block::field(block, "opaque"@) == Some(value))
                && (opaque is None ==> (block::field(block, "opaque"@) matches Some(value)
                ==> json::json(value) is Null))))
            &&& stored == "tool_result"@ ==> said == Some(
                seq![
                    Part::ToolResult {
                        tool_use_id: block::text_or_empty(block, "tool_call_id"@),
                        content: block::text_or_empty(block, "content"@),
                    },
                ],
            )
            &&& stored == "tool_error"@ ==> said == Some(
                seq![
                    Part::ToolResult {
                        tool_use_id: block::text_or_empty(block, "tool_call_id"@),
                        content: block::text_or_empty(block, "error"@),
                    },
                ],
            )
            &&& stored == "tool_call"@ ==> said == Some(
                seq![
                    Part::ToolUse {
                        id: block::text_or_empty(block, "tool_call_id"@),
                        name: block::text_or_empty(block, "name"@),
                        input: match json::parsed_json(block::text_or_empty(block, "input"@)) {
                            Some(value) => value,
                            None => json::text_value(block::text_or_empty(block, "input"@)),
                        },
                    },
                ],
            )
            &&& said is Some <==> stored == "text"@ || stored == "harness_message"@ || stored
                == "quote"@ || stored == "code"@ || stored == "date_marker"@ || stored
                == "thinking"@ || stored == "tool_call"@ || stored == "tool_result"@ || stored
                == "tool_error"@
            &&& BlockKind::only_parts(kind) <==> stored == "tool_call"@ || stored == "tool_result"@
                || stored == "tool_error"@
        }),
{
    a_row_is_of_the_kind_its_type_names(block);
    a_kind_holds_what_its_row_carries(block);
}

/// What a date marker says: its date, the weekday in brackets where the date
/// is a day of the calendar, and the zone where it knows one, by its
/// abbreviation, its name, or both.
pub proof fn what_a_date_marker_says(block: Block)
    requires
        block.block_type@ == "date_marker"@,
    ensures
        ({
            let date = block::text_or_empty(block, "date"@);
            let day = match clock::calendar_day(date) {
                Some(number) => " ("@ + clock::weekday_of(number) + ")"@,
                None => Seq::<char>::empty(),
            };
            let zone = match (
                block::text_at(block, "tz_abbrev"@),
                block::text_at(block, "tz_name"@),
            ) {
                (Some(short), Some(long)) => ", timezone "@ + (short + (" ("@ + (long + ")"@))),
                (Some(short), None) => ", timezone "@ + short,
                (None, Some(long)) => ", timezone "@ + long,
                (None, None) => Seq::<char>::empty(),
            };
            BlockKind::text(agency::read(block)) == Some("Current date: "@ + (date + (day + zone)))
        }),
{
    a_row_is_of_the_kind_its_type_names(block);
    a_kind_holds_what_its_row_carries(block);
    let date = block::text_or_empty(block, "date"@);
    let day = match clock::calendar_day(date) {
        Some(number) => " ("@ + clock::weekday_of(number) + ")"@,
        None => Seq::<char>::empty(),
    };
    let zone = match (block::text_at(block, "tz_abbrev"@), block::text_at(block, "tz_name"@)) {
        (Some(short), Some(long)) => ", timezone "@ + (short + (" ("@ + (long + ")"@))),
        (Some(short), None) => ", timezone "@ + short,
        (None, Some(long)) => ", timezone "@ + long,
        (None, None) => Seq::<char>::empty(),
    };
    assert(BlockKind::text(agency::read(block))->0 =~= "Current date: "@ + (date + (day + zone)));
}

} // verus!
