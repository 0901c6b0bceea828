//! The typed block layer: one variant for each stored type.
//!
//! The enum is closed. A kind from elsewhere composes around it: a consumer's
//! enum tries its own kinds first and hands everything else down here.

use vstd::prelude::*;

use super::kinds;
use super::kinds::contains_kind;
use super::model::Kind;
use super::projection::{ContentPart, Part, Projection};
use super::{
    Agency, AncestorReference, ApprovalDecision, ApprovalRequest, Code, ContentDescriptor,
    DateMarker, FromBlock, GateDecision, HarnessMessage, LeafKind, LedgerName, MetadataTitleRequest,
    MetadataTitleResponse, Quote, Run, Status, Streaming, StreamingThinking, StreamingToolCall,
    SystemPrompt, Text, Thinking, ToolCall, ToolChoice, ToolError, ToolResult, Unknown, Verdict,
    Wakeup,
};
use crate::agency;
use crate::block::{Awaiting, Block, Role};

verus! {

/// A block, as the kind that owns its stored type reads it.
#[derive(Debug, Clone)]
pub enum BlockKind {
    /// Prose.
    Text(Text),
    /// A quoted span of earlier blocks.
    Quote(Quote),
    /// A code snippet.
    Code(Code),
    /// A finished turn's reasoning.
    Thinking(Thinking),
    /// A model's request for tool work.
    ToolCall(ToolCall),
    /// A tool's answer.
    ToolResult(ToolResult),
    /// A tool's failure.
    ToolError(ToolError),
    /// A frontier cap, or the stored end of a turn.
    Status(Status),
    /// The conversation's system prompt.
    SystemPrompt(SystemPrompt),
    /// The tail of a text that streams in.
    Streaming(Streaming),
    /// The tail of reasoning that streams in.
    StreamingThinking(StreamingThinking),
    /// The tail of a tool call's input that streams in.
    StreamingToolCall(StreamingToolCall),
    /// The system's ask for clearance.
    ApprovalRequest(ApprovalRequest),
    /// The human's verdict on that ask.
    ApprovalDecision(ApprovalDecision),
    /// The ledger's own calendar entry.
    DateMarker(DateMarker),
    /// The harness's own message to the model.
    HarnessMessage(HarnessMessage),
    /// The conversation this thread continues.
    AncestorReference(AncestorReference),
    /// Which tools the conversation has.
    ToolChoice(ToolChoice),
    /// The metadata ledger's ask for a title.
    MetadataTitleRequest(MetadataTitleRequest),
    /// A settled title derivation.
    MetadataTitleResponse(MetadataTitleResponse),
    /// A row of a type this build does not know.
    Unknown(Unknown),
}

impl View for BlockKind {
    type V = Kind;

    open spec fn view(&self) -> Kind {
        match self {
            BlockKind::Text(kind) => kind@,
            BlockKind::Quote(kind) => kind@,
            BlockKind::Code(kind) => kind@,
            BlockKind::Thinking(kind) => kind@,
            BlockKind::ToolCall(kind) => kind@,
            BlockKind::ToolResult(kind) => kind@,
            BlockKind::ToolError(kind) => kind@,
            BlockKind::Status(kind) => kind@,
            BlockKind::SystemPrompt(kind) => kind@,
            BlockKind::Streaming(kind) => kind@,
            BlockKind::StreamingThinking(kind) => kind@,
            BlockKind::StreamingToolCall(kind) => kind@,
            BlockKind::ApprovalRequest(kind) => kind@,
            BlockKind::ApprovalDecision(kind) => kind@,
            BlockKind::DateMarker(kind) => kind@,
            BlockKind::HarnessMessage(kind) => kind@,
            BlockKind::AncestorReference(kind) => kind@,
            BlockKind::ToolChoice(kind) => kind@,
            BlockKind::MetadataTitleRequest(kind) => kind@,
            BlockKind::MetadataTitleResponse(kind) => kind@,
            BlockKind::Unknown(kind) => kind@,
        }
    }
}

/// What each kind claims, in the order in which the kinds are tried.
pub open spec fn leaf_names() -> Seq<Seq<Seq<char>>> {
    seq![
        Text::names(),
        Quote::names(),
        Code::names(),
        Thinking::names(),
        ToolCall::names(),
        ToolResult::names(),
        ToolError::names(),
        Status::names(),
        SystemPrompt::names(),
        Streaming::names(),
        StreamingThinking::names(),
        StreamingToolCall::names(),
        ApprovalRequest::names(),
        ApprovalDecision::names(),
        DateMarker::names(),
        HarnessMessage::names(),
        AncestorReference::names(),
        ToolChoice::names(),
        MetadataTitleRequest::names(),
        MetadataTitleResponse::names(),
    ]
}

impl FromBlock for BlockKind {
    open spec fn resolves(stored: Seq<char>) -> bool {
        ||| Text::owns(stored)
        ||| Quote::owns(stored)
        ||| Code::owns(stored)
        ||| Thinking::owns(stored)
        ||| ToolCall::owns(stored)
        ||| ToolResult::owns(stored)
        ||| ToolError::owns(stored)
        ||| Status::owns(stored)
        ||| SystemPrompt::owns(stored)
        ||| Streaming::owns(stored)
        ||| StreamingThinking::owns(stored)
        ||| StreamingToolCall::owns(stored)
        ||| ApprovalRequest::owns(stored)
        ||| ApprovalDecision::owns(stored)
        ||| DateMarker::owns(stored)
        ||| HarnessMessage::owns(stored)
        ||| AncestorReference::owns(stored)
        ||| ToolChoice::owns(stored)
        ||| MetadataTitleRequest::owns(stored)
        ||| MetadataTitleResponse::owns(stored)
    }

    open spec fn claimed() -> Seq<Seq<char>> {
        kinds::in_a_row(leaf_names())
    }

    open spec fn read(block: Block) -> Kind {
        agency::read(block)
    }

    fn claimed_kinds() -> (kinds: Vec<&'static str>) {
        let k0: &'static [&'static str] = Text::kinds();
        let k1: &'static [&'static str] = Quote::kinds();
        let k2: &'static [&'static str] = Code::kinds();
        let k3: &'static [&'static str] = Thinking::kinds();
        let k4: &'static [&'static str] = ToolCall::kinds();
        let k5: &'static [&'static str] = ToolResult::kinds();
        let k6: &'static [&'static str] = ToolError::kinds();
        let k7: &'static [&'static str] = Status::kinds();
        let k8: &'static [&'static str] = SystemPrompt::kinds();
        let k9: &'static [&'static str] = Streaming::kinds();
        let k10: &'static [&'static str] = StreamingThinking::kinds();
        let k11: &'static [&'static str] = StreamingToolCall::kinds();
        let k12: &'static [&'static str] = ApprovalRequest::kinds();
        let k13: &'static [&'static str] = ApprovalDecision::kinds();
        let k14: &'static [&'static str] = DateMarker::kinds();
        let k15: &'static [&'static str] = HarnessMessage::kinds();
        let k16: &'static [&'static str] = AncestorReference::kinds();
        let k17: &'static [&'static str] = ToolChoice::kinds();
        let k18: &'static [&'static str] = MetadataTitleRequest::kinds();
        let k19: &'static [&'static str] = MetadataTitleResponse::kinds();
        let sets: [&[&'static str]; 20] = [
            k0, k1, k2, k3, k4, k5, k6, k7, k8, k9, k10, k11, k12, k13, k14, k15, k16, k17, k18, k19,
        ];
        let kinds = kinds::concat_kinds(sets.as_slice());
        proof {
            assert(sets@[0]@ == k0@);
            assert(sets@[1]@ == k1@);
            assert(sets@[2]@ == k2@);
            assert(sets@[3]@ == k3@);
            assert(sets@[4]@ == k4@);
            assert(sets@[5]@ == k5@);
            assert(sets@[6]@ == k6@);
            assert(sets@[7]@ == k7@);
            assert(sets@[8]@ == k8@);
            assert(sets@[9]@ == k9@);
            assert(sets@[10]@ == k10@);
            assert(sets@[11]@ == k11@);
            assert(sets@[12]@ == k12@);
            assert(sets@[13]@ == k13@);
            assert(sets@[14]@ == k14@);
            assert(sets@[15]@ == k15@);
            assert(sets@[16]@ == k16@);
            assert(sets@[17]@ == k17@);
            assert(sets@[18]@ == k18@);
            assert(sets@[19]@ == k19@);
            assert forall|stored: Seq<char>| #[trigger]
                kinds::claims(kinds@, stored) == BlockKind::resolves(stored) by {
                kinds::joined_claims_what_its_parts_claim(sets@, stored);
            }
            kinds::joined_names_its_parts_in_order(sets@, leaf_names());
        }
        kinds
    }

    fn descriptors() -> (tables: Vec<ContentDescriptor>) {
        Vec::new()
    }

    fn from_block(block: &Block) -> (kind: Self) {
        let stored = block.block_type.as_str();
        if contains_kind(Text::kinds(), stored) {
            return BlockKind::Text(Text::parse(block));
        }
        if contains_kind(Quote::kinds(), stored) {
            return BlockKind::Quote(Quote::parse(block));
        }
        if contains_kind(Code::kinds(), stored) {
            return BlockKind::Code(Code::parse(block));
        }
        if contains_kind(Thinking::kinds(), stored) {
            return BlockKind::Thinking(Thinking::parse(block));
        }
        if contains_kind(ToolCall::kinds(), stored) {
            return BlockKind::ToolCall(ToolCall::parse(block));
        }
        if contains_kind(ToolResult::kinds(), stored) {
            return BlockKind::ToolResult(ToolResult::parse(block));
        }
        if contains_kind(ToolError::kinds(), stored) {
            return BlockKind::ToolError(ToolError::parse(block));
        }
        if contains_kind(Status::kinds(), stored) {
            return BlockKind::Status(Status::parse(block));
        }
        if contains_kind(SystemPrompt::kinds(), stored) {
            return BlockKind::SystemPrompt(SystemPrompt::parse(block));
        }
        if contains_kind(Streaming::kinds(), stored) {
            return BlockKind::Streaming(Streaming::parse(block));
        }
        if contains_kind(StreamingThinking::kinds(), stored) {
            return BlockKind::StreamingThinking(StreamingThinking::parse(block));
        }
        if contains_kind(StreamingToolCall::kinds(), stored) {
            return BlockKind::StreamingToolCall(StreamingToolCall::parse(block));
        }
        if contains_kind(ApprovalRequest::kinds(), stored) {
            return BlockKind::ApprovalRequest(ApprovalRequest::parse(block));
        }
        if contains_kind(ApprovalDecision::kinds(), stored) {
            return BlockKind::ApprovalDecision(ApprovalDecision::parse(block));
        }
        if contains_kind(DateMarker::kinds(), stored) {
            return BlockKind::DateMarker(DateMarker::parse(block));
        }
        if contains_kind(HarnessMessage::kinds(), stored) {
            return BlockKind::HarnessMessage(HarnessMessage::parse(block));
        }
        if contains_kind(AncestorReference::kinds(), stored) {
            return BlockKind::AncestorReference(AncestorReference::parse(block));
        }
        if contains_kind(ToolChoice::kinds(), stored) {
            return BlockKind::ToolChoice(ToolChoice::parse(block));
        }
        if contains_kind(MetadataTitleRequest::kinds(), stored) {
            return BlockKind::MetadataTitleRequest(MetadataTitleRequest::parse(block));
        }
        if contains_kind(MetadataTitleResponse::kinds(), stored) {
            return BlockKind::MetadataTitleResponse(MetadataTitleResponse::parse(block));
        }
        BlockKind::Unknown(Unknown::parse(block))
    }
}

impl Agency for BlockKind {
    open spec fn asks(kind: Kind) -> Option<Awaiting> {
        match kind {
            Kind::Text { .. } => Text::asks(kind),
            Kind::Quote { .. } => Quote::asks(kind),
            Kind::Code { .. } => Code::asks(kind),
            Kind::Thinking { .. } => Thinking::asks(kind),
            Kind::ToolCall { .. } => ToolCall::asks(kind),
            Kind::ToolResult { .. } => ToolResult::asks(kind),
            Kind::ToolError { .. } => ToolError::asks(kind),
            Kind::Status { .. } => Status::asks(kind),
            Kind::SystemPrompt { .. } => SystemPrompt::asks(kind),
            Kind::Streaming => Streaming::asks(kind),
            Kind::StreamingThinking => StreamingThinking::asks(kind),
            Kind::StreamingToolCall => StreamingToolCall::asks(kind),
            Kind::ApprovalRequest { .. } => ApprovalRequest::asks(kind),
            Kind::ApprovalDecision { .. } => ApprovalDecision::asks(kind),
            Kind::DateMarker { .. } => DateMarker::asks(kind),
            Kind::HarnessMessage { .. } => HarnessMessage::asks(kind),
            Kind::AncestorReference { .. } => AncestorReference::asks(kind),
            Kind::ToolChoice { .. } => ToolChoice::asks(kind),
            Kind::MetadataTitleRequest { .. } => MetadataTitleRequest::asks(kind),
            Kind::MetadataTitleResponse => MetadataTitleResponse::asks(kind),
            Kind::Unknown { .. } => Unknown::asks(kind),
        }
    }

    open spec fn lasts(kind: Kind) -> bool {
        match kind {
            Kind::Text { .. } => Text::lasts(kind),
            Kind::Quote { .. } => Quote::lasts(kind),
            Kind::Code { .. } => Code::lasts(kind),
            Kind::Thinking { .. } => Thinking::lasts(kind),
            Kind::ToolCall { .. } => ToolCall::lasts(kind),
            Kind::ToolResult { .. } => ToolResult::lasts(kind),
            Kind::ToolError { .. } => ToolError::lasts(kind),
            Kind::Status { .. } => Status::lasts(kind),
            Kind::SystemPrompt { .. } => SystemPrompt::lasts(kind),
            Kind::Streaming => Streaming::lasts(kind),
            Kind::StreamingThinking => StreamingThinking::lasts(kind),
            Kind::StreamingToolCall => StreamingToolCall::lasts(kind),
            Kind::ApprovalRequest { .. } => ApprovalRequest::lasts(kind),
            Kind::ApprovalDecision { .. } => ApprovalDecision::lasts(kind),
            Kind::DateMarker { .. } => DateMarker::lasts(kind),
            Kind::HarnessMessage { .. } => HarnessMessage::lasts(kind),
            Kind::AncestorReference { .. } => AncestorReference::lasts(kind),
            Kind::ToolChoice { .. } => ToolChoice::lasts(kind),
            Kind::MetadataTitleRequest { .. } => MetadataTitleRequest::lasts(kind),
            Kind::MetadataTitleResponse => MetadataTitleResponse::lasts(kind),
            Kind::Unknown { .. } => Unknown::lasts(kind),
        }
    }

    open spec fn see_through(kind: Kind) -> bool {
        match kind {
            Kind::Text { .. } => Text::see_through(kind),
            Kind::Quote { .. } => Quote::see_through(kind),
            Kind::Code { .. } => Code::see_through(kind),
            Kind::Thinking { .. } => Thinking::see_through(kind),
            Kind::ToolCall { .. } => ToolCall::see_through(kind),
            Kind::ToolResult { .. } => ToolResult::see_through(kind),
            Kind::ToolError { .. } => ToolError::see_through(kind),
            Kind::Status { .. } => Status::see_through(kind),
            Kind::SystemPrompt { .. } => SystemPrompt::see_through(kind),
            Kind::Streaming => Streaming::see_through(kind),
            Kind::StreamingThinking => StreamingThinking::see_through(kind),
            Kind::StreamingToolCall => StreamingToolCall::see_through(kind),
            Kind::ApprovalRequest { .. } => ApprovalRequest::see_through(kind),
            Kind::ApprovalDecision { .. } => ApprovalDecision::see_through(kind),
            Kind::DateMarker { .. } => DateMarker::see_through(kind),
            Kind::HarnessMessage { .. } => HarnessMessage::see_through(kind),
            Kind::AncestorReference { .. } => AncestorReference::see_through(kind),
            Kind::ToolChoice { .. } => ToolChoice::see_through(kind),
            Kind::MetadataTitleRequest { .. } => MetadataTitleRequest::see_through(kind),
            Kind::MetadataTitleResponse => MetadataTitleResponse::see_through(kind),
            Kind::Unknown { .. } => Unknown::see_through(kind),
        }
    }

    open spec fn heads(kind: Kind) -> bool {
        match kind {
            Kind::Text { .. } => Text::heads(kind),
            Kind::Quote { .. } => Quote::heads(kind),
            Kind::Code { .. } => Code::heads(kind),
            Kind::Thinking { .. } => Thinking::heads(kind),
            Kind::ToolCall { .. } => ToolCall::heads(kind),
            Kind::ToolResult { .. } => ToolResult::heads(kind),
            Kind::ToolError { .. } => ToolError::heads(kind),
            Kind::Status { .. } => Status::heads(kind),
            Kind::SystemPrompt { .. } => SystemPrompt::heads(kind),
            Kind::Streaming => Streaming::heads(kind),
            Kind::StreamingThinking => StreamingThinking::heads(kind),
            Kind::StreamingToolCall => StreamingToolCall::heads(kind),
            Kind::ApprovalRequest { .. } => ApprovalRequest::heads(kind),
            Kind::ApprovalDecision { .. } => ApprovalDecision::heads(kind),
            Kind::DateMarker { .. } => DateMarker::heads(kind),
            Kind::HarnessMessage { .. } => HarnessMessage::heads(kind),
            Kind::AncestorReference { .. } => AncestorReference::heads(kind),
            Kind::ToolChoice { .. } => ToolChoice::heads(kind),
            Kind::MetadataTitleRequest { .. } => MetadataTitleRequest::heads(kind),
            Kind::MetadataTitleResponse => MetadataTitleResponse::heads(kind),
            Kind::Unknown { .. } => Unknown::heads(kind),
        }
    }

    open spec fn tooled(kind: Kind) -> bool {
        match kind {
            Kind::Text { .. } => Text::tooled(kind),
            Kind::Quote { .. } => Quote::tooled(kind),
            Kind::Code { .. } => Code::tooled(kind),
            Kind::Thinking { .. } => Thinking::tooled(kind),
            Kind::ToolCall { .. } => ToolCall::tooled(kind),
            Kind::ToolResult { .. } => ToolResult::tooled(kind),
            Kind::ToolError { .. } => ToolError::tooled(kind),
            Kind::Status { .. } => Status::tooled(kind),
            Kind::SystemPrompt { .. } => SystemPrompt::tooled(kind),
            Kind::Streaming => Streaming::tooled(kind),
            Kind::StreamingThinking => StreamingThinking::tooled(kind),
            Kind::StreamingToolCall => StreamingToolCall::tooled(kind),
            Kind::ApprovalRequest { .. } => ApprovalRequest::tooled(kind),
            Kind::ApprovalDecision { .. } => ApprovalDecision::tooled(kind),
            Kind::DateMarker { .. } => DateMarker::tooled(kind),
            Kind::HarnessMessage { .. } => HarnessMessage::tooled(kind),
            Kind::AncestorReference { .. } => AncestorReference::tooled(kind),
            Kind::ToolChoice { .. } => ToolChoice::tooled(kind),
            Kind::MetadataTitleRequest { .. } => MetadataTitleRequest::tooled(kind),
            Kind::MetadataTitleResponse => MetadataTitleResponse::tooled(kind),
            Kind::Unknown { .. } => Unknown::tooled(kind),
        }
    }

    open spec fn vetted(kind: Kind) -> Verdict {
        match kind {
            Kind::Text { .. } => Text::vetted(kind),
            Kind::Quote { .. } => Quote::vetted(kind),
            Kind::Code { .. } => Code::vetted(kind),
            Kind::Thinking { .. } => Thinking::vetted(kind),
            Kind::ToolCall { .. } => ToolCall::vetted(kind),
            Kind::ToolResult { .. } => ToolResult::vetted(kind),
            Kind::ToolError { .. } => ToolError::vetted(kind),
            Kind::Status { .. } => Status::vetted(kind),
            Kind::SystemPrompt { .. } => SystemPrompt::vetted(kind),
            Kind::Streaming => Streaming::vetted(kind),
            Kind::StreamingThinking => StreamingThinking::vetted(kind),
            Kind::StreamingToolCall => StreamingToolCall::vetted(kind),
            Kind::ApprovalRequest { .. } => ApprovalRequest::vetted(kind),
            Kind::ApprovalDecision { .. } => ApprovalDecision::vetted(kind),
            Kind::DateMarker { .. } => DateMarker::vetted(kind),
            Kind::HarnessMessage { .. } => HarnessMessage::vetted(kind),
            Kind::AncestorReference { .. } => AncestorReference::vetted(kind),
            Kind::ToolChoice { .. } => ToolChoice::vetted(kind),
            Kind::MetadataTitleRequest { .. } => MetadataTitleRequest::vetted(kind),
            Kind::MetadataTitleResponse => MetadataTitleResponse::vetted(kind),
            Kind::Unknown { .. } => Unknown::vetted(kind),
        }
    }

    open spec fn reads(kind: Kind) -> Option<LedgerName> {
        match kind {
            Kind::Text { .. } => Text::reads(kind),
            Kind::Quote { .. } => Quote::reads(kind),
            Kind::Code { .. } => Code::reads(kind),
            Kind::Thinking { .. } => Thinking::reads(kind),
            Kind::ToolCall { .. } => ToolCall::reads(kind),
            Kind::ToolResult { .. } => ToolResult::reads(kind),
            Kind::ToolError { .. } => ToolError::reads(kind),
            Kind::Status { .. } => Status::reads(kind),
            Kind::SystemPrompt { .. } => SystemPrompt::reads(kind),
            Kind::Streaming => Streaming::reads(kind),
            Kind::StreamingThinking => StreamingThinking::reads(kind),
            Kind::StreamingToolCall => StreamingToolCall::reads(kind),
            Kind::ApprovalRequest { .. } => ApprovalRequest::reads(kind),
            Kind::ApprovalDecision { .. } => ApprovalDecision::reads(kind),
            Kind::DateMarker { .. } => DateMarker::reads(kind),
            Kind::HarnessMessage { .. } => HarnessMessage::reads(kind),
            Kind::AncestorReference { .. } => AncestorReference::reads(kind),
            Kind::ToolChoice { .. } => ToolChoice::reads(kind),
            Kind::MetadataTitleRequest { .. } => MetadataTitleRequest::reads(kind),
            Kind::MetadataTitleResponse => MetadataTitleResponse::reads(kind),
            Kind::Unknown { .. } => Unknown::reads(kind),
        }
    }

    open spec fn work(kind: Kind, ledger: Seq<Block>) -> Run {
        match kind {
            Kind::Text { .. } => Text::work(kind, ledger),
            Kind::Quote { .. } => Quote::work(kind, ledger),
            Kind::Code { .. } => Code::work(kind, ledger),
            Kind::Thinking { .. } => Thinking::work(kind, ledger),
            Kind::ToolCall { .. } => ToolCall::work(kind, ledger),
            Kind::ToolResult { .. } => ToolResult::work(kind, ledger),
            Kind::ToolError { .. } => ToolError::work(kind, ledger),
            Kind::Status { .. } => Status::work(kind, ledger),
            Kind::SystemPrompt { .. } => SystemPrompt::work(kind, ledger),
            Kind::Streaming => Streaming::work(kind, ledger),
            Kind::StreamingThinking => StreamingThinking::work(kind, ledger),
            Kind::StreamingToolCall => StreamingToolCall::work(kind, ledger),
            Kind::ApprovalRequest { .. } => ApprovalRequest::work(kind, ledger),
            Kind::ApprovalDecision { .. } => ApprovalDecision::work(kind, ledger),
            Kind::DateMarker { .. } => DateMarker::work(kind, ledger),
            Kind::HarnessMessage { .. } => HarnessMessage::work(kind, ledger),
            Kind::AncestorReference { .. } => AncestorReference::work(kind, ledger),
            Kind::ToolChoice { .. } => ToolChoice::work(kind, ledger),
            Kind::MetadataTitleRequest { .. } => MetadataTitleRequest::work(kind, ledger),
            Kind::MetadataTitleResponse => MetadataTitleResponse::work(kind, ledger),
            Kind::Unknown { .. } => Unknown::work(kind, ledger),
        }
    }

    open spec fn route(kind: Kind, ledger: Seq<Block>) -> Option<i64> {
        match kind {
            Kind::Text { .. } => Text::route(kind, ledger),
            Kind::Quote { .. } => Quote::route(kind, ledger),
            Kind::Code { .. } => Code::route(kind, ledger),
            Kind::Thinking { .. } => Thinking::route(kind, ledger),
            Kind::ToolCall { .. } => ToolCall::route(kind, ledger),
            Kind::ToolResult { .. } => ToolResult::route(kind, ledger),
            Kind::ToolError { .. } => ToolError::route(kind, ledger),
            Kind::Status { .. } => Status::route(kind, ledger),
            Kind::SystemPrompt { .. } => SystemPrompt::route(kind, ledger),
            Kind::Streaming => Streaming::route(kind, ledger),
            Kind::StreamingThinking => StreamingThinking::route(kind, ledger),
            Kind::StreamingToolCall => StreamingToolCall::route(kind, ledger),
            Kind::ApprovalRequest { .. } => ApprovalRequest::route(kind, ledger),
            Kind::ApprovalDecision { .. } => ApprovalDecision::route(kind, ledger),
            Kind::DateMarker { .. } => DateMarker::route(kind, ledger),
            Kind::HarnessMessage { .. } => HarnessMessage::route(kind, ledger),
            Kind::AncestorReference { .. } => AncestorReference::route(kind, ledger),
            Kind::ToolChoice { .. } => ToolChoice::route(kind, ledger),
            Kind::MetadataTitleRequest { .. } => MetadataTitleRequest::route(kind, ledger),
            Kind::MetadataTitleResponse => MetadataTitleResponse::route(kind, ledger),
            Kind::Unknown { .. } => Unknown::route(kind, ledger),
        }
    }

    open spec fn deferred(kind: Kind, ledger: Seq<Block>) -> Option<Wakeup> {
        match kind {
            Kind::Text { .. } => Text::deferred(kind, ledger),
            Kind::Quote { .. } => Quote::deferred(kind, ledger),
            Kind::Code { .. } => Code::deferred(kind, ledger),
            Kind::Thinking { .. } => Thinking::deferred(kind, ledger),
            Kind::ToolCall { .. } => ToolCall::deferred(kind, ledger),
            Kind::ToolResult { .. } => ToolResult::deferred(kind, ledger),
            Kind::ToolError { .. } => ToolError::deferred(kind, ledger),
            Kind::Status { .. } => Status::deferred(kind, ledger),
            Kind::SystemPrompt { .. } => SystemPrompt::deferred(kind, ledger),
            Kind::Streaming => Streaming::deferred(kind, ledger),
            Kind::StreamingThinking => StreamingThinking::deferred(kind, ledger),
            Kind::StreamingToolCall => StreamingToolCall::deferred(kind, ledger),
            Kind::ApprovalRequest { .. } => ApprovalRequest::deferred(kind, ledger),
            Kind::ApprovalDecision { .. } => ApprovalDecision::deferred(kind, ledger),
            Kind::DateMarker { .. } => DateMarker::deferred(kind, ledger),
            Kind::HarnessMessage { .. } => HarnessMessage::deferred(kind, ledger),
            Kind::AncestorReference { .. } => AncestorReference::deferred(kind, ledger),
            Kind::ToolChoice { .. } => ToolChoice::deferred(kind, ledger),
            Kind::MetadataTitleRequest { .. } => MetadataTitleRequest::deferred(kind, ledger),
            Kind::MetadataTitleResponse => MetadataTitleResponse::deferred(kind, ledger),
            Kind::Unknown { .. } => Unknown::deferred(kind, ledger),
        }
    }

    fn awaiting(&self) -> (ask: Option<Awaiting>) {
        match self {
            BlockKind::Text(kind) => kind.awaiting(),
            BlockKind::Quote(kind) => kind.awaiting(),
            BlockKind::Code(kind) => kind.awaiting(),
            BlockKind::Thinking(kind) => kind.awaiting(),
            BlockKind::ToolCall(kind) => kind.awaiting(),
            BlockKind::ToolResult(kind) => kind.awaiting(),
            BlockKind::ToolError(kind) => kind.awaiting(),
            BlockKind::Status(kind) => kind.awaiting(),
            BlockKind::SystemPrompt(kind) => kind.awaiting(),
            BlockKind::Streaming(kind) => kind.awaiting(),
            BlockKind::StreamingThinking(kind) => kind.awaiting(),
            BlockKind::StreamingToolCall(kind) => kind.awaiting(),
            BlockKind::ApprovalRequest(kind) => kind.awaiting(),
            BlockKind::ApprovalDecision(kind) => kind.awaiting(),
            BlockKind::DateMarker(kind) => kind.awaiting(),
            BlockKind::HarnessMessage(kind) => kind.awaiting(),
            BlockKind::AncestorReference(kind) => kind.awaiting(),
            BlockKind::ToolChoice(kind) => kind.awaiting(),
            BlockKind::MetadataTitleRequest(kind) => kind.awaiting(),
            BlockKind::MetadataTitleResponse(kind) => kind.awaiting(),
            BlockKind::Unknown(kind) => kind.awaiting(),
        }
    }

    fn durable(&self) -> (lasts: bool) {
        match self {
            BlockKind::Text(kind) => kind.durable(),
            BlockKind::Quote(kind) => kind.durable(),
            BlockKind::Code(kind) => kind.durable(),
            BlockKind::Thinking(kind) => kind.durable(),
            BlockKind::ToolCall(kind) => kind.durable(),
            BlockKind::ToolResult(kind) => kind.durable(),
            BlockKind::ToolError(kind) => kind.durable(),
            BlockKind::Status(kind) => kind.durable(),
            BlockKind::SystemPrompt(kind) => kind.durable(),
            BlockKind::Streaming(kind) => kind.durable(),
            BlockKind::StreamingThinking(kind) => kind.durable(),
            BlockKind::StreamingToolCall(kind) => kind.durable(),
            BlockKind::ApprovalRequest(kind) => kind.durable(),
            BlockKind::ApprovalDecision(kind) => kind.durable(),
            BlockKind::DateMarker(kind) => kind.durable(),
            BlockKind::HarnessMessage(kind) => kind.durable(),
            BlockKind::AncestorReference(kind) => kind.durable(),
            BlockKind::ToolChoice(kind) => kind.durable(),
            BlockKind::MetadataTitleRequest(kind) => kind.durable(),
            BlockKind::MetadataTitleResponse(kind) => kind.durable(),
            BlockKind::Unknown(kind) => kind.durable(),
        }
    }

    fn frontier_transparent(&self) -> (transparent: bool) {
        match self {
            BlockKind::Text(kind) => kind.frontier_transparent(),
            BlockKind::Quote(kind) => kind.frontier_transparent(),
            BlockKind::Code(kind) => kind.frontier_transparent(),
            BlockKind::Thinking(kind) => kind.frontier_transparent(),
            BlockKind::ToolCall(kind) => kind.frontier_transparent(),
            BlockKind::ToolResult(kind) => kind.frontier_transparent(),
            BlockKind::ToolError(kind) => kind.frontier_transparent(),
            BlockKind::Status(kind) => kind.frontier_transparent(),
            BlockKind::SystemPrompt(kind) => kind.frontier_transparent(),
            BlockKind::Streaming(kind) => kind.frontier_transparent(),
            BlockKind::StreamingThinking(kind) => kind.frontier_transparent(),
            BlockKind::StreamingToolCall(kind) => kind.frontier_transparent(),
            BlockKind::ApprovalRequest(kind) => kind.frontier_transparent(),
            BlockKind::ApprovalDecision(kind) => kind.frontier_transparent(),
            BlockKind::DateMarker(kind) => kind.frontier_transparent(),
            BlockKind::HarnessMessage(kind) => kind.frontier_transparent(),
            BlockKind::AncestorReference(kind) => kind.frontier_transparent(),
            BlockKind::ToolChoice(kind) => kind.frontier_transparent(),
            BlockKind::MetadataTitleRequest(kind) => kind.frontier_transparent(),
            BlockKind::MetadataTitleResponse(kind) => kind.frontier_transparent(),
            BlockKind::Unknown(kind) => kind.frontier_transparent(),
        }
    }

    fn heads_the_ledger(&self) -> (heads: bool) {
        match self {
            BlockKind::Text(kind) => kind.heads_the_ledger(),
            BlockKind::Quote(kind) => kind.heads_the_ledger(),
            BlockKind::Code(kind) => kind.heads_the_ledger(),
            BlockKind::Thinking(kind) => kind.heads_the_ledger(),
            BlockKind::ToolCall(kind) => kind.heads_the_ledger(),
            BlockKind::ToolResult(kind) => kind.heads_the_ledger(),
            BlockKind::ToolError(kind) => kind.heads_the_ledger(),
            BlockKind::Status(kind) => kind.heads_the_ledger(),
            BlockKind::SystemPrompt(kind) => kind.heads_the_ledger(),
            BlockKind::Streaming(kind) => kind.heads_the_ledger(),
            BlockKind::StreamingThinking(kind) => kind.heads_the_ledger(),
            BlockKind::StreamingToolCall(kind) => kind.heads_the_ledger(),
            BlockKind::ApprovalRequest(kind) => kind.heads_the_ledger(),
            BlockKind::ApprovalDecision(kind) => kind.heads_the_ledger(),
            BlockKind::DateMarker(kind) => kind.heads_the_ledger(),
            BlockKind::HarnessMessage(kind) => kind.heads_the_ledger(),
            BlockKind::AncestorReference(kind) => kind.heads_the_ledger(),
            BlockKind::ToolChoice(kind) => kind.heads_the_ledger(),
            BlockKind::MetadataTitleRequest(kind) => kind.heads_the_ledger(),
            BlockKind::MetadataTitleResponse(kind) => kind.heads_the_ledger(),
            BlockKind::Unknown(kind) => kind.heads_the_ledger(),
        }
    }

    fn offers_tools(&self) -> (offers: bool) {
        match self {
            BlockKind::Text(kind) => kind.offers_tools(),
            BlockKind::Quote(kind) => kind.offers_tools(),
            BlockKind::Code(kind) => kind.offers_tools(),
            BlockKind::Thinking(kind) => kind.offers_tools(),
            BlockKind::ToolCall(kind) => kind.offers_tools(),
            BlockKind::ToolResult(kind) => kind.offers_tools(),
            BlockKind::ToolError(kind) => kind.offers_tools(),
            BlockKind::Status(kind) => kind.offers_tools(),
            BlockKind::SystemPrompt(kind) => kind.offers_tools(),
            BlockKind::Streaming(kind) => kind.offers_tools(),
            BlockKind::StreamingThinking(kind) => kind.offers_tools(),
            BlockKind::StreamingToolCall(kind) => kind.offers_tools(),
            BlockKind::ApprovalRequest(kind) => kind.offers_tools(),
            BlockKind::ApprovalDecision(kind) => kind.offers_tools(),
            BlockKind::DateMarker(kind) => kind.offers_tools(),
            BlockKind::HarnessMessage(kind) => kind.offers_tools(),
            BlockKind::AncestorReference(kind) => kind.offers_tools(),
            BlockKind::ToolChoice(kind) => kind.offers_tools(),
            BlockKind::MetadataTitleRequest(kind) => kind.offers_tools(),
            BlockKind::MetadataTitleResponse(kind) => kind.offers_tools(),
            BlockKind::Unknown(kind) => kind.offers_tools(),
        }
    }

    fn gate(&self) -> (decision: GateDecision) {
        match self {
            BlockKind::Text(kind) => kind.gate(),
            BlockKind::Quote(kind) => kind.gate(),
            BlockKind::Code(kind) => kind.gate(),
            BlockKind::Thinking(kind) => kind.gate(),
            BlockKind::ToolCall(kind) => kind.gate(),
            BlockKind::ToolResult(kind) => kind.gate(),
            BlockKind::ToolError(kind) => kind.gate(),
            BlockKind::Status(kind) => kind.gate(),
            BlockKind::SystemPrompt(kind) => kind.gate(),
            BlockKind::Streaming(kind) => kind.gate(),
            BlockKind::StreamingThinking(kind) => kind.gate(),
            BlockKind::StreamingToolCall(kind) => kind.gate(),
            BlockKind::ApprovalRequest(kind) => kind.gate(),
            BlockKind::ApprovalDecision(kind) => kind.gate(),
            BlockKind::DateMarker(kind) => kind.gate(),
            BlockKind::HarnessMessage(kind) => kind.gate(),
            BlockKind::AncestorReference(kind) => kind.gate(),
            BlockKind::ToolChoice(kind) => kind.gate(),
            BlockKind::MetadataTitleRequest(kind) => kind.gate(),
            BlockKind::MetadataTitleResponse(kind) => kind.gate(),
            BlockKind::Unknown(kind) => kind.gate(),
        }
    }

    fn run_reads(&self) -> (ledger: Option<LedgerName>) {
        match self {
            BlockKind::Text(kind) => kind.run_reads(),
            BlockKind::Quote(kind) => kind.run_reads(),
            BlockKind::Code(kind) => kind.run_reads(),
            BlockKind::Thinking(kind) => kind.run_reads(),
            BlockKind::ToolCall(kind) => kind.run_reads(),
            BlockKind::ToolResult(kind) => kind.run_reads(),
            BlockKind::ToolError(kind) => kind.run_reads(),
            BlockKind::Status(kind) => kind.run_reads(),
            BlockKind::SystemPrompt(kind) => kind.run_reads(),
            BlockKind::Streaming(kind) => kind.run_reads(),
            BlockKind::StreamingThinking(kind) => kind.run_reads(),
            BlockKind::StreamingToolCall(kind) => kind.run_reads(),
            BlockKind::ApprovalRequest(kind) => kind.run_reads(),
            BlockKind::ApprovalDecision(kind) => kind.run_reads(),
            BlockKind::DateMarker(kind) => kind.run_reads(),
            BlockKind::HarnessMessage(kind) => kind.run_reads(),
            BlockKind::AncestorReference(kind) => kind.run_reads(),
            BlockKind::ToolChoice(kind) => kind.run_reads(),
            BlockKind::MetadataTitleRequest(kind) => kind.run_reads(),
            BlockKind::MetadataTitleResponse(kind) => kind.run_reads(),
            BlockKind::Unknown(kind) => kind.run_reads(),
        }
    }

    fn run(&self, ledger: &[Block]) -> (run: Run) {
        match self {
            BlockKind::Text(kind) => kind.run(ledger),
            BlockKind::Quote(kind) => kind.run(ledger),
            BlockKind::Code(kind) => kind.run(ledger),
            BlockKind::Thinking(kind) => kind.run(ledger),
            BlockKind::ToolCall(kind) => kind.run(ledger),
            BlockKind::ToolResult(kind) => kind.run(ledger),
            BlockKind::ToolError(kind) => kind.run(ledger),
            BlockKind::Status(kind) => kind.run(ledger),
            BlockKind::SystemPrompt(kind) => kind.run(ledger),
            BlockKind::Streaming(kind) => kind.run(ledger),
            BlockKind::StreamingThinking(kind) => kind.run(ledger),
            BlockKind::StreamingToolCall(kind) => kind.run(ledger),
            BlockKind::ApprovalRequest(kind) => kind.run(ledger),
            BlockKind::ApprovalDecision(kind) => kind.run(ledger),
            BlockKind::DateMarker(kind) => kind.run(ledger),
            BlockKind::HarnessMessage(kind) => kind.run(ledger),
            BlockKind::AncestorReference(kind) => kind.run(ledger),
            BlockKind::ToolChoice(kind) => kind.run(ledger),
            BlockKind::MetadataTitleRequest(kind) => kind.run(ledger),
            BlockKind::MetadataTitleResponse(kind) => kind.run(ledger),
            BlockKind::Unknown(kind) => kind.run(ledger),
        }
    }

    fn post_gate_id(&self, ledger: &[Block]) -> (next: Option<i64>) {
        match self {
            BlockKind::Text(kind) => kind.post_gate_id(ledger),
            BlockKind::Quote(kind) => kind.post_gate_id(ledger),
            BlockKind::Code(kind) => kind.post_gate_id(ledger),
            BlockKind::Thinking(kind) => kind.post_gate_id(ledger),
            BlockKind::ToolCall(kind) => kind.post_gate_id(ledger),
            BlockKind::ToolResult(kind) => kind.post_gate_id(ledger),
            BlockKind::ToolError(kind) => kind.post_gate_id(ledger),
            BlockKind::Status(kind) => kind.post_gate_id(ledger),
            BlockKind::SystemPrompt(kind) => kind.post_gate_id(ledger),
            BlockKind::Streaming(kind) => kind.post_gate_id(ledger),
            BlockKind::StreamingThinking(kind) => kind.post_gate_id(ledger),
            BlockKind::StreamingToolCall(kind) => kind.post_gate_id(ledger),
            BlockKind::ApprovalRequest(kind) => kind.post_gate_id(ledger),
            BlockKind::ApprovalDecision(kind) => kind.post_gate_id(ledger),
            BlockKind::DateMarker(kind) => kind.post_gate_id(ledger),
            BlockKind::HarnessMessage(kind) => kind.post_gate_id(ledger),
            BlockKind::AncestorReference(kind) => kind.post_gate_id(ledger),
            BlockKind::ToolChoice(kind) => kind.post_gate_id(ledger),
            BlockKind::MetadataTitleRequest(kind) => kind.post_gate_id(ledger),
            BlockKind::MetadataTitleResponse(kind) => kind.post_gate_id(ledger),
            BlockKind::Unknown(kind) => kind.post_gate_id(ledger),
        }
    }

    fn run_post_gate(&self, ledger: &[Block]) -> (wakeup: Option<Wakeup>) {
        match self {
            BlockKind::Text(kind) => kind.run_post_gate(ledger),
            BlockKind::Quote(kind) => kind.run_post_gate(ledger),
            BlockKind::Code(kind) => kind.run_post_gate(ledger),
            BlockKind::Thinking(kind) => kind.run_post_gate(ledger),
            BlockKind::ToolCall(kind) => kind.run_post_gate(ledger),
            BlockKind::ToolResult(kind) => kind.run_post_gate(ledger),
            BlockKind::ToolError(kind) => kind.run_post_gate(ledger),
            BlockKind::Status(kind) => kind.run_post_gate(ledger),
            BlockKind::SystemPrompt(kind) => kind.run_post_gate(ledger),
            BlockKind::Streaming(kind) => kind.run_post_gate(ledger),
            BlockKind::StreamingThinking(kind) => kind.run_post_gate(ledger),
            BlockKind::StreamingToolCall(kind) => kind.run_post_gate(ledger),
            BlockKind::ApprovalRequest(kind) => kind.run_post_gate(ledger),
            BlockKind::ApprovalDecision(kind) => kind.run_post_gate(ledger),
            BlockKind::DateMarker(kind) => kind.run_post_gate(ledger),
            BlockKind::HarnessMessage(kind) => kind.run_post_gate(ledger),
            BlockKind::AncestorReference(kind) => kind.run_post_gate(ledger),
            BlockKind::ToolChoice(kind) => kind.run_post_gate(ledger),
            BlockKind::MetadataTitleRequest(kind) => kind.run_post_gate(ledger),
            BlockKind::MetadataTitleResponse(kind) => kind.run_post_gate(ledger),
            BlockKind::Unknown(kind) => kind.run_post_gate(ledger),
        }
    }
}

impl Projection for BlockKind {
    open spec fn groups(kind: Kind) -> Option<Role> {
        match kind {
            Kind::Text { .. } => Text::groups(kind),
            Kind::Quote { .. } => Quote::groups(kind),
            Kind::Code { .. } => Code::groups(kind),
            Kind::Thinking { .. } => Thinking::groups(kind),
            Kind::ToolCall { .. } => ToolCall::groups(kind),
            Kind::ToolResult { .. } => ToolResult::groups(kind),
            Kind::ToolError { .. } => ToolError::groups(kind),
            Kind::Status { .. } => Status::groups(kind),
            Kind::SystemPrompt { .. } => SystemPrompt::groups(kind),
            Kind::Streaming => Streaming::groups(kind),
            Kind::StreamingThinking => StreamingThinking::groups(kind),
            Kind::StreamingToolCall => StreamingToolCall::groups(kind),
            Kind::ApprovalRequest { .. } => ApprovalRequest::groups(kind),
            Kind::ApprovalDecision { .. } => ApprovalDecision::groups(kind),
            Kind::DateMarker { .. } => DateMarker::groups(kind),
            Kind::HarnessMessage { .. } => HarnessMessage::groups(kind),
            Kind::AncestorReference { .. } => AncestorReference::groups(kind),
            Kind::ToolChoice { .. } => ToolChoice::groups(kind),
            Kind::MetadataTitleRequest { .. } => MetadataTitleRequest::groups(kind),
            Kind::MetadataTitleResponse => MetadataTitleResponse::groups(kind),
            Kind::Unknown { .. } => Unknown::groups(kind),
        }
    }

    open spec fn parts(kind: Kind) -> Option<Seq<Part>> {
        match kind {
            Kind::Text { .. } => Text::parts(kind),
            Kind::Quote { .. } => Quote::parts(kind),
            Kind::Code { .. } => Code::parts(kind),
            Kind::Thinking { .. } => Thinking::parts(kind),
            Kind::ToolCall { .. } => ToolCall::parts(kind),
            Kind::ToolResult { .. } => ToolResult::parts(kind),
            Kind::ToolError { .. } => ToolError::parts(kind),
            Kind::Status { .. } => Status::parts(kind),
            Kind::SystemPrompt { .. } => SystemPrompt::parts(kind),
            Kind::Streaming => Streaming::parts(kind),
            Kind::StreamingThinking => StreamingThinking::parts(kind),
            Kind::StreamingToolCall => StreamingToolCall::parts(kind),
            Kind::ApprovalRequest { .. } => ApprovalRequest::parts(kind),
            Kind::ApprovalDecision { .. } => ApprovalDecision::parts(kind),
            Kind::DateMarker { .. } => DateMarker::parts(kind),
            Kind::HarnessMessage { .. } => HarnessMessage::parts(kind),
            Kind::AncestorReference { .. } => AncestorReference::parts(kind),
            Kind::ToolChoice { .. } => ToolChoice::parts(kind),
            Kind::MetadataTitleRequest { .. } => MetadataTitleRequest::parts(kind),
            Kind::MetadataTitleResponse => MetadataTitleResponse::parts(kind),
            Kind::Unknown { .. } => Unknown::parts(kind),
        }
    }

    open spec fn text(kind: Kind) -> Option<Seq<char>> {
        match kind {
            Kind::Text { .. } => Text::text(kind),
            Kind::Quote { .. } => Quote::text(kind),
            Kind::Code { .. } => Code::text(kind),
            Kind::Thinking { .. } => Thinking::text(kind),
            Kind::ToolCall { .. } => ToolCall::text(kind),
            Kind::ToolResult { .. } => ToolResult::text(kind),
            Kind::ToolError { .. } => ToolError::text(kind),
            Kind::Status { .. } => Status::text(kind),
            Kind::SystemPrompt { .. } => SystemPrompt::text(kind),
            Kind::Streaming => Streaming::text(kind),
            Kind::StreamingThinking => StreamingThinking::text(kind),
            Kind::StreamingToolCall => StreamingToolCall::text(kind),
            Kind::ApprovalRequest { .. } => ApprovalRequest::text(kind),
            Kind::ApprovalDecision { .. } => ApprovalDecision::text(kind),
            Kind::DateMarker { .. } => DateMarker::text(kind),
            Kind::HarnessMessage { .. } => HarnessMessage::text(kind),
            Kind::AncestorReference { .. } => AncestorReference::text(kind),
            Kind::ToolChoice { .. } => ToolChoice::text(kind),
            Kind::MetadataTitleRequest { .. } => MetadataTitleRequest::text(kind),
            Kind::MetadataTitleResponse => MetadataTitleResponse::text(kind),
            Kind::Unknown { .. } => Unknown::text(kind),
        }
    }

    open spec fn only_parts(kind: Kind) -> bool {
        match kind {
            Kind::Text { .. } => Text::only_parts(kind),
            Kind::Quote { .. } => Quote::only_parts(kind),
            Kind::Code { .. } => Code::only_parts(kind),
            Kind::Thinking { .. } => Thinking::only_parts(kind),
            Kind::ToolCall { .. } => ToolCall::only_parts(kind),
            Kind::ToolResult { .. } => ToolResult::only_parts(kind),
            Kind::ToolError { .. } => ToolError::only_parts(kind),
            Kind::Status { .. } => Status::only_parts(kind),
            Kind::SystemPrompt { .. } => SystemPrompt::only_parts(kind),
            Kind::Streaming => Streaming::only_parts(kind),
            Kind::StreamingThinking => StreamingThinking::only_parts(kind),
            Kind::StreamingToolCall => StreamingToolCall::only_parts(kind),
            Kind::ApprovalRequest { .. } => ApprovalRequest::only_parts(kind),
            Kind::ApprovalDecision { .. } => ApprovalDecision::only_parts(kind),
            Kind::DateMarker { .. } => DateMarker::only_parts(kind),
            Kind::HarnessMessage { .. } => HarnessMessage::only_parts(kind),
            Kind::AncestorReference { .. } => AncestorReference::only_parts(kind),
            Kind::ToolChoice { .. } => ToolChoice::only_parts(kind),
            Kind::MetadataTitleRequest { .. } => MetadataTitleRequest::only_parts(kind),
            Kind::MetadataTitleResponse => MetadataTitleResponse::only_parts(kind),
            Kind::Unknown { .. } => Unknown::only_parts(kind),
        }
    }

    fn group_role(&self) -> (role: Option<Role>) {
        match self {
            BlockKind::Text(kind) => kind.group_role(),
            BlockKind::Quote(kind) => kind.group_role(),
            BlockKind::Code(kind) => kind.group_role(),
            BlockKind::Thinking(kind) => kind.group_role(),
            BlockKind::ToolCall(kind) => kind.group_role(),
            BlockKind::ToolResult(kind) => kind.group_role(),
            BlockKind::ToolError(kind) => kind.group_role(),
            BlockKind::Status(kind) => kind.group_role(),
            BlockKind::SystemPrompt(kind) => kind.group_role(),
            BlockKind::Streaming(kind) => kind.group_role(),
            BlockKind::StreamingThinking(kind) => kind.group_role(),
            BlockKind::StreamingToolCall(kind) => kind.group_role(),
            BlockKind::ApprovalRequest(kind) => kind.group_role(),
            BlockKind::ApprovalDecision(kind) => kind.group_role(),
            BlockKind::DateMarker(kind) => kind.group_role(),
            BlockKind::HarnessMessage(kind) => kind.group_role(),
            BlockKind::AncestorReference(kind) => kind.group_role(),
            BlockKind::ToolChoice(kind) => kind.group_role(),
            BlockKind::MetadataTitleRequest(kind) => kind.group_role(),
            BlockKind::MetadataTitleResponse(kind) => kind.group_role(),
            BlockKind::Unknown(kind) => kind.group_role(),
        }
    }

    fn llm_parts(&self) -> (parts: Option<Vec<ContentPart>>) {
        match self {
            BlockKind::Text(kind) => kind.llm_parts(),
            BlockKind::Quote(kind) => kind.llm_parts(),
            BlockKind::Code(kind) => kind.llm_parts(),
            BlockKind::Thinking(kind) => kind.llm_parts(),
            BlockKind::ToolCall(kind) => kind.llm_parts(),
            BlockKind::ToolResult(kind) => kind.llm_parts(),
            BlockKind::ToolError(kind) => kind.llm_parts(),
            BlockKind::Status(kind) => kind.llm_parts(),
            BlockKind::SystemPrompt(kind) => kind.llm_parts(),
            BlockKind::Streaming(kind) => kind.llm_parts(),
            BlockKind::StreamingThinking(kind) => kind.llm_parts(),
            BlockKind::StreamingToolCall(kind) => kind.llm_parts(),
            BlockKind::ApprovalRequest(kind) => kind.llm_parts(),
            BlockKind::ApprovalDecision(kind) => kind.llm_parts(),
            BlockKind::DateMarker(kind) => kind.llm_parts(),
            BlockKind::HarnessMessage(kind) => kind.llm_parts(),
            BlockKind::AncestorReference(kind) => kind.llm_parts(),
            BlockKind::ToolChoice(kind) => kind.llm_parts(),
            BlockKind::MetadataTitleRequest(kind) => kind.llm_parts(),
            BlockKind::MetadataTitleResponse(kind) => kind.llm_parts(),
            BlockKind::Unknown(kind) => kind.llm_parts(),
        }
    }

    fn llm_text(&self) -> (text: Option<String>) {
        match self {
            BlockKind::Text(kind) => kind.llm_text(),
            BlockKind::Quote(kind) => kind.llm_text(),
            BlockKind::Code(kind) => kind.llm_text(),
            BlockKind::Thinking(kind) => kind.llm_text(),
            BlockKind::ToolCall(kind) => kind.llm_text(),
            BlockKind::ToolResult(kind) => kind.llm_text(),
            BlockKind::ToolError(kind) => kind.llm_text(),
            BlockKind::Status(kind) => kind.llm_text(),
            BlockKind::SystemPrompt(kind) => kind.llm_text(),
            BlockKind::Streaming(kind) => kind.llm_text(),
            BlockKind::StreamingThinking(kind) => kind.llm_text(),
            BlockKind::StreamingToolCall(kind) => kind.llm_text(),
            BlockKind::ApprovalRequest(kind) => kind.llm_text(),
            BlockKind::ApprovalDecision(kind) => kind.llm_text(),
            BlockKind::DateMarker(kind) => kind.llm_text(),
            BlockKind::HarnessMessage(kind) => kind.llm_text(),
            BlockKind::AncestorReference(kind) => kind.llm_text(),
            BlockKind::ToolChoice(kind) => kind.llm_text(),
            BlockKind::MetadataTitleRequest(kind) => kind.llm_text(),
            BlockKind::MetadataTitleResponse(kind) => kind.llm_text(),
            BlockKind::Unknown(kind) => kind.llm_text(),
        }
    }

    fn forces_parts(&self) -> (forces: bool) {
        match self {
            BlockKind::Text(kind) => kind.forces_parts(),
            BlockKind::Quote(kind) => kind.forces_parts(),
            BlockKind::Code(kind) => kind.forces_parts(),
            BlockKind::Thinking(kind) => kind.forces_parts(),
            BlockKind::ToolCall(kind) => kind.forces_parts(),
            BlockKind::ToolResult(kind) => kind.forces_parts(),
            BlockKind::ToolError(kind) => kind.forces_parts(),
            BlockKind::Status(kind) => kind.forces_parts(),
            BlockKind::SystemPrompt(kind) => kind.forces_parts(),
            BlockKind::Streaming(kind) => kind.forces_parts(),
            BlockKind::StreamingThinking(kind) => kind.forces_parts(),
            BlockKind::StreamingToolCall(kind) => kind.forces_parts(),
            BlockKind::ApprovalRequest(kind) => kind.forces_parts(),
            BlockKind::ApprovalDecision(kind) => kind.forces_parts(),
            BlockKind::DateMarker(kind) => kind.forces_parts(),
            BlockKind::HarnessMessage(kind) => kind.forces_parts(),
            BlockKind::AncestorReference(kind) => kind.forces_parts(),
            BlockKind::ToolChoice(kind) => kind.forces_parts(),
            BlockKind::MetadataTitleRequest(kind) => kind.forces_parts(),
            BlockKind::MetadataTitleResponse(kind) => kind.forces_parts(),
            BlockKind::Unknown(kind) => kind.forces_parts(),
        }
    }
}

/// One, where something holds.
pub open spec fn one_if(holds: bool) -> nat {
    if holds {
        1
    } else {
        0
    }
}

/// How many kinds own a stored type.
pub open spec fn owners(stored: Seq<char>) -> nat {
    one_if(Text::owns(stored)) + one_if(Quote::owns(stored)) + one_if(Code::owns(stored))
        + one_if(Thinking::owns(stored)) + one_if(ToolCall::owns(stored))
        + one_if(ToolResult::owns(stored)) + one_if(ToolError::owns(stored))
        + one_if(Status::owns(stored)) + one_if(SystemPrompt::owns(stored))
        + one_if(Streaming::owns(stored)) + one_if(StreamingThinking::owns(stored))
        + one_if(StreamingToolCall::owns(stored)) + one_if(ApprovalRequest::owns(stored))
        + one_if(ApprovalDecision::owns(stored)) + one_if(DateMarker::owns(stored))
        + one_if(HarnessMessage::owns(stored)) + one_if(AncestorReference::owns(stored))
        + one_if(ToolChoice::owns(stored)) + one_if(MetadataTitleRequest::owns(stored))
        + one_if(MetadataTitleResponse::owns(stored))
}

/// Where a stored type stands among the kinds: told by its length, and by a
/// letter where two share one.
spec fn place(stored: Seq<char>) -> int {
    let len = stored.len();
    if len <= 9 {
        if len == 4 {
            if stored[0] == 't' {
                0
            } else {
                2
            }
        } else if len == 5 {
            1
        } else if len == 8 {
            3
        } else if len == 9 {
            if stored[0] == 't' {
                4
            } else {
                9
            }
        } else {
            7
        }
    } else if len <= 13 {
        if len == 10 {
            6
        } else if len == 11 {
            if stored[0] == 'd' {
                14
            } else if stored[5] == 'r' {
                5
            } else {
                17
            }
        } else if stored[0] == 's' {
            8
        } else {
            18
        }
    } else if len <= 16 {
        if len == 14 {
            19
        } else if len == 15 {
            15
        } else {
            12
        }
    } else if len == 17 {
        13
    } else if len == 18 {
        if stored[0] == 's' {
            10
        } else {
            16
        }
    } else {
        11
    }
}

proof fn each_stored_type_has_its_place()
    ensures
        place("text"@) == 0,
        place("quote"@) == 1,
        place("code"@) == 2,
        place("thinking"@) == 3,
        place("tool_call"@) == 4,
        place("tool_result"@) == 5,
        place("tool_error"@) == 6,
        place("status"@) == 7,
        place("system_prompt"@) == 8,
        place("streaming"@) == 9,
        place("streaming_thinking"@) == 10,
        place("streaming_tool_call"@) == 11,
        place("approval_request"@) == 12,
        place("approval_decision"@) == 13,
        place("date_marker"@) == 14,
        place("harness_message"@) == 15,
        place("ancestor_reference"@) == 16,
        place("tool_choice"@) == 17,
        place("title_request"@) == 18,
        place("title_response"@) == 19,
{
    reveal_strlit("text");
    reveal_strlit("quote");
    reveal_strlit("code");
    reveal_strlit("thinking");
    reveal_strlit("tool_call");
    reveal_strlit("tool_result");
    reveal_strlit("tool_error");
    reveal_strlit("status");
    reveal_strlit("system_prompt");
    reveal_strlit("streaming");
    reveal_strlit("streaming_thinking");
    reveal_strlit("streaming_tool_call");
    reveal_strlit("approval_request");
    reveal_strlit("approval_decision");
    reveal_strlit("date_marker");
    reveal_strlit("harness_message");
    reveal_strlit("ancestor_reference");
    reveal_strlit("tool_choice");
    reveal_strlit("title_request");
    reveal_strlit("title_response");
}

/// Every stored type has one owner at most, so the order in which the kinds
/// are tried decides nothing.
pub proof fn a_stored_type_has_one_owner(stored: Seq<char>)
    ensures
        owners(stored) <= 1,
        BlockKind::resolves(stored) <==> owners(stored) == 1,
{
    each_stored_type_has_its_place();
}

/// The library's kinds claim nothing twice.
pub proof fn no_stored_type_is_claimed_twice()
    ensures
        BlockKind::claimed().no_duplicates(),
        BlockKind::claimed().len() == leaf_names().len(),
{
    each_stored_type_has_its_place();
    kinds::single_entries_in_a_row(leaf_names());
    assert forall|i: int| 0 <= i < leaf_names().len() implies place(
        #[trigger] BlockKind::claimed()[i],
    ) == i by {
        assert(BlockKind::claimed()[i] == leaf_names()[i][0]);
    }
}

/// A row of a type that nobody owns is inert in every direction: it asks
/// nothing, does nothing, routes nowhere and says nothing.
pub proof fn an_unowned_type_is_inert(block: Block, ledger: Seq<Block>)
    requires
        !BlockKind::resolves(block.block_type@),
    ensures
        ({
            let kind = BlockKind::read(block);
            &&& kind == (Kind::Unknown { role: block.role })
            &&& BlockKind::asks(kind) is None
            &&& BlockKind::lasts(kind)
            &&& !BlockKind::see_through(kind)
            &&& !BlockKind::heads(kind)
            &&& BlockKind::vetted(kind) is Proceed
            &&& BlockKind::reads(kind) is None
            &&& BlockKind::work(kind, ledger) == agency::inert()
            &&& BlockKind::route(kind, ledger) is None
            &&& BlockKind::deferred(kind, ledger) is None
            &&& BlockKind::parts(kind) is None
            &&& BlockKind::text(kind) is None
            &&& !BlockKind::only_parts(kind)
        }),
{
}

/// Exactly the streaming kinds do not outlive their drive.
pub proof fn exactly_the_streaming_kinds_are_ephemeral(kind: Kind)
    ensures
        !BlockKind::lasts(kind) <==> (kind is Streaming || kind is StreamingThinking || kind is StreamingToolCall),
{
}

/// Exactly the system prompt heads a ledger.
pub proof fn exactly_the_system_prompt_heads_a_ledger(kind: Kind)
    ensures
        BlockKind::heads(kind) <==> kind is SystemPrompt,
{
}

/// A kind that awaits the model has no work of its own: a turn may be fired on
/// a block that no drive has confirmed yet, and nothing is skipped.
pub proof fn a_kind_that_awaits_the_model_has_no_work(kind: Kind, ledger: Seq<Block>)
    requires
        BlockKind::asks(kind) == Some(Awaiting::Model),
    ensures
        BlockKind::work(kind, ledger) == agency::inert(),
{
}

/// A row that is read through asks for nothing: a frontier that rests on such
/// a tail owes no turn.
pub proof fn a_transparent_kind_asks_nothing(kind: Kind)
    requires
        BlockKind::see_through(kind),
    ensures
        BlockKind::asks(kind) is None,
{
}

/// Work that is done is silent, and work that is owed is asked for.
pub proof fn owed_work_is_asked_for(kind: Kind, ledger: Seq<Block>)
    ensures
        BlockKind::work(kind, ledger).done <==> BlockKind::work(kind, ledger).wakeup is None,
{
}

/// What the library's kinds claim, in the order in which the kinds are tried:
/// one type string each. A type resolves exactly where it is among them.
pub proof fn each_kind_claims_its_one_type(stored: Seq<char>)
    ensures
        BlockKind::claimed() == seq![
            "text"@,
            "quote"@,
            "code"@,
            "thinking"@,
            "tool_call"@,
            "tool_result"@,
            "tool_error"@,
            "status"@,
            "system_prompt"@,
            "streaming"@,
            "streaming_thinking"@,
            "streaming_tool_call"@,
            "approval_request"@,
            "approval_decision"@,
            "date_marker"@,
            "harness_message"@,
            "ancestor_reference"@,
            "tool_choice"@,
            "title_request"@,
            "title_response"@,
        ],
        BlockKind::resolves(stored) <==> BlockKind::claimed().contains(stored),
{
    let names = seq![
        "text"@,
        "quote"@,
        "code"@,
        "thinking"@,
        "tool_call"@,
        "tool_result"@,
        "tool_error"@,
        "status"@,
        "system_prompt"@,
        "streaming"@,
        "streaming_thinking"@,
        "streaming_tool_call"@,
        "approval_request"@,
        "approval_decision"@,
        "date_marker"@,
        "harness_message"@,
        "ancestor_reference"@,
        "tool_choice"@,
        "title_request"@,
        "title_response"@,
    ];
    kinds::single_entries_in_a_row(leaf_names());
    assert forall|i: int| 0 <= i < names.len() implies #[trigger] BlockKind::claimed()[i]
        == names[i] by {
        assert(BlockKind::claimed()[i] == leaf_names()[i][0]);
    }
    assert(BlockKind::claimed() =~= names);
    if BlockKind::resolves(stored) {
        assert(exists|i: int| 0 <= i < names.len() && #[trigger] names[i] == stored) by {
            assert(names[0] == "text"@);
            assert(names[1] == "quote"@);
            assert(names[2] == "code"@);
            assert(names[3] == "thinking"@);
            assert(names[4] == "tool_call"@);
            assert(names[5] == "tool_result"@);
            assert(names[6] == "tool_error"@);
            assert(names[7] == "status"@);
            assert(names[8] == "system_prompt"@);
            assert(names[9] == "streaming"@);
            assert(names[10] == "streaming_thinking"@);
            assert(names[11] == "streaming_tool_call"@);
            assert(names[12] == "approval_request"@);
            assert(names[13] == "approval_decision"@);
            assert(names[14] == "date_marker"@);
            assert(names[15] == "harness_message"@);
            assert(names[16] == "ancestor_reference"@);
            assert(names[17] == "tool_choice"@);
            assert(names[18] == "title_request"@);
            assert(names[19] == "title_response"@);
        }
    }
}

} // verus!
