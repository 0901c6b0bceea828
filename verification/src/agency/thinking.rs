//! A finished turn's reasoning.

use vstd::prelude::*;

use super::model;
use super::model::Kind;
use super::projection;
use super::projection::{ContentPart, OpaquePayload, Part, Projection};
use super::{Agency, ContentDescriptor, GateDecision, LeafKind, LedgerName, Run, Wakeup};
use crate::block;
use crate::block::{Awaiting, Block, Role};
use crate::json::entry;

verus! {

/// A finished turn's reasoning.
///
/// It reaches the model as a reasoning part, with the provider's continuity
/// payload riding along, and never as text: reasoning flattened into prose would
/// reach the model as the assistant's own words.
#[derive(Debug, Clone)]
pub struct Thinking {
    /// Whose voice the block speaks in.
    pub role: Option<Role>,
    /// The reasoning a human may read.
    pub content: String,
    /// The provider's continuity payload as it was stored, where one was
    /// captured. Whether it reads as a provider's type, that type decides.
    pub opaque: Option<OpaquePayload>,
}

impl View for Thinking {
    type V = Kind;

    open spec fn view(&self) -> Kind {
        Kind::Thinking {
            role: self.role,
            content: self.content@,
            opaque: projection::payload(self.opaque),
        }
    }
}

impl Thinking {
    /// The same reasoning once its payload has been read as a provider's type,
    /// given whether it reads as one. A payload that does not is let go and the
    /// reasoning stays: a ledger written by a build that knew another provider
    /// still reads back.
    pub fn with_payload_read(self, reads: bool) -> (thinking: Self)
        ensures
            thinking@ == (Kind::Thinking {
                role: self.role,
                content: self.content@,
                opaque: if reads {
                    projection::payload(self.opaque)
                } else {
                    None
                },
            }),
    {
        if reads {
            self
        } else {
            Thinking { role: self.role, content: self.content, opaque: None }
        }
    }
}

impl LeafKind for Thinking {
    open spec fn owns(stored: Seq<char>) -> bool {
        stored == "thinking"@
    }

    open spec fn names() -> Seq<Seq<char>> {
        seq!["thinking"@]
    }

    open spec fn reading(block: Block) -> Kind {
        Kind::Thinking {
            role: block.role,
            content: block::text_or_empty(block, "content"@),
            opaque: model::present(block, "opaque"@),
        }
    }

    fn kinds() -> (kinds: &'static [&'static str]) {
        let kinds: &'static [&'static str] = &["thinking"];
        assert(kinds@[0]@ == "thinking"@);
        kinds
    }

    fn descriptors() -> (tables: Vec<ContentDescriptor>) {
        Vec::new()
    }

    fn parse(block: &Block) -> (kind: Self) {
        let opaque = match entry(&block.fields, "opaque") {
            Some(value) => if value.is_null() {
                None
            } else {
                Some(OpaquePayload { value: value.clone() })
            },
            None => None,
        };
        Thinking { role: block.role, content: block::string_field(block, "content"), opaque }
    }
}

impl Agency for Thinking {
    fn awaiting(&self) -> (ask: Option<Awaiting>) {
        None
    }

    fn durable(&self) -> (lasts: bool) {
        true
    }

    fn frontier_transparent(&self) -> (transparent: bool) {
        false
    }

    fn heads_the_ledger(&self) -> (heads: bool) {
        false
    }

    fn offers_tools(&self) -> (offers: bool) {
        true
    }

    fn gate(&self) -> (decision: GateDecision) {
        GateDecision::Proceed
    }

    fn run_reads(&self) -> (ledger: Option<LedgerName>) {
        None
    }

    fn run(&self, _ledger: &[Block]) -> (run: Run) {
        Run { done: true, wakeup: None }
    }

    fn post_gate_id(&self, _ledger: &[Block]) -> (next: Option<i64>) {
        None
    }

    fn run_post_gate(&self, _ledger: &[Block]) -> (wakeup: Option<Wakeup>) {
        None
    }
}

impl Projection for Thinking {
    open spec fn groups(kind: Kind) -> Option<Role> {
        match kind {
            Kind::Thinking { role, .. } => role,
            _ => None,
        }
    }

    open spec fn parts(kind: Kind) -> Option<Seq<Part>> {
        match kind {
            Kind::Thinking { content, opaque, .. } => Some(
                seq![Part::Reasoning { text: content, opaque }],
            ),
            _ => None,
        }
    }

    fn group_role(&self) -> (role: Option<Role>) {
        self.role
    }

    fn llm_parts(&self) -> (parts: Option<Vec<ContentPart>>) {
        let opaque = match &self.opaque {
            Some(payload) => Some(OpaquePayload { value: payload.value.clone() }),
            None => None,
        };
        projection::one_part(ContentPart::Reasoning { text: self.content.clone(), opaque })
    }

    fn llm_text(&self) -> (text: Option<String>) {
        None
    }

    fn forces_parts(&self) -> (forces: bool) {
        false
    }
}

} // verus!
