//! A settled title derivation.

use vstd::prelude::*;

use super::model::Kind;
use super::projection::{ContentPart, Projection};
use super::{Agency, ContentDescriptor, GateDecision, LeafKind, LedgerName, Run, Wakeup};
use crate::block::{Awaiting, Block, Role};

verus! {

/// A title that was derived: what settles the earliest request still open.
#[derive(Debug, Clone, Copy)]
pub struct MetadataTitleResponse;

impl View for MetadataTitleResponse {
    type V = Kind;

    open spec fn view(&self) -> Kind {
        Kind::MetadataTitleResponse
    }
}

impl LeafKind for MetadataTitleResponse {
    open spec fn owns(stored: Seq<char>) -> bool {
        stored == "title_response"@
    }

    open spec fn names() -> Seq<Seq<char>> {
        seq!["title_response"@]
    }

    open spec fn reading(block: Block) -> Kind {
        Kind::MetadataTitleResponse
    }

    fn kinds() -> (kinds: &'static [&'static str]) {
        let kinds: &'static [&'static str] = &["title_response"];
        assert(kinds@[0]@ == "title_response"@);
        kinds
    }

    fn descriptors() -> (tables: Vec<ContentDescriptor>) {
        Vec::new()
    }

    fn parse(_block: &Block) -> (kind: Self) {
        MetadataTitleResponse
    }
}

impl Agency for MetadataTitleResponse {
    fn awaiting(&self) -> (ask: Option<Awaiting>) {
        None
    }

    fn durable(&self) -> (lasts: bool) {
        true
    }

    fn frontier_transparent(&self) -> (transparent: bool) {
        false
    }

    fn heads_the_ledger(&self) -> (heads: bool) {
        false
    }

    fn offers_tools(&self) -> (offers: bool) {
        true
    }

    fn gate(&self) -> (decision: GateDecision) {
        GateDecision::Proceed
    }

    fn run_reads(&self) -> (ledger: Option<LedgerName>) {
        None
    }

    fn run(&self, _ledger: &[Block]) -> (run: Run) {
        Run { done: true, wakeup: None }
    }

    fn post_gate_id(&self, _ledger: &[Block]) -> (next: Option<i64>) {
        None
    }

    fn run_post_gate(&self, _ledger: &[Block]) -> (wakeup: Option<Wakeup>) {
        None
    }
}

impl Projection for MetadataTitleResponse {
    fn group_role(&self) -> (role: Option<Role>) {
        None
    }

    fn llm_parts(&self) -> (parts: Option<Vec<ContentPart>>) {
        None
    }

    fn llm_text(&self) -> (text: Option<String>) {
        None
    }

    fn forces_parts(&self) -> (forces: bool) {
        false
    }
}

} // verus!
