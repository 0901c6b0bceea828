//! Composing kinds: which shapes are refused and why, what a composition has to
//! pass, and which variant reads a row.

use agent_ledger::agency::ratchet::{drive_ledger, frontier_block};
use agent_ledger::agency::{
    check_descriptor_durability, concat_kinds, descriptor_kinds_claimed, kind_count,
    kinds_disjoint, Agency, BlockKind, Composite, ContentDescriptor, ContentPart, FromBlock,
    GateDecision, LeafKind, LedgerName, Projection, Quote, Run, Text, Wakeup,
};
use agent_ledger::block::{Awaiting, Block, Role};
use agent_ledger::compose::{
    check_passes, coherence_checks, compose, coverage_message, defect_comes_first,
    delegate_message, first_failed_check, library_path, parse_arm, sibling_message, AttrKey, Check, Defect,
    EnumShape, Fault, LeafClaim, Place, VariantShape,
};
use agent_ledger::View;

fn key(name: &str, path: Option<&str>) -> AttrKey {
    AttrKey {
        name: name.into(),
        path: path.map(str::to_owned),
    }
}

fn variant(name: &str, delegate: bool) -> VariantShape {
    VariantShape {
        name: name.into(),
        unnamed_fields: Some(1),
        keys: if delegate {
            vec![key("delegate", None)]
        } else {
            Vec::new()
        },
    }
}

fn composed(with_crate_override: bool) -> EnumShape {
    EnumShape {
        is_enum: true,
        generic_params: 0,
        keys: if with_crate_override {
            vec![key("crate", Some("the_ledger"))]
        } else {
            Vec::new()
        },
        variants: vec![variant("Core", true), variant("Leaf", false)],
    }
}

#[test]
fn without_an_override_the_path_is_the_library() {
    let shape = composed(false);
    let composition = compose(&shape).expect("a valid composition composes");
    let path = library_path(&shape.keys, composition.path_key);
    assert_eq!(path, "::agent_ledger");
    assert_eq!(composition.delegate, 0);
    assert_eq!(composition.leaves, vec![1]);
    assert_eq!(composition.all_variants(), vec![0, 1]);
}

#[test]
fn the_override_is_the_path() {
    let shape = composed(true);
    let composition = compose(&shape).expect("a valid composition composes");
    assert_eq!(
        library_path(&shape.keys, composition.path_key),
        "the_ledger"
    );
}

#[test]
fn the_delegate_leads_wherever_it_is_declared() {
    let mut shape = composed(false);
    shape.variants.insert(0, variant("First", false));
    let composition = compose(&shape).unwrap();
    assert_eq!(composition.delegate, 1);
    assert_eq!(composition.leaves, vec![0, 2]);
    assert_eq!(composition.all_variants(), vec![1, 0, 2]);
}

fn defect(shape: &EnumShape) -> (Fault, Place) {
    let Defect { fault, place } = compose(shape).expect_err("the shape is refused");
    (fault, place)
}

#[test]
fn each_fault_is_found_where_it_is() {
    let mut shape = composed(false);
    shape.is_enum = false;
    assert_eq!(defect(&shape), (Fault::NotAnEnum, Place::Name));

    let mut shape = composed(false);
    shape.generic_params = 1;
    assert_eq!(defect(&shape), (Fault::Generic, Place::Generics));

    let mut shape = composed(true);
    shape.keys.push(key("delegate", None));
    assert_eq!(defect(&shape), (Fault::UnknownKey, Place::Key { key: 1 }));

    let mut shape = composed(true);
    shape.keys.push(key("crate", Some("other")));
    assert_eq!(
        defect(&shape),
        (Fault::DuplicatePath, Place::Key { key: 1 })
    );

    for fields in [None, Some(0), Some(2)] {
        let mut shape = composed(false);
        shape.variants[1].unnamed_fields = fields;
        assert_eq!(
            defect(&shape),
            (Fault::NotOneField, Place::Variant { variant: 1 })
        );
    }

    let mut shape = composed(false);
    shape.variants[0].keys.push(key("crate", None));
    assert_eq!(
        defect(&shape),
        (
            Fault::UnknownVariantKey,
            Place::VariantKey { variant: 0, key: 1 }
        )
    );

    let mut shape = composed(false);
    shape.variants.push(variant("Again", true));
    assert_eq!(
        defect(&shape),
        (Fault::SecondDelegate, Place::Variant { variant: 2 })
    );

    let mut shape = composed(false);
    shape.variants.remove(0);
    assert_eq!(defect(&shape), (Fault::NoDelegate, Place::Name));
}

#[test]
fn a_fault_says_what_is_accepted() {
    assert_eq!(
        Fault::DuplicatePath.text(),
        "duplicate #[agency(crate = ...)]; declare the path once"
    );
    assert_eq!(
        Fault::SecondDelegate.text(),
        "a second #[agency(delegate)] variant; the parse chain has exactly one fallback"
    );
    assert_eq!(
        Fault::NotOneField.text(),
        "every variant holds exactly one unnamed field: the kind it composes"
    );
    assert!(Fault::NotAnEnum.text().contains("composes an enum"));
    assert!(Fault::Generic.text().contains("no generic parameters"));
    assert!(Fault::UnknownKey.text().contains("on the enum"));
    assert!(Fault::UnknownVariantKey.text().contains("accepted set"));
    assert!(Fault::NoDelegate.text().contains("falls back to"));
}

#[test]
fn the_checks_come_leaf_by_leaf() {
    assert_eq!(coherence_checks(0), vec![Check::Delegate]);
    assert_eq!(
        coherence_checks(2),
        vec![
            Check::Delegate,
            Check::Leaf { leaf: 0 },
            Check::ApartFromDelegate { leaf: 0 },
            Check::Covered { leaf: 0 },
            Check::Leaf { leaf: 1 },
            Check::ApartFromDelegate { leaf: 1 },
            Check::ApartFromSibling {
                leaf: 1,
                earlier: 0
            },
            Check::Covered { leaf: 1 },
        ]
    );
}

#[test]
fn each_message_names_the_variants() {
    assert_eq!(
        delegate_message("Poll", "Core"),
        "variant `Poll` claims a stored type string the delegate `Core` already claims; every \
         stored string has exactly one owner in the parse chain"
    );
    assert_eq!(
        sibling_message("Poll", "Vote"),
        "variants `Poll` and `Vote` both claim a stored type string; every stored string has \
         exactly one owner in the parse chain"
    );
    assert_eq!(
        coverage_message("Poll"),
        "variant `Poll` declares a descriptor claiming a stored type string its KINDS does not \
         list; the store would write rows the parse chain hands to the inert fallback"
    );
}

fn claim(kinds: &[&'static str], descriptors: &[ContentDescriptor]) -> LeafClaim {
    LeafClaim {
        kinds: kinds.to_vec(),
        descriptors: descriptors.to_vec(),
    }
}

const POLLS: ContentDescriptor = ContentDescriptor {
    table: "polls",
    kinds: &["poll", "ballot"],
    ephemeral: false,
};

#[test]
fn the_first_failed_check_is_the_one_reported() {
    let delegate = BlockKind::claimed_kinds();
    let poll = || claim(&["poll", "ballot"], &[POLLS]);
    assert_eq!(first_failed_check(&delegate, &[poll()]), None);
    assert_eq!(
        first_failed_check(&delegate, &[poll(), claim(&["vote", "text"], &[])]),
        Some(Check::ApartFromDelegate { leaf: 1 })
    );
    assert_eq!(
        first_failed_check(&delegate, &[poll(), claim(&["ballot"], &[])]),
        Some(Check::ApartFromSibling {
            leaf: 1,
            earlier: 0
        })
    );
    assert_eq!(
        first_failed_check(&delegate, &[claim(&["poll"], &[POLLS])]),
        Some(Check::Covered { leaf: 0 })
    );
    assert!(check_passes(&delegate, &[poll()], Check::Leaf { leaf: 0 }));
}

#[test]
fn a_row_is_read_by_the_leaf_that_claims_it() {
    let leaves = [claim(&["poll"], &[]), claim(&["vote", "ballot"], &[])];
    assert_eq!(parse_arm(&leaves, "ballot"), Some(1));
    assert_eq!(parse_arm(&leaves, "poll"), Some(0));
    assert_eq!(parse_arm(&leaves, "text"), None);
}

#[test]
fn kind_lists_join_in_order() {
    let sets: [&[&str]; 3] = [&["a", "b"], &[], &["c"]];
    assert_eq!(kind_count(&sets), 3);
    assert_eq!(concat_kinds(&sets), vec!["a", "b", "c"]);
    assert!(kinds_disjoint(&["a", "b"], &["c"]));
    assert!(!kinds_disjoint(&["a", "b"], &["c", "b"]));
    assert!(kinds_disjoint(&[], &["a"]));
    assert!(descriptor_kinds_claimed(&[POLLS], &["ballot", "poll"]));
    assert!(!descriptor_kinds_claimed(&[POLLS], &["poll"]));
}

#[test]
fn a_descriptor_that_disagrees_with_its_kinds_is_refused() {
    let streamed = |ephemeral: bool| ContentDescriptor {
        table: "block_streaming",
        kinds: &["streaming"],
        ephemeral,
    };
    assert_eq!(
        check_descriptor_durability::<BlockKind>(&[streamed(true)]),
        Ok(())
    );
    let refused = check_descriptor_durability::<BlockKind>(&[POLLS, streamed(false)])
        .expect_err("streaming rows do not last");
    assert!(refused.contains("block_streaming"), "{refused}");
    assert!(refused.contains("streaming"), "{refused}");
    let refused = check_descriptor_durability::<BlockKind>(&[ContentDescriptor {
        ephemeral: true,
        ..POLLS
    }])
    .expect_err("an unowned kind lasts");
    assert!(refused.contains("polls"), "{refused}");
}

fn row(block_type: &str) -> Block {
    let mut fields = serde_json::Map::new();
    fields.insert("content".into(), "hi".into());
    fields.insert("text".into(), "hi".into());
    Block {
        id: 1,
        role: Some(Role::User),
        block_type: block_type.into(),
        created_at: String::new(),
        dispatch_anchor: None,
        fields,
    }
}

type Over = Composite<BlockKind, Quote>;

#[test]
fn a_composite_answers_as_whichever_part_the_row_is() {
    assert!(matches!(Over::from_block(&row("quote")), Composite::Leaf(_)));
    assert!(matches!(Over::from_block(&row("text")), Composite::Core(_)));
    for stored in ["quote", "text", "status", "unheard_of"] {
        let alone = BlockKind::from_block(&row(stored));
        let within = Over::from_block(&row(stored));
        assert_eq!(within.awaiting(), alone.awaiting());
        assert_eq!(within.durable(), alone.durable());
        assert_eq!(within.frontier_transparent(), alone.frontier_transparent());
        assert_eq!(within.llm_text(), alone.llm_text());
        assert_eq!(within.group_role(), alone.group_role());
        assert_eq!(within.forces_parts(), alone.forces_parts());
    }
    assert_eq!(
        Over::from_block(&row("quote")).awaiting(),
        Some(Awaiting::Model)
    );
    let claimed = Over::claimed_kinds();
    assert_eq!(
        claimed.len(),
        BlockKind::claimed_kinds().len() + Quote::kinds().len()
    );
    assert!(Over::descriptors().is_empty());
}

#[test]
fn a_composite_drives_as_its_parts_do() {
    let mut quote = row("quote");
    quote.id = 2;
    let ledger = vec![row("text"), quote];
    let alone = drive_ledger::<BlockKind>(ledger.clone(), 0, &ledger);
    let within = drive_ledger::<Over>(ledger.clone(), 0, &ledger);
    assert_eq!((within.cursor, within.parked), (2, false));
    assert_eq!(within.writes, vec![1, 2]);
    assert_eq!(within.writes, alone.writes);
    let outcome = within.outcome::<Over>(frontier_block::<Over>(&ledger));
    assert!(outcome.owes_turn);
    assert_eq!(
        outcome,
        alone.outcome::<BlockKind>(frontier_block::<BlockKind>(&ledger))
    );
}

#[test]
fn composites_nest() {
    type Nested = Composite<Composite<BlockKind, Text>, Quote>;
    assert!(matches!(
        Nested::from_block(&row("quote")),
        Composite::Leaf(_)
    ));
    assert!(matches!(
        Nested::from_block(&row("text")),
        Composite::Core(Composite::Leaf(_))
    ));
    assert!(matches!(
        Nested::from_block(&row("status")),
        Composite::Core(Composite::Core(_))
    ));
}

#[test]
fn the_claims_come_kind_by_kind() {
    assert_eq!(
        BlockKind::claimed_kinds(),
        vec![
            "text",
            "quote",
            "code",
            "thinking",
            "tool_call",
            "tool_result",
            "tool_error",
            "status",
            "system_prompt",
            "streaming",
            "streaming_thinking",
            "streaming_tool_call",
            "approval_request",
            "approval_decision",
            "date_marker",
            "harness_message",
            "ancestor_reference",
            "tool_choice",
            "title_request",
            "title_response",
        ]
    );
    let mut claimed = BlockKind::claimed_kinds();
    claimed.extend(["poll", "ballot"]);
    assert_eq!(Polled::claimed_kinds(), claimed);
}

/// A consumer's own kind: a poll that asks the user, and is not done until it
/// is closed.
struct Poll {
    closed: bool,
}

impl View for Poll {
    type V = bool;

    fn view(&self) -> bool {
        unreachable!()
    }
}

impl LeafKind for Poll {
    fn owns(_: agent_ledger::Seq<char>) -> bool {
        unreachable!()
    }

    fn names() -> agent_ledger::Seq<agent_ledger::Seq<char>> {
        unreachable!()
    }

    fn reading(_: Block) -> bool {
        unreachable!()
    }

    fn kinds() -> &'static [&'static str] {
        &["poll", "ballot"]
    }

    fn descriptors() -> Vec<ContentDescriptor> {
        vec![POLLS]
    }

    fn parse(block: &Block) -> Self {
        Poll {
            closed: block.fields.contains_key("closed"),
        }
    }
}

impl Agency for Poll {
    fn awaiting(&self) -> Option<Awaiting> {
        Some(Awaiting::User)
    }

    fn durable(&self) -> bool {
        true
    }

    fn frontier_transparent(&self) -> bool {
        false
    }

    fn heads_the_ledger(&self) -> bool {
        false
    }

    fn offers_tools(&self) -> bool {
        true
    }

    fn gate(&self) -> GateDecision {
        GateDecision::Proceed
    }

    fn run_reads(&self) -> Option<LedgerName> {
        None
    }

    fn run(&self, _: &[Block]) -> Run {
        Run {
            done: self.closed,
            wakeup: self.closed.then_some(Wakeup::MetadataRequestReady { request_id: 77 }),
        }
    }

    fn post_gate_id(&self, _: &[Block]) -> Option<i64> {
        None
    }

    fn run_post_gate(&self, _: &[Block]) -> Option<Wakeup> {
        None
    }
}

impl Projection for Poll {
    fn group_role(&self) -> Option<Role> {
        None
    }

    fn llm_parts(&self) -> Option<Vec<ContentPart>> {
        None
    }

    fn llm_text(&self) -> Option<String> {
        Some("a poll".into())
    }

    fn forces_parts(&self) -> bool {
        false
    }
}

type Polled = Composite<BlockKind, Poll>;

#[test]
fn a_consumers_kind_takes_part_in_a_drive() {
    let mut open = row("poll");
    open.id = 2;
    let mut closed = row("ballot");
    closed.id = 3;
    closed.fields.insert("closed".into(), true.into());
    let mut message = row("text");
    message.id = 4;

    let ledger = vec![row("text"), open.clone(), message.clone()];
    let pass = drive_ledger::<Polled>(ledger.clone(), 0, &ledger);
    assert!(pass.parked);
    assert_eq!(pass.writes, vec![1]);
    assert!(
        !drive_ledger::<BlockKind>(ledger.clone(), 0, &ledger).parked,
        "to the library alone the row is a record"
    );

    let ledger = vec![row("text"), closed, message];
    let pass = drive_ledger::<Polled>(ledger.clone(), 0, &ledger);
    assert!(!pass.parked);
    assert_eq!(pass.writes, vec![1, 3, 4]);
    assert_eq!(
        pass.wakeups,
        vec![Wakeup::MetadataRequestReady { request_id: 77 }],
        "a row whose work is done may ask for something too"
    );
    let outcome = pass.outcome::<Polled>(frontier_block::<Polled>(&ledger));
    assert!(outcome.owes_turn);

    let ledger = vec![row("text"), open];
    let pass = drive_ledger::<Polled>(ledger.clone(), 0, &ledger);
    let outcome = pass.outcome::<Polled>(frontier_block::<Polled>(&ledger));
    assert_eq!(outcome.awaiting, Some(Awaiting::User));
    assert!(!outcome.owes_turn);
    assert_eq!(
        Polled::from_block(&row("poll")).llm_text(),
        Some("a poll".to_owned())
    );
    assert_eq!(Polled::descriptors().len(), 1);
    assert_eq!(
        check_descriptor_durability::<Polled>(&Polled::descriptors()),
        Ok(())
    );
}

#[test]
fn a_defect_is_reported_before_what_was_not_read() {
    let at = |fault: Fault, place: Place| Defect { fault, place };
    assert!(!defect_comes_first(at(Fault::NoDelegate, Place::Name), 0));
    assert!(defect_comes_first(at(Fault::Generic, Place::Generics), 0));
    let second = at(Fault::SecondDelegate, Place::Variant { variant: 1 });
    assert!(!defect_comes_first(second, 2));
    assert!(defect_comes_first(second, 3));
    assert!(defect_comes_first(
        at(Fault::NotOneField, Place::Variant { variant: 1 }),
        2
    ));
}
