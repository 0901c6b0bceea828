//! One fact declared twice: a descriptor's `ephemeral` flag and its kinds'
//! `durable` answer.

use vstd::prelude::*;

#[allow(unused_imports)]
use super::rows;
use super::{Agency, ContentDescriptor, FromBlock};
use crate::agency::BlockKind;
use crate::block::Block;
use crate::json;

verus! {

/// A row of a stored type that carries nothing else.
pub open spec fn blank(block: Block, stored: Seq<char>) -> bool {
    &&& block.id == 0
    &&& block.role is None
    &&& block.block_type@ == stored
    &&& block.created_at@ == Seq::<char>::empty()
    &&& block.dispatch_anchor is None
    &&& json::entries(block.fields).dom() == Set::<Seq<char>>::empty()
}

/// Whether a row's kind answers as its descriptor's flag says it must.
pub open spec fn agrees<K: Agency + FromBlock>(block: Block, ephemeral: bool) -> bool {
    K::lasts(K::read(block)) != ephemeral
}

/// The word for a truth value.
pub open spec fn truth(flag: bool) -> Seq<char> {
    if flag {
        "true"@
    } else {
        "false"@
    }
}

/// What is said of a kind whose two declarations disagree.
pub open spec fn complaint(kind: Seq<char>, table: Seq<char>, ephemeral: bool) -> Seq<char> {
    "kind '"@ + kind
        + "' declares one row-lifetime fact twice and the two disagree: descriptor '"@ + table
        + "' says ephemeral = "@ + truth(ephemeral) + ", but the kind's durable() answers "@
        + truth(ephemeral) + " (it must answer "@ + truth(!ephemeral)
        + ") — an ephemeral row is deleted by the finalization that replaces it, so a cursor anchored on one dangles"@
}

fn truth_word(flag: bool) -> (word: &'static str)
    ensures
        word@ == truth(flag),
{
    if flag {
        "true"
    } else {
        "false"
    }
}

fn complaint_text(kind: &str, table: &str, ephemeral: bool) -> (text: String)
    ensures
        text@ == complaint(kind@, table@, ephemeral),
{
    let mut text = String::new();
    text.append("kind '");
    text.append(kind);
    text.append("' declares one row-lifetime fact twice and the two disagree: descriptor '");
    text.append(table);
    text.append("' says ephemeral = ");
    text.append(truth_word(ephemeral));
    text.append(", but the kind's durable() answers ");
    text.append(truth_word(ephemeral));
    text.append(" (it must answer ");
    text.append(truth_word(!ephemeral));
    text.append(
        ") — an ephemeral row is deleted by the finalization that replaces it, so a cursor anchored on one dangles",
    );
    assert(text@ =~= complaint(kind@, table@, ephemeral));
    text
}

/// A row of a stored type that carries nothing else.
fn blank_block(stored: &str) -> (block: Block)
    ensures
        blank(block, stored@),
{
    Block {
        id: 0,
        role: None,
        block_type: stored.to_owned(),
        created_at: String::new(),
        dispatch_anchor: None,
        fields: json::no_entries(),
    }
}

/// Whether the `upto` first kinds of a descriptor agree with its flag, as a
/// blank row of each answers.
pub open spec fn kinds_agree<K: Agency + FromBlock>(
    descriptor: ContentDescriptor,
    upto: int,
) -> bool {
    forall|j: int|
        0 <= j < upto ==> kind_agrees::<K>(#[trigger] descriptor.kinds@[j]@, descriptor.ephemeral)
}

/// Whether a blank row of a stored type agrees with a flag.
pub open spec fn kind_agrees<K: Agency + FromBlock>(stored: Seq<char>, ephemeral: bool) -> bool {
    exists|block: Block| blank(block, stored) && #[trigger] agrees::<K>(block, ephemeral)
}

/// Whether a blank row of a stored type disagrees with a flag.
pub open spec fn kind_disagrees<K: Agency + FromBlock>(stored: Seq<char>, ephemeral: bool) -> bool {
    exists|block: Block| blank(block, stored) && !#[trigger] agrees::<K>(block, ephemeral)
}

/// Whether every kind of the `upto` first descriptors agrees with its flag.
pub open spec fn descriptors_agree<K: Agency + FromBlock>(
    descriptors: Seq<ContentDescriptor>,
    upto: int,
) -> bool {
    forall|i: int|
        0 <= i < upto ==> kinds_agree::<K>(
            #[trigger] descriptors[i],
            descriptors[i].kinds@.len() as int,
        )
}

/// Whether a kind at a position is the first to disagree, and the complaint is
/// about it.
pub open spec fn first_disagreement<K: Agency + FromBlock>(
    descriptors: Seq<ContentDescriptor>,
    i: int,
    j: int,
    text: Seq<char>,
) -> bool {
    let descriptor = descriptors[i];
    &&& 0 <= i < descriptors.len()
    &&& 0 <= j < descriptor.kinds@.len()
    &&& descriptors_agree::<K>(descriptors, i)
    &&& kinds_agree::<K>(descriptor, j)
    &&& kind_disagrees::<K>(descriptor.kinds@[j]@, descriptor.ephemeral)
    &&& text == complaint(descriptor.kinds@[j]@, descriptor.table@, descriptor.ephemeral)
}

/// Whether a descriptor set and a composition of kinds agree on which rows
/// outlive their drive: a kind is durable exactly where its table is not
/// ephemeral. The first kind that disagrees is the error.
///
/// A consumer that declares only the store's side would let a cursor come to
/// rest on rows that a finalization deletes.
pub fn check_descriptor_durability<K: Agency + FromBlock>(descriptors: &[ContentDescriptor]) -> (checked:
    Result<(), String>)
    ensures
        checked is Ok ==> descriptors_agree::<K>(descriptors@, descriptors@.len() as int),
        checked is Err ==> exists|i: int, j: int| #[trigger]
            first_disagreement::<K>(descriptors@, i, j, checked->Err_0@),
{
    let mut at: usize = 0;
    while at < descriptors.len()
        invariant
            at <= descriptors.len(),
            descriptors_agree::<K>(descriptors@, at as int),
        decreases descriptors.len() - at,
    {
        let descriptor = &descriptors[at];
        let mut index: usize = 0;
        while index < descriptor.kinds.len()
            invariant
                at < descriptors.len(),
                *descriptor == descriptors@[at as int],
                index <= descriptor.kinds.len(),
                descriptors_agree::<K>(descriptors@, at as int),
                kinds_agree::<K>(*descriptor, index as int),
            decreases descriptor.kinds.len() - index,
        {
            let kind = descriptor.kinds[index];
            let block = blank_block(kind);
            let durable = K::from_block(&block).durable();
            if durable == descriptor.ephemeral {
                assert(!agrees::<K>(block, descriptor.ephemeral));
                assert(kind_disagrees::<K>(kind@, descriptor.ephemeral));
                let text = complaint_text(kind, descriptor.table, descriptor.ephemeral);
                let checked: Result<(), String> = Err(text);
                assert(first_disagreement::<K>(
                    descriptors@,
                    at as int,
                    index as int,
                    checked->Err_0@,
                ));
                return checked;
            }
            assert(agrees::<K>(block, descriptor.ephemeral));
            assert(kind_agrees::<K>(kind@, descriptor.ephemeral));
            index += 1;
        }
        at += 1;
    }
    Ok(())
}

/// How long a row of this library's kinds lasts is its stored type's business
/// alone: two rows of one type last equally long.
pub proof fn a_stored_type_decides_how_long_a_row_lasts(one: Block, other: Block)
    requires
        one.block_type@ == other.block_type@,
    ensures
        BlockKind::lasts(BlockKind::read(one)) == BlockKind::lasts(BlockKind::read(other)),
{
}

/// A set of tables that is accepted agrees with this library's kinds table by
/// table and string by string; and where one is refused, the string that is
/// complained of is the first that does not agree, and is named with its table.
pub proof fn a_set_of_tables_agrees_string_by_string(
    descriptors: Seq<ContentDescriptor>,
    i: int,
    j: int,
    text: Seq<char>,
)
    requires
        0 <= i < descriptors.len(),
        0 <= j < descriptors[i].kinds@.len(),
    ensures
        descriptors_agree::<BlockKind>(descriptors, descriptors.len() as int) ==> ({
            let stored = descriptors[i].kinds@[j]@;
            descriptors[i].ephemeral <==> stored == "streaming"@ || stored
                == "streaming_thinking"@ || stored == "streaming_tool_call"@
        }),
        first_disagreement::<BlockKind>(descriptors, i, j, text) ==> ({
            let stored = descriptors[i].kinds@[j]@;
            &&& descriptors[i].ephemeral <==> stored != "streaming"@ && stored
                != "streaming_thinking"@ && stored != "streaming_tool_call"@
            &&& forall|k: int|
                0 <= k < j ==> (descriptors[i].ephemeral <==> (
                #[trigger] descriptors[i].kinds@[k])@ == "streaming"@ || descriptors[i].kinds@[k]@
                    == "streaming_thinking"@ || descriptors[i].kinds@[k]@
                    == "streaming_tool_call"@)
            &&& forall|t: int, k: int|
                0 <= t < i && 0 <= k < descriptors[t].kinds@.len() ==> (descriptors[t].ephemeral
                    <==> (#[trigger] descriptors[t].kinds@[k])@ == "streaming"@
                    || descriptors[t].kinds@[k]@ == "streaming_thinking"@
                    || descriptors[t].kinds@[k]@ == "streaming_tool_call"@)
            &&& text == complaint(stored, descriptors[i].table@, descriptors[i].ephemeral)
        }),
{
    let stored = descriptors[i].kinds@[j]@;
    if descriptors_agree::<BlockKind>(descriptors, descriptors.len() as int) {
        assert(kinds_agree::<BlockKind>(descriptors[i], descriptors[i].kinds@.len() as int));
        only_streaming_kinds_agree_with_an_ephemeral_table(stored, descriptors[i].ephemeral);
    }
    if first_disagreement::<BlockKind>(descriptors, i, j, text) {
        only_streaming_kinds_agree_with_an_ephemeral_table(stored, descriptors[i].ephemeral);
        assert forall|k: int| 0 <= k < j implies (descriptors[i].ephemeral <==> (
        #[trigger] descriptors[i].kinds@[k])@ == "streaming"@ || descriptors[i].kinds@[k]@
            == "streaming_thinking"@ || descriptors[i].kinds@[k]@ == "streaming_tool_call"@) by {
            only_streaming_kinds_agree_with_an_ephemeral_table(
                descriptors[i].kinds@[k]@,
                descriptors[i].ephemeral,
            );
        }
        assert forall|t: int, k: int|
            0 <= t < i && 0 <= k < descriptors[t].kinds@.len() implies (descriptors[t].ephemeral
            <==> (#[trigger] descriptors[t].kinds@[k])@ == "streaming"@
            || descriptors[t].kinds@[k]@ == "streaming_thinking"@ || descriptors[t].kinds@[k]@
            == "streaming_tool_call"@) by {
            assert(kinds_agree::<BlockKind>(descriptors[t], descriptors[t].kinds@.len() as int));
            only_streaming_kinds_agree_with_an_ephemeral_table(
                descriptors[t].kinds@[k]@,
                descriptors[t].ephemeral,
            );
        }
    }
}

/// A complaint names the kind and its table, tells the flag, and asks for the
/// answer that is the flag's opposite.
pub proof fn a_complaint_asks_for_the_opposite_of_the_flag(
    kind: Seq<char>,
    table: Seq<char>,
    ephemeral: bool,
)
    ensures
        ({
            let flag = if ephemeral {
                "true"@
            } else {
                "false"@
            };
            let wanted = if ephemeral {
                "false"@
            } else {
                "true"@
            };
            let rest = complaint(kind, table, ephemeral);
            let said = "kind '"@ + kind
                + "' declares one row-lifetime fact twice and the two disagree: descriptor '"@
                + table + "' says ephemeral = "@ + flag + ", but the kind's durable() answers "@
                + flag + " (it must answer "@ + wanted;
            rest.len() >= said.len() && rest.take(said.len() as int) == said
        }),
{
    let flag = if ephemeral {
        "true"@
    } else {
        "false"@
    };
    let wanted = if ephemeral {
        "false"@
    } else {
        "true"@
    };
    let said = "kind '"@ + kind
        + "' declares one row-lifetime fact twice and the two disagree: descriptor '"@ + table
        + "' says ephemeral = "@ + flag + ", but the kind's durable() answers "@ + flag
        + " (it must answer "@ + wanted;
    assert(complaint(kind, table, ephemeral).take(said.len() as int) =~= said);
}

/// A table of this library's kinds agrees with them exactly where it is marked
/// ephemeral for the kinds of a stream that has not ended, and for no other.
pub proof fn only_streaming_kinds_agree_with_an_ephemeral_table(stored: Seq<char>, ephemeral: bool)
    ensures
        kind_agrees::<BlockKind>(stored, ephemeral) ==> (ephemeral <==> stored == "streaming"@
            || stored == "streaming_thinking"@ || stored == "streaming_tool_call"@),
        kind_disagrees::<BlockKind>(stored, ephemeral) ==> (ephemeral <==> stored != "streaming"@
            && stored != "streaming_thinking"@ && stored != "streaming_tool_call"@),
{
    if kind_agrees::<BlockKind>(stored, ephemeral) {
        let block = choose|block: Block|
            blank(block, stored) && #[trigger] agrees::<BlockKind>(block, ephemeral);
        rows::what_a_rows_type_decides(block);
    }
    if kind_disagrees::<BlockKind>(stored, ephemeral) {
        let block = choose|block: Block|
            blank(block, stored) && !#[trigger] agrees::<BlockKind>(block, ephemeral);
        rows::what_a_rows_type_decides(block);
    }
}

} // verus!
