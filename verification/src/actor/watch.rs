//! What a change in the store is announced as.

use vstd::prelude::*;

use super::event::CoreEvent;
use crate::agency::kinds;
use crate::agency::kinds::{contains_kind, str_eq};

verus! {

/// The table of block headers.
pub const BLOCKS: &'static str = "blocks";

/// The table that joins blocks to conversations.
pub const CONVERSATION_BLOCKS: &'static str = "conversation_blocks";

/// The table of conversations.
pub const CONVERSATIONS: &'static str = "conversations";

/// What has to be read to announce a change of a block.
#[derive(Debug, Clone, Copy, PartialEq, Eq, Structural)]
pub enum Lookup {
    /// The change is of no block.
    Nothing,
    /// The pair on the changed junction row itself.
    Junction,
    /// Every conversation that holds the changed block.
    Holders,
}

/// What has to be read for a change in a table.
pub open spec fn lookup(table: Seq<char>, content_tables: Seq<&str>) -> Lookup {
    if table == CONVERSATION_BLOCKS@ {
        Lookup::Junction
    } else if table == BLOCKS@ || kinds::claims(content_tables, table) {
        Lookup::Holders
    } else {
        Lookup::Nothing
    }
}

/// What has to be read for a change in a table. A change of a junction row is
/// of one conversation; a change of a header or of its content is of every
/// conversation that holds the block, which a fork may share.
pub fn block_lookup(table: &str, content_tables: &[&str]) -> (result: Lookup)
    ensures
        result == lookup(table@, content_tables@),
{
    if str_eq(table, CONVERSATION_BLOCKS) {
        Lookup::Junction
    } else if str_eq(table, BLOCKS) || contains_kind(content_tables, table) {
        Lookup::Holders
    } else {
        Lookup::Nothing
    }
}

/// What a changed junction row is announced as: its own pair of conversation
/// and block; nothing where the row was gone by the time it was read.
pub fn junction_announcements(joined: Option<(i64, i64)>) -> (events: Vec<CoreEvent>)
    ensures
        events@ == (match joined {
            Some((conversation_id, block_id)) => seq![
                CoreEvent::BlocksChanged { conversation_id, block_id },
            ],
            None => seq![],
        }),
{
    let mut events: Vec<CoreEvent> = Vec::new();
    if let Some((conversation_id, block_id)) = joined {
        events.push(CoreEvent::BlocksChanged { conversation_id, block_id });
    }
    events
}

/// What a changed block is announced as: a change in each conversation that
/// holds it.
pub fn block_announcements(block_id: i64, conversations: &[i64]) -> (events: Vec<CoreEvent>)
    ensures
        events@ == conversations@.map_values(
            |conversation_id: i64| CoreEvent::BlocksChanged { conversation_id, block_id },
        ),
{
    let mut events: Vec<CoreEvent> = Vec::new();
    let mut index: usize = 0;
    while index < conversations.len()
        invariant
            index <= conversations.len(),
            events@ == conversations@.take(index as int).map_values(
                |conversation_id: i64| CoreEvent::BlocksChanged { conversation_id, block_id },
            ),
        decreases conversations.len() - index,
    {
        events.push(
            CoreEvent::BlocksChanged { conversation_id: conversations[index], block_id },
        );
        index += 1;
        assert(events@ =~= conversations@.take(index as int).map_values(
            |conversation_id: i64| CoreEvent::BlocksChanged { conversation_id, block_id },
        ));
    }
    assert(conversations@.take(index as int) =~= conversations@);
    events
}

/// What a change in a table is announced as to whoever lists conversations.
pub fn conversations_announcement(table: &str) -> (event: Option<CoreEvent>)
    ensures
        event == (if table@ == CONVERSATIONS@ {
            Some(CoreEvent::ConversationsChanged)
        } else {
            None
        }),
{
    if str_eq(table, CONVERSATIONS) {
        Some(CoreEvent::ConversationsChanged)
    } else {
        None
    }
}

/// A change of a junction row is of its own pair; a change of a header or of a
/// content table is of every holder of the block; and a change anywhere else is
/// of no block.
pub proof fn each_table_is_looked_up_in_its_own_way(table: Seq<char>, content_tables: Seq<&str>)
    ensures
        lookup(table, content_tables) is Junction <==> table == "conversation_blocks"@,
        lookup(table, content_tables) is Holders <==> table != "conversation_blocks"@ && (table
            == "blocks"@ || kinds::words(content_tables).contains(table)),
        lookup(table, content_tables) is Nothing <==> table != "conversation_blocks"@ && table
            != "blocks"@ && !kinds::words(content_tables).contains(table),
{
    kinds::a_list_claims_its_entries(content_tables, table);
}

} // verus!
