//! The ledger's row: one block, as the store hands it over.

use serde_json::Value;
use vstd::prelude::*;

use crate::json;
use crate::json::entry;
#[allow(unused_imports)]
use crate::json::Json;

verus! {

/// Whose voice a block speaks in.
#[derive(Debug, Clone, Copy, PartialEq, Eq, Structural)]
pub enum Role {
    User,
    Assistant,
    System,
    Tool,
}

/// Who owes a block's next move.
#[derive(Debug, Clone, Copy, PartialEq, Eq, Structural)]
pub enum Awaiting {
    /// The model owes a turn.
    Model,
    /// The user owes a reply.
    User,
    /// The runtime itself owes the work.
    System,
    /// A human owes an action that is no chat reply.
    OutOfBand,
}

/// A human's answer to an approval request.
#[derive(Debug, Clone, Copy, PartialEq, Eq, Structural)]
pub enum ApprovalChoice {
    Approved,
    Denied,
}

impl ApprovalChoice {
    /// The word the choice is stored as.
    pub open spec fn word(self) -> Seq<char> {
        match self {
            ApprovalChoice::Approved => "approved"@,
            ApprovalChoice::Denied => "denied"@,
        }
    }

    /// The word the choice is stored as.
    pub fn as_str(self) -> (word: &'static str)
        ensures
            word@ == self.word(),
    {
        match self {
            ApprovalChoice::Approved => "approved",
            ApprovalChoice::Denied => "denied",
        }
    }
}

/// Each choice has a word of its own.
pub proof fn each_choice_has_its_own_word(choice: ApprovalChoice)
    ensures
        choice.word() == "approved"@ <==> choice is Approved,
        choice.word() == "denied"@ <==> choice is Denied,
{
    reveal_strlit("approved");
    reveal_strlit("denied");
    assert("approved"@.len() != "denied"@.len());
}

/// One row of a ledger.
///
/// What a row means is its `block_type`'s business and is read by the kind
/// that claims the type; the row itself only knows who spoke, which dispatch it
/// belongs to and where its payload is.
#[derive(Debug)]
pub struct Block {
    /// The row's id. A stored row's id is positive.
    pub id: i64,
    /// Whose voice the row carries, where it carries one.
    pub role: Option<Role>,
    /// The stored type, which picks the kind that reads the row.
    pub block_type: String,
    /// When the row was written, as the store stamped it.
    pub created_at: String,
    /// The block whose dispatch produced this row, where one did.
    pub dispatch_anchor: Option<i64>,
    /// The row's payload.
    pub fields: serde_json::Map<String, Value>,
}

impl Clone for Block {
    fn clone(&self) -> (copy: Self)
        ensures
            copy == *self,
    {
        Block {
            id: self.id,
            role: self.role,
            block_type: self.block_type.clone(),
            created_at: self.created_at.clone(),
            dispatch_anchor: self.dispatch_anchor,
            fields: self.fields.clone(),
        }
    }
}

/// The payload's value under `key`, where there is one.
pub open spec fn field(block: Block, key: Seq<char>) -> Option<Value> {
    if json::entries(block.fields).dom().contains(key) {
        Some(json::entries(block.fields)[key])
    } else {
        None
    }
}

/// The payload's text under `key`, where a text is stored there.
pub open spec fn text_at(block: Block, key: Seq<char>) -> Option<Seq<char>> {
    match field(block, key) {
        Some(value) => match json::json(value) {
            Json::Text(chars) => Some(chars),
            _ => None,
        },
        None => None,
    }
}

/// The payload's text under `key`, and the empty text where there is none.
pub open spec fn text_or_empty(block: Block, key: Seq<char>) -> Seq<char> {
    match text_at(block, key) {
        Some(chars) => chars,
        None => seq![],
    }
}

/// The payload's integer under `key`, where one is stored there.
pub open spec fn int_at(block: Block, key: Seq<char>) -> Option<i64> {
    match field(block, key) {
        Some(value) => match json::json(value) {
            Json::Int(n) => Some(n),
            _ => None,
        },
        None => None,
    }
}

/// The row id stored under `key`. Rows are counted from one, so anything else
/// stored there names no row.
pub open spec fn row_at(block: Block, key: Seq<char>) -> Option<i64> {
    match int_at(block, key) {
        Some(n) if n > 0 => Some(n),
        _ => None,
    }
}

/// The payload's flag under `key`; anything but a stored `true` is false.
pub open spec fn flag_at(block: Block, key: Seq<char>) -> bool {
    match field(block, key) {
        Some(value) => json::json(value) == Json::Bool(true),
        None => false,
    }
}

/// The texts among the items of a list, in their order.
pub open spec fn texts_among(items: Seq<Value>) -> Seq<Seq<char>>
    decreases items.len(),
{
    if items.len() == 0 {
        seq![]
    } else {
        let rest = texts_among(items.drop_last());
        match json::json(items.last()) {
            Json::Text(chars) => rest.push(chars),
            _ => rest,
        }
    }
}

/// The texts of the list stored under `key`; none where no list is stored.
pub open spec fn texts_at(block: Block, key: Seq<char>) -> Seq<Seq<char>> {
    match field(block, key) {
        Some(value) => match json::json(value) {
            Json::List(items) => texts_among(items),
            _ => seq![],
        },
        None => seq![],
    }
}

/// What a list of owned texts holds.
pub open spec fn texts(list: Seq<String>) -> Seq<Seq<char>> {
    list.map_values(|text: String| text@)
}

/// What an optional owned text holds.
pub open spec fn text_view(text: Option<String>) -> Option<Seq<char>> {
    match text {
        Some(t) => Some(t@),
        None => None,
    }
}

/// What an optional borrowed text holds.
pub open spec fn str_view(text: Option<&str>) -> Option<Seq<char>> {
    match text {
        Some(t) => Some(t@),
        None => None,
    }
}

/// A payload is read as what it stores: a text where a text is stored, an
/// integer where an integer is, a row where that integer counts one, and a flag
/// that is up only where a truth is stored.
pub proof fn a_payload_reads_as_what_is_stored(block: Block, key: Seq<char>)
    ensures
        ({
            let stored = json::entries(block.fields);
            let value = json::json(stored[key]);
            let there = stored.dom().contains(key);
            &&& there && value is Text ==> text_at(block, key) == Some(value->Text_0)
                && text_or_empty(block, key) == value->Text_0
            &&& !(there && value is Text) ==> text_at(block, key) is None && text_or_empty(
                block,
                key,
            ).len() == 0
            &&& there && value is Int ==> int_at(block, key) == Some(value->Int_0)
            &&& !(there && value is Int) ==> int_at(block, key) is None
            &&& there && value is Int && value->Int_0 >= 1 ==> row_at(block, key) == Some(
                value->Int_0,
            )
            &&& !(there && value is Int && value->Int_0 >= 1) ==> row_at(block, key) is None
            &&& flag_at(block, key) <==> there && value is Bool && value->Bool_0
            &&& there && value is List ==> texts_at(block, key) == texts_among(value->List_0)
            &&& !(there && value is List) ==> texts_at(block, key).len() == 0
        }),
{
}

/// The texts among two lists, one behind the other, are the texts among the
/// first and then those among the second: a text counts once, and anything
/// else not at all.
pub proof fn texts_are_kept_in_their_order(one: Seq<Value>, other: Seq<Value>)
    ensures
        texts_among(one + other) == texts_among(one) + texts_among(other),
        one.len() == 1 ==> texts_among(one) == (match json::json(one[0]) {
            Json::Text(chars) => seq![chars],
            _ => seq![],
        }),
    decreases other.len(),
{
    if one.len() == 1 {
        assert(texts_among(one.drop_last()) =~= seq![]);
        assert(texts_among(one) =~= (match json::json(one[0]) {
            Json::Text(chars) => seq![chars],
            _ => seq![],
        }));
    }
    if other.len() == 0 {
        assert(one + other =~= one);
        assert(texts_among(one) + texts_among(other) =~= texts_among(one));
    } else {
        texts_are_kept_in_their_order(one, other.drop_last());
        assert((one + other).drop_last() =~= one + other.drop_last());
        assert((one + other).last() == other.last());
        assert(texts_among(one + other) =~= texts_among(one) + texts_among(other));
    }
}

/// A payload's text. Absent or not a text reads as the empty string: a row
/// this build cannot read in full still reads.
pub fn string_field(block: &Block, key: &str) -> (text: String)
    ensures
        text@ == text_or_empty(*block, key@),
{
    match optional_string_field(block, key) {
        Some(text) => text,
        None => String::new(),
    }
}

/// A payload's text, where one is stored.
pub fn optional_string_field(block: &Block, key: &str) -> (text: Option<String>)
    ensures
        text_view(text) == text_at(*block, key@),
{
    match entry(&block.fields, key) {
        Some(value) => match value.as_str() {
            Some(text) => Some(text.to_owned()),
            None => None,
        },
        None => None,
    }
}

/// A payload's integer. Absent or not an integer reads as zero, which names
/// no row.
pub fn i64_field(block: &Block, key: &str) -> (number: i64)
    ensures
        number == (match int_at(*block, key@) {
            Some(n) => n,
            None => 0,
        }),
{
    match entry(&block.fields, key) {
        Some(value) => match value.as_i64() {
            Some(number) => number,
            None => 0,
        },
        None => 0,
    }
}

/// The row a payload names, where it names one.
pub fn id_field(block: &Block, key: &str) -> (id: Option<i64>)
    ensures
        id == row_at(*block, key@),
{
    match entry(&block.fields, key) {
        Some(value) => match value.as_i64() {
            Some(number) => if number > 0 {
                Some(number)
            } else {
                None
            },
            None => None,
        },
        None => None,
    }
}

/// A payload's flag; absent means false.
pub fn bool_field(block: &Block, key: &str) -> (flag: bool)
    ensures
        flag == flag_at(*block, key@),
{
    match entry(&block.fields, key) {
        Some(value) => match value.as_bool() {
            Some(flag) => flag,
            None => false,
        },
        None => false,
    }
}

/// A payload's list of texts. Items that are no text are passed over, and a
/// payload with no list reads as an empty one.
pub fn string_list_field(block: &Block, key: &str) -> (list: Vec<String>)
    ensures
        texts(list@) == texts_at(*block, key@),
{
    let mut list: Vec<String> = Vec::new();
    let items = match entry(&block.fields, key) {
        Some(value) => match value.as_array() {
            Some(items) => items,
            None => {
                assert(texts(list@) =~= seq![]);
                return list;
            },
        },
        None => {
            assert(texts(list@) =~= seq![]);
            return list;
        },
    };
    let mut index: usize = 0;
    assert(texts(list@) =~= texts_among(items@.take(0)));
    while index < items.len()
        invariant
            index <= items.len(),
            texts(list@) == texts_among(items@.take(index as int)),
        decreases items.len() - index,
    {
        let item = &items[index];
        assert(items@.take(index + 1).drop_last() =~= items@.take(index as int));
        if let Some(text) = item.as_str() {
            let ghost before = texts(list@);
            list.push(text.to_owned());
            assert(texts(list@) =~= before.push(text@));
        }
        index += 1;
    }
    assert(items@.take(index as int) =~= items@);
    list
}

} // verus!
