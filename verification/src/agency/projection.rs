//! What a block says to the model.
//!
//! Agency answers who owes the next move; projection answers what a block
//! looks like to the model. The two are apart because they change apart: an
//! approval is loud in the first and silent in the second.

use serde_json::Value;
use vstd::prelude::*;

use crate::block;
use crate::block::Role;

verus! {

/// A provider's own continuity payload, carried through as it was stored.
#[derive(Debug, Clone, PartialEq)]
pub struct OpaquePayload {
    pub value: Value,
}

/// One piece of a message, before any provider has put it in its own form.
#[derive(Debug, Clone, PartialEq)]
pub enum ContentPart {
    /// Prose.
    Text { text: String },
    /// Reasoning, which is never flattened into prose.
    Reasoning { text: String, opaque: Option<OpaquePayload> },
    /// The model's request for tool work.
    ToolUse { id: String, name: String, input: Value },
    /// A tool's outcome, which names the request it answers.
    ToolResult { tool_use_id: String, content: String },
    /// An image the user sent, as its raw bytes.
    Image { mime: String, data: Vec<u8> },
}

/// What a content part says.
pub enum Part {
    Text { text: Seq<char> },
    Reasoning { text: Seq<char>, opaque: Option<Value> },
    ToolUse { id: Seq<char>, name: Seq<char>, input: Value },
    ToolResult { tool_use_id: Seq<char>, content: Seq<char> },
    Image { mime: Seq<char>, data: Seq<u8> },
}

/// The value a continuity payload carries.
pub open spec fn payload(opaque: Option<OpaquePayload>) -> Option<Value> {
    match opaque {
        Some(payload) => Some(payload.value),
        None => None,
    }
}

impl View for ContentPart {
    type V = Part;

    open spec fn view(&self) -> Part {
        match self {
            ContentPart::Text { text } => Part::Text { text: text@ },
            ContentPart::Reasoning { text, opaque } => Part::Reasoning {
                text: text@,
                opaque: payload(*opaque),
            },
            ContentPart::ToolUse { id, name, input } => Part::ToolUse {
                id: id@,
                name: name@,
                input: *input,
            },
            ContentPart::ToolResult { tool_use_id, content } => Part::ToolResult {
                tool_use_id: tool_use_id@,
                content: content@,
            },
            ContentPart::Image { mime, data } => Part::Image { mime: mime@, data: data@ },
        }
    }
}

/// What a list of parts says.
pub open spec fn parts_view(parts: Option<Vec<ContentPart>>) -> Option<Seq<Part>> {
    match parts {
        Some(list) => Some(list@.map_values(|part: ContentPart| part@)),
        None => None,
    }
}

/// One part, as the list of parts a kind contributes.
pub(crate) fn one_part(part: ContentPart) -> (parts: Option<Vec<ContentPart>>)
    ensures
        parts_view(parts) == Some(seq![part@]),
{
    let mut list: Vec<ContentPart> = Vec::new();
    list.push(part);
    assert(list@.map_values(|part: ContentPart| part@) =~= seq![part@]);
    Some(list)
}

/// The four facts a kind states about how it reaches the model. A kind that
/// says nothing otherwise is invisible.
pub trait Projection: View + Sized {
    /// The role the kind groups under.
    open spec fn groups(kind: Self::V) -> Option<Role> {
        None
    }

    /// What the kind says as native parts.
    open spec fn parts(kind: Self::V) -> Option<Seq<Part>> {
        None
    }

    /// What the kind says as text.
    open spec fn text(kind: Self::V) -> Option<Seq<char>> {
        None
    }

    /// Whether the kind has no faithful text form.
    open spec fn only_parts(kind: Self::V) -> bool {
        false
    }

    /// The role under which the block groups into a message. A block that
    /// groups under none opens no message.
    fn group_role(&self) -> (role: Option<Role>)
        ensures
            role == Self::groups(self@),
    ;

    /// The parts the block contributes where its group is rendered as native
    /// parts.
    fn llm_parts(&self) -> (parts: Option<Vec<ContentPart>>)
        ensures
            parts_view(parts) == Self::parts(self@),
    ;

    /// The markdown the block contributes where its group is rendered as text.
    fn llm_text(&self) -> (text: Option<String>)
        ensures
            block::text_view(text) == Self::text(self@),
    ;

    /// Whether the block's presence switches its whole group to native parts.
    fn forces_parts(&self) -> (forces: bool)
        ensures
            forces == Self::only_parts(self@),
    ;
}

/// `String::push`: one more character at the end.
pub assume_specification[ String::push ](text: &mut String, c: char)
    ensures
        final(text)@ == old(text)@.push(c),
;

/// Where the first line of a text ends: at its first newline, or at the end.
pub open spec fn line_end(text: Seq<char>) -> int
    decreases text.len(),
{
    if text.len() == 0 || text[0] == '\n' {
        0
    } else {
        1 + line_end(text.drop_first())
    }
}

/// A text without the carriage return it ends in, where it ends in one.
pub open spec fn without_return(text: Seq<char>) -> Seq<char> {
    if text.len() > 0 && text.last() == '\r' {
        text.drop_last()
    } else {
        text
    }
}

/// The lines of a text. A newline ends a line and is no part of it, nor is a
/// carriage return right before one; nothing follows the last newline.
pub open spec fn lines(text: Seq<char>) -> Seq<Seq<char>>
    decreases text.len(),
{
    let end = line_end(text);
    if text.len() == 0 {
        seq![]
    } else if end < 0 || end >= text.len() {
        seq![text]
    } else {
        seq![without_return(text.take(end))] + lines(text.skip(end + 1))
    }
}

/// Lines as a quotation: each behind its mark, one under the other.
pub open spec fn quotation(lines: Seq<Seq<char>>) -> Seq<char>
    decreases lines.len(),
{
    if lines.len() == 0 {
        seq![]
    } else if lines.len() == 1 {
        "> "@ + lines[0]
    } else {
        quotation(lines.drop_last()) + seq!['\n'] + "> "@ + lines.last()
    }
}

/// A fenced snippet, tagged with its language.
pub open spec fn fence(language: Seq<char>, content: Seq<char>) -> Seq<char> {
    "```"@ + language + seq!['\n'] + content + seq!['\n'] + "```"@
}

proof fn line_end_is_the_first_newline(text: Seq<char>, end: int)
    requires
        0 <= end <= text.len(),
        forall|i: int| 0 <= i < end ==> text[i] != '\n',
        end < text.len() ==> text[end] == '\n',
    ensures
        line_end(text) == end,
    decreases text.len(),
{
    if text.len() > 0 && text[0] != '\n' {
        let rest = text.drop_first();
        assert forall|i: int| 0 <= i < end - 1 implies rest[i] != '\n' by {
            assert(rest[i] == text[i + 1]);
        }
        line_end_is_the_first_newline(rest, end - 1);
    }
}

/// The characters of a text, one by one.
fn characters(text: &str) -> (chars: Vec<char>)
    ensures
        chars@ == text@,
{
    let mut chars: Vec<char> = Vec::new();
    for c in iter: text.chars()
        invariant
            chars@ == iter.seq().take(iter.index()),
            iter.seq() == text@,
    {
        chars.push(c);
        assert(chars@ =~= iter.seq().take(iter.index() + 1));
    }
    chars
}

/// Prose as the model reads it.
pub fn render_text(content: &str) -> (text: String)
    ensures
        text@ == content@,
{
    content.to_owned()
}

/// A quoted span, every line behind its mark. An empty quote is rendered as
/// nothing rather than as a bare mark.
pub fn render_quote(text: &str) -> (quote: String)
    ensures
        quote@ == quotation(lines(text@)),
{
    let chars = characters(text);
    let mut quote = String::new();
    let ghost mut done: Seq<Seq<char>> = seq![];
    let mut at: usize = 0;
    assert(text@.skip(0) =~= text@);
    assert(done + lines(text@) =~= lines(text@));
    while at < chars.len()
        invariant
            at <= chars.len(),
            chars@ == text@,
            lines(text@) == done + lines(text@.skip(at as int)),
            quote@ == quotation(done),
            (at == 0) == (done.len() == 0),
        decreases chars.len() - at,
    {
        let ghost rest = text@.skip(at as int);
        let mut end: usize = at;
        while end < chars.len() && chars[end] != '\n'
            invariant
                at <= end <= chars.len(),
                chars@ == text@,
                forall|i: int| at <= i < end ==> text@[i] != '\n',
            decreases chars.len() - end,
        {
            end += 1;
        }
        proof {
            assert forall|i: int| 0 <= i < end - at implies rest[i] != '\n' by {
                assert(rest[i] == text@[at + i]);
            }
            line_end_is_the_first_newline(rest, end - at);
        }
        let mut stop: usize = end;
        if end < chars.len() && end > at && chars[end - 1] == '\r' {
            stop = end - 1;
        }
        let ghost line = text@.subrange(at as int, stop as int);
        proof {
            if end < chars.len() {
                assert(without_return(rest.take(end - at)) =~= line);
                assert(rest.skip(end - at + 1) =~= text@.skip(end + 1));
                assert(lines(rest) == seq![line] + lines(text@.skip(end + 1)));
                assert(done + (seq![line] + lines(text@.skip(end + 1))) =~= done.push(line) + lines(
                    text@.skip(end + 1),
                ));
            } else {
                assert(rest =~= line);
                assert(lines(rest) == seq![line]);
                assert(lines(text@) =~= done.push(line));
            }
        }
        if at > 0 {
            quote.push('\n');
        }
        quote.append("> ");
        let ghost before = quote@;
        let mut index: usize = at;
        assert(before =~= before + text@.subrange(at as int, at as int));
        while index < stop
            invariant
                at <= index <= stop <= chars.len(),
                chars@ == text@,
                quote@ == before + text@.subrange(at as int, index as int),
            decreases stop - index,
        {
            quote.push(chars[index]);
            index += 1;
            assert(quote@ =~= before + text@.subrange(at as int, index as int));
        }
        proof {
            assert(done.push(line).drop_last() =~= done);
            if done.len() == 0 {
                assert(quote@ =~= quotation(done.push(line)));
            } else {
                assert(quote@ =~= quotation(done) + seq!['\n'] + "> "@ + line);
            }
            done = done.push(line);
        }
        if end < chars.len() {
            at = end + 1;
            assert(text@.skip(at as int) =~= text@.skip(end + 1));
        } else {
            at = end;
            assert(text@.skip(at as int) =~= seq![]);
            assert(done + lines(text@.skip(at as int)) =~= done);
        }
    }
    assert(text@.skip(at as int) =~= seq![]);
    assert(done + lines(text@.skip(at as int)) =~= done);
    quote
}

/// A code snippet, fenced, and tagged where a language is known.
pub fn render_code(language: Option<&str>, content: &str) -> (code: String)
    ensures
        code@ == fence(
            match language {
                Some(name) => name@,
                None => seq![],
            },
            content@,
        ),
{
    let mut code = String::new();
    code.append("```");
    if let Some(name) = language {
        code.append(name);
    }
    code.push('\n');
    code.append(content);
    code.push('\n');
    code.append("```");
    assert(code@ =~= fence(
        match language {
            Some(name) => name@,
            None => seq![],
        },
        content@,
    ));
    code
}

/// A tool's output as the model reads it.
pub fn render_tool_result(content: &str) -> (text: String)
    ensures
        text@ == content@,
{
    content.to_owned()
}

/// A tool's failure as the model reads it.
pub fn render_tool_error(error: &str) -> (text: String)
    ensures
        text@ == error@,
{
    error.to_owned()
}

proof fn no_newline_no_end(text: Seq<char>)
    requires
        forall|i: int| 0 <= i < text.len() ==> text[i] != '\n',
    ensures
        line_end(text) == text.len(),
{
    line_end_is_the_first_newline(text, text.len() as int);
}

/// A newline ends a line: what stands before the first one is a line, without
/// the carriage return it may end in, and what stands behind it is read on its
/// own. A text without a newline is one line as it is, and an empty text none.
pub proof fn a_newline_ends_a_line(line: Seq<char>, rest: Seq<char>)
    requires
        forall|i: int| 0 <= i < line.len() ==> line[i] != '\n',
    ensures
        line.len() > 0 && line.last() == '\r' ==> lines(line + seq!['\n'] + rest) == seq![
            line.drop_last(),
        ] + lines(rest),
        line.len() == 0 || line.last() != '\r' ==> lines(line + seq!['\n'] + rest) == seq![line]
            + lines(rest),
        line.len() > 0 ==> lines(line) == seq![line],
        line.len() == 0 ==> lines(line).len() == 0,
{
    let whole = line + seq!['\n'] + rest;
    line_end_is_the_first_newline(whole, line.len() as int);
    no_newline_no_end(line);
    assert(whole.take(line.len() as int) =~= line);
    assert(whole.skip(line.len() as int + 1) =~= rest);
}

/// A quotation is made piece by piece: each line behind its mark, and one piece
/// under the other. A quotation of nothing is empty.
pub proof fn a_quotation_is_made_piece_by_piece(one: Seq<Seq<char>>, other: Seq<Seq<char>>)
    ensures
        one.len() > 0 && other.len() > 0 ==> quotation(one + other) == quotation(one) + seq!['\n']
            + quotation(other),
        one.len() == 1 ==> quotation(one) == "> "@ + one[0],
        one.len() == 0 ==> quotation(one).len() == 0,
    decreases other.len(),
{
    if one.len() > 0 && other.len() > 0 {
        let whole = one + other;
        let init = other.drop_last();
        assert(whole.drop_last() =~= one + init);
        assert(whole.last() == other.last());
        if init.len() == 0 {
            assert(one + init =~= one);
            assert(quotation(whole) =~= quotation(one) + seq!['\n'] + quotation(other));
        } else {
            a_quotation_is_made_piece_by_piece(one, init);
            assert(quotation(whole) =~= quotation(one) + seq!['\n'] + quotation(other));
        }
    }
}

} // verus!
