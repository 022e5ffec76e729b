//! Spoiler blocks in markdown: a line `::: spoiler` with the text to show, the hidden lines,
//! and a line `:::` that ends the block.
//!
//! ```text
//! ::: spoiler click to see more
//! how spicy!
//! :::
//! ```

use crate::text::{
    chars_of, contains_from, remove_all, starts_with_at, trim_chars, trimmed, without_all,
};
use markdown_it::parser::block::{BlockRule, BlockState};
use markdown_it::Node;
use vstd::prelude::*;
use vstd::string::*;

verus! {

/// `markdown_it::Node`, a node of the parsed document. It is carried through; nothing is
/// known of what it holds.
#[verifier::external_type_specification]
#[verifier::external_body]
pub struct ExNode(Node);

/// `markdown_it::parser::block::BlockState`, the block parser's state. It is carried through;
/// what is read from it has a name below.
#[verifier::external_type_specification]
#[verifier::external_body]
pub struct ExBlockState<'a, 'b>(BlockState<'a, 'b>);

/// The lines that a block state holds: line `line` as `BlockState::get_line` gives it,
/// without its indent and its line end.
pub uninterp spec fn block_line_text(state: BlockState, line: usize) -> Seq<char>;

/// The end of the lines that a block state is parsing: its `line_max`.
pub uninterp spec fn block_line_max(state: BlockState) -> usize;

/// The line that a block state stands at: its `line`.
pub uninterp spec fn block_current_line(state: BlockState) -> usize;

/// What `markdown_it` writes for a text inside an element: `&`, `<`, `>` and `"` become
/// entities.
pub open spec fn entity_of(c: char) -> Seq<char> {
    if c == '&' {
        "&amp;"@
    } else if c == '<' {
        "&lt;"@
    } else if c == '>' {
        "&gt;"@
    } else if c == '"' {
        "&quot;"@
    } else {
        seq![c]
    }
}

/// A text with its special characters as entities.
pub open spec fn escaped_text(text: Seq<char>) -> Seq<char>
    decreases text.len(),
{
    if text.len() == 0 {
        Seq::empty()
    } else {
        escaped_text(text.drop_last()) + entity_of(text.last())
    }
}

/// The summary that a line opens a spoiler with: the line, trimmed, must begin with
/// `::: spoiler ` and hold no line break; the summary is what is left of it without
/// that marker.
pub open spec fn spoiler_summary_spec(line: Seq<char>) -> Option<Seq<char>> {
    let text = trimmed(line);
    let marker = "::: spoiler "@;
    if text.len() >= marker.len() && text.take(marker.len() as int) == marker && !text.skip(
        marker.len() as int,
    ).contains('\n') {
        Some(without_all(text, marker))
    } else {
        None
    }
}

/// Whether a line ends a spoiler: trimmed, it is `:::`.
pub open spec fn is_fence_spec(line: Seq<char>) -> bool {
    trimmed(line) == ":::"@
}

/// Reads the summary from the line that opens a spoiler.
pub fn spoiler_summary(line: &str) -> (summary: Option<String>)
    ensures
        summary.deep_view() == spoiler_summary_spec(line@),
{
    let text = trim_chars(&chars_of(line));
    let marker = chars_of("::: spoiler ");
    proof {
        reveal_strlit("::: spoiler ");
    }
    if starts_with_at(&text, 0, &marker) && !contains_from(&text, marker.len(), '\n') {
        proof {
            assert(text@.take(marker.len() as int) =~= text@.subrange(0, 0 + marker.len()));
        }
        Some(remove_all(&text, &marker))
    } else {
        proof {
            if text.len() >= marker.len() {
                assert(text@.take(marker.len() as int) =~= text@.subrange(0, 0 + marker.len()));
            }
        }
        None
    }
}

/// Whether a line ends a spoiler.
pub fn is_spoiler_fence(line: &str) -> (fence: bool)
    ensures
        fence == is_fence_spec(line@),
{
    let text = trim_chars(&chars_of(line));
    let marker = chars_of(":::");
    proof {
        reveal_strlit(":::");
        if text.len() == marker.len() {
            assert(text@.subrange(0, 0 + marker.len()) =~= text@);
        }
    }
    text.len() == marker.len() && starts_with_at(&text, 0, &marker)
}

/// A spoiler found in a block: the HTML around its hidden lines, and the lines it takes.
pub struct SpoilerMatch {
    /// The HTML before the hidden lines.
    pub open_html: String,
    /// The HTML after them.
    pub close_html: String,
    /// The first hidden line.
    pub content_start: usize,
    /// The line that ends the spoiler.
    pub fence: usize,
    /// The number of lines from the opening line to the fence.
    pub consumed: usize,
}

/// The first fence among the lines `from..to`.
pub open spec fn first_fence(state: BlockState, from: int, to: int) -> Option<int>
    decreases to - from,
{
    if from >= to {
        None
    } else if is_fence_spec(block_line_text(state, from as usize)) {
        Some(from)
    } else {
        first_fence(state, from + 1, to)
    }
}

/// The spoiler that opens at `line`, among the lines up to `line_max`: its summary and the
/// line of its fence. There is one where the line opens a spoiler and a later line ends it.
pub open spec fn spoiler_span(state: BlockState, line: usize, line_max: usize) -> Option<
    (Seq<char>, int),
> {
    match spoiler_summary_spec(block_line_text(state, line)) {
        None => None,
        Some(summary) => if line >= line_max {
            None
        } else {
            match first_fence(state, line + 1, line_max as int) {
                None => None,
                Some(fence) => Some((summary, fence)),
            }
        },
    }
}

/// The HTML that opens a spoiler with the given summary.
pub open spec fn open_html_spec(summary: Seq<char>) -> Seq<char> {
    "<details><summary>"@ + escaped_text(summary) + "</summary><p>"@
}

/// Whether a match is the spoiler that opens at `line`, with the summary and the fence given.
pub open spec fn is_spoiler_at(found: SpoilerMatch, summary: Seq<char>, line: int, fence: int) -> bool {
    &&& found.open_html@ == open_html_spec(summary)
    &&& found.close_html@ == "</p></details>"@
    &&& found.content_start == line + 1
    &&& found.fence == fence
    &&& found.consumed == fence - line + 1
}

/// Calls `BlockState::get_line`. The contract gives the line the name `block_line_text`.
#[verifier::external_body]
fn block_line(state: &BlockState, line: usize) -> (text: String)
    ensures
        text@ == block_line_text(*state, line),
{
    state.get_line(line).to_string()
}

/// Calls `markdown_it::common::utils::escape_html`, which the crate documents to replace
/// `&`, `<`, `>` and `"` by their entities.
#[verifier::external_body]
fn escape_html(text: &str) -> (html: String)
    ensures
        html@ == escaped_text(text@),
{
    markdown_it::common::utils::escape_html(text).into_owned()
}

/// Looks for a spoiler that opens at `line`, among the lines up to `line_max`: the line must
/// open one, and a later line must end it.
pub fn find_spoiler(state: &BlockState, line: usize, line_max: usize) -> (found: Option<SpoilerMatch>)
    ensures
        match spoiler_span(*state, line, line_max) {
            None => found is None,
            Some((summary, fence)) => found is Some && is_spoiler_at(
                found->0,
                summary,
                line as int,
                fence,
            ),
        },
        found is Some ==> found->0.content_start <= found->0.fence < line_max,
{
    let first = block_line(state, line);
    let summary = match spoiler_summary(first.as_str()) {
        Some(summary) => summary,
        None => {
            return None;
        },
    };
    if line >= line_max {
        return None;
    }
    let mut i: usize = line + 1;
    while i < line_max
        invariant
            line < i <= line_max,
            spoiler_summary_spec(block_line_text(*state, line)) == Some(summary@),
            first_fence(*state, line + 1, line_max as int) == first_fence(
                *state,
                i as int,
                line_max as int,
            ),
        decreases line_max - i,
    {
        let text = block_line(state, i);
        if is_spoiler_fence(text.as_str()) {
            let mut open_html = String::from_str("<details><summary>");
            let escaped = escape_html(summary.as_str());
            open_html.append(escaped.as_str());
            open_html.append("</summary><p>");
            return Some(
                SpoilerMatch {
                    open_html,
                    close_html: String::from_str("</p></details>"),
                    content_start: line + 1,
                    fence: i,
                    consumed: i - line + 1,
                },
            );
        }
        i += 1;
    }
    None
}

/// Builds the node of a spoiler: the hidden lines, read with `BlockState::get_lines` and left
/// to the inline parser as an `InlineRoot`, between the two pieces of HTML, each a node that
/// is written out as it is; a `Root` node holds them together, and an empty `HtmlBlock` at
/// either end breaks the line. Nothing is claimed of the node. The hidden lines must lie
/// within the lines that the state is parsing.
#[verifier::external_body]
fn spoiler_node(state: &BlockState, found: SpoilerMatch) -> Node
    requires
        found.content_start <= found.fence <= block_line_max(*state),
{
    let (content, mapping) = state.get_lines(found.content_start, found.fence, state.blk_indent, true);
    let mut node = Node::new(markdown_it::parser::core::Root::new(String::new()));
    node.children.push(Node::new(markdown_it::plugins::html::html_block::HtmlBlock { content: String::new() }));
    node.children.push(Node::new(markdown_it::plugins::extra::syntect::SyntectSnippet { html: found.open_html }));
    node.children.push(Node::new(markdown_it::parser::inline::InlineRoot::new(content, mapping)));
    node.children.push(Node::new(markdown_it::plugins::extra::syntect::SyntectSnippet { html: found.close_html }));
    node.children.push(Node::new(markdown_it::plugins::html::html_block::HtmlBlock { content: String::new() }));
    node
}

/// Reads `BlockState::line`, the line that the parser stands at, and gives it the name
/// `block_current_line`.
#[verifier::external_body]
fn current_line(state: &BlockState) -> (line: usize)
    ensures
        line == block_current_line(*state),
{
    state.line
}

/// Reads `BlockState::line_max`, the end of the lines of the block being parsed, and gives it
/// the name `block_line_max`.
#[verifier::external_body]
fn last_line(state: &BlockState) -> (end: usize)
    ensures
        end == block_line_max(*state),
{
    state.line_max
}

/// The block rule that finds spoilers.
pub struct SpoilerBlockScanner;

impl BlockRule for SpoilerBlockScanner {
    /// Called by the block parser at each line: where a spoiler opens at the line that the
    /// state stands at and is closed further down, gives its node and the number of lines it
    /// takes, from the opening line to the fence; else nothing. The state is left as it was.
    fn run(state: &mut BlockState) -> (res: Option<(Node, usize)>)
        ensures
            *final(state) == *old(state),
            match spoiler_span(
                *old(state),
                block_current_line(*old(state)),
                block_line_max(*old(state)),
            ) {
                None => res is None,
                Some((_, fence)) => match res {
                    Some((_, consumed)) => consumed == fence - block_current_line(*old(state))
                        + 1,
                    None => false,
                },
            },
    {
        let line = current_line(state);
        let line_max = last_line(state);
        match find_spoiler(state, line, line_max) {
            Some(found) => {
                let consumed = found.consumed;
                Some((spoiler_node(state, found), consumed))
            },
            None => None,
        }
    }
}

} // verus!
