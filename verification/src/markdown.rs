//! Text for display: escaping of markup, and markdown rendered to HTML.

use crate::spoiler::SpoilerBlockScanner;
use vstd::prelude::*;
use vstd::string::*;

verus! {

/// The HTML that the markdown parser, set up with the CommonMark rules, the extra rules and
/// the spoiler rule, renders for a text.
pub uninterp spec fn rendered_markdown(text: Seq<char>) -> Seq<char>;

/// What stands for one character in sanitized text.
pub open spec fn escape_char(c: char) -> Seq<char> {
    if c == '&' {
        "&amp;"@
    } else if c == '<' {
        "&lt;"@
    } else if c == '"' {
        "&quot;"@
    } else if c == '\'' {
        "&#x27;"@
    } else {
        seq![c]
    }
}

/// A text with each special character replaced.
pub open spec fn sanitized(text: Seq<char>) -> Seq<char>
    decreases text.len(),
{
    if text.len() == 0 {
        Seq::empty()
    } else {
        sanitized(text.drop_last()) + escape_char(text.last())
    }
}

/// Replaces the characters that are special in HTML, to keep markup out of text that is
/// shown. `>` stays: markdown reads it as a quote.
pub fn sanitize_html(text: &str) -> (html: String)
    ensures
        html@ == sanitized(text@),
{
    let mut out = String::new();
    for c in it: text.chars()
        invariant
            it.seq() == text@,
            out@ == sanitized(text@.take(it.index() as int)),
    {
        proof {
            let k = it.index() as int;
            assert(text@.take(k + 1).drop_last() =~= text@.take(k));
        }
        if c == '&' {
            out.append("&amp;");
        } else if c == '<' {
            out.append("&lt;");
        } else if c == '"' {
            out.append("&quot;");
        } else if c == '\'' {
            out.append("&#x27;");
        } else {
            out.push(c);
        }
    }
    proof {
        assert(text@.take(text@.len() as int) =~= text@);
    }
    out
}

/// Sanitized text holds none of `<`, `"` and `'`.
pub proof fn lemma_sanitized_has_no_markup(text: Seq<char>)
    ensures
        !sanitized(text).contains('<'),
        !sanitized(text).contains('"'),
        !sanitized(text).contains('\''),
    decreases text.len(),
{
    reveal_strlit("&amp;");
    reveal_strlit("&lt;");
    reveal_strlit("&quot;");
    reveal_strlit("&#x27;");
    if text.len() > 0 {
        lemma_sanitized_has_no_markup(text.drop_last());
        let front = sanitized(text.drop_last());
        let tail = escape_char(text.last());
        assert forall|i: int| 0 <= i < (front + tail).len() implies (front + tail)[i] != '<' && (
        front + tail)[i] != '"' && (front + tail)[i] != '\'' by {
            if i < front.len() {
                assert(front.contains(front[i]));
            } else {
                let k = i - front.len();
                assert((front + tail)[i] == tail[k]);
            }
        }
    }
}

/// Sets up a parser with the CommonMark rules and the extra rules of `markdown_it` and with
/// the spoiler rule, parses
/// the text with `MarkdownIt::parse` and renders it with `Node::xrender`. The contract claims
/// only that the HTML is a function of the text, and gives it the name `rendered_markdown`.
#[verifier::external_body]
fn render_markdown(text: &str) -> (html: String)
    ensures
        html@ == rendered_markdown(text@),
{
    let mut parser = markdown_it::MarkdownIt::new();
    markdown_it::plugins::cmark::add(&mut parser);
    markdown_it::plugins::extra::add(&mut parser);
    let _ = parser.block.add_rule::<SpoilerBlockScanner>();
    parser.parse(text).xrender()
}

/// Converts text from markdown to HTML, while escaping special characters.
pub fn markdown_to_html(text: &str) -> (html: String)
    ensures
        html@ == rendered_markdown(text@),
{
    render_markdown(text)
}

} // verus!
