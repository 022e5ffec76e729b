//! Work on text, character by character, and what `std` offers on text that the verifier's
//! library has no contract for.

use vstd::prelude::*;
use vstd::string::*;

verus! {

/// Whether a character has the Unicode property `White_Space`, as `char::is_whitespace`
/// tells.
pub uninterp spec fn unicode_whitespace(c: char) -> bool;

/// `char::is_whitespace` is a function of the character; the contract gives its result the
/// name `unicode_whitespace`.
pub assume_specification[ char::is_whitespace ](c: char) -> (white: bool)
    ensures
        white == unicode_whitespace(c),
;

/// `String::push` appends one character.
pub assume_specification[ String::push ](s: &mut String, c: char)
    ensures
        final(s)@ == old(s)@.push(c),
;

/// A text without the whitespace it starts with.
pub open spec fn trim_front(s: Seq<char>) -> Seq<char>
    decreases s.len(),
{
    if s.len() > 0 && unicode_whitespace(s[0]) {
        trim_front(s.drop_first())
    } else {
        s
    }
}

/// A text without the whitespace it ends with.
pub open spec fn trim_back(s: Seq<char>) -> Seq<char>
    decreases s.len(),
{
    if s.len() > 0 && unicode_whitespace(s.last()) {
        trim_back(s.drop_last())
    } else {
        s
    }
}

/// A text without the whitespace at either end.
pub open spec fn trimmed(s: Seq<char>) -> Seq<char> {
    trim_back(trim_front(s))
}

/// A text without the occurrences of a pattern, found from the left and not overlapping.
pub open spec fn without_all(s: Seq<char>, pattern: Seq<char>) -> Seq<char>
    decreases s.len(),
{
    if pattern.len() == 0 || s.len() < pattern.len() {
        s
    } else if s.take(pattern.len() as int) == pattern {
        without_all(s.skip(pattern.len() as int), pattern)
    } else {
        seq![s[0]] + without_all(s.skip(1), pattern)
    }
}

/// The characters of a text.
pub fn chars_of(text: &str) -> (chars: Vec<char>)
    ensures
        chars@ == text@,
{
    let mut chars: Vec<char> = Vec::new();
    for c in it: text.chars()
        invariant
            it.seq() == text@,
            chars@ == text@.take(it.index() as int),
    {
        proof {
            assert(text@.take(it.index() + 1) =~= text@.take(it.index() as int).push(c));
        }
        chars.push(c);
    }
    proof {
        assert(text@.take(text@.len() as int) =~= text@);
    }
    chars
}

/// The text that characters make.
pub fn text_of(chars: &Vec<char>) -> (text: String)
    ensures
        text@ == chars@,
{
    let mut text = String::new();
    let mut i: usize = 0;
    while i < chars.len()
        invariant
            i <= chars.len(),
            text@ == chars@.take(i as int),
        decreases chars.len() - i,
    {
        proof {
            assert(chars@.take(i + 1) =~= chars@.take(i as int).push(chars@[i as int]));
        }
        text.push(chars[i]);
        i += 1;
    }
    proof {
        assert(chars@.take(chars.len() as int) =~= chars@);
    }
    text
}

/// Drops the whitespace at either end.
pub fn trim_chars(chars: &Vec<char>) -> (kept: Vec<char>)
    ensures
        kept@ == trimmed(chars@),
{
    let mut start: usize = 0;
    proof {
        assert(chars@.skip(0) =~= chars@);
    }
    while start < chars.len() && chars[start].is_whitespace()
        invariant
            start <= chars.len(),
            trim_front(chars@) == trim_front(chars@.skip(start as int)),
        decreases chars.len() - start,
    {
        proof {
            assert(chars@.skip(start as int).drop_first() =~= chars@.skip(start + 1));
        }
        start += 1;
    }
    let mut end: usize = chars.len();
    proof {
        assert(chars@.subrange(start as int, end as int) =~= chars@.skip(start as int));
    }
    while end > start && chars[end - 1].is_whitespace()
        invariant
            start <= end <= chars.len(),
            trimmed(chars@) == trim_back(chars@.subrange(start as int, end as int)),
        decreases end,
    {
        proof {
            assert(chars@.subrange(start as int, end as int).drop_last() =~= chars@.subrange(
                start as int,
                end - 1,
            ));
        }
        end -= 1;
    }
    let mut kept: Vec<char> = Vec::new();
    let mut i: usize = start;
    while i < end
        invariant
            start <= i <= end <= chars.len(),
            kept@ == chars@.subrange(start as int, i as int),
        decreases end - i,
    {
        proof {
            assert(chars@.subrange(start as int, i + 1) =~= chars@.subrange(
                start as int,
                i as int,
            ).push(chars@[i as int]));
        }
        kept.push(chars[i]);
        i += 1;
    }
    kept
}

/// Whether the pattern stands at a place in the characters.
pub fn starts_with_at(chars: &Vec<char>, at: usize, pattern: &Vec<char>) -> (found: bool)
    ensures
        found == (at + pattern.len() <= chars.len() && chars@.subrange(
            at as int,
            at + pattern.len(),
        ) == pattern@),
{
    if at > chars.len() || pattern.len() > chars.len() - at {
        return false;
    }
    let mut j: usize = 0;
    while j < pattern.len()
        invariant
            j <= pattern.len(),
            at + pattern.len() <= chars.len(),
            forall|k: int| 0 <= k < j ==> chars@[at + k] == pattern@[k],
        decreases pattern.len() - j,
    {
        if chars[at + j] != pattern[j] {
            proof {
                assert(chars@.subrange(at as int, at + pattern.len())[j as int] != pattern@[j as int]);
            }
            return false;
        }
        j += 1;
    }
    proof {
        assert(chars@.subrange(at as int, at + pattern.len()) =~= pattern@);
    }
    true
}

/// Takes every occurrence of the pattern out.
pub fn remove_all(chars: &Vec<char>, pattern: &Vec<char>) -> (rest: String)
    ensures
        rest@ == without_all(chars@, pattern@),
{
    if pattern.len() == 0 {
        return text_of(chars);
    }
    let mut rest = String::new();
    let mut i: usize = 0;
    proof {
        assert(chars@.skip(0) =~= chars@);
        assert(rest@ + without_all(chars@, pattern@) =~= without_all(chars@, pattern@));
    }
    while i < chars.len()
        invariant
            i <= chars.len(),
            pattern.len() > 0,
            without_all(chars@, pattern@) == rest@ + without_all(chars@.skip(i as int), pattern@),
        decreases chars.len() - i,
    {
        let ghost tail = chars@.skip(i as int);
        let ghost before = rest@;
        if starts_with_at(chars, i, pattern) {
            proof {
                assert(tail.take(pattern.len() as int) =~= chars@.subrange(
                    i as int,
                    i + pattern.len(),
                ));
                assert(tail.skip(pattern.len() as int) =~= chars@.skip(i + pattern.len()));
            }
            i += pattern.len();
        } else {
            proof {
                assert(tail[0] == chars@[i as int]);
                assert(tail.skip(1) =~= chars@.skip(i + 1));
                if tail.len() >= pattern.len() {
                    assert(tail.take(pattern.len() as int) =~= chars@.subrange(
                        i as int,
                        i + pattern.len(),
                    ));
                } else {
                    assert(seq![tail[0]] + tail.skip(1) =~= tail);
                }
                assert(before + (seq![tail[0]] + without_all(tail.skip(1), pattern@))
                    =~= before.push(tail[0]) + without_all(tail.skip(1), pattern@));
            }
            rest.push(chars[i]);
            i += 1;
        }
    }
    proof {
        assert(rest@ + without_all(chars@.skip(i as int), pattern@) =~= rest@);
    }
    rest
}

/// Whether a character occurs at or after a place.
pub fn contains_from(chars: &Vec<char>, from: usize, c: char) -> (found: bool)
    ensures
        found == (from <= chars.len() && chars@.skip(from as int).contains(c)),
{
    if from > chars.len() {
        return false;
    }
    let mut i: usize = from;
    while i < chars.len()
        invariant
            from <= i <= chars.len(),
            forall|k: int| from <= k < i ==> chars@[k] != c,
        decreases chars.len() - i,
    {
        if chars[i] == c {
            proof {
                assert(chars@.skip(from as int)[i - from] == c);
            }
            return true;
        }
        i += 1;
    }
    proof {
        let tail = chars@.skip(from as int);
        assert forall|k: int| 0 <= k < tail.len() implies tail[k] != c by {
            assert(tail[k] == chars@[from + k]);
        }
    }
    false
}

} // verus!
