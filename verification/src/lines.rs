//! Cutting a text into its lines.

use vstd::prelude::*;

verus! {

/// The lines of a text, cut at each line feed, which belongs to no line.
/// `current` is the part of the line that was begun before `rest`. Text
/// behind the last line feed is a line of its own unless it is empty.
pub open spec fn lines_from(current: Seq<char>, rest: Seq<char>) -> Seq<Seq<char>>
    decreases rest.len(),
{
    if rest.len() == 0 {
        if current.len() > 0 {
            seq![current]
        } else {
            Seq::empty()
        }
    } else if rest[0] == '\n' {
        seq![current] + lines_from(Seq::empty(), rest.skip(1))
    } else {
        lines_from(current.push(rest[0]), rest.skip(1))
    }
}

/// The lines of a text.
pub open spec fn lines_of(text: Seq<char>) -> Seq<Seq<char>> {
    lines_from(Seq::empty(), text)
}

/// The text made of the given lines, each closed by a line feed.
pub open spec fn unlines(lines: Seq<Seq<char>>) -> Seq<char>
    decreases lines.len(),
{
    if lines.len() == 0 {
        Seq::empty()
    } else {
        lines[0].push('\n') + unlines(lines.skip(1))
    }
}

/// A text with its last line closed: a line feed is added at the end unless
/// the text is empty or ends with one.
pub open spec fn closed(text: Seq<char>) -> Seq<char> {
    if text.len() == 0 || text.last() == '\n' {
        text
    } else {
        text.push('\n')
    }
}

/// Whether no character of `line` is a line feed.
pub open spec fn has_no_line_feed(line: Seq<char>) -> bool {
    forall|j: int| 0 <= j < line.len() ==> line[j] != '\n'
}

/// `String::push` of the standard library: the character is appended at the
/// end of the string.
pub assume_specification[ String::push ](s: &mut String, c: char)
    ensures
        final(s)@ == old(s)@.push(c),
;

/// Cuts a text into its lines.
pub fn split_lines(text: &str) -> (lines: Vec<String>)
    ensures
        lines.deep_view() == lines_of(text@),
{
    let mut lines: Vec<String> = Vec::new();
    let mut current = String::new();
    proof {
        assert(text@.skip(0) =~= text@);
    }
    for c in it: text.chars()
        invariant
            it.seq() == text@,
            lines.deep_view() + lines_from(current@, text@.skip(it.index() as int)) == lines_of(
                text@,
            ),
    {
        let ghost k = it.index() as int;
        proof {
            assert(text@.skip(k).skip(1) =~= text@.skip(k + 1));
        }
        if c == '\n' {
            lines.push(current);
            current = String::new();
        } else {
            current.push(c);
        }
    }
    if !current.as_str().is_empty() {
        lines.push(current);
    }
    lines
}

proof fn lemma_lines_from_hold_no_line_feed(current: Seq<char>, rest: Seq<char>)
    requires
        has_no_line_feed(current),
    ensures
        forall|i: int|
            0 <= i < lines_from(current, rest).len() ==> has_no_line_feed(
                #[trigger] lines_from(current, rest)[i],
            ),
    decreases rest.len(),
{
    let lines = lines_from(current, rest);
    if rest.len() == 0 {
        assert forall|i: int| 0 <= i < lines.len() implies has_no_line_feed(
            #[trigger] lines[i],
        ) by {
            assert(lines[i] == current);
        }
    } else if rest[0] == '\n' {
        let tail = lines_from(Seq::empty(), rest.skip(1));
        lemma_lines_from_hold_no_line_feed(Seq::empty(), rest.skip(1));
        assert forall|i: int| 0 <= i < lines.len() implies has_no_line_feed(
            #[trigger] lines[i],
        ) by {
            assert(i == 0 ==> lines[i] == current);
            assert(i > 0 ==> lines[i] == tail[i - 1]);
        }
    } else {
        lemma_lines_from_hold_no_line_feed(current.push(rest[0]), rest.skip(1));
        assert(lines == lines_from(current.push(rest[0]), rest.skip(1)));
    }
}

proof fn lemma_lines_from_join(current: Seq<char>, rest: Seq<char>)
    requires
        has_no_line_feed(current),
    ensures
        unlines(lines_from(current, rest)) == closed(current + rest),
    decreases rest.len(),
{
    let lines = lines_from(current, rest);
    if rest.len() == 0 {
        if current.len() > 0 {
            assert(unlines(lines.skip(1)) =~= Seq::<char>::empty());
        }
    } else if rest[0] == '\n' {
        let after = rest.skip(1);
        let tail = lines_from(Seq::empty(), after);
        lemma_lines_from_join(Seq::empty(), after);
        assert(lines.skip(1) =~= tail);
    } else {
        lemma_lines_from_join(current.push(rest[0]), rest.skip(1));
    }
}

/// The lines of a text, each closed by a line feed and put together again,
/// are the text with its last line closed. With the fact that no line holds
/// a line feed, this says which lines a text has.
pub proof fn lemma_lines_join_to_text(text: Seq<char>)
    ensures
        unlines(lines_of(text)) == closed(text),
{
    lemma_lines_from_join(Seq::empty(), text);
}

/// No line of a text holds a line feed.
pub proof fn lemma_lines_hold_no_line_feed(text: Seq<char>)
    ensures
        forall|i: int|
            0 <= i < lines_of(text).len() ==> has_no_line_feed(#[trigger] lines_of(text)[i]),
{
    lemma_lines_from_hold_no_line_feed(Seq::empty(), text);
}

} // verus!
