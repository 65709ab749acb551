//! Line breaks in pasted text.

use vstd::prelude::*;

verus! {

/// `text` with its line breaks made plain: a carriage return becomes a line
/// feed, and a line feed that comes straight after a carriage return is
/// dropped, so that the pair stands for one line break. Every other character
/// is kept.
pub open spec fn normalized_newlines(text: Seq<char>) -> Seq<char>
    decreases text.len(),
{
    if text.len() == 0 {
        Seq::empty()
    } else {
        let front = normalized_newlines(text.drop_last());
        let last = text.last();
        if last == '\r' {
            front.push('\n')
        } else if last == '\n' && text.len() >= 2 && text[text.len() - 2] == '\r' {
            front
        } else {
            front.push(last)
        }
    }
}

/// `String::push` appends the character to the end of the string.
pub assume_specification[ String::push ](text: &mut String, c: char)
    ensures
        final(text)@ == old(text)@.push(c),
;

/// Makes the line breaks of `text` plain line feeds.
pub fn normalize_newlines(text: &str) -> (plain: String)
    ensures
        plain@ == normalized_newlines(text@),
{
    let mut plain = String::new();
    let mut after_return = false;
    for c in chars: text.chars()
        invariant
            chars.seq() == text@,
            plain@ == normalized_newlines(text@.take(chars.index() as int)),
            after_return <==> chars.index() > 0 && text@[chars.index() - 1] == '\r',
    {
        proof {
            let longer = text@.take(chars.index() + 1);
            assert(longer.drop_last() =~= text@.take(chars.index() as int));
            assert(longer.last() == c);
        }
        if c == '\r' {
            plain.push('\n');
            after_return = true;
        } else if c == '\n' && after_return {
            after_return = false;
        } else {
            plain.push(c);
            after_return = false;
        }
    }
    assert(text@.take(text@.len() as int) =~= text@);
    plain
}

} // verus!
