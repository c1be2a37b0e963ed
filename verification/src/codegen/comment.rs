//! The text of a comment, without the marks that make it a comment.

use vstd::prelude::*;
use crate::codegen::pattern::{capture, regex_capture};
use crate::codegen::text::{contents, ends_with, finishes_with, join, joined, lines, lines_of};

verus! {

/// A line of a comment: blanks, then slashes or stars, then at least one
/// blank, and then the text of the line.
pub const COMMENT_LINE: &'static str = "\\A\\s*[\\/\\*]+\\s+(?P<text>.*)\\s*";

/// The texts of those of `lines` that are lines of a comment, in order.
pub open spec fn comment_lines(lines: Seq<Seq<char>>) -> Seq<Seq<char>>
    decreases lines.len(),
{
    if lines.len() == 0 {
        Seq::empty()
    } else {
        match regex_capture(COMMENT_LINE@, "text"@, lines.last()) {
            Some(Some(text)) => comment_lines(lines.drop_last()).push(text),
            _ => comment_lines(lines.drop_last()),
        }
    }
}

/// `comment`, with a full stop at its end.
pub open spec fn with_full_stop(comment: Seq<char>) -> Seq<char> {
    if finishes_with(comment, "."@) {
        comment
    } else {
        comment + "."@
    }
}

/// The text of the comment `s`: what its lines say, with one blank between
/// every two of them and a full stop at the end.
pub open spec fn comment_text(s: Seq<char>) -> Seq<char> {
    with_full_stop(joined(comment_lines(lines_of(s)), " "@))
}

/// Takes the text out of the comment `s`.
///
/// Every line of the comment gives what follows its comment marks and the
/// blanks after them; a line that has no such marks gives nothing. The
/// texts are joined by single blanks, and the result ends with a full stop.
pub fn extract_comment_text(s: &str) -> (text: String)
    ensures
        text@ == comment_text(s@),
{
    let all = lines(s);
    let mut kept: Vec<String> = Vec::new();
    let mut i: usize = 0;
    while i < all.len()
        invariant
            i <= all.len(),
            contents(kept@) == comment_lines(contents(all@).take(i as int)),
        decreases all.len() - i,
    {
        proof {
            let texts = contents(all@);
            assert(texts.take(i + 1).drop_last() == texts.take(i as int));
            assert(texts.take(i + 1).last() == all@[i as int]@);
        }
        match capture(COMMENT_LINE, "text", all[i].as_str()) {
            Some(Some(text)) => {
                assert(contents(kept@.push(text)) == contents(kept@).push(text@));
                kept.push(text);
            },
            _ => {},
        }
        i += 1;
    }
    assert(contents(all@).take(i as int) == contents(all@));
    let comment = join(&kept, " ");
    if ends_with(comment.as_str(), ".") {
        comment
    } else {
        comment.concat(".")
    }
}

} // verus!
