//! Operations on text that the scraper needs.

use vstd::prelude::*;

verus! {

/// Whether `s` begins with `prefix`.
pub open spec fn begins_with(s: Seq<char>, prefix: Seq<char>) -> bool {
    prefix.len() <= s.len() && s.subrange(0, prefix.len() as int) == prefix
}

/// Whether `s` ends with `suffix`.
pub open spec fn finishes_with(s: Seq<char>, suffix: Seq<char>) -> bool {
    suffix.len() <= s.len() && s.subrange(s.len() - suffix.len(), s.len() as int) == suffix
}

/// `s` without `prefix` at its start, as often as it stands there.
pub open spec fn stripped(s: Seq<char>, prefix: Seq<char>) -> Seq<char>
    decreases s.len(),
{
    if prefix.len() > 0 && begins_with(s, prefix) {
        stripped(s.subrange(prefix.len() as int, s.len() as int), prefix)
    } else {
        s
    }
}

/// The place of the first line feed in `s`, or the length of `s` if it has
/// none.
pub open spec fn first_line_feed(s: Seq<char>) -> int
    decreases s.len(),
{
    if s.len() == 0 || s[0] == '\n' {
        0
    } else {
        1 + first_line_feed(s.drop_first())
    }
}

/// A line without the carriage return that stood before its line feed.
pub open spec fn without_carriage_return(line: Seq<char>) -> Seq<char> {
    if line.len() > 0 && line.last() == '\r' {
        line.drop_last()
    } else {
        line
    }
}

/// The lines of `s`. A line ends at a line feed, or at a carriage return
/// followed by a line feed, and the line ending is no part of the line. What
/// follows the last line feed is a line too, unless it is empty.
pub open spec fn lines_of(s: Seq<char>) -> Seq<Seq<char>>
    decreases s.len(),
{
    let end = first_line_feed(s);
    if s.len() == 0 {
        Seq::empty()
    } else if 0 <= end < s.len() {
        seq![without_carriage_return(s.subrange(0, end))] + lines_of(
            s.subrange(end + 1, s.len() as int),
        )
    } else {
        seq![s]
    }
}

/// `parts` in a row, with `separator` between every two of them.
pub open spec fn joined(parts: Seq<Seq<char>>, separator: Seq<char>) -> Seq<char>
    decreases parts.len(),
{
    if parts.len() == 0 {
        Seq::empty()
    } else if parts.len() == 1 {
        parts[0]
    } else {
        joined(parts.drop_last(), separator) + separator + parts.last()
    }
}

/// What each of `strings` holds.
pub open spec fn contents(strings: Seq<String>) -> Seq<Seq<char>> {
    strings.map_values(|s: String| s@)
}

/// The first line feed of a text stands where a line feed stands and none
/// stands before.
pub proof fn lemma_first_line_feed(s: Seq<char>, place: int)
    requires
        0 <= place <= s.len(),
        forall|i: int| 0 <= i < place ==> s[i] != '\n',
        place < s.len() ==> s[place] == '\n',
    ensures
        first_line_feed(s) == place,
    decreases s.len(),
{
    if place > 0 {
        lemma_first_line_feed(s.drop_first(), place - 1);
    }
}

/// Whether `s` has `part` at the place `at`.
pub open spec fn has_at(s: Seq<char>, at: int, part: Seq<char>) -> bool {
    0 <= at && at + part.len() <= s.len() && s.subrange(at, at + part.len()) == part
}

/// Whether `s` has `part` at the place `at`.
pub fn matches_at(s: &str, at: usize, part: &str) -> (found: bool)
    requires
        at <= s@.len(),
    ensures
        found == has_at(s@, at as int, part@),
{
    let n = s.unicode_len();
    let m = part.unicode_len();
    if m > n - at {
        return false;
    }
    let mut i: usize = 0;
    while i < m
        invariant
            i <= m,
            at + m <= n,
            n == s@.len(),
            m == part@.len(),
            forall|j: int| 0 <= j < i ==> s@[at + j] == part@[j],
        decreases m - i,
    {
        if s.get_char(at + i) != part.get_char(i) {
            assert(s@.subrange(at as int, at + m)[i as int] != part@[i as int]);
            return false;
        }
        i += 1;
    }
    assert(s@.subrange(at as int, at + m) =~= part@);
    true
}

/// Whether `s` begins with `prefix`.
pub fn starts_with(s: &str, prefix: &str) -> (found: bool)
    ensures
        found == begins_with(s@, prefix@),
{
    matches_at(s, 0, prefix)
}

/// Whether `s` ends with `suffix`.
pub fn ends_with(s: &str, suffix: &str) -> (found: bool)
    ensures
        found == finishes_with(s@, suffix@),
{
    let n = s.unicode_len();
    let m = suffix.unicode_len();
    if m > n {
        false
    } else {
        matches_at(s, n - m, suffix)
    }
}

/// `s` without `prefix` at its start, as often as it stands there.
pub fn trim_start_matches<'a>(s: &'a str, prefix: &str) -> (rest: &'a str)
    ensures
        rest@ == stripped(s@, prefix@),
{
    let n = s.unicode_len();
    let m = prefix.unicode_len();
    let mut at: usize = 0;
    assert(s@.subrange(0, n as int) == s@);
    if m > 0 {
        while matches_at(s, at, prefix)
            invariant
                at <= n,
                n == s@.len(),
                m == prefix@.len(),
                m > 0,
                stripped(s@, prefix@) == stripped(s@.subrange(at as int, n as int), prefix@),
            decreases n - at,
        {
            proof {
                let here = s@.subrange(at as int, n as int);
                assert(here.subrange(0, m as int) == s@.subrange(at as int, at + m));
                assert(here.subrange(m as int, here.len() as int) == s@.subrange(
                    at + m,
                    n as int,
                ));
            }
            at += m;
        }
        proof {
            let here = s@.subrange(at as int, n as int);
            if m <= here.len() {
                assert(here.subrange(0, m as int) == s@.subrange(at as int, at + m));
            }
        }
    }
    s.substring_char(at, n)
}

/// The lines of `s`, without their line endings.
pub fn lines(s: &str) -> (found: Vec<String>)
    ensures
        contents(found@) == lines_of(s@),
{
    let n = s.unicode_len();
    let mut found: Vec<String> = Vec::new();
    let mut start: usize = 0;
    let mut i: usize = 0;
    assert(s@.subrange(0, n as int) == s@);
    assert(contents(found@) + lines_of(s@) == lines_of(s@));
    while i < n
        invariant
            start <= i <= n,
            n == s@.len(),
            forall|j: int| start <= j < i ==> s@[j] != '\n',
            contents(found@) + lines_of(s@.subrange(start as int, n as int)) == lines_of(s@),
        decreases n - i,
    {
        if s.get_char(i) == '\n' {
            let end = if i > start && s.get_char(i - 1) == '\r' {
                i - 1
            } else {
                i
            };
            let line = s.substring_char(start, end).to_owned();
            proof {
                let rest = s@.subrange(start as int, n as int);
                lemma_first_line_feed(rest, i - start);
                assert(rest.subrange(0, i - start) == s@.subrange(start as int, i as int));
                assert(rest.subrange(i - start + 1, rest.len() as int) == s@.subrange(
                    i + 1,
                    n as int,
                ));
                assert(without_carriage_return(s@.subrange(start as int, i as int)) == line@);
                assert(contents(found@.push(line)) == contents(found@).push(line@));
                assert(contents(found@).push(line@) + lines_of(s@.subrange(i + 1, n as int))
                    == contents(found@) + lines_of(rest));
            }
            found.push(line);
            start = i + 1;
        }
        i += 1;
    }
    if start < n {
        let line = s.substring_char(start, n).to_owned();
        proof {
            let rest = s@.subrange(start as int, n as int);
            lemma_first_line_feed(rest, rest.len() as int);
            assert(contents(found@.push(line)) == contents(found@).push(line@));
            assert(contents(found@).push(line@) == contents(found@) + lines_of(rest));
        }
        found.push(line);
    } else {
        assert(contents(found@) + lines_of(s@.subrange(start as int, n as int)) == contents(
            found@,
        ));
    }
    found
}

/// `parts` in a row, with `separator` between every two of them.
pub fn join(parts: &Vec<String>, separator: &str) -> (text: String)
    ensures
        text@ == joined(contents(parts@), separator@),
{
    let mut text = String::new();
    let mut i: usize = 0;
    while i < parts.len()
        invariant
            i <= parts.len(),
            text@ == joined(contents(parts@).take(i as int), separator@),
        decreases parts.len() - i,
    {
        proof {
            let all = contents(parts@);
            assert(all.take(i + 1).drop_last() == all.take(i as int));
            assert(all.take(i + 1).last() == parts@[i as int]@);
            if i == 1 {
                assert(all.take(1)[0] == all[0]);
            }
        }
        if i > 0 {
            text.append(separator);
        }
        text.append(parts[i].as_str());
        i += 1;
    }
    assert(contents(parts@).take(i as int) == contents(parts@));
    text
}

} // verus!
