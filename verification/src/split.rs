//! Cutting text apart: at a separator, into lines, into words, and free
//! of the white space around it.

use vstd::prelude::*;
use vstd::string::*;
use crate::text::{from_chars, to_chars};

verus! {

/// Whether `c` is white space as `char::is_whitespace` has it.
pub open spec fn is_space(c: char) -> bool {
    let code = c as u32;
    (0x09 <= code && code <= 0x0d) || code == 0x20 || code == 0x85 || code == 0xa0 || code
        == 0x1680 || (0x2000 <= code && code <= 0x200a) || code == 0x2028 || code == 0x2029
        || code == 0x202f || code == 0x205f || code == 0x3000
}

/// Whether `c` is white space.
pub fn is_whitespace(c: char) -> (b: bool)
    ensures
        b == is_space(c),
{
    let code = c as u32;
    (0x09 <= code && code <= 0x0d) || code == 0x20 || code == 0x85 || code == 0xa0 || code
        == 0x1680 || (0x2000 <= code && code <= 0x200a) || code == 0x2028 || code == 0x2029
        || code == 0x202f || code == 0x205f || code == 0x3000
}

/// The views of the lines, one per element.
pub open spec fn line_views(lines: Seq<Vec<char>>) -> Seq<Seq<char>> {
    Seq::new(lines.len(), |i: int| lines[i]@)
}

/// The first position at or after `i` that holds no white space.
pub open spec fn skip_spaces(s: Seq<char>, i: int) -> int
    decreases s.len() - i,
{
    if 0 <= i < s.len() && is_space(s[i]) {
        skip_spaces(s, i + 1)
    } else {
        i
    }
}

/// The end of `s[start..j]` once its trailing white space is dropped.
pub open spec fn drop_spaces(s: Seq<char>, start: int, j: int) -> int
    decreases j,
{
    if 0 <= start < j <= s.len() && is_space(s[j - 1]) {
        drop_spaces(s, start, j - 1)
    } else {
        j
    }
}

/// `s` without the white space at its two ends.
pub open spec fn trimmed(s: Seq<char>) -> Seq<char> {
    s.subrange(skip_spaces(s, 0), drop_spaces(s, skip_spaces(s, 0), s.len() as int))
}

/// The parts of `text` that `sep` separates: one more than `sep` occurs.
pub open spec fn split_on(text: Seq<char>, sep: char) -> Seq<Seq<char>>
    decreases text.len(),
{
    if text.len() == 0 {
        seq![Seq::empty()]
    } else {
        let before = split_on(text.drop_last(), sep);
        if text.last() == sep {
            before.push(Seq::empty())
        } else {
            before.drop_last().push(before.last().push(text.last()))
        }
    }
}

/// `part` without a carriage return at its end.
pub open spec fn without_return(part: Seq<char>) -> Seq<char> {
    if part.len() > 0 && part.last() == '\r' {
        part.drop_last()
    } else {
        part
    }
}

/// The lines of `text` as `str::lines` has them: a line ends at a line
/// feed, a carriage return before the line feed is dropped with it, and
/// what follows the last line feed is a line only if it is not empty.
pub open spec fn lines_of(text: Seq<char>) -> Seq<Seq<char>> {
    let parts = split_on(text, '\n');
    let ended = Seq::new((parts.len() - 1) as nat, |i: int| without_return(parts[i]));
    if parts.last().len() == 0 {
        ended
    } else {
        ended.push(parts.last())
    }
}

/// `s` without the white space at its two ends.
pub fn trim(s: &Vec<char>) -> (res: String)
    ensures
        res@ == trimmed(s@),
{
    let mut start: usize = 0;
    while start < s.len() && is_whitespace(s[start])
        invariant
            start <= s.len(),
            skip_spaces(s@, start as int) == skip_spaces(s@, 0),
        decreases s.len() - start,
    {
        start += 1;
    }
    let mut end: usize = s.len();
    while end > start && is_whitespace(s[end - 1])
        invariant
            start <= end <= s.len(),
            drop_spaces(s@, start as int, end as int) == drop_spaces(
                s@,
                start as int,
                s@.len() as int,
            ),
        decreases end,
    {
        end -= 1;
    }
    from_chars(s, start, end)
}

/// The parts of `text` that `sep` separates.
pub fn split(text: &Vec<char>, sep: char) -> (res: Vec<Vec<char>>)
    ensures
        line_views(res@) == split_on(text@, sep),
{
    let mut parts: Vec<Vec<char>> = Vec::new();
    let mut current: Vec<char> = Vec::new();
    let mut i: usize = 0;
    assert(text@.take(0) =~= Seq::<char>::empty());
    assert(line_views(parts@).push(current@) =~= split_on(text@.take(0), sep));
    while i < text.len()
        invariant
            i <= text.len(),
            line_views(parts@).push(current@) == split_on(text@.take(i as int), sep),
        decreases text.len() - i,
    {
        let ghost before = line_views(parts@).push(current@);
        proof {
            assert(text@.take(i + 1).drop_last() =~= text@.take(i as int));
            assert(text@.take(i + 1).last() == text@[i as int]);
        }
        if text[i] == sep {
                        parts.push(current);
            current = Vec::new();
            proof {
                assert(line_views(parts@) =~= before);
                assert(line_views(parts@).push(current@) =~= before.push(Seq::empty()));
            }
        } else {
            current.push(text[i]);
            proof {
                assert(line_views(parts@).push(current@) =~= before.drop_last().push(
                    before.last().push(text@[i as int]),
                ));
            }
        }
        i += 1;
    }
    proof {
        assert(text@.take(text.len() as int) =~= text@);
    }
    let ghost before = line_views(parts@).push(current@);
    parts.push(current);
    assert(line_views(parts@) =~= before);
    parts
}

/// The lines of `text`.
pub fn lines(text: &str) -> (res: Vec<Vec<char>>)
    ensures
        line_views(res@) == lines_of(text@),
{
    let chars = to_chars(text);
    let parts = split(&chars, '\n');
    let mut res: Vec<Vec<char>> = Vec::new();
    let mut i: usize = 0;
    assert(parts.len() > 0) by {
        lemma_split_has_a_part(chars@, '\n');
    }
    while i + 1 < parts.len()
        invariant
            i + 1 <= parts.len(),
            res@.len() == i,
            forall|j: int|
                0 <= j < i ==> (#[trigger] res@[j])@ == without_return(line_views(parts@)[j]),
        decreases parts.len() - i,
    {
        let part = &parts[i];
        assert(line_views(parts@)[i as int] == part@);
        let mut line: Vec<char> = Vec::new();
        let keep = if part.len() > 0 && part[part.len() - 1] == '\r' {
            part.len() - 1
        } else {
            part.len()
        };
        let mut k: usize = 0;
        while k < keep
            invariant
                k <= keep <= part.len(),
                line@ == part@.take(k as int),
            decreases keep - k,
        {
            line.push(part[k]);
            k += 1;
        }
        assert(line@ =~= without_return(part@));
        res.push(line);
        i += 1;
    }
    let last = &parts[parts.len() - 1];
    assert(line_views(parts@)[parts.len() - 1] == last@);
    if last.len() > 0 {
        let mut line: Vec<char> = Vec::new();
        let mut k: usize = 0;
        while k < last.len()
            invariant
                k <= last.len(),
                line@ == last@.take(k as int),
            decreases last.len() - k,
        {
            line.push(last[k]);
            k += 1;
        }
        assert(line@ =~= last@);
        res.push(line);
    }
    assert(line_views(res@) =~= lines_of(text@));
    res
}

/// A split always yields at least one part.
pub proof fn lemma_split_has_a_part(text: Seq<char>, sep: char)
    ensures
        split_on(text, sep).len() > 0,
    decreases text.len(),
{
    if text.len() > 0 {
        lemma_split_has_a_part(text.drop_last(), sep);
    }
}

/// The parts of `text` that white space separates, character by
/// character: two neighbouring blanks have an empty part between them.
pub open spec fn split_spaces(text: Seq<char>) -> Seq<Seq<char>>
    decreases text.len(),
{
    if text.len() == 0 {
        seq![Seq::empty()]
    } else {
        let before = split_spaces(text.drop_last());
        if is_space(text.last()) {
            before.push(Seq::empty())
        } else {
            before.drop_last().push(before.last().push(text.last()))
        }
    }
}

/// The parts that are not empty, in order.
pub open spec fn non_empty(parts: Seq<Seq<char>>) -> Seq<Seq<char>>
    decreases parts.len(),
{
    if parts.len() == 0 {
        Seq::empty()
    } else if parts.last().len() == 0 {
        non_empty(parts.drop_last())
    } else {
        non_empty(parts.drop_last()).push(parts.last())
    }
}

/// The words of `text` as `str::split_whitespace` has them: the longest
/// stretches without white space.
pub open spec fn words_of(text: Seq<char>) -> Seq<Seq<char>> {
    non_empty(split_spaces(text))
}

/// The words of `text`.
pub fn words(text: &Vec<char>) -> (res: Vec<Vec<char>>)
    ensures
        line_views(res@) == words_of(text@),
{
    let mut parts: Vec<Vec<char>> = Vec::new();
    let mut current: Vec<char> = Vec::new();
    let ghost mut all: Seq<Seq<char>> = Seq::empty();
    let mut i: usize = 0;
    proof {
        assert(text@.take(0) =~= Seq::<char>::empty());
        assert(all.push(current@) =~= split_spaces(text@.take(0)));
        assert(line_views(parts@) =~= non_empty(all));
    }
    while i < text.len()
        invariant
            i <= text.len(),
            all.push(current@) == split_spaces(text@.take(i as int)),
            line_views(parts@) == non_empty(all),
        decreases text.len() - i,
    {
        let ghost before = all.push(current@);
        proof {
            assert(text@.take(i + 1).drop_last() =~= text@.take(i as int));
            assert(text@.take(i + 1).last() == text@[i as int]);
        }
        if is_whitespace(text[i]) {
            proof {
                assert(before.drop_last() =~= all);
                assert(before.last() == current@);
            }
            if current.len() > 0 {
                let ghost listed = line_views(parts@);
                parts.push(current);
                assert(line_views(parts@) =~= listed.push(before.last()));
            }
            current = Vec::new();
            proof {
                all = before;
                assert(all.push(current@) =~= before.push(Seq::empty()));
            }
        } else {
            current.push(text[i]);
            proof {
                assert(all.push(current@) =~= before.drop_last().push(
                    before.last().push(text@[i as int]),
                ));
            }
        }
        i += 1;
    }
    proof {
        assert(text@.take(text.len() as int) =~= text@);
        assert(all.push(current@).drop_last() =~= all);
    }
    if current.len() > 0 {
        let ghost listed = line_views(parts@);
        parts.push(current);
        assert(line_views(parts@) =~= listed.push(all.push(current@).last()));
    }
    parts
}

} // verus!
