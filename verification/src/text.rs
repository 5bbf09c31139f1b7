//! String building blocks shared by the rest of the crate.
//!
//! Every function here is specified over `Seq<char>`, the view of a string.

use vstd::prelude::*;
use vstd::string::*;

verus! {

/// The views of a vector of strings, one per element.
pub open spec fn views(parts: Seq<String>) -> Seq<Seq<char>> {
    Seq::new(parts.len(), |i: int| parts[i]@)
}

/// The character that writes the digit `d` (`0 <= d <= 9`).
pub open spec fn digit_char(d: int) -> char {
    if d == 0 {
        '0'
    } else if d == 1 {
        '1'
    } else if d == 2 {
        '2'
    } else if d == 3 {
        '3'
    } else if d == 4 {
        '4'
    } else if d == 5 {
        '5'
    } else if d == 6 {
        '6'
    } else if d == 7 {
        '7'
    } else if d == 8 {
        '8'
    } else {
        '9'
    }
}

/// The decimal writing of `n`, without leading zeros.
pub open spec fn decimal(n: nat) -> Seq<char>
    decreases n,
{
    if n < 10 {
        seq![digit_char(n as int)]
    } else {
        decimal(n / 10).push(digit_char((n % 10) as int))
    }
}

/// The parts joined by `sep`, as `[String]::join` writes them.
pub open spec fn join(parts: Seq<Seq<char>>, sep: Seq<char>) -> Seq<char>
    decreases parts.len(),
{
    if parts.len() == 0 {
        Seq::empty()
    } else if parts.len() == 1 {
        parts[0]
    } else {
        join(parts.drop_last(), sep) + sep + parts.last()
    }
}

/// `unit` written `n` times in a row.
pub open spec fn repeat(unit: Seq<char>, n: nat) -> Seq<char>
    decreases n,
{
    if n == 0 {
        Seq::empty()
    } else {
        repeat(unit, (n - 1) as nat) + unit
    }
}

/// Whether `prefix` opens `s`.
pub open spec fn starts_with(s: Seq<char>, prefix: Seq<char>) -> bool {
    prefix.len() <= s.len() && s.take(prefix.len() as int) == prefix
}

/// Whether `needle` occurs in `s` at position `at`.
pub open spec fn occurs_at(s: Seq<char>, needle: Seq<char>, at: int) -> bool {
    0 <= at && at + needle.len() <= s.len() && s.subrange(at, at + needle.len()) == needle
}

/// Whether `needle` occurs somewhere in `s`.
pub open spec fn contains_seq(s: Seq<char>, needle: Seq<char>) -> bool {
    exists|at: int| occurs_at(s, needle, at)
}

/// Appends one character to a string.
///
/// Trusted: `String::push` appends the given character and changes nothing else.
#[verifier::external_body]
pub(crate) fn push_char(s: &mut String, c: char)
    ensures
        final(s)@ == old(s)@.push(c),
{
    s.push(c)
}

/// The characters of a string, in order.
pub fn to_chars(s: &str) -> (v: Vec<char>)
    ensures
        v@ == s@,
{
    let mut v: Vec<char> = Vec::new();
    for c in it: s.chars()
        invariant
            v@ == s@.take(it.index() as int),
            it.seq() == s@,
    {
        v.push(c);
    }
    v
}

/// The string made of `v[from..to]`.
pub fn from_chars(v: &Vec<char>, from: usize, to: usize) -> (s: String)
    requires
        from <= to <= v.len(),
    ensures
        s@ == v@.subrange(from as int, to as int),
{
    let mut s = String::new();
    let mut i: usize = from;
    while i < to
        invariant
            from <= i <= to <= v.len(),
            s@ == v@.subrange(from as int, i as int),
        decreases to - i,
    {
        push_char(&mut s, v[i]);
        i += 1;
    }
    s
}

/// The character for a single digit.
pub fn digit(d: u128) -> (c: char)
    requires
        d < 10,
    ensures
        c == digit_char(d as int),
{
    if d == 0 {
        '0'
    } else if d == 1 {
        '1'
    } else if d == 2 {
        '2'
    } else if d == 3 {
        '3'
    } else if d == 4 {
        '4'
    } else if d == 5 {
        '5'
    } else if d == 6 {
        '6'
    } else if d == 7 {
        '7'
    } else if d == 8 {
        '8'
    } else {
        '9'
    }
}

/// Appends the decimal writing of `n` to `out`.
pub fn push_decimal(out: &mut String, n: u128)
    ensures
        final(out)@ == old(out)@ + decimal(n as nat),
    decreases n,
{
    if n >= 10 {
        push_decimal(out, n / 10);
    }
    push_char(out, digit(n % 10));
}

/// The decimal writing of `n`.
pub fn u64_to_string(n: u64) -> (s: String)
    ensures
        s@ == decimal(n as nat),
{
    let mut s = String::new();
    push_decimal(&mut s, n as u128);
    s
}

/// The decimal writing of `n`.
pub fn usize_to_string(n: usize) -> (s: String)
    ensures
        s@ == decimal(n as nat),
{
    let mut s = String::new();
    push_decimal(&mut s, n as u128);
    s
}

/// Joins the parts with `sep` between each two neighbours.
pub fn join_strings(parts: &Vec<String>, sep: &str) -> (s: String)
    ensures
        s@ == join(views(parts@), sep@),
{
    let mut s = String::new();
    let mut i: usize = 0;
    while i < parts.len()
        invariant
            i <= parts.len(),
            s@ == join(views(parts@).take(i as int), sep@),
        decreases parts.len() - i,
    {
        proof {
            let next = views(parts@).take(i + 1);
            assert(next.drop_last() == views(parts@).take(i as int));
            assert(next.last() == parts@[i as int]@);
        }
        if i > 0 {
            s.append(sep);
        }
        s.append(parts[i].as_str());
        i += 1;
    }
    proof {
        assert(views(parts@).take(parts.len() as int) == views(parts@));
    }
    s
}

/// `unit` written `n` times in a row.
pub fn repeat_str(unit: &str, n: usize) -> (s: String)
    ensures
        s@ == repeat(unit@, n as nat),
{
    let mut s = String::new();
    let mut i: usize = 0;
    while i < n
        invariant
            i <= n,
            s@ == repeat(unit@, i as nat),
        decreases n - i,
    {
        s.append(unit);
        i += 1;
    }
    s
}

/// Whether the characters of `needle` stand in `s` from position `at` on.
pub fn matches_at(s: &Vec<char>, needle: &Vec<char>, at: usize) -> (b: bool)
    ensures
        b == occurs_at(s@, needle@, at as int),
{
    if needle.len() > s.len() || at > s.len() - needle.len() {
        return false;
    }
    let mut j: usize = 0;
    while j < needle.len()
        invariant
            j <= needle.len(),
            at + needle.len() <= s.len(),
            forall|k: int| 0 <= k < j ==> s@[at + k] == needle@[k],
        decreases needle.len() - j,
    {
        if s[at + j] != needle[j] {
            proof {
                assert(s@.subrange(at as int, at + needle.len())[j as int] == s@[at + j]);
            }
            return false;
        }
        j += 1;
    }
    proof {
        assert(s@.subrange(at as int, at + needle.len()) =~= needle@);
    }
    true
}

/// Whether `prefix` opens `s`.
pub fn has_prefix(s: &Vec<char>, prefix: &Vec<char>) -> (b: bool)
    ensures
        b == starts_with(s@, prefix@),
{
    let b = matches_at(s, prefix, 0);
    proof {
        if prefix.len() <= s.len() {
            assert(s@.take(prefix.len() as int) == s@.subrange(0, 0 + prefix.len()));
        }
    }
    b
}

/// The first position at or after `from` where `needle` occurs in `s`, if any.
pub fn find_from(s: &Vec<char>, needle: &Vec<char>, from: usize) -> (r: Option<usize>)
    ensures
        match r {
            Some(at) => from <= at && occurs_at(s@, needle@, at as int) && forall|k: int|
                from <= k < at ==> !occurs_at(s@, needle@, k),
            None => forall|k: int| from <= k ==> !occurs_at(s@, needle@, k),
        },
{
    if needle.len() > s.len() {
        return None;
    }
    let last: usize = s.len() - needle.len();
    let mut i: usize = from;
    while i <= last
        invariant
            from <= i,
            last == s.len() - needle.len(),
            needle.len() <= s.len(),
            forall|k: int| from <= k < i ==> !occurs_at(s@, needle@, k),
        decreases last + 1 - i,
    {
        if matches_at(s, needle, i) {
            return Some(i);
        }
        if i == last {
            return None;
        }
        i += 1;
    }
    None
}

/// Whether `needle` occurs somewhere in `s`.
pub fn contains(s: &Vec<char>, needle: &Vec<char>) -> (b: bool)
    ensures
        b == contains_seq(s@, needle@),
{
    match find_from(s, needle, 0) {
        Some(at) => {
            assert(occurs_at(s@, needle@, at as int));
            true
        },
        None => false,
    }
}

/// Whether the character `c` occurs in `s`.
pub fn contains_char(s: &Vec<char>, c: char) -> (b: bool)
    ensures
        b == s@.contains(c),
{
    let mut i: usize = 0;
    while i < s.len()
        invariant
            i <= s.len(),
            forall|k: int| 0 <= k < i ==> s@[k] != c,
        decreases s.len() - i,
    {
        if s[i] == c {
            return true;
        }
        i += 1;
    }
    false
}

/// `text` with `to` written before each character and once more at the end.
pub open spec fn interleaved(text: Seq<char>, to: Seq<char>) -> Seq<char>
    decreases text.len(),
{
    if text.len() == 0 {
        to
    } else {
        to + seq![text[0]] + interleaved(text.skip(1), to)
    }
}

/// `text` with every occurrence of the non-empty `from` replaced by `to`,
/// the occurrences taken from the left and never overlapping.
pub open spec fn replaced_nonempty(text: Seq<char>, from: Seq<char>, to: Seq<char>) -> Seq<char>
    decreases text.len(),
{
    if from.len() == 0 || text.len() < from.len() {
        text
    } else if occurs_at(text, from, 0) {
        to + replaced_nonempty(text.skip(from.len() as int), from, to)
    } else {
        seq![text[0]] + replaced_nonempty(text.skip(1), from, to)
    }
}

/// `text` with every occurrence of `from` replaced by `to`, as
/// `str::replace` does it. An empty `from` occurs before each character
/// and at the end.
pub open spec fn replaced(text: Seq<char>, from: Seq<char>, to: Seq<char>) -> Seq<char> {
    if from.len() == 0 {
        interleaved(text, to)
    } else {
        replaced_nonempty(text, from, to)
    }
}

/// `text` after the replacements `froms[0]` by `tos[0]`, then `froms[1]` by
/// `tos[1]`, and so on up to the first `count` of them, each made on the
/// result of the one before.
pub open spec fn substituted(
    text: Seq<char>,
    froms: Seq<Seq<char>>,
    tos: Seq<Seq<char>>,
    count: nat,
) -> Seq<char>
    decreases count,
{
    if count == 0 {
        text
    } else {
        replaced(
            substituted(text, froms, tos, (count - 1) as nat),
            froms[count - 1],
            tos[count - 1],
        )
    }
}

/// `text` with every occurrence of `from` replaced by `to`.
pub fn replace_str(text: &str, from: &str, to: &str) -> (res: String)
    ensures
        res@ == replaced(text@, from@, to@),
{
    let chars = to_chars(text);
    let needle = to_chars(from);
    let mut res = String::new();
    let mut i: usize = 0;
    proof {
        assert(chars@.skip(0) =~= chars@);
        assert(res@ + interleaved(chars@, to@) =~= interleaved(chars@, to@));
        assert(res@ + replaced_nonempty(chars@, needle@, to@) =~= replaced_nonempty(
            chars@,
            needle@,
            to@,
        ));
    }
    if needle.len() == 0 {
        while i < chars.len()
            invariant
                i <= chars.len(),
                needle@.len() == 0,
                res@ + interleaved(chars@.skip(i as int), to@) == interleaved(chars@, to@),
            decreases chars.len() - i,
        {
            proof {
                assert(chars@.skip(i as int).skip(1) == chars@.skip(i + 1));
                assert(chars@.skip(i as int)[0] == chars@[i as int]);
            }
            let ghost before = res@;
            res.append(to);
            push_char(&mut res, chars[i]);
            proof {
                assert(res@ =~= before + (to@ + seq![chars@[i as int]]));
                assert(interleaved(chars@.skip(i as int), to@) =~= (to@ + seq![chars@[i as int]])
                    + interleaved(chars@.skip(i + 1), to@));
                assert(res@ + interleaved(chars@.skip(i + 1), to@) =~= before + interleaved(
                    chars@.skip(i as int),
                    to@,
                ));
            }
            i += 1;
        }
        proof {
            assert(chars@.skip(chars.len() as int).len() == 0);
        }
        res.append(to);
        return res;
    }
    while i < chars.len()
        invariant
            i <= chars.len(),
            needle@.len() > 0,
            res@ + replaced_nonempty(chars@.skip(i as int), needle@, to@) == replaced_nonempty(
                chars@,
                needle@,
                to@,
            ),
        decreases chars.len() - i,
    {
        let ghost rest = chars@.skip(i as int);
        let ghost before = res@;
        let hit = matches_at(&chars, &needle, i);
        proof {
            if i + needle.len() <= chars.len() {
                assert(rest.subrange(0, needle@.len() as int) =~= chars@.subrange(
                    i as int,
                    i + needle@.len(),
                ));
            }
            assert(hit == occurs_at(rest, needle@, 0));
        }
        if hit {
            res.append(to);
            proof {
                assert(rest.skip(needle@.len() as int) =~= chars@.skip(i + needle@.len()));
                assert(res@ + replaced_nonempty(chars@.skip(i + needle@.len()), needle@, to@)
                    =~= before + replaced_nonempty(rest, needle@, to@));
            }
            i += needle.len();
        } else {
            push_char(&mut res, chars[i]);
            proof {
                assert(rest.skip(1) =~= chars@.skip(i + 1));
                assert(rest[0] == chars@[i as int]);
                if rest.len() < needle@.len() {
                    lemma_short_text_unchanged(rest.skip(1), needle@, to@);
                    assert(seq![rest[0]] + rest.skip(1) =~= rest);
                }
                assert(res@ + replaced_nonempty(chars@.skip(i + 1), needle@, to@) =~= before
                    + replaced_nonempty(rest, needle@, to@));
            }
            i += 1;
        }
    }
    proof {
        assert(chars@.skip(chars.len() as int).len() == 0);
        assert(res@ + Seq::<char>::empty() =~= res@);
    }
    res
}

/// A text shorter than `from` holds no occurrence of it.
pub proof fn lemma_short_text_unchanged(text: Seq<char>, from: Seq<char>, to: Seq<char>)
    requires
        text.len() < from.len(),
    ensures
        replaced_nonempty(text, from, to) == text,
{
}

/// `text` after the replacements `froms[i]` by `tos[i]`, made one after
/// another.
pub fn substitute(text: &str, froms: &Vec<String>, tos: &Vec<String>) -> (res: String)
    requires
        froms@.len() == tos@.len(),
    ensures
        res@ == substituted(text@, views(froms@), views(tos@), froms@.len()),
{
    let mut res = String::from_str(text);
    let mut i: usize = 0;
    while i < froms.len()
        invariant
            i <= froms.len(),
            froms@.len() == tos@.len(),
            res@ == substituted(text@, views(froms@), views(tos@), i as nat),
        decreases froms.len() - i,
    {
        res = replace_str(res.as_str(), froms[i].as_str(), tos[i].as_str());
        i += 1;
    }
    res
}

} // verus!
