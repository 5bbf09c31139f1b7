//! Regular expressions: the patterns the crate searches for, what the
//! search hands back, and how matches are replaced.
//!
//! The search itself is the `regex` crate's. What it finds in a text is
//! known here only by name: `regex_gaps` for the stretches between the
//! matches, `regex_groups` for the capture groups of each match. What is
//! built from the two is specified exactly.

use vstd::prelude::*;
use vstd::string::*;
use regex::Regex;
use crate::text::{contains, contains_seq, to_chars, views};

verus! {

pub const H6: &'static str = "(?m)^######\\s+(.+)$";

pub const H5: &'static str = "(?m)^#####\\s+(.+)$";

pub const H4: &'static str = "(?m)^####\\s+(.+)$";

pub const H3: &'static str = "(?m)^###\\s+(.+)$";

pub const H2: &'static str = "(?m)^##\\s+(.+)$";

pub const H1: &'static str = "(?m)^#\\s+(.+)$";

pub const CODE_BLOCK: &'static str = "```[\\s\\S]*?```";

pub const INLINE_CODE: &'static str = "`[^`]+`";

pub const BOLD_URL: &'static str = "\\*\\*(https?://[^\\s\\*]+)\\*\\*";

pub const BOLD: &'static str = "\\*\\*([^\\*]+)\\*\\*";

pub const MARKDOWN_LINK: &'static str = "\\[([^\\]]+)\\]\\((https?://[^\\)]+)\\)";

pub const SLACK_LINK: &'static str = "<https?://[^>]+>";

pub const BARE_URL: &'static str = "(https?://[^\\s<>]+)";

pub const BLANK_LINES: &'static str = "\\n{3,}";

/// Whether `pattern` is one of the patterns above: each of them is a
/// regular expression that compiles.
pub open spec fn is_pattern(pattern: Seq<char>) -> bool {
    pattern == H6@ || pattern == H5@ || pattern == H4@ || pattern == H3@ || pattern == H2@
        || pattern == H1@ || pattern == CODE_BLOCK@ || pattern == INLINE_CODE@ || pattern
        == BOLD_URL@ || pattern == BOLD@ || pattern == MARKDOWN_LINK@ || pattern == SLACK_LINK@
        || pattern == BARE_URL@ || pattern == BLANK_LINES@
}

/// The stretches of `text` that no match of `pattern` covers, in order:
/// what stands before the first match, between each two neighbours, and
/// after the last.
pub uninterp spec fn regex_gaps(pattern: Seq<char>, text: Seq<char>) -> Seq<Seq<char>>;

/// The matches of `pattern` in `text`, in order and never overlapping,
/// each as its capture groups: group 0 is the whole match, and a group
/// that took no part in the match is `None`.
pub uninterp spec fn regex_groups(pattern: Seq<char>, text: Seq<char>) -> Seq<
    Seq<Option<Seq<char>>>,
>;

/// The stretches of `text` between the matches of `pattern`.
///
/// Trusted: `Regex::new` compiles each of the crate's patterns, and
/// `Regex::split` yields the parts of the text that the matches delimit,
/// one more than there are matches, the matches being those that
/// `Regex::captures_iter` yields.
#[verifier::external_body]
pub(crate) fn regex_split(pattern: &str, text: &str) -> (gaps: Vec<String>)
    requires
        is_pattern(pattern@),
    ensures
        views(gaps@) == regex_gaps(pattern@, text@),
        gaps@.len() == regex_groups(pattern@, text@).len() + 1,
{
    Regex::new(pattern).unwrap().split(text).map(|gap| gap.to_string()).collect()
}

/// The capture groups of each match of `pattern` in `text`.
///
/// Trusted: `Regex::new` compiles each of the crate's patterns, and
/// `Regex::captures_iter` yields the successive non-overlapping matches
/// with their groups.
#[verifier::external_body]
pub(crate) fn regex_captures(pattern: &str, text: &str) -> (groups: Vec<Vec<Option<String>>>)
    requires
        is_pattern(pattern@),
    ensures
        groups.deep_view() == regex_groups(pattern@, text@),
{
    Regex::new(pattern).unwrap().captures_iter(text).map(
        |found| found.iter().map(|group| group.map(|m| m.as_str().to_string())).collect(),
    ).collect()
}

/// What a match is replaced by.
#[derive(Debug, Clone, Copy)]
pub enum Rewrite<'a> {
    /// The first group between `before` and `after`.
    Wrap { before: &'a str, after: &'a str },
    /// The first group between asterisks, or bare where it holds a web
    /// address.
    Strong,
    /// Always `text`.
    Fixed { text: &'a str },
}

/// The text of group `i`, empty where the match has no such group.
pub open spec fn group_text(groups: Seq<Option<Seq<char>>>, i: int) -> Seq<char> {
    if 0 <= i < groups.len() {
        match groups[i] {
            Some(text) => text,
            None => Seq::empty(),
        }
    } else {
        Seq::empty()
    }
}

/// Whether `text` holds the opening of a web address.
pub open spec fn mentions_url(text: Seq<char>) -> bool {
    contains_seq(text, "http://"@) || contains_seq(text, "https://"@)
}

/// What the match with the given groups is replaced by.
pub open spec fn rewritten(rule: Rewrite, groups: Seq<Option<Seq<char>>>) -> Seq<char> {
    match rule {
        Rewrite::Wrap { before, after } => before@ + group_text(groups, 1) + after@,
        Rewrite::Strong => if mentions_url(group_text(groups, 1)) {
            group_text(groups, 1)
        } else {
            "*"@ + group_text(groups, 1) + "*"@
        },
        Rewrite::Fixed { text } => text@,
    }
}

/// Element `i` of `parts`, empty where there is none.
pub open spec fn piece(parts: Seq<Seq<char>>, i: int) -> Seq<char> {
    if 0 <= i < parts.len() {
        parts[i]
    } else {
        Seq::empty()
    }
}

/// The first gap, then `count` times a rewritten match and the gap after
/// it.
pub open spec fn woven(
    gaps: Seq<Seq<char>>,
    matches: Seq<Seq<Option<Seq<char>>>>,
    rule: Rewrite,
    count: nat,
) -> Seq<char>
    decreases count,
{
    if count == 0 {
        piece(gaps, 0)
    } else {
        woven(gaps, matches, rule, (count - 1) as nat) + rewritten(rule, matches[count - 1])
            + piece(gaps, count as int)
    }
}

/// `text` with each match of `pattern` replaced as `rule` says.
pub open spec fn replace_matches(pattern: Seq<char>, text: Seq<char>, rule: Rewrite) -> Seq<char> {
    woven(
        regex_gaps(pattern, text),
        regex_groups(pattern, text),
        rule,
        regex_groups(pattern, text).len(),
    )
}

/// The whole text of each match.
pub open spec fn whole_matches(matches: Seq<Seq<Option<Seq<char>>>>) -> Seq<Seq<char>> {
    Seq::new(matches.len(), |i: int| group_text(matches[i], 0))
}

/// The text of group `i` of a match.
pub fn group(groups: &Vec<Option<String>>, i: usize) -> (res: String)
    ensures
        res@ == group_text(groups.deep_view(), i as int),
{
    if i < groups.len() {
        match &groups[i] {
            Some(text) => {
                assert(groups.deep_view()[i as int] == Some(text@));
                text.clone()
            },
            None => {
                assert(groups.deep_view()[i as int] == None::<Seq<char>>);
                String::new()
            },
        }
    } else {
        String::new()
    }
}

/// What the match with the given groups is replaced by.
pub fn rewrite(rule: &Rewrite, groups: &Vec<Option<String>>) -> (res: String)
    ensures
        res@ == rewritten(*rule, groups.deep_view()),
{
    match rule {
        Rewrite::Wrap { before, after } => {
            let mut res = String::from_str(before);
            res.append(group(groups, 1).as_str());
            res.append(after);
            res
        },
        Rewrite::Strong => {
            let inner = group(groups, 1);
            let chars = to_chars(inner.as_str());
            if contains(&chars, &to_chars("http://")) || contains(&chars, &to_chars("https://")) {
                inner
            } else {
                let mut res = String::from_str("*");
                res.append(inner.as_str());
                res.append("*");
                res
            }
        },
        Rewrite::Fixed { text } => String::from_str(text),
    }
}

/// Puts a text together again from its gaps and its matches, each match
/// rewritten as `rule` says.
pub fn weave(gaps: &Vec<String>, matches: &Vec<Vec<Option<String>>>, rule: &Rewrite) -> (res:
    String)
    ensures
        res@ == woven(views(gaps@), matches.deep_view(), *rule, matches@.len()),
{
    let mut res = String::new();
    if gaps.len() > 0 {
        res.append(gaps[0].as_str());
    }
    let mut k: usize = 0;
    while k < matches.len()
        invariant
            k <= matches.len(),
            res@ == woven(views(gaps@), matches.deep_view(), *rule, k as nat),
        decreases matches.len() - k,
    {
        assert(matches.deep_view()[k as int] == matches@[k as int].deep_view());
        res.append(rewrite(rule, &matches[k]).as_str());
        if k + 1 < gaps.len() {
            res.append(gaps[k + 1].as_str());
        }
        k += 1;
    }
    res
}

/// `text` with each match of `pattern` replaced as `rule` says.
pub fn replace_all(pattern: &str, text: &str, rule: &Rewrite) -> (res: String)
    requires
        is_pattern(pattern@),
    ensures
        res@ == replace_matches(pattern@, text@, *rule),
{
    let gaps = regex_split(pattern, text);
    let matches = regex_captures(pattern, text);
    weave(&gaps, &matches, rule)
}

/// The whole text of each match of `pattern` in `text`.
pub fn find_all(pattern: &str, text: &str) -> (res: Vec<String>)
    requires
        is_pattern(pattern@),
    ensures
        views(res@) == whole_matches(regex_groups(pattern@, text@)),
{
    let matches = regex_captures(pattern, text);
    let mut res: Vec<String> = Vec::new();
    let mut k: usize = 0;
    while k < matches.len()
        invariant
            k <= matches.len(),
            res@.len() == k,
            forall|j: int|
                0 <= j < k ==> (#[trigger] res@[j])@ == group_text(matches.deep_view()[j], 0),
        decreases matches.len() - k,
    {
        assert(matches.deep_view()[k as int] == matches@[k as int].deep_view());
        res.push(group(&matches[k], 0));
        k += 1;
    }
    assert(views(res@) =~= whole_matches(matches.deep_view()));
    res
}

} // verus!
