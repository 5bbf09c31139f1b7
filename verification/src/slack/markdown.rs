//! From Markdown to the chat platform's own markup.
//!
//! Headings become bold or italic lines, `**bold**` becomes `*bold*`,
//! links become `<url|text>`, bare web addresses are put in angle brackets,
//! tables become aligned text in a code block, and runs of blank lines are
//! cut down to one. Code is left alone.

use vstd::prelude::*;
use vstd::string::*;
use crate::pattern::{
    find_all, group, group_text, regex_captures, regex_groups, replace_all, replace_matches,
    whole_matches, Rewrite, BARE_URL, BLANK_LINES, BOLD, BOLD_URL, CODE_BLOCK, H1, H2, H3, H4,
    H5, H6, INLINE_CODE, MARKDOWN_LINK, SLACK_LINK,
};
use crate::slack::table::{convert_tables, tables_converted};
use crate::text::{decimal, push_decimal, substitute, substituted, views};

verus! {

/// The stand-in for the protected stretch number `i` of the kind `tag`.
pub open spec fn placeholder(tag: Seq<char>, i: nat) -> Seq<char> {
    "__"@ + tag + "_"@ + decimal(i) + "__"@
}

/// The stand-ins number `0` to `count - 1`.
pub open spec fn placeholders(tag: Seq<char>, count: nat) -> Seq<Seq<char>> {
    Seq::new(count, |i: int| placeholder(tag, i as nat))
}

/// `text` with each of the `blocks` replaced by its stand-in, one block
/// after the other.
pub open spec fn hidden(text: Seq<char>, blocks: Seq<Seq<char>>, tag: Seq<char>) -> Seq<char> {
    substituted(text, blocks, placeholders(tag, blocks.len()), blocks.len())
}

/// `text` with each stand-in replaced by its block again, one after the
/// other.
pub open spec fn shown(text: Seq<char>, blocks: Seq<Seq<char>>, tag: Seq<char>) -> Seq<char> {
    substituted(text, placeholders(tag, blocks.len()), blocks, blocks.len())
}

/// Headings turned into emphasised lines: levels six and five italic, the
/// others bold, level two after a blank line and level one after two.
pub open spec fn headers_converted(text: Seq<char>) -> Seq<char> {
    let h6 = replace_matches(H6@, text, Rewrite::Wrap { before: "_", after: "_" });
    let h5 = replace_matches(H5@, h6, Rewrite::Wrap { before: "_", after: "_" });
    let h4 = replace_matches(H4@, h5, Rewrite::Wrap { before: "*", after: "*" });
    let h3 = replace_matches(H3@, h4, Rewrite::Wrap { before: "*", after: "*" });
    let h2 = replace_matches(H2@, h3, Rewrite::Wrap { before: "\n*", after: "*" });
    replace_matches(H1@, h2, Rewrite::Wrap { before: "\n\n*", after: "*" })
}

/// The code blocks of `text`.
pub open spec fn code_blocks(text: Seq<char>) -> Seq<Seq<char>> {
    whole_matches(regex_groups(CODE_BLOCK@, text))
}

/// `**bold**` turned into `*bold*` outside code blocks. A bold web
/// address, and bold text that holds one, loses its asterisks altogether.
pub open spec fn bold_converted(text: Seq<char>) -> Seq<char> {
    let without_code = hidden(text, code_blocks(text), "CODE_BLOCK"@);
    let urls = replace_matches(BOLD_URL@, without_code, Rewrite::Wrap { before: "", after: "" });
    let bold = replace_matches(BOLD@, urls, Rewrite::Strong);
    shown(bold, code_blocks(text), "CODE_BLOCK"@)
}

/// What the link with the given groups becomes: address, bar, label, in
/// angle brackets.
pub open spec fn slack_link(groups: Seq<Option<Seq<char>>>) -> Seq<char> {
    "<"@ + group_text(groups, 2) + "|"@ + group_text(groups, 1) + ">"@
}

/// The platform's form of each link.
pub open spec fn slack_links(links: Seq<Seq<Option<Seq<char>>>>) -> Seq<Seq<char>> {
    Seq::new(links.len(), |i: int| slack_link(links[i]))
}

/// Links put in the platform's form and bare web addresses in angle
/// brackets, outside code blocks and inline code.
pub open spec fn urls_formatted(text: Seq<char>) -> Seq<char> {
    let blocks = code_blocks(text);
    let without_blocks = hidden(text, blocks, "CODE_BLOCK"@);
    let inline = whole_matches(regex_groups(INLINE_CODE@, without_blocks));
    let without_code = hidden(without_blocks, inline, "INLINE_CODE"@);
    let links = regex_groups(MARKDOWN_LINK@, without_code);
    let linked = substituted(without_code, whole_matches(links), slack_links(links), links.len());
    let done = whole_matches(regex_groups(SLACK_LINK@, linked));
    let without_links = hidden(linked, done, "SLACK_LINK"@);
    let wrapped = replace_matches(
        BARE_URL@,
        without_links,
        Rewrite::Wrap { before: "<", after: ">" },
    );
    shown(
        shown(shown(wrapped, done, "SLACK_LINK"@), inline, "INLINE_CODE"@),
        blocks,
        "CODE_BLOCK"@,
    )
}

/// Three or more line ends in a row cut down to two.
pub open spec fn newlines_cleaned(text: Seq<char>) -> Seq<char> {
    replace_matches(BLANK_LINES@, text, Rewrite::Fixed { text: "\n\n" })
}

/// The whole conversion: tables, headings, bold, links, blank lines, in
/// this order.
pub open spec fn slack_markup(text: Seq<char>) -> Seq<char> {
    newlines_cleaned(urls_formatted(bold_converted(headers_converted(tables_converted(text)))))
}

/// The stand-ins number `0` to `count - 1` of the kind `tag`.
pub fn make_placeholders(tag: &str, count: usize) -> (res: Vec<String>)
    ensures
        res@.len() == count,
        views(res@) == placeholders(tag@, count as nat),
{
    let mut res: Vec<String> = Vec::new();
    let mut i: usize = 0;
    while i < count
        invariant
            i <= count,
            res@.len() == i,
            forall|j: int| 0 <= j < i ==> (#[trigger] res@[j])@ == placeholder(tag@, j as nat),
        decreases count - i,
    {
        let mut name = String::from_str("__");
        name.append(tag);
        name.append("_");
        push_decimal(&mut name, i as u128);
        name.append("__");
        res.push(name);
        i += 1;
    }
    assert(views(res@) =~= placeholders(tag@, count as nat));
    res
}

/// Replaces each block by its stand-in.
pub fn protect(text: &str, blocks: &Vec<String>, tag: &str) -> (res: String)
    ensures
        res@ == hidden(text@, views(blocks@), tag@),
{
    let names = make_placeholders(tag, blocks.len());
    substitute(text, blocks, &names)
}

/// Replaces each stand-in by its block.
pub fn restore(text: &str, blocks: &Vec<String>, tag: &str) -> (res: String)
    ensures
        res@ == shown(text@, views(blocks@), tag@),
{
    let names = make_placeholders(tag, blocks.len());
    substitute(text, &names, blocks)
}

/// Turns headings into emphasised lines.
pub fn convert_headers(text: &str) -> (res: String)
    ensures
        res@ == headers_converted(text@),
{
    let italic = Rewrite::Wrap { before: "_", after: "_" };
    let bold = Rewrite::Wrap { before: "*", after: "*" };
    let h6 = replace_all(H6, text, &italic);
    let h5 = replace_all(H5, h6.as_str(), &italic);
    let h4 = replace_all(H4, h5.as_str(), &bold);
    let h3 = replace_all(H3, h4.as_str(), &bold);
    let h2 = replace_all(H2, h3.as_str(), &Rewrite::Wrap { before: "\n*", after: "*" });
    replace_all(H1, h2.as_str(), &Rewrite::Wrap { before: "\n\n*", after: "*" })
}

/// Turns `**bold**` into `*bold*`, outside code blocks.
pub fn convert_bold(text: &str) -> (res: String)
    ensures
        res@ == bold_converted(text@),
{
    let blocks = find_all(CODE_BLOCK, text);
    let without_code = protect(text, &blocks, "CODE_BLOCK");
    let urls = replace_all(
        BOLD_URL,
        without_code.as_str(),
        &Rewrite::Wrap { before: "", after: "" },
    );
    let bold = replace_all(BOLD, urls.as_str(), &Rewrite::Strong);
    restore(bold.as_str(), &blocks, "CODE_BLOCK")
}

/// The platform's form of each link, and the text each was found as.
pub fn link_rewrites(links: &Vec<Vec<Option<String>>>) -> (res: (Vec<String>, Vec<String>))
    ensures
        res.0@.len() == links@.len(),
        res.1@.len() == links@.len(),
        views(res.0@) == whole_matches(links.deep_view()),
        views(res.1@) == slack_links(links.deep_view()),
{
    let mut froms: Vec<String> = Vec::new();
    let mut tos: Vec<String> = Vec::new();
    let mut k: usize = 0;
    while k < links.len()
        invariant
            k <= links.len(),
            froms@.len() == k,
            tos@.len() == k,
            forall|j: int|
                0 <= j < k ==> (#[trigger] froms@[j])@ == group_text(links.deep_view()[j], 0),
            forall|j: int| 0 <= j < k ==> (#[trigger] tos@[j])@ == slack_link(links.deep_view()[j]),
        decreases links.len() - k,
    {
        assert(links.deep_view()[k as int] == links@[k as int].deep_view());
        froms.push(group(&links[k], 0));
        let mut link = String::from_str("<");
        link.append(group(&links[k], 2).as_str());
        link.append("|");
        link.append(group(&links[k], 1).as_str());
        link.append(">");
        tos.push(link);
        k += 1;
    }
    assert(views(froms@) =~= whole_matches(links.deep_view()));
    assert(views(tos@) =~= slack_links(links.deep_view()));
    (froms, tos)
}

/// Puts links in the platform's form and bare web addresses in angle
/// brackets, outside code.
pub fn format_urls(text: &str) -> (res: String)
    ensures
        res@ == urls_formatted(text@),
{
    let blocks = find_all(CODE_BLOCK, text);
    let without_blocks = protect(text, &blocks, "CODE_BLOCK");
    let inline = find_all(INLINE_CODE, without_blocks.as_str());
    let without_code = protect(without_blocks.as_str(), &inline, "INLINE_CODE");
    let links = regex_captures(MARKDOWN_LINK, without_code.as_str());
    let (froms, tos) = link_rewrites(&links);
    let linked = substitute(without_code.as_str(), &froms, &tos);
    let done = find_all(SLACK_LINK, linked.as_str());
    let without_links = protect(linked.as_str(), &done, "SLACK_LINK");
    let wrapped = replace_all(
        BARE_URL,
        without_links.as_str(),
        &Rewrite::Wrap { before: "<", after: ">" },
    );
    let with_links = restore(wrapped.as_str(), &done, "SLACK_LINK");
    let with_inline = restore(with_links.as_str(), &inline, "INLINE_CODE");
    restore(with_inline.as_str(), &blocks, "CODE_BLOCK")
}

/// Cuts three or more line ends in a row down to two.
pub fn clean_newlines(text: &str) -> (res: String)
    ensures
        res@ == newlines_cleaned(text@),
{
    replace_all(BLANK_LINES, text, &Rewrite::Fixed { text: "\n\n" })
}

/// Converts Markdown to the chat platform's markup.
pub fn markdown_to_slack(text: &str) -> (res: String)
    ensures
        res@ == slack_markup(text@),
{
    let tables = convert_tables(text);
    let headers = convert_headers(tables.as_str());
    let bold = convert_bold(headers.as_str());
    let urls = format_urls(bold.as_str());
    clean_newlines(urls.as_str())
}

} // verus!
