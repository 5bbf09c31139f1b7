use slack_coder::pattern::{find_all, replace_all, weave, Rewrite, BOLD, CODE_BLOCK, H2};
use slack_coder::slack::markdown::{
    clean_newlines, convert_bold, convert_headers, format_urls, make_placeholders, protect,
    restore,
};
use slack_coder::slack::markdown_to_slack;
use slack_coder::slack::table::{convert_tables, parse_row};
use slack_coder::split::{lines, trim};
use slack_coder::text::{replace_str, substitute};

#[test]
fn test_convert_bold() {
    let result = markdown_to_slack("**bold**");
    assert!(result.contains("*bold*"));

    let result = markdown_to_slack("This is **bold** text");
    assert!(result.contains("*bold*"));
}

#[test]
fn test_convert_headers() {
    let input = "## Header\nSome text";
    let output = markdown_to_slack(input);
    assert!(output.contains("*Header*"));
}

#[test]
fn test_preserve_code() {
    let result = markdown_to_slack("`code`");
    assert!(result.contains("`code`"));

    let result = markdown_to_slack("```rust\ncode\n```");
    assert!(result.contains("```"));
    assert!(result.contains("code"));
}

#[test]
fn test_example_text() {
    let input = "This repository implements **http-tunnel**\n## What it does:\nSome text";
    let output = markdown_to_slack(input);
    assert!(output.contains("*http-tunnel*"));
    assert!(output.contains("*What it does:*"));
}

#[test]
fn test_convert_h4_headers() {
    let input = "#### Section Title\nContent here";
    let output = markdown_to_slack(input);
    assert!(output.contains("*Section Title*"));
}

#[test]
fn test_convert_h5_h6_headers() {
    let h5_input = "##### Subsection";
    let h5_output = markdown_to_slack(h5_input);
    assert!(h5_output.contains("_Subsection_"));

    let h6_input = "###### Minor heading";
    let h6_output = markdown_to_slack(h6_input);
    assert!(h6_output.contains("_Minor heading_"));
}

#[test]
fn test_table_formatting() {
    let input = "| Header 1 | Header 2 |\n|----------|----------|\n| Cell 1   | Cell 2   |\n| Cell 3   | Cell 4   |";
    let output = markdown_to_slack(input);
    assert!(output.contains("```"));
    assert!(output.contains("Header 1"));
    assert!(output.contains("Header 2"));
    assert!(output.contains("Cell 1"));
    assert!(output.contains("Cell 4"));
}

#[test]
fn test_table_with_emojis() {
    let input = "| Feature | Status |\n|---------|--------|\n| Auth | :white_check_mark: |\n| Cache | :x: |";
    let output = markdown_to_slack(input);
    assert!(output.contains("Feature"));
    assert!(output.contains("Status"));
    assert!(output.contains(":white_check_mark:"));
    assert!(output.contains(":x:"));
}

#[test]
fn test_url_wrapped_in_angles() {
    let input = "https://github.com/user/repo/pull/1";
    let output = markdown_to_slack(input);
    assert!(output.contains("<https://github.com/user/repo/pull/1>"));
}

#[test]
fn test_bold_url_not_broken() {
    let input = "**https://github.com/user/repo/pull/1**";
    let output = markdown_to_slack(input);
    assert!(output.contains("<https://github.com/user/repo/pull/1>"));
    assert!(!output.contains("*https://"));
}

#[test]
fn test_markdown_link_conversion() {
    let input = "[Pull Request](https://github.com/user/repo/pull/1)";
    let output = markdown_to_slack(input);
    println!("Input: {}", input);
    println!("Output: {}", output);
    assert!(output.contains("<https://github.com/user/repo/pull/1|Pull Request>"));
}

#[test]
fn test_bold_text_with_url() {
    let input = "Check **this link** at https://example.com for details";
    let output = markdown_to_slack(input);
    assert!(output.contains("*this link*"));
    assert!(output.contains("<https://example.com>"));
}

#[test]
fn test_url_in_code_not_wrapped() {
    let input = "Use `https://example.com` in your code";
    let output = markdown_to_slack(input);
    assert!(output.contains("`https://example.com`"));
    assert!(!output.contains("<https://example.com>"));
}

#[test]
fn exact_outputs_of_the_whole_conversion() {
    assert_eq!(markdown_to_slack(""), "");
    assert_eq!(markdown_to_slack("plain"), "plain");
    assert_eq!(markdown_to_slack("**bold**"), "*bold*");
    assert_eq!(markdown_to_slack("# Title\ntext"), "\n\n*Title*\ntext");
    assert_eq!(markdown_to_slack("## Header\nSome text"), "\n*Header*\nSome text");
    assert_eq!(markdown_to_slack("### H3"), "*H3*");
    assert_eq!(markdown_to_slack("##### H5"), "_H5_");
    assert_eq!(markdown_to_slack("a\n\n\n\n\nb"), "a\n\nb");
    assert_eq!(markdown_to_slack("line one\r\nline two\n"), "line one\nline two");
    assert_eq!(
        markdown_to_slack("see [docs](https://x.io/a) and https://y.io"),
        "see <https://x.io/a|docs> and <https://y.io>"
    );
    assert_eq!(markdown_to_slack("```\n**not bold**\n```"), "```\n**not bold**\n```");
}

#[test]
fn table_is_written_with_aligned_columns() {
    let input = "| A | Long |\n|---|---|\n| xx | y |";
    assert_eq!(
        convert_tables(input),
        "```\nA  │ Long\n───┼─────\nxx │ y   \n```"
    );
    assert_eq!(
        convert_tables("before\n| A | B |\n|---|---|\nafter"),
        "before\n```\nA │ B\n──┼──\n```\nafter"
    );
    assert_eq!(convert_tables("a | b\nno table"), "a | b\nno table");
    assert_eq!(
        convert_tables("| A |\n|---|\n| é | ü | z |"),
        "```\nA \n──\né  │ ü  │ z\n```"
    );
}

#[test]
fn row_cells_are_trimmed_and_empty_ones_dropped() {
    let line: Vec<char> = "|  a | | b  |".chars().collect();
    assert_eq!(parse_row(&line), vec!["a".to_string(), "b".to_string()]);
    let blank: Vec<char> = " \t\u{a0} ".chars().collect();
    assert_eq!(trim(&blank), "");
    let padded: Vec<char> = "\n x y \r".chars().collect();
    assert_eq!(trim(&padded), "x y");
}

#[test]
fn lines_follow_the_standard_library() {
    for text in ["", "a", "a\n", "a\nb", "a\r\nb\r\n", "a\rb", "\n\n", "x\r", "\r\n"] {
        let ours: Vec<String> = lines(text).iter().map(|l| l.iter().collect()).collect();
        let theirs: Vec<String> = text.lines().map(|l| l.to_string()).collect();
        assert_eq!(ours, theirs, "for {:?}", text);
    }
}

#[test]
fn replace_follows_the_standard_library() {
    for (text, from, to) in [
        ("aaa", "aa", "b"),
        ("abcabc", "bc", ""),
        ("abc", "", "-"),
        ("", "", "x"),
        ("", "a", "x"),
        ("hello", "l", "LL"),
        ("__CODE_BLOCK_10__", "__CODE_BLOCK_1", "?"),
    ] {
        assert_eq!(replace_str(text, from, to), text.replace(from, to));
    }
    let froms = vec!["a".to_string(), "b".to_string()];
    let tos = vec!["b".to_string(), "c".to_string()];
    assert_eq!(substitute("ab", &froms, &tos), "cc");
}

#[test]
fn matches_are_found_and_rewritten() {
    assert_eq!(
        find_all(CODE_BLOCK, "a ```x``` b ```y```"),
        vec!["```x```".to_string(), "```y```".to_string()]
    );
    assert_eq!(replace_all(BOLD, "a **b** c **d**", &Rewrite::Strong), "a *b* c *d*");
    assert_eq!(
        replace_all(BOLD, "**see http://x**", &Rewrite::Strong),
        "see http://x"
    );
    assert_eq!(
        replace_all(H2, "## One\n## Two", &Rewrite::Wrap { before: "[", after: "]" }),
        "[One]\n[Two]"
    );
    assert_eq!(replace_all(BOLD, "none", &Rewrite::Fixed { text: "x" }), "none");
    let gaps = vec!["a".to_string(), "b".to_string(), "c".to_string()];
    let matches = vec![
        vec![Some("**x**".to_string()), Some("x".to_string())],
        vec![Some("**y**".to_string()), None],
    ];
    assert_eq!(weave(&gaps, &matches, &Rewrite::Wrap { before: "<", after: ">" }), "a<x>b<>c");
    assert_eq!(weave(&gaps, &matches, &Rewrite::Fixed { text: "-" }), "a-b-c");
}

#[test]
fn code_is_protected_and_restored() {
    let blocks = vec!["```a```".to_string(), "`b`".to_string()];
    assert_eq!(
        make_placeholders("CODE_BLOCK", 2),
        vec!["__CODE_BLOCK_0__".to_string(), "__CODE_BLOCK_1__".to_string()]
    );
    let hidden = protect("x ```a``` y `b`", &blocks, "T");
    assert_eq!(hidden, "x __T_0__ y __T_1__");
    assert_eq!(restore(&hidden, &blocks, "T"), "x ```a``` y `b`");
    assert_eq!(convert_bold("**a** ```**b**```"), "*a* ```**b**```");
    assert_eq!(convert_headers("###### six"), "_six_");
    assert_eq!(format_urls("<https://a.b> `https://c.d` https://e.f"), "<https://a.b> `https://c.d` <https://e.f>");
    assert_eq!(clean_newlines("a\n\n\nb\n\nc"), "a\n\nb\n\nc");
}
