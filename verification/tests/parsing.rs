use dora_mcp_gateway::parser::{parse_tool_calls, split_lines_exec, starts_with, trim};

#[test]
fn single_block_extracts_one_call() {
    let calls = parse_tool_calls("Tool: search\nInputs:\nquery=cats");
    assert_eq!(calls.len(), 1);
    assert_eq!(calls[0].name, "search");
    assert_eq!(calls[0].arguments, "query=cats");
}

#[test]
fn two_blocks_extract_two_calls_in_source_order() {
    let text = "Tool: first\nInputs:\na=1\nTool: second\nInputs:\nb=2";
    let calls = parse_tool_calls(text);
    assert_eq!(calls.len(), 2);
    assert_eq!(calls[0].name, "first");
    assert_eq!(calls[0].arguments, "a=1");
    assert_eq!(calls[1].name, "second");
    assert_eq!(calls[1].arguments, "b=2");
}

#[test]
fn text_without_markers_extracts_nothing() {
    assert!(parse_tool_calls("just some prose\nwith two lines").is_empty());
    assert!(parse_tool_calls("").is_empty());
}

#[test]
fn inputs_without_tool_is_ignored() {
    let calls = parse_tool_calls("Inputs:\nstray=1\nTool: late\nInputs:\nx=2");
    assert_eq!(calls.len(), 1);
    assert_eq!(calls[0].name, "late");
    assert_eq!(calls[0].arguments, "x=2");
}

#[test]
fn tool_without_inputs_has_empty_arguments() {
    let calls = parse_tool_calls("Tool: bare");
    assert_eq!(calls.len(), 1);
    assert_eq!(calls[0].name, "bare");
    assert_eq!(calls[0].arguments, "");
}

#[test]
fn argument_lines_are_trimmed_and_joined_with_newlines() {
    let calls = parse_tool_calls("Tool: t\nInputs:\n  a=1  \n\tb=2\nc=3");
    assert_eq!(calls.len(), 1);
    assert_eq!(calls[0].arguments, "a=1\nb=2\nc=3");
}

#[test]
fn trimming_covers_unicode_whitespace_like_str_trim() {
    // padded with no-break spaces and an em quad, which str::trim removes
    let text = "Tool: \u{a0}padded\u{2003}\nInputs:\n\u{a0}v=1\u{a0}";
    let calls = parse_tool_calls(text);
    assert_eq!(calls.len(), 1);
    assert_eq!(calls[0].name, "padded");
    assert_eq!(calls[0].arguments, "v=1");
    assert_eq!(trim("\u{a0}x\u{a0}"), "\u{a0}x\u{a0}".trim());
    assert_eq!(trim("\u{2028}\u{3000}y\u{205f}"), "y");
}

#[test]
fn tool_name_is_trimmed() {
    let calls = parse_tool_calls("Tool:   spaced name  \nInputs:\nv=1");
    assert_eq!(calls[0].name, "spaced name");
}

#[test]
fn lines_between_tool_and_inputs_are_not_arguments() {
    let calls = parse_tool_calls("Tool: t\nignored line\nInputs:\nkept=1");
    assert_eq!(calls.len(), 1);
    assert_eq!(calls[0].arguments, "kept=1");
}

#[test]
fn second_inputs_marker_continues_the_block() {
    let calls = parse_tool_calls("Tool: t\nInputs:\na=1\nInputs:\nb=2");
    assert_eq!(calls.len(), 1);
    assert_eq!(calls[0].arguments, "a=1\nb=2");
}

#[test]
fn split_lines_keeps_empty_lines() {
    let lines = split_lines_exec("a\n\nb\n");
    assert_eq!(lines, vec!["a", "", "b", ""]);
    assert_eq!(split_lines_exec(""), vec![""]);
}

#[test]
fn trim_removes_spacing_at_both_ends() {
    assert_eq!(trim("  x y \t"), "x y");
    assert_eq!(trim("\r\n"), "");
    assert_eq!(trim("plain"), "plain");
}

#[test]
fn starts_with_checks_prefixes() {
    assert!(starts_with("Tool: a", "Tool:"));
    assert!(!starts_with("tool: a", "Tool:"));
    assert!(!starts_with("Too", "Tool:"));
}
