use py_tokenizer::{tokenize, ErrorKind, TokenInfo, TokenKind, VersionProfile};

fn names(tokens: &[TokenInfo]) -> Vec<String> {
    tokens.iter().map(|t| t.token_text.clone()).collect()
}

fn pairs(tokens: &[TokenInfo]) -> Vec<(String, String)> {
    tokens.iter().map(|t| (t.token_text.clone(), t.string.clone())).collect()
}

fn pair(name: &str, text: &str) -> (String, String) {
    (name.to_string(), text.to_string())
}

#[test]
fn check_token_stream() {
    let stream = tokenize("#test comment
def foo():
    pass
", VersionProfile::V38).unwrap();
    println!("tokens: {:?}", stream);
    assert_eq!(stream[0].token_text, "ENCODING");
    let result = &stream[1..];
    assert_eq!(result[0].token_text, "COMMENT");
    assert_eq!(result[1].token_text, "NL");
    assert_eq!(result[2].token_text, "NAME");
    assert_eq!(result[3].token_text, "NAME");
    assert_eq!(result[4].token_text, "OP");
    assert_eq!(result[5].token_text, "OP");
    assert_eq!(result[6].token_text, "OP");
    assert_eq!(result[7].token_text, "NEWLINE");
    assert_eq!(result[8].token_text, "INDENT");
    assert_eq!(result[9].token_text, "NAME");
    assert_eq!(result[10].token_text, "NEWLINE");
    assert_eq!(result[11].token_text, "DEDENT");
    assert_eq!(result[12].token_text, "ENDMARKER");
    assert_eq!(result.len(), 13);
}

#[test]
fn function_definition_stream() {
    let stream = tokenize("def foo():\n    pass\n", VersionProfile::V310).unwrap();
    assert_eq!(
        pairs(&stream),
        vec![
            pair("ENCODING", "utf-8"),
            pair("NAME", "def"),
            pair("NAME", "foo"),
            pair("OP", "("),
            pair("OP", ")"),
            pair("OP", ":"),
            pair("NEWLINE", "\n"),
            pair("INDENT", ""),
            pair("NAME", "pass"),
            pair("NEWLINE", "\n"),
            pair("DEDENT", ""),
            pair("ENDMARKER", ""),
        ]
    );
}

#[test]
fn comment_only_line_gives_nl() {
    let stream = tokenize("#hi\n", VersionProfile::V38).unwrap();
    assert_eq!(
        pairs(&stream),
        vec![pair("ENCODING", "utf-8"), pair("COMMENT", "#hi"), pair("NL", "\n"), pair("ENDMARKER", "")]
    );
}

#[test]
fn comment_without_line_break_gives_empty_nl() {
    let stream = tokenize("#hi", VersionProfile::V38).unwrap();
    assert_eq!(
        pairs(&stream),
        vec![pair("ENCODING", "utf-8"), pair("COMMENT", "#hi"), pair("NL", ""), pair("ENDMARKER", "")]
    );
}

#[test]
fn unterminated_bracket_fails_at_end_of_text() {
    let e = tokenize("foo(\n", VersionProfile::V38).unwrap_err();
    assert_eq!(e.kind, ErrorKind::BracketError);
    assert_eq!((e.line, e.column), (2, 0));
}

#[test]
fn unmatched_closing_bracket_fails_at_once() {
    let e = tokenize("a = 1)\nb = 2\n", VersionProfile::V38).unwrap_err();
    assert_eq!(e.kind, ErrorKind::BracketError);
    assert_eq!((e.line, e.column), (1, 5));
}

#[test]
fn mismatched_bracket_fails_at_the_closer() {
    let e = tokenize("x = (1, 2]\n", VersionProfile::V38).unwrap_err();
    assert_eq!(e.kind, ErrorKind::BracketError);
    assert_eq!((e.line, e.column), (1, 9));
}

#[test]
fn empty_text_has_both_sentinels() {
    let stream = tokenize("", VersionProfile::V38).unwrap();
    assert_eq!(names(&stream), vec!["ENCODING", "ENDMARKER"]);
    assert_eq!(stream[0].start, (0, 0));
    assert_eq!(stream[0].end, (0, 0));
    assert_eq!(stream[0].line, "");
    assert_eq!(stream[1].start, (1, 0));
    assert_eq!(stream[1].kind, TokenKind::EndMarker);
}

#[test]
fn unterminated_line_gets_a_final_newline() {
    let stream = tokenize("x", VersionProfile::V38).unwrap();
    assert_eq!(
        pairs(&stream),
        vec![pair("ENCODING", "utf-8"), pair("NAME", "x"), pair("NEWLINE", ""), pair("ENDMARKER", "")]
    );
    assert_eq!(stream[2].start, (1, 1));
    assert_eq!(stream[2].end, (1, 1));
    assert_eq!(stream[3].start, (1, 1));
}

#[test]
fn newline_inside_brackets_is_nl() {
    let stream = tokenize("f(a,\n  b)\n", VersionProfile::V38).unwrap();
    assert_eq!(
        pairs(&stream),
        vec![
            pair("ENCODING", "utf-8"),
            pair("NAME", "f"),
            pair("OP", "("),
            pair("NAME", "a"),
            pair("OP", ","),
            pair("NL", "\n"),
            pair("NAME", "b"),
            pair("OP", ")"),
            pair("NEWLINE", "\n"),
            pair("ENDMARKER", ""),
        ]
    );
}

#[test]
fn blank_lines_give_nl_and_keep_the_level() {
    let stream = tokenize("if x:\n    a\n\n    b\n", VersionProfile::V38).unwrap();
    assert_eq!(
        names(&stream),
        vec![
            "ENCODING", "NAME", "NAME", "OP", "NEWLINE", "INDENT", "NAME", "NEWLINE", "NL", "NAME",
            "NEWLINE", "DEDENT", "ENDMARKER"
        ]
    );
}

#[test]
fn nested_blocks_close_one_dedent_per_level() {
    let stream = tokenize("a:\n  b:\n    c\nd\n", VersionProfile::V38).unwrap();
    assert_eq!(
        names(&stream),
        vec![
            "ENCODING", "NAME", "OP", "NEWLINE", "INDENT", "NAME", "OP", "NEWLINE", "INDENT",
            "NAME", "NEWLINE", "DEDENT", "DEDENT", "NAME", "NEWLINE", "ENDMARKER"
        ]
    );
}

#[test]
fn open_levels_close_at_end_of_text() {
    let stream = tokenize("a:\n  b:\n    c", VersionProfile::V38).unwrap();
    assert_eq!(
        names(&stream),
        vec![
            "ENCODING", "NAME", "OP", "NEWLINE", "INDENT", "NAME", "OP", "NEWLINE", "INDENT",
            "NAME", "NEWLINE", "DEDENT", "DEDENT", "ENDMARKER"
        ]
    );
}

#[test]
fn inconsistent_dedent_is_an_indentation_error() {
    let e = tokenize("a:\n    b\n  c\n", VersionProfile::V38).unwrap_err();
    assert_eq!(e.kind, ErrorKind::IndentationError);
    assert_eq!((e.line, e.column), (3, 2));
}

#[test]
fn tab_counts_to_the_next_multiple_of_eight() {
    let stream = tokenize("a:\n\tb\n        c\n", VersionProfile::V38).unwrap();
    assert_eq!(
        names(&stream),
        vec![
            "ENCODING", "NAME", "OP", "NEWLINE", "INDENT", "NAME", "NEWLINE", "ERRORTOKEN", "NAME",
            "NEWLINE", "DEDENT", "ENDMARKER"
        ]
    );
    assert_eq!(stream[7].string, "        ");
    assert_eq!(stream[7].start, (3, 0));
    assert_eq!(stream[7].end, (3, 8));
}

#[test]
fn consistent_tabs_give_no_error_token() {
    let stream = tokenize("a:\n\tb\n\tc\n", VersionProfile::V38).unwrap();
    assert_eq!(
        names(&stream),
        vec![
            "ENCODING", "NAME", "OP", "NEWLINE", "INDENT", "NAME", "NEWLINE", "NAME", "NEWLINE",
            "DEDENT", "ENDMARKER"
        ]
    );
}

#[test]
fn line_continuation_joins_lines_without_a_token() {
    let stream = tokenize("x = 1 + \\\n    2\n", VersionProfile::V38).unwrap();
    assert_eq!(
        pairs(&stream),
        vec![
            pair("ENCODING", "utf-8"),
            pair("NAME", "x"),
            pair("OP", "="),
            pair("NUMBER", "1"),
            pair("OP", "+"),
            pair("NUMBER", "2"),
            pair("NEWLINE", "\n"),
            pair("ENDMARKER", ""),
        ]
    );
    assert_eq!(stream[5].start, (2, 4));
    assert_eq!(stream[5].line, "    2\n");
}

#[test]
fn positions_and_lines_of_tokens() {
    let stream = tokenize("def foo():\n    pass\n", VersionProfile::V38).unwrap();
    assert_eq!(stream[1].start, (1, 0));
    assert_eq!(stream[1].end, (1, 3));
    assert_eq!(stream[1].line, "def foo():\n");
    assert_eq!(stream[2].start, (1, 4));
    assert_eq!(stream[2].end, (1, 7));
    assert_eq!(stream[6].start, (1, 10));
    assert_eq!(stream[6].end, (2, 0));
    assert_eq!(stream[7].start, (2, 4));
    assert_eq!(stream[7].end, (2, 4));
    assert_eq!(stream[8].start, (2, 4));
    assert_eq!(stream[8].end, (2, 8));
    assert_eq!(stream[8].line, "    pass\n");
    assert_eq!(stream[10].start, (3, 0));
    assert_eq!(stream[11].start, (3, 0));
    assert_eq!(stream[11].line, "");
}

#[test]
fn numeric_literals() {
    let stream = tokenize(
        "0 00 123 1_000 0x1F 0o17 0b101 1.5 1. .5 1e10 1.5e-3 2j 3.0J 0_7 07 0x 1__0\n",
        VersionProfile::V38,
    )
    .unwrap();
    assert_eq!(
        pairs(&stream[1..]),
        vec![
            pair("NUMBER", "0"),
            pair("NUMBER", "00"),
            pair("NUMBER", "123"),
            pair("NUMBER", "1_000"),
            pair("NUMBER", "0x1F"),
            pair("NUMBER", "0o17"),
            pair("NUMBER", "0b101"),
            pair("NUMBER", "1.5"),
            pair("NUMBER", "1."),
            pair("NUMBER", ".5"),
            pair("NUMBER", "1e10"),
            pair("NUMBER", "1.5e-3"),
            pair("NUMBER", "2j"),
            pair("NUMBER", "3.0J"),
            pair("NUMBER", "0"),
            pair("NAME", "_7"),
            pair("NUMBER", "0"),
            pair("NUMBER", "7"),
            pair("NUMBER", "0"),
            pair("NAME", "x"),
            pair("NUMBER", "1"),
            pair("NAME", "__0"),
            pair("NEWLINE", "\n"),
            pair("ENDMARKER", ""),
        ]
    );
}

#[test]
fn string_literals() {
    let stream = tokenize(
        "'a' \"b\" r'c\\d' b\"e\" f'{x}' Rb'g' '' 'it\\'s'\n",
        VersionProfile::V38,
    )
    .unwrap();
    assert_eq!(
        pairs(&stream[1..]),
        vec![
            pair("STRING", "'a'"),
            pair("STRING", "\"b\""),
            pair("STRING", "r'c\\d'"),
            pair("STRING", "b\"e\""),
            pair("STRING", "f'{x}'"),
            pair("STRING", "Rb'g'"),
            pair("STRING", "''"),
            pair("STRING", "'it\\'s'"),
            pair("NEWLINE", "\n"),
            pair("ENDMARKER", ""),
        ]
    );
}

#[test]
fn triple_quoted_string_spans_lines() {
    let stream = tokenize("s = \"\"\"one\ntwo\"\"\"\nt\n", VersionProfile::V38).unwrap();
    assert_eq!(
        pairs(&stream[1..]),
        vec![
            pair("NAME", "s"),
            pair("OP", "="),
            pair("STRING", "\"\"\"one\ntwo\"\"\""),
            pair("NEWLINE", "\n"),
            pair("NAME", "t"),
            pair("NEWLINE", "\n"),
            pair("ENDMARKER", ""),
        ]
    );
    assert_eq!(stream[3].start, (1, 4));
    assert_eq!(stream[3].end, (2, 6));
    assert_eq!(stream[3].line, "s = \"\"\"one\n");
    assert_eq!(stream[5].start, (3, 0));
}

#[test]
fn unterminated_string_gives_an_error_token() {
    let stream = tokenize("x = 'abc\n", VersionProfile::V38).unwrap();
    assert_eq!(
        pairs(&stream[1..]),
        vec![
            pair("NAME", "x"),
            pair("OP", "="),
            pair("ERRORTOKEN", "'"),
            pair("NAME", "abc"),
            pair("NEWLINE", "\n"),
            pair("ENDMARKER", ""),
        ]
    );
}

#[test]
fn unrecognized_characters_are_error_tokens() {
    let stream = tokenize("a $ ? b !\n", VersionProfile::V38).unwrap();
    assert_eq!(
        pairs(&stream[1..]),
        vec![
            pair("NAME", "a"),
            pair("ERRORTOKEN", "$"),
            pair("ERRORTOKEN", "?"),
            pair("NAME", "b"),
            pair("ERRORTOKEN", "!"),
            pair("NEWLINE", "\n"),
            pair("ENDMARKER", ""),
        ]
    );
}

#[test]
fn operators_take_the_longest_match() {
    let stream = tokenize("a **= b ** c * d //= e >>= f -> g ... != <= . ..\n", VersionProfile::V38)
        .unwrap();
    let ops: Vec<String> =
        stream.iter().filter(|t| t.kind == TokenKind::Op).map(|t| t.string.clone()).collect();
    assert_eq!(ops, vec!["**=", "**", "*", "//=", ">>=", "->", "...", "!=", "<=", ".", ".", "."]);
}

#[test]
fn walrus_depends_on_the_profile() {
    let old = tokenize("a := 1\n", VersionProfile::V37).unwrap();
    assert_eq!(
        pairs(&old[1..]),
        vec![
            pair("NAME", "a"),
            pair("OP", ":"),
            pair("OP", "="),
            pair("NUMBER", "1"),
            pair("NEWLINE", "\n"),
            pair("ENDMARKER", ""),
        ]
    );
    let new = tokenize("a := 1\n", VersionProfile::V38).unwrap();
    assert_eq!(
        pairs(&new[1..]),
        vec![
            pair("NAME", "a"),
            pair("OP", ":="),
            pair("NUMBER", "1"),
            pair("NEWLINE", "\n"),
            pair("ENDMARKER", ""),
        ]
    );
}

#[test]
fn codes_follow_the_profile() {
    let old = tokenize("#c\n", VersionProfile::V37).unwrap();
    let mid = tokenize("#c\n", VersionProfile::V38).unwrap();
    let new = tokenize("#c\n", VersionProfile::V310).unwrap();
    assert_eq!(old[1].token_type, 55);
    assert_eq!(mid[1].token_type, 60);
    assert_eq!(new[1].token_type, 61);
    assert_eq!(old[0].token_type, 57);
    assert_eq!(mid[0].token_type, 62);
    assert_eq!(new[0].token_type, 63);
    assert_eq!(old[1].kind, new[1].kind);
    assert_eq!(old[1].token_text, new[1].token_text);
}

#[test]
fn carriage_return_line_feed_is_one_line_break() {
    let stream = tokenize("a\r\nb\r\n", VersionProfile::V38).unwrap();
    assert_eq!(
        pairs(&stream[1..]),
        vec![
            pair("NAME", "a"),
            pair("NEWLINE", "\r\n"),
            pair("NAME", "b"),
            pair("NEWLINE", "\r\n"),
            pair("ENDMARKER", ""),
        ]
    );
    assert_eq!(stream[3].start, (2, 0));
}

#[test]
fn names_may_hold_characters_outside_ascii() {
    let stream = tokenize("h\u{e9}llo = \u{3b1}1\n", VersionProfile::V38).unwrap();
    assert_eq!(
        pairs(&stream[1..]),
        vec![
            pair("NAME", "h\u{e9}llo"),
            pair("OP", "="),
            pair("NAME", "\u{3b1}1"),
            pair("NEWLINE", "\n"),
            pair("ENDMARKER", ""),
        ]
    );
    assert_eq!(stream[2].start, (1, 6));
}
