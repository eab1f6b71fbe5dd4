use py_tokenizer::chars::DigitClass;
use py_tokenizer::encoding::detect_encoding;
use py_tokenizer::indent::measure_indent;
use py_tokenizer::lexical::{scan_digits, scan_number};
use py_tokenizer::operators::scan_operator;
use py_tokenizer::strings::scan_string;
use py_tokenizer::text::{slice_to_string, to_chars};
use py_tokenizer::{
    classify, is_keyword, tokenize, ErrorKind, IndentChange, IndentationTracker, Observation,
    Scanner, Shape, TokenKind, VersionProfile,
};

#[test]
fn scanner_counts_lines_and_columns() {
    let mut scanner = Scanner::new("ab\nc");
    assert_eq!(scanner.position(), (1, 0));
    assert_eq!(scanner.peek(0), Some('a'));
    assert_eq!(scanner.peek(2), Some('\n'));
    assert_eq!(scanner.peek(3), Some('c'));
    assert_eq!(scanner.peek(4), None);
    assert_eq!(scanner.peek(usize::MAX), None);
    assert_eq!(scanner.advance(), Some('a'));
    assert_eq!(scanner.position(), (1, 1));
    assert_eq!(scanner.advance(), Some('b'));
    assert_eq!(scanner.position(), (1, 2));
    assert_eq!(scanner.line_text(), "ab\n");
    assert_eq!(scanner.advance(), Some('\n'));
    assert_eq!(scanner.position(), (2, 0));
    assert_eq!(scanner.index(), 3);
    assert!(!scanner.at_end());
    assert_eq!(scanner.line_text(), "c");
    assert_eq!(scanner.advance(), Some('c'));
    assert_eq!(scanner.position(), (2, 1));
    assert!(scanner.at_end());
    assert_eq!(scanner.advance(), None);
    assert_eq!(scanner.position(), (2, 1));
    assert_eq!(scanner.text(1, 3), "b\n");
    assert_eq!(scanner.chars().len(), 4);
}

#[test]
fn scanner_counts_characters_not_bytes() {
    let mut scanner = Scanner::new("\u{e9}\u{3b1}x");
    scanner.advance_to(2);
    assert_eq!(scanner.position(), (1, 2));
    assert_eq!(scanner.peek(0), Some('x'));
    assert_eq!(scanner.text(0, 2), "\u{e9}\u{3b1}");
}

#[test]
fn text_helpers_copy_characters() {
    let chars = to_chars("h\u{e9}llo");
    assert_eq!(chars, vec!['h', '\u{e9}', 'l', 'l', 'o']);
    assert_eq!(slice_to_string(&chars, 1, 4), "\u{e9}ll");
    assert_eq!(slice_to_string(&chars, 2, 2), "");
}

#[test]
fn tracker_opens_and_closes_levels() {
    let mut tracker = IndentationTracker::new();
    assert_eq!(tracker.depth(), 0);
    assert_eq!(
        tracker.observe(0, 0),
        Some(Observation { change: IndentChange::Same, tab_error: false })
    );
    assert_eq!(
        tracker.observe(4, 4),
        Some(Observation { change: IndentChange::Indent, tab_error: false })
    );
    assert_eq!(
        tracker.observe(8, 8),
        Some(Observation { change: IndentChange::Indent, tab_error: false })
    );
    assert_eq!(tracker.depth(), 2);
    assert_eq!(tracker.observe(6, 6), None);
    assert_eq!(tracker.depth(), 2);
    assert_eq!(
        tracker.observe(8, 8),
        Some(Observation { change: IndentChange::Same, tab_error: false })
    );
    assert_eq!(
        tracker.observe(0, 0),
        Some(Observation { change: IndentChange::Dedent(2), tab_error: false })
    );
    assert_eq!(tracker.depth(), 0);
    assert_eq!(
        tracker.observe(2, 2),
        Some(Observation { change: IndentChange::Indent, tab_error: false })
    );
    assert_eq!(tracker.close_all(), 1);
    assert_eq!(tracker.depth(), 0);
}

#[test]
fn tracker_reports_inconsistent_tabs() {
    let mut tracker = IndentationTracker::new();
    assert_eq!(
        tracker.observe(8, 1),
        Some(Observation { change: IndentChange::Indent, tab_error: false })
    );
    assert_eq!(
        tracker.observe(8, 8),
        Some(Observation { change: IndentChange::Same, tab_error: true })
    );
    assert_eq!(
        tracker.observe(16, 1),
        Some(Observation { change: IndentChange::Indent, tab_error: true })
    );
    assert_eq!(
        tracker.observe(8, 2),
        Some(Observation { change: IndentChange::Dedent(1), tab_error: true })
    );
}

#[test]
fn indentation_widths() {
    let chars = to_chars("  \t x");
    assert_eq!(measure_indent(&chars, 0, 4), (9, 4));
    assert_eq!(measure_indent(&chars, 0, 3), (8, 3));
    assert_eq!(measure_indent(&chars, 0, 2), (2, 2));
    assert_eq!(measure_indent(&chars, 0, 0), (0, 0));
    let tabs = to_chars("\t\t");
    assert_eq!(measure_indent(&tabs, 0, 2), (16, 2));
    let feed = to_chars("   \u{c} ");
    assert_eq!(measure_indent(&feed, 0, 5), (1, 1));
}

#[test]
fn classify_tells_the_shapes_apart() {
    let p = VersionProfile::V38;
    let c = |text: &str| classify(&to_chars(text), 0, p);
    assert_eq!(c(""), (Shape::End, 0));
    assert_eq!(c("\nx"), (Shape::LineBreak, 1));
    assert_eq!(c("\r\nx"), (Shape::LineBreak, 2));
    assert_eq!(c("\rx"), (Shape::Unrecognized, 1));
    assert_eq!(c("# a b\nx"), (Shape::Comment, 5));
    assert_eq!(c("# a b\r\nx"), (Shape::Comment, 5));
    assert_eq!(c("\\\nx"), (Shape::Continuation, 2));
    assert_eq!(c("\\\r\nx"), (Shape::Continuation, 3));
    assert_eq!(c("\\x"), (Shape::Unrecognized, 1));
    assert_eq!(c("'ab' c"), (Shape::Str, 4));
    assert_eq!(c("rb'ab' c"), (Shape::Str, 6));
    assert_eq!(c("ur'ab'"), (Shape::Name, 2));
    assert_eq!(c("12.5e3j+"), (Shape::Number, 7));
    assert_eq!(c(".5"), (Shape::Number, 2));
    assert_eq!(c(".x"), (Shape::Operator(TokenKind::OpDot), 1));
    assert_eq!(c("abc_1 d"), (Shape::Name, 5));
    assert_eq!(c("**=1"), (Shape::Operator(TokenKind::OpDoubleStarEqual), 3));
    assert_eq!(c("**1"), (Shape::Operator(TokenKind::OpDoubleStar), 2));
    assert_eq!(c("*1"), (Shape::Operator(TokenKind::OpStar), 1));
    assert_eq!(c("$"), (Shape::Unrecognized, 1));
    assert_eq!(c(" x"), (Shape::Unrecognized, 1));
    assert_eq!(classify(&to_chars("ab cd"), 3, p), (Shape::Name, 5));
}

#[test]
fn operator_table_follows_the_profile() {
    let text = to_chars(":=");
    assert_eq!(scan_operator(&text, 0, VersionProfile::V37), Some((TokenKind::OpColon, 1)));
    assert_eq!(scan_operator(&text, 0, VersionProfile::V38), Some((TokenKind::OpColonEqual, 2)));
    assert_eq!(scan_operator(&text, 0, VersionProfile::V310), Some((TokenKind::OpColonEqual, 2)));
    assert_eq!(scan_operator(&text, 1, VersionProfile::V37), Some((TokenKind::OpEqual, 1)));
    assert_eq!(scan_operator(&text, 2, VersionProfile::V37), None);
    assert_eq!(scan_operator(&to_chars("!"), 0, VersionProfile::V310), None);
    assert_eq!(scan_operator(&to_chars(".."), 0, VersionProfile::V310), Some((TokenKind::OpDot, 1)));
}

#[test]
fn number_extents() {
    let n = |text: &str| scan_number(&to_chars(text), 0);
    assert_eq!(n("0"), 1);
    assert_eq!(n("0_0"), 3);
    assert_eq!(n("0x_ff"), 5);
    assert_eq!(n("0xg"), 1);
    assert_eq!(n("0b12"), 3);
    assert_eq!(n("0o78"), 3);
    assert_eq!(n("1_"), 1);
    assert_eq!(n("1e"), 1);
    assert_eq!(n("1e+"), 1);
    assert_eq!(n("1e+5"), 4);
    assert_eq!(n("1.e5"), 4);
    assert_eq!(n("1.5j"), 4);
    assert_eq!(n("09.5"), 4);
    assert_eq!(n("09"), 1);
    assert_eq!(n("x"), 0);
    assert_eq!(n("."), 0);
    assert_eq!(scan_digits(&to_chars("1_2__3"), 0, DigitClass::Decimal), 3);
    assert_eq!(scan_digits(&to_chars("aF_9g"), 0, DigitClass::Hex), 4);
}

#[test]
fn string_extents() {
    let s = |text: &str| scan_string(&to_chars(text), 0);
    assert_eq!(s("'a'b"), Some(3));
    assert_eq!(s("'a"), None);
    assert_eq!(s("'a\nb'"), None);
    assert_eq!(s("'a\\\nb'"), Some(6));
    assert_eq!(s("'a\\\r\nb'"), Some(7));
    assert_eq!(s("'a\\'b'"), Some(6));
    assert_eq!(s("'''a'b\n'''c"), Some(10));
    assert_eq!(s("'''a"), None);
    assert_eq!(s("''"), Some(2));
    assert_eq!(s("'''"), None);
    assert_eq!(s("\"\"\"a\\\"\"\"\"x"), Some(9));
    assert_eq!(s("fR\"x\""), Some(5));
    assert_eq!(s("bb'x'"), None);
    assert_eq!(s("x'x'"), None);
}

#[test]
fn keywords_follow_the_profile() {
    assert!(is_keyword("def", VersionProfile::V37));
    assert!(is_keyword("await", VersionProfile::V37));
    assert!(is_keyword("None", VersionProfile::V38));
    assert!(!is_keyword("none", VersionProfile::V38));
    assert!(!is_keyword("foo", VersionProfile::V310));
    assert!(!is_keyword("", VersionProfile::V310));
    assert!(!is_keyword("match", VersionProfile::V38));
    assert!(is_keyword("match", VersionProfile::V310));
    assert!(is_keyword("case", VersionProfile::V310));
    assert!(is_keyword("_", VersionProfile::V310));
    assert!(!is_keyword("_", VersionProfile::V37));
}

#[test]
fn encoding_defaults_to_utf8() {
    assert_eq!(detect_encoding(&to_chars("x = 1\n")), Ok("utf-8".to_string()));
    assert_eq!(detect_encoding(&to_chars("")), Ok("utf-8".to_string()));
    assert_eq!(detect_encoding(&to_chars("\u{feff}x = 1\n")), Ok("utf-8-sig".to_string()));
}

#[test]
fn encoding_declaration_on_first_or_second_line() {
    let d = |text: &str| detect_encoding(&to_chars(text));
    assert_eq!(d("# -*- coding: latin-1 -*-\n"), Ok("iso-8859-1".to_string()));
    assert_eq!(d("#!/usr/bin/python\n# vim: set fileencoding=UTF_8 :\n"), Ok("utf-8".to_string()));
    assert_eq!(d("\n# coding=cp1252\n"), Ok("cp1252".to_string()));
    assert_eq!(d("x = 1\n# coding=cp1252\n"), Ok("utf-8".to_string()));
    assert_eq!(d("\n\n# coding=cp1252\n"), Ok("utf-8".to_string()));
    assert_eq!(d("# coding: Latin-1-unix\n"), Ok("iso-8859-1".to_string()));
    assert_eq!(d("# coding: utf-8-sig\n"), Ok("utf-8".to_string()));
    assert_eq!(d("# coding: utf-16\n"), Ok("utf-16".to_string()));
    assert_eq!(d("# coding:\n"), Ok("utf-8".to_string()));
    assert_eq!(d("# encoding ascii\n"), Ok("utf-8".to_string()));
    assert_eq!(d("x = '# coding: ascii'\n"), Ok("utf-8".to_string()));
    assert_eq!(d("  \t# coding:  \t ascii\n"), Ok("ascii".to_string()));
}

#[test]
fn encoding_conflict_with_byte_order_mark() {
    assert_eq!(detect_encoding(&to_chars("\u{feff}# coding: latin-1\n")), Err(11));
    assert_eq!(
        detect_encoding(&to_chars("\u{feff}# coding: utf-8\n")),
        Ok("utf-8-sig".to_string())
    );
    let e = tokenize("\u{feff}\n# coding: latin-1\n", VersionProfile::V38).unwrap_err();
    assert_eq!(e.kind, ErrorKind::EncodingError);
    assert_eq!((e.line, e.column), (2, 10));
}

#[test]
fn encoding_token_names_the_declared_encoding() {
    let stream = tokenize("# coding: latin-1\nx\n", VersionProfile::V38).unwrap();
    assert_eq!(stream[0].kind, TokenKind::Encoding);
    assert_eq!(stream[0].string, "iso-8859-1");
    assert_eq!(stream[1].string, "# coding: latin-1");
    let marked = tokenize("\u{feff}x\n", VersionProfile::V38).unwrap();
    assert_eq!(marked[0].string, "utf-8-sig");
    assert_eq!(marked[1].string, "x");
    assert_eq!(marked[1].start, (1, 1));
    assert_eq!(marked[1].line, "\u{feff}x\n");
}
