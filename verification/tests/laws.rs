use py_tokenizer::{tokenize, TokenInfo, TokenKind, VersionProfile};

const SAMPLES: [&str; 12] = [
    "",
    "x",
    "\n",
    "   ",
    "#hi\n",
    "def foo():\n    pass\n",
    "#test comment\ndef foo():\n    pass\n",
    "class A:\n\tdef f(self, *a, **k):\n\t\treturn [1, 2.5e3, 'x',\n  \"\"\"doc\nstring\"\"\"]\n\nif A:\n  pass\n",
    "x = 1 + \\\n    2 # trailing\ny = $ ? 'open\n",
    "a:\n  b:\n    c:\n      d\n  e\n",
    "\u{feff}# coding: utf-8\nwhile True:\n        break",
    "a:\n\tb\n        c\r\n\u{c} \t\n",
];

const PROFILES: [VersionProfile; 3] = [VersionProfile::V37, VersionProfile::V38, VersionProfile::V310];

fn offset_of(source: &[char], position: (usize, usize)) -> usize {
    let mut line = 1;
    let mut offset = 0;
    while line < position.0 {
        assert!(offset < source.len());
        if source[offset] == '\n' {
            line += 1;
        }
        offset += 1;
    }
    offset + position.1
}

fn is_gap(source: &[char], from: usize, to: usize) -> bool {
    let mut k = from;
    while k < to {
        let c = source[k];
        let blank = c == ' ' || c == '\t' || c == '\u{c}';
        let mark = k == 0 && c == '\u{feff}';
        let joined = (c == '\\' && k + 1 < source.len() && (source[k + 1] == '\n' || source[k + 1] == '\r'))
            || (k >= 1 && source[k - 1] == '\\' && (c == '\n' || c == '\r'))
            || (k >= 2 && source[k - 2] == '\\' && source[k - 1] == '\r' && c == '\n');
        if !(blank || mark || joined) {
            return false;
        }
        k += 1;
    }
    true
}

fn count(tokens: &[TokenInfo], kind: TokenKind) -> usize {
    tokens.iter().filter(|t| t.kind == kind).count()
}

#[test]
fn stream_begins_with_encoding_and_ends_with_end_marker() {
    for source in SAMPLES {
        for profile in PROFILES {
            let stream = tokenize(source, profile).unwrap();
            assert!(stream.len() >= 2);
            assert_eq!(stream[0].kind, TokenKind::Encoding);
            assert_eq!(stream[stream.len() - 1].kind, TokenKind::EndMarker);
            assert_eq!(count(&stream, TokenKind::EndMarker), 1);
            assert_eq!(count(&stream, TokenKind::Encoding), 1);
        }
    }
}

#[test]
fn tokens_are_ordered_by_position() {
    for source in SAMPLES {
        let stream = tokenize(source, VersionProfile::V38).unwrap();
        for pair in stream.windows(2) {
            assert!(pair[0].start <= pair[0].end);
            assert!(pair[0].end <= pair[1].start);
            assert!(pair[0].start <= pair[1].start);
        }
    }
}

#[test]
fn no_line_is_passed_over() {
    for source in SAMPLES {
        let chars: Vec<char> = source.chars().collect();
        let stream = tokenize(source, VersionProfile::V38).unwrap();
        let mut line = 1;
        let mut at = 0;
        for token in stream[1..].iter() {
            let start = offset_of(&chars, token.start);
            let joined = chars[at..start].contains(&'\\');
            assert!(token.start.0 == line || joined);
            line = token.end.0;
            at = offset_of(&chars, token.end);
        }
    }
    let joined = tokenize("x = \\\n\\\n1\n", VersionProfile::V38).unwrap();
    assert_eq!(joined[2].end, (1, 3));
    assert_eq!(joined[3].start, (3, 0));
}

#[test]
fn indents_and_dedents_balance() {
    for source in SAMPLES {
        let stream = tokenize(source, VersionProfile::V38).unwrap();
        assert_eq!(count(&stream, TokenKind::Indent), count(&stream, TokenKind::Dedent));
        let mut open: usize = 0;
        for token in stream.iter() {
            if token.kind == TokenKind::Indent {
                open += 1;
            }
            if token.kind == TokenKind::Dedent {
                assert!(open > 0);
                open -= 1;
            }
        }
        assert_eq!(open, 0);
    }
    let deep = tokenize("a:\n  b:\n    c:\n      d\n  e\n", VersionProfile::V38).unwrap();
    assert_eq!(count(&deep, TokenKind::Indent), 3);
    assert_eq!(count(&deep, TokenKind::Dedent), 3);
}

#[test]
fn texts_and_gaps_give_the_source_back() {
    for source in SAMPLES {
        let chars: Vec<char> = source.chars().collect();
        let stream = tokenize(source, VersionProfile::V38).unwrap();
        let mut rebuilt = String::new();
        let mut at = 0;
        for token in stream[1..].iter() {
            let start = offset_of(&chars, token.start);
            let end = offset_of(&chars, token.end);
            assert!(at <= start && start <= end && end <= chars.len());
            assert!(is_gap(&chars, at, start));
            let text: String = chars[start..end].iter().collect();
            assert_eq!(token.string, text);
            rebuilt.extend(chars[at..start].iter());
            rebuilt.push_str(&token.string);
            at = end;
        }
        assert_eq!(at, chars.len());
        assert_eq!(rebuilt, source);
    }
}

#[test]
fn line_field_is_the_line_of_the_start() {
    for source in SAMPLES {
        let stream = tokenize(source, VersionProfile::V38).unwrap();
        let lines: Vec<&str> = source.split_inclusive('\n').collect();
        for token in stream[1..].iter() {
            let expected = lines.get(token.start.0 - 1).copied().unwrap_or("");
            assert_eq!(token.line, expected);
        }
    }
}

#[test]
fn tokenizing_twice_gives_the_same_stream() {
    for source in SAMPLES {
        for profile in PROFILES {
            let first = tokenize(source, profile).unwrap();
            let second = tokenize(source, profile).unwrap();
            assert_eq!(first.len(), second.len());
            for (a, b) in first.iter().zip(second.iter()) {
                assert_eq!(a.kind, b.kind);
                assert_eq!(a.token_type, b.token_type);
                assert_eq!(a.token_text, b.token_text);
                assert_eq!(a.string, b.string);
                assert_eq!(a.start, b.start);
                assert_eq!(a.end, b.end);
                assert_eq!(a.line, b.line);
            }
        }
    }
    let e = tokenize("x)", VersionProfile::V38).unwrap_err();
    assert_eq!(e, tokenize("x)", VersionProfile::V38).unwrap_err());
}

#[test]
fn clone_keeps_every_field() {
    let stream = tokenize("x = 1\n", VersionProfile::V38).unwrap();
    let copy = stream[1].clone();
    assert_eq!(copy.kind, TokenKind::Name);
    assert_eq!(copy.token_type, 1);
    assert_eq!(copy.token_text, "NAME");
    assert_eq!(copy.string, "x");
    assert_eq!(copy.start, (1, 0));
    assert_eq!(copy.end, (1, 1));
    assert_eq!(copy.line, "x = 1\n");
}
