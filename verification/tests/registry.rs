use py_tokenizer::{TokenKind, TokenSet, TokenTypeRegistry, UnknownKindError, VersionProfile};

#[test]
fn resolve_name_is_stable() {
    let registry = TokenTypeRegistry::for_profile(VersionProfile::V38);
    let first = registry.resolve(TokenKind::Name).unwrap();
    let second = registry.resolve(TokenKind::Name).unwrap();
    assert_eq!(first, (1, "NAME".to_string()));
    assert_eq!(first, second);
    let again = TokenTypeRegistry::for_profile(VersionProfile::V38);
    assert_eq!(again.resolve(TokenKind::Name).unwrap(), first);
}

#[test]
fn resolve_gives_code_and_name() {
    let registry = TokenTypeRegistry::for_profile(VersionProfile::V310);
    assert_eq!(registry.resolve(TokenKind::EndMarker).unwrap(), (0, "ENDMARKER".to_string()));
    assert_eq!(registry.resolve(TokenKind::Number).unwrap(), (2, "NUMBER".to_string()));
    assert_eq!(registry.resolve(TokenKind::Str).unwrap(), (3, "STRING".to_string()));
    assert_eq!(registry.resolve(TokenKind::Newline).unwrap(), (4, "NEWLINE".to_string()));
    assert_eq!(registry.resolve(TokenKind::Indent).unwrap(), (5, "INDENT".to_string()));
    assert_eq!(registry.resolve(TokenKind::Dedent).unwrap(), (6, "DEDENT".to_string()));
    assert_eq!(registry.resolve(TokenKind::OpLPar).unwrap(), (7, "LPAR".to_string()));
    assert_eq!(registry.resolve(TokenKind::OpPlus).unwrap(), (14, "PLUS".to_string()));
    assert_eq!(registry.resolve(TokenKind::OpEllipsis).unwrap(), (52, "ELLIPSIS".to_string()));
    assert_eq!(registry.resolve(TokenKind::OpColonEqual).unwrap(), (53, "COLONEQUAL".to_string()));
    assert_eq!(registry.resolve(TokenKind::Op).unwrap(), (54, "OP".to_string()));
    assert_eq!(registry.resolve(TokenKind::SoftKeyword).unwrap(), (59, "SOFT_KEYWORD".to_string()));
    assert_eq!(registry.resolve(TokenKind::ErrorToken).unwrap(), (60, "ERRORTOKEN".to_string()));
    assert_eq!(registry.resolve(TokenKind::Comment).unwrap(), (61, "COMMENT".to_string()));
    assert_eq!(registry.resolve(TokenKind::Nl).unwrap(), (62, "NL".to_string()));
    assert_eq!(registry.resolve(TokenKind::Encoding).unwrap(), (63, "ENCODING".to_string()));
}

#[test]
fn codes_differ_between_profiles_and_names_do_not() {
    let old = TokenTypeRegistry::for_profile(VersionProfile::V37);
    let mid = TokenTypeRegistry::for_profile(VersionProfile::V38);
    let new = TokenTypeRegistry::for_profile(VersionProfile::V310);
    assert_eq!(old.resolve(TokenKind::Op).unwrap(), (53, "OP".to_string()));
    assert_eq!(mid.resolve(TokenKind::Op).unwrap(), (54, "OP".to_string()));
    assert_eq!(old.resolve(TokenKind::Nl).unwrap(), (56, "NL".to_string()));
    assert_eq!(mid.resolve(TokenKind::Nl).unwrap(), (61, "NL".to_string()));
    assert_eq!(new.resolve(TokenKind::Nl).unwrap(), (62, "NL".to_string()));
    assert_eq!(old.profile(), VersionProfile::V37);
}

#[test]
fn unknown_kind_is_an_error() {
    let old = TokenTypeRegistry::for_profile(VersionProfile::V37);
    assert_eq!(
        old.resolve(TokenKind::OpColonEqual),
        Err(UnknownKindError { kind: TokenKind::OpColonEqual })
    );
    assert_eq!(old.resolve(TokenKind::Await), Err(UnknownKindError { kind: TokenKind::Await }));
    assert_eq!(
        old.resolve(TokenKind::SoftKeyword),
        Err(UnknownKindError { kind: TokenKind::SoftKeyword })
    );
    let mid = TokenTypeRegistry::for_profile(VersionProfile::V38);
    assert_eq!(
        mid.resolve(TokenKind::SoftKeyword),
        Err(UnknownKindError { kind: TokenKind::SoftKeyword })
    );
    assert!(mid.resolve(TokenKind::OpColonEqual).is_ok());
}

#[test]
fn display_name_for_code_inverts_resolve() {
    for profile in [VersionProfile::V37, VersionProfile::V38, VersionProfile::V310] {
        let registry = TokenTypeRegistry::for_profile(profile);
        let mut known = 0;
        for i in 0..64 {
            let kind = TokenKind::from_index(i);
            assert_eq!(kind.index(), i);
            match registry.resolve(kind) {
                Ok((code, name)) => {
                    known += 1;
                    assert_eq!(registry.display_name_for_code(code), Some(name));
                }
                Err(e) => assert_eq!(e.kind, kind),
            }
        }
        let size = match profile {
            VersionProfile::V37 => 58,
            VersionProfile::V38 => 63,
            VersionProfile::V310 => 64,
        };
        assert_eq!(known, size);
        assert_eq!(registry.display_name_for_code(size), None);
        assert_eq!(registry.display_name_for_code(size - 1), Some("ENCODING".to_string()));
        assert_eq!(registry.display_name_for_code(usize::MAX), None);
        assert_eq!(registry.token_types().len(), size);
    }
}

#[test]
fn codes_are_distinct_within_a_profile() {
    let registry = TokenTypeRegistry::for_profile(VersionProfile::V38);
    let mut seen = vec![false; 64];
    for i in 0..64 {
        if let Ok((code, _)) = registry.resolve(TokenKind::from_index(i)) {
            assert!(!seen[code]);
            seen[code] = true;
        }
    }
}

#[test]
fn token_set_names_its_codes() {
    let set = TokenSet::build("x = 1\n", VersionProfile::V38).unwrap();
    let kinds: Vec<&String> =
        set.tokens.iter().map(|t| set.get_token_type(t.token_type).unwrap()).collect();
    assert_eq!(kinds, vec!["ENCODING", "NAME", "OP", "NUMBER", "NEWLINE", "ENDMARKER"]);
    for t in set.tokens.iter() {
        assert_eq!(set.get_token_type(t.token_type), Some(&t.token_text));
    }
    assert_eq!(set.get_token_type(63), None);
    assert_eq!(set.get_token_type(62), Some(&"ENCODING".to_string()));
    assert_eq!(set.token_types.len(), 63);
}

#[test]
fn token_set_reports_the_error_of_the_pass() {
    let e = TokenSet::build("(", VersionProfile::V38).unwrap_err();
    assert_eq!((e.line, e.column), (1, 1));
}
