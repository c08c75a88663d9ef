use selectors::{
    convert_path_selector_to_regex, convert_property_selector_to_regex, parse_component_selector,
    parse_selector, parse_selectors_from_lines, parse_tree_selector,
    sanitize_string_for_selectors, tokenize_string, validate_component_selector,
    validate_selector, validate_string_pattern, validate_tree_selector, ComponentSelector,
    ParseError, StringSelector, TreeSelector,
};

#[test]
fn tokenize_escaped_delimiter_yields_single_token() {
    // An escaped colon is not treated as a delimiter, and the escape stays
    // un-decoded in the token.
    let tokens = tokenize_string("a\\:b", ':').unwrap();
    assert_eq!(tokens, vec!["a\\:b".to_string()]);
}

#[test]
fn tokenize_unescaped_delimiter_splits() {
    let tokens = tokenize_string("a:b", ':').unwrap();
    assert_eq!(tokens, vec!["a".to_string(), "b".to_string()]);
}

#[test]
fn tokenize_rejects_trailing_escape() {
    assert_eq!(tokenize_string("a\\", ':'), Err(ParseError::UnmatchedEscape));
}

#[test]
fn tokenize_rejects_empty_tokens() {
    assert_eq!(tokenize_string("a::b", ':'), Err(ParseError::EmptyToken));
    assert_eq!(tokenize_string(":a", ':'), Err(ParseError::EmptyToken));
    assert_eq!(tokenize_string("a:", ':'), Err(ParseError::EmptyToken));
    assert_eq!(tokenize_string("", ':'), Err(ParseError::EmptyToken));
}

#[test]
fn parse_selector_canonical_structure() {
    // One moniker segment, three node-path segments, a wildcard property.
    let selector = parse_selector("echo.cmx:a/*/c:*").unwrap();
    let moniker = selector.component_selector.moniker_segments.unwrap();
    assert_eq!(moniker, vec![StringSelector::StringPattern("echo.cmx".to_string())]);
    let node_path = selector.tree_selector.node_path.unwrap();
    assert_eq!(
        node_path,
        vec![
            StringSelector::StringPattern("a".to_string()),
            StringSelector::StringPattern("*".to_string()),
            StringSelector::StringPattern("c".to_string()),
        ]
    );
    assert_eq!(
        selector.tree_selector.target_properties,
        Some(StringSelector::StringPattern("*".to_string()))
    );
}

#[test]
fn path_wildcard_is_bounded_to_one_level() {
    let selector = parse_selector("echo.cmx:a/*/c:*").unwrap();
    let node_path = selector.tree_selector.node_path.unwrap();
    let regex = convert_path_selector_to_regex(&node_path).unwrap();

    let matching = vec!["a", "b", "c"];
    let mut sanitized = matching
        .iter()
        .map(|s| sanitize_string_for_selectors(s))
        .collect::<Vec<String>>()
        .join("/");
    sanitized.push('/');
    assert!(regex.is_match(&sanitized));

    // The middle wildcard stays within one path level, so a deeper path is
    // not matched.
    let too_deep = vec!["a", "b", "g", "e", "d", "c"];
    let mut sanitized_deep = too_deep
        .iter()
        .map(|s| sanitize_string_for_selectors(s))
        .collect::<Vec<String>>()
        .join("/");
    sanitized_deep.push('/');
    assert!(!regex.is_match(&sanitized_deep));

    // Any single middle segment matches, even one full of special
    // characters, once sanitized.
    let odd_middle = vec!["a", "x*:/y\\z", "c"];
    let mut sanitized_odd = odd_middle
        .iter()
        .map(|s| sanitize_string_for_selectors(s))
        .collect::<Vec<String>>()
        .join("/");
    sanitized_odd.push('/');
    assert!(regex.is_match(&sanitized_odd));
}

#[test]
fn validate_pattern_rejects_globs_delimiters_and_empty() {
    assert!(validate_string_pattern("a**").is_err());
    assert!(validate_string_pattern("**").is_err());
    assert!(validate_string_pattern("").is_err());
    assert!(validate_string_pattern("a/b").is_err());
    assert!(validate_string_pattern("a*b").is_ok());
    assert!(validate_string_pattern("*").is_ok());
}

#[test]
fn validate_pattern_reports_every_offending_class() {
    assert_eq!(validate_string_pattern(""), Err(ParseError::EmptyInput));
    assert_eq!(
        validate_string_pattern("**:/"),
        Err(ParseError::PatternInvalid {
            illegal_glob: true,
            unescaped_selector_delimiter: true,
            unescaped_path_delimiter: true,
        })
    );
    assert_eq!(
        validate_string_pattern("a:b"),
        Err(ParseError::PatternInvalid {
            illegal_glob: false,
            unescaped_selector_delimiter: true,
            unescaped_path_delimiter: false,
        })
    );
    // An escaped glob, delimiter or wildcard is legal.
    assert!(validate_string_pattern("a\\**").is_ok());
    assert!(validate_string_pattern("a\\:b\\/c").is_ok());
}

#[test]
fn wrong_section_count_wins_over_section_content() {
    // Two and four sections fail with WrongSectionCount even though every
    // individual section is a valid pattern.
    assert_eq!(parse_selector("a:b"), Err(ParseError::WrongSectionCount));
    assert_eq!(parse_selector("a:b:c:d"), Err(ParseError::WrongSectionCount));
    assert!(parse_selector("a:b:c").is_ok());
}

#[test]
fn parse_component_selector_rejects_empty_input() {
    assert_eq!(parse_component_selector(&"".to_string()), Err(ParseError::EmptyInput));
}

#[test]
fn parse_tree_selector_reports_missing_node_path() {
    assert_eq!(
        parse_tree_selector(&"".to_string(), &"c".to_string()),
        Err(ParseError::MissingNodePath)
    );
    // The property is validated before the missing node path is reported.
    assert_eq!(
        parse_tree_selector(&"".to_string(), &"c**".to_string()),
        Err(ParseError::PatternInvalid {
            illegal_glob: true,
            unescaped_selector_delimiter: false,
            unescaped_path_delimiter: false,
        })
    );
}

#[test]
fn validate_reports_missing_fields() {
    let empty_component = ComponentSelector::empty();
    assert_eq!(validate_component_selector(&empty_component), Err(ParseError::MissingMoniker));

    let empty_tree = TreeSelector::empty();
    assert_eq!(validate_tree_selector(&empty_tree), Err(ParseError::MissingNodePath));

    let mut no_property = TreeSelector::empty();
    no_property.node_path = Some(vec![StringSelector::StringPattern("a".to_string())]);
    assert_eq!(validate_tree_selector(&no_property), Err(ParseError::MissingProperty));

    let mut empty_vector = ComponentSelector::empty();
    empty_vector.moniker_segments = Some(vec![]);
    assert_eq!(validate_component_selector(&empty_vector), Err(ParseError::EmptyInput));
}

#[test]
fn validate_selector_checks_both_halves() {
    let selector = parse_selector("a/b:c/d:e").unwrap();
    assert!(validate_selector(&selector).is_ok());

    let mut broken = selector.clone();
    broken.tree_selector.target_properties = None;
    assert_eq!(validate_selector(&broken), Err(ParseError::MissingProperty));
}

#[test]
fn exact_match_round_trips_through_sanitizer() {
    // For any raw string, the regex compiled from an ExactMatch of it
    // matches the sanitized form of the same raw string.
    let raws = vec!["abc", "a*b", "a/b:c", "\\weird\\", "*", "", "mixed*:/\\text"];
    for raw in raws {
        let segment = StringSelector::ExactMatch(raw.to_string());
        let regex = convert_property_selector_to_regex(&segment).unwrap();
        assert!(regex.is_match(&sanitize_string_for_selectors(raw)), "failed for {:?}", raw);
    }
    // And it is a literal matcher: a different raw string does not match.
    let segment = StringSelector::ExactMatch("a*b".to_string());
    let regex = convert_property_selector_to_regex(&segment).unwrap();
    assert!(!regex.is_match(&sanitize_string_for_selectors("a*c")));
    assert!(!regex.is_match("a*b"));
}

#[test]
fn literal_pattern_matches_exactly_its_sanitized_text() {
    // A valid wildcard-free, escape-free pattern compiles to a regex
    // matching exactly the sanitized pattern text followed by `/`.
    let node_path = vec![StringSelector::StringPattern("a.b".to_string())];
    let regex = convert_path_selector_to_regex(&node_path).unwrap();
    let mut sanitized = sanitize_string_for_selectors("a.b");
    sanitized.push('/');
    assert!(regex.is_match(&sanitized));
    // Nothing else: the `.` is meta-escaped, endpoints are anchored.
    assert!(!regex.is_match("axb/"));
    assert!(!regex.is_match("a.b"));
    assert!(!regex.is_match("xa.b/"));
    assert!(!regex.is_match("a.bx/"));
}

#[test]
fn sanitize_escapes_every_special_character() {
    assert_eq!(sanitize_string_for_selectors("a*b/c"), "a\\*b\\/c".to_string());
    assert_eq!(sanitize_string_for_selectors("\\:"), "\\\\\\:".to_string());
    assert_eq!(sanitize_string_for_selectors("plain"), "plain".to_string());
    assert_eq!(sanitize_string_for_selectors(""), "".to_string());
}

#[test]
fn dangling_escape_in_segment_fails_translation() {
    let node_path = vec![StringSelector::StringPattern("a\\".to_string())];
    assert!(matches!(
        convert_path_selector_to_regex(&node_path),
        Err(ParseError::UnmatchedEscape)
    ));
}

#[test]
fn parse_lines_is_fail_fast_with_line_index() {
    let good = vec!["a:b:c".to_string(), "a*/b:c/d/*:*".to_string()];
    let parsed = parse_selectors_from_lines(&good).unwrap();
    assert_eq!(parsed.len(), 2);

    let bad = vec!["a:b:c".to_string(), "**:**:**".to_string(), "a:b".to_string()];
    let err = parse_selectors_from_lines(&bad).unwrap_err();
    assert_eq!(err.line_index, 1);
    assert!(matches!(err.error, ParseError::PatternInvalid { .. }));
}

#[test]
fn error_messages_are_available() {
    assert!(!ParseError::WrongSectionCount.message().is_empty());
    assert!(!ParseError::UnmatchedEscape.message().is_empty());
}
