use selectors::{
    parse_component_selector, parse_selector, parse_tree_selector, sanitize_string_for_selectors,
    validate_component_selector, validate_tree_selector, ComponentSelector, StringSelector,
    TreeSelector,
};

fn shared_passing_test_cases() -> Vec<(Vec<&'static str>, &'static str)> {
    vec![
        (vec![r#"abc"#, r#"def"#, r#"g"#], r#"bob"#),
        (vec![r#"\**"#], r#"\**"#),
        (vec![r#"\/"#], r#"\/"#),
        (vec![r#"\:"#], r#"\:"#),
        (vec![r#"asda\\\:"#], r#"a"#),
        (vec![r#"asda*"#], r#"a"#),
    ]
}

fn shared_failing_test_cases() -> Vec<(Vec<&'static str>, &'static str)> {
    vec![
        // Globs aren't allowed in path nodes.
        (vec![r#"**"#], r#"a"#),
        // Slashes aren't allowed in path nodes.
        (vec![r#"/"#], r#"a"#),
        // Colons aren't allowed in path nodes.
        (vec![r#":"#], r#"a"#),
        // Checking that path nodes ending with offlimits
        // chars are still identified.
        (vec![r#"asdasd:"#], r#"a"#),
        (vec![r#"a**"#], r#"a"#),
        // Checking that path nodes starting with offlimits
        // chars are still identified.
        (vec![r#":asdasd"#], r#"a"#),
        (vec![r#"**a"#], r#"a"#),
        // Neither moniker segments nor node paths
        // are allowed to be empty.
        (vec![], r#"bob"#),
    ]
}

fn create_tree_selector(node_path: &Vec<&str>, property: &str) -> TreeSelector {
    let mut tree_selector = TreeSelector::empty();
    tree_selector.node_path = Some(
        node_path
            .iter()
            .map(|path_node_str| StringSelector::StringPattern(path_node_str.to_string()))
            .collect::<Vec<StringSelector>>(),
    );
    tree_selector.target_properties = Some(StringSelector::StringPattern(property.to_string()));
    tree_selector
}

fn create_component_selector(component_moniker: &Vec<&str>) -> ComponentSelector {
    let mut component_selector = ComponentSelector::empty();
    component_selector.moniker_segments = Some(
        component_moniker
            .into_iter()
            .map(|path_node_str| StringSelector::StringPattern(path_node_str.to_string()))
            .collect::<Vec<StringSelector>>(),
    );
    component_selector
}

#[test]
fn canonical_component_selector_test() {
    let test_vector: Vec<(String, StringSelector, StringSelector, StringSelector)> = vec![
        (
            "a/b/c".to_string(),
            StringSelector::StringPattern("a".to_string()),
            StringSelector::StringPattern("b".to_string()),
            StringSelector::StringPattern("c".to_string()),
        ),
        (
            "a/*/c".to_string(),
            StringSelector::StringPattern("a".to_string()),
            StringSelector::StringPattern("*".to_string()),
            StringSelector::StringPattern("c".to_string()),
        ),
        (
            "a/b*/c".to_string(),
            StringSelector::StringPattern("a".to_string()),
            StringSelector::StringPattern("b*".to_string()),
            StringSelector::StringPattern("c".to_string()),
        ),
        (
            r#"a/b\*/c"#.to_string(),
            StringSelector::StringPattern("a".to_string()),
            StringSelector::StringPattern(r#"b\*"#.to_string()),
            StringSelector::StringPattern("c".to_string()),
        ),
        (
            r#"a/\*/c"#.to_string(),
            StringSelector::StringPattern("a".to_string()),
            StringSelector::StringPattern(r#"\*"#.to_string()),
            StringSelector::StringPattern("c".to_string()),
        ),
    ];

    for (test_string, first_path_node, second_path_node, target_component) in test_vector {
        let component_selector = parse_component_selector(&test_string).unwrap();

        match component_selector.moniker_segments.as_ref().unwrap().as_slice() {
            [first, second, third] => {
                assert_eq!(*first, first_path_node);
                assert_eq!(*second, second_path_node);
                assert_eq!(*third, target_component);
            }
            _ => unreachable!(),
        }
    }
}

#[test]
fn missing_path_component_selector_test() {
    let component_selector_string = "c";
    let component_selector =
        parse_component_selector(&component_selector_string.to_string()).unwrap();
    let mut path_vec = component_selector.moniker_segments.unwrap();
    assert_eq!(path_vec.pop(), Some(StringSelector::StringPattern("c".to_string())));

    assert!(path_vec.is_empty());
}

#[test]
fn path_components_have_spaces_as_names_selector_test() {
    let component_selector_string = " ";
    let component_selector =
        parse_component_selector(&component_selector_string.to_string()).unwrap();
    let mut path_vec = component_selector.moniker_segments.unwrap();
    assert_eq!(path_vec.pop(), Some(StringSelector::StringPattern(" ".to_string())));

    assert!(path_vec.is_empty());
}

#[test]
fn errorful_component_selector_test() {
    let test_vector: Vec<String> = vec![
        "".to_string(),
        "a\\".to_string(),
        r#"a/b***/c"#.to_string(),
        r#"a/***/c"#.to_string(),
        r#"a/**/c"#.to_string(),
    ];
    for test_string in test_vector {
        let component_selector_result = parse_component_selector(&test_string);
        assert!(component_selector_result.is_err());
    }
}

#[test]
fn canonical_tree_selector_test() {
    let test_vector: Vec<(String, String, StringSelector, StringSelector, Option<StringSelector>)> = vec![
        (
            "a/b".to_string(),
            "c".to_string(),
            StringSelector::StringPattern("a".to_string()),
            StringSelector::StringPattern("b".to_string()),
            Some(StringSelector::StringPattern("c".to_string())),
        ),
        (
            "a/*".to_string(),
            "c".to_string(),
            StringSelector::StringPattern("a".to_string()),
            StringSelector::StringPattern("*".to_string()),
            Some(StringSelector::StringPattern("c".to_string())),
        ),
        (
            "a/b".to_string(),
            "*".to_string(),
            StringSelector::StringPattern("a".to_string()),
            StringSelector::StringPattern("b".to_string()),
            Some(StringSelector::StringPattern("*".to_string())),
        ),
    ];

    for (test_node_path, test_target_property, first_path_node, second_path_node, parsed_property) in
        test_vector
    {
        let tree_selector = parse_tree_selector(&test_node_path, &test_target_property).unwrap();
        assert_eq!(tree_selector.target_properties, parsed_property);
        match tree_selector.node_path.as_ref().unwrap().as_slice() {
            [first, second] => {
                assert_eq!(*first, first_path_node);
                assert_eq!(*second, second_path_node);
            }
            _ => unreachable!(),
        }
    }
}

#[test]
fn errorful_tree_selector_test() {
    let test_vector: Vec<(String, String)> = vec![
        // Not allowed due to empty property selector.
        ("a/b".to_string(), "".to_string()),
        // Not allowed due to glob property selector.
        ("a/b".to_string(), "**".to_string()),
        // Not allowed due to escape-char without a thing to escape.
        (r#"a/b\"#.to_string(), "c".to_string()),
        // String literals can't have globs.
        (r#"a/b**"#.to_string(), "c".to_string()),
        // Property selector string literals cant have globs.
        (r#"a/b"#.to_string(), "c**".to_string()),
        // Node path cant have globs.
        ("a/**".to_string(), "c".to_string()),
        ("".to_string(), "c".to_string()),
    ];
    for (test_nodepath, test_targetproperty) in test_vector {
        let tree_selector_result = parse_tree_selector(&test_nodepath, &test_targetproperty);
        assert!(tree_selector_result.is_err());
    }
}

#[test]
fn canonical_path_regex_transpilation_test() {
    // Note: We provide the full selector syntax but this test is only transpiling
    // the node-path of the selector, and validating against that.
    let test_cases = vec![
        (r#"echo.cmx:a/*/c:*"#, vec!["a", "b", "c"]),
        (r#"echo.cmx:a/*/*/*/*/c:*"#, vec!["a", "b", "g", "e", "d", "c"]),
        (r#"echo.cmx:*/*/*/*/*/*/*:*"#, vec!["a", "b", "/c", "d", "e*", "f"]),
        (r#"echo.cmx:a/*/*/d/*/*:*"#, vec!["a", "b", "/c", "d", "e*", "f"]),
        (r#"echo.cmx:a/*/\/c/d/e\*/*:*"#, vec!["a", "b", "/c", "d", "e*", "f"]),
        (r#"echo.cmx:a/b*/c:*"#, vec!["a", "bob", "c"]),
    ];
    for (selector, string_to_match) in test_cases {
        let mut sanitized_node_path = string_to_match
            .iter()
            .map(|s| sanitize_string_for_selectors(s))
            .collect::<Vec<String>>()
            .join("/");
        // We must append a "/" because the absolute monikers end in slash and
        // hierarchy node paths don't, but we want to reuse the regex logic.
        sanitized_node_path.push('/');

        let parsed_selector = parse_selector(selector).unwrap();
        let tree_selector = parsed_selector.tree_selector;
        let node_path = tree_selector.node_path.unwrap();
        let selector_regex = selectors::convert_path_selector_to_regex(&node_path).unwrap();
        assert!(selector_regex.is_match(&sanitized_node_path));
    }
}

#[test]
fn failing_path_regex_transpilation_test() {
    // Note: We provide the full selector syntax but this test is only transpiling
    // the node-path of the tree selector, and valdating against that.
    let test_cases = vec![
        // Failing because it's missing a required "d" directory node in the string.
        (r#"echo.cmx:a/*/d/*/f:*"#, vec!["a", "b", "c", "e", "f"]),
        // Failing because the match string doesnt end at the c node.
        (r#"echo.cmx:a/*/*/*/*/*/c:*"#, vec!["a", "b", "g", "e", "d", "f"]),
    ];
    for (selector, string_to_match) in test_cases {
        let mut sanitized_node_path = string_to_match
            .iter()
            .map(|s| sanitize_string_for_selectors(s))
            .collect::<Vec<String>>()
            .join("/");
        // We must append a "/" because the absolute monikers end in slash and
        // hierarchy node paths don't, but we want to reuse the regex logic.
        sanitized_node_path.push('/');

        let parsed_selector = parse_selector(selector).unwrap();
        let tree_selector = parsed_selector.tree_selector;
        let node_path = tree_selector.node_path.unwrap();
        let selector_regex = selectors::convert_path_selector_to_regex(&node_path).unwrap();
        assert!(!selector_regex.is_match(&sanitized_node_path));
    }
}

#[test]
fn canonical_property_regex_transpilation_test() {
    // Note: We provide the full selector syntax but this test is only transpiling
    // the property of the selector, and validating against that.
    let test_cases = vec![
        (r#"echo.cmx:a:*"#, r#"a"#),
        (r#"echo.cmx:a:bob"#, r#"bob"#),
        (r#"echo.cmx:a:b*"#, r#"bob"#),
        (r#"echo.cmx:a:\*"#, r#"*"#),
    ];
    for (selector, string_to_match) in test_cases {
        let parsed_selector = parse_selector(selector).unwrap();
        let tree_selector = parsed_selector.tree_selector;
        let property_selector = tree_selector.target_properties.unwrap();
        let selector_regex =
            selectors::convert_property_selector_to_regex(&property_selector).unwrap();
        assert!(selector_regex.is_match(&sanitize_string_for_selectors(string_to_match)));
    }
}

#[test]
fn failing_property_regex_transpilation_test() {
    // Note: We provide the full selector syntax but this test is only transpiling
    // the node-path of the tree selector, and valdating against that.
    let test_cases = vec![
        (r#"echo.cmx:a:c"#, r#"d"#),
        (r#"echo.cmx:a:bob"#, r#"thebob"#),
        (r#"echo.cmx:a:c"#, r#"cdog"#),
    ];
    for (selector, string_to_match) in test_cases {
        let parsed_selector = parse_selector(selector).unwrap();
        let tree_selector = parsed_selector.tree_selector;
        let target_properties = tree_selector.target_properties.unwrap();
        let selector_regex =
            selectors::convert_property_selector_to_regex(&target_properties).unwrap();
        assert!(!selector_regex.is_match(&sanitize_string_for_selectors(string_to_match)));
    }
}

#[test]
fn tree_selector_validator_test() {
    let unique_failing_test_cases = vec![
        // All failing validators due to property selectors are
        // unique since the component validator doesnt look at them.
        (vec![r#"a"#], r#"**"#),
        (vec![r#"a"#], r#"/"#),
    ];

    for (node_path, property) in shared_passing_test_cases().iter() {
        let tree_selector = create_tree_selector(node_path, property);
        assert!(validate_tree_selector(&tree_selector).is_ok());
    }

    for (node_path, property) in shared_failing_test_cases().iter() {
        let tree_selector = create_tree_selector(node_path, property);
        assert!(
            validate_tree_selector(&tree_selector).is_err(),
            "Failed to validate tree selector: {:?}",
            tree_selector
        );
    }

    for (node_path, property) in unique_failing_test_cases.iter() {
        let tree_selector = create_tree_selector(node_path, property);
        assert!(
            validate_tree_selector(&tree_selector).is_err(),
            "Failed to validate tree selector: {:?}",
            tree_selector
        );
    }
}

#[test]
fn component_selector_validator_test() {
    for (component_moniker, _) in shared_passing_test_cases().iter() {
        let component_selector = create_component_selector(component_moniker);

        assert!(validate_component_selector(&component_selector).is_ok());
    }

    for (component_moniker, _) in shared_failing_test_cases().iter() {
        let component_selector = create_component_selector(component_moniker);

        assert!(
            validate_component_selector(&component_selector).is_err(),
            "Failed to validate component selector: {:?}",
            component_selector
        );
    }
}
