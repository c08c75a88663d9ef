//! Building structured selectors from raw selector text.
//!
//! A selector string is split on `:` into exactly three sections — an
//! owner-moniker pattern, a node-path pattern and a property pattern — and
//! each section is tokenized on `/` where applicable, with every resulting
//! segment validated. Parsing fails fast on the first structural problem.

use vstd::prelude::*;

use crate::error::{LineError, ParseError};
use crate::tokenizer::{lemma_tokenize_tokens, spec_tokenize, tokenize_string};
use crate::types::{segments_are_patterns, ComponentSelector, Selector, StringSelector, TreeSelector};
use crate::validate::{
    pattern_ok, segment_valid, selector_valid, spec_validate_pattern, validate_string_pattern,
};
use crate::{PATH_NODE_DELIMITER, SELECTOR_DELIMITER};

verus! {

/// Validation of token texts in order: the error of the first invalid text,
/// or success.
pub open spec fn spec_validate_texts(texts: Seq<Seq<char>>) -> Result<(), ParseError>
    decreases texts.len(),
{
    if texts.len() == 0 {
        Ok(())
    } else if spec_validate_pattern(texts[0]) is Err {
        spec_validate_pattern(texts[0])
    } else {
        spec_validate_texts(texts.drop_first())
    }
}

/// What `parse_component_selector` computes for input text `s`: the validated
/// `/`-token texts of the moniker, or the first error found.
pub open spec fn spec_parse_component(s: Seq<char>) -> Result<Seq<Seq<char>>, ParseError> {
    if s.len() == 0 {
        Err(ParseError::EmptyInput)
    } else {
        match spec_tokenize(s, '/') {
            Err(e) => Err(e),
            Ok(texts) => match spec_validate_texts(texts) {
                Err(e) => Err(e),
                Ok(_) => Ok(texts),
            },
        }
    }
}

/// What `parse_tree_selector` computes for node-path text `n` and property
/// text `p`: the validated node-path token texts and the validated property
/// text, or the first error found. The node path is examined first, then the
/// property; an empty node path is reported only after the property has been
/// validated, because the property segment is built before the assembled tree
/// selector is checked for a missing node path.
pub open spec fn spec_parse_tree(n: Seq<char>, p: Seq<char>) -> Result<
    (Seq<Seq<char>>, Seq<char>),
    ParseError,
> {
    let node = if n.len() == 0 {
        Ok(None)
    } else {
        match spec_tokenize(n, '/') {
            Err(e) => Err(e),
            Ok(texts) => match spec_validate_texts(texts) {
                Err(e) => Err(e),
                Ok(_) => Ok(Some(texts)),
            },
        }
    };
    match node {
        Err(e) => Err(e),
        Ok(opt) => match spec_validate_pattern(p) {
            Err(e) => Err(e),
            Ok(_) => match opt {
                None => Err(ParseError::MissingNodePath),
                Some(texts) => Ok((texts, p)),
            },
        },
    }
}

/// What `parse_selector` computes for selector text `s`: the moniker token
/// texts, the node-path token texts and the property text, or the first error
/// found. The text must split on `:` into exactly three sections.
pub open spec fn spec_parse_selector(s: Seq<char>) -> Result<
    (Seq<Seq<char>>, Seq<Seq<char>>, Seq<char>),
    ParseError,
> {
    match spec_tokenize(s, ':') {
        Err(e) => Err(e),
        Ok(sections) => if sections.len() != 3 {
            Err(ParseError::WrongSectionCount)
        } else {
            match spec_parse_component(sections[0]) {
                Err(e) => Err(e),
                Ok(moniker) => match spec_parse_tree(sections[1], sections[2]) {
                    Err(e) => Err(e),
                    Ok(tree) => Ok((moniker, tree.0, tree.1)),
                },
            }
        },
    }
}

/// Whether the structured selector `sel` carries exactly the given moniker
/// texts, node-path texts and property text, all as `StringPattern` segments.
pub open spec fn selector_matches(
    sel: Selector,
    moniker: Seq<Seq<char>>,
    node_path: Seq<Seq<char>>,
    property: Seq<char>,
) -> bool {
    &&& sel.component_selector.moniker_segments matches Some(m) && segments_are_patterns(
        m@,
        moniker,
    )
    &&& sel.tree_selector.node_path matches Some(n) && segments_are_patterns(n@, node_path)
    &&& sel.tree_selector.target_properties matches Some(tp) && tp.is_pattern() && tp.text()
        == property
}

/// Whether `sel` is what parsing the line text yields.
pub open spec fn line_parse_ok(line: Seq<char>, sel: Selector) -> bool {
    match spec_parse_selector(line) {
        Ok(t) => selector_matches(sel, t.0, t.1, t.2),
        Err(_) => false,
    }
}

/// Token-text validation succeeds exactly when every text is a legal
/// pattern.
pub proof fn lemma_validate_texts_ok(texts: Seq<Seq<char>>)
    ensures
        (spec_validate_texts(texts) is Ok) <==> (forall|i: int|
            0 <= i < texts.len() ==> pattern_ok(#[trigger] texts[i])),
    decreases texts.len(),
{
    if texts.len() == 0 {
    } else {
        lemma_validate_texts_ok(texts.drop_first());
        assert forall|i: int|
            0 <= i < texts.len() && pattern_ok(texts[0]) && (forall|j: int|
                0 <= j < texts.drop_first().len() ==> pattern_ok(
                    #[trigger] texts.drop_first()[j],
                )) implies pattern_ok(#[trigger] texts[i]) by {
            if i > 0 {
                assert(texts.drop_first()[i - 1] == texts[i]);
            }
        }
        if forall|i: int| 0 <= i < texts.len() ==> pattern_ok(#[trigger] texts[i]) {
            assert forall|j: int| 0 <= j < texts.drop_first().len() implies pattern_ok(
                #[trigger] texts.drop_first()[j],
            ) by {
                assert(texts.drop_first()[j] == texts[j + 1]);
            }
        }
    }
}

/// Parsing yields only valid selectors: any structured selector carrying
/// exactly what a successful parse produced satisfies the validator's notion
/// of validity — the parser applies the grammar to every segment it accepts.
pub proof fn lemma_parsed_selector_is_valid(sel: Selector, s: Seq<char>)
    requires
        spec_parse_selector(s) matches Ok(t) && selector_matches(sel, t.0, t.1, t.2),
    ensures
        selector_valid(sel),
{
    let t = spec_parse_selector(s)->Ok_0;
    let sections = spec_tokenize(s, ':')->Ok_0;
    assert(spec_parse_component(sections[0]) == Ok::<Seq<Seq<char>>, ParseError>(t.0));
    assert(spec_parse_tree(sections[1], sections[2]) matches Ok(tree) && tree.0 == t.1 && tree.1
        == t.2);

    // The moniker: its tokens are non-empty and all legal patterns.
    lemma_tokenize_tokens(sections[0], '/');
    assert(t.0.len() > 0);
    lemma_validate_texts_ok(t.0);
    let m = sel.component_selector.moniker_segments->Some_0;
    assert(segments_are_patterns(m@, t.0));
    assert forall|i: int| 0 <= i < m@.len() implies segment_valid(#[trigger] m@[i]) by {
        assert(m@[i].is_pattern());
        assert(m@[i].text() == t.0[i]);
        assert(pattern_ok(t.0[i]));
    }

    // The node path: likewise.
    lemma_tokenize_tokens(sections[1], '/');
    assert(t.1.len() > 0);
    lemma_validate_texts_ok(t.1);
    let n = sel.tree_selector.node_path->Some_0;
    assert(segments_are_patterns(n@, t.1));
    assert forall|i: int| 0 <= i < n@.len() implies segment_valid(#[trigger] n@[i]) by {
        assert(n@[i].is_pattern());
        assert(n@[i].text() == t.1[i]);
        assert(pattern_ok(t.1[i]));
    }

    // The target property: validated directly.
    let tp = sel.tree_selector.target_properties->Some_0;
    assert(tp.is_pattern());
    assert(tp.text() == t.2);
    assert(pattern_ok(t.2));
    assert(segment_valid(tp));
}

/// Converts one raw token into a `StringPattern` segment, after validating it
/// against the pattern grammar.
pub(crate) fn convert_string_to_string_selector(string_to_convert: &String) -> (r: Result<
    StringSelector,
    ParseError,
>)
    ensures
        match r {
            Ok(sel) => spec_validate_pattern(string_to_convert@) is Ok && sel.is_pattern()
                && sel.text() == string_to_convert@,
            Err(e) => spec_validate_pattern(string_to_convert@) == Err::<(), ParseError>(e),
        },
{
    match validate_string_pattern(string_to_convert.as_str()) {
        Err(e) => Err(e),
        Ok(_) => Ok(StringSelector::StringPattern(string_to_convert.clone())),
    }
}

/// Converts every token into a validated `StringPattern` segment, in order,
/// failing on the first invalid token.
fn convert_tokens_to_segments(tokens: &Vec<String>) -> (r: Result<Vec<StringSelector>, ParseError>)
    ensures
        match r {
            Ok(segs) => spec_validate_texts(tokens.deep_view()) is Ok && segments_are_patterns(
                segs@,
                tokens.deep_view(),
            ),
            Err(e) => spec_validate_texts(tokens.deep_view()) == Err::<(), ParseError>(e),
        },
{
    let ghost texts = tokens.deep_view();
    let mut segments: Vec<StringSelector> = Vec::new();
    let mut k: usize = 0;
    proof {
        assert(texts.subrange(0, texts.len() as int) =~= texts);
    }
    while k < tokens.len()
        invariant
            k <= tokens@.len(),
            texts == tokens.deep_view(),
            texts.len() == tokens@.len(),
            spec_validate_texts(texts) == spec_validate_texts(
                texts.subrange(k as int, texts.len() as int),
            ),
            segments@.len() == k,
            forall|i: int|
                0 <= i < k ==> (#[trigger] segments@[i]).is_pattern() && segments@[i].text()
                    == texts[i],
        decreases tokens@.len() - k,
    {
        let ghost rest = texts.subrange(k as int, texts.len() as int);
        proof {
            assert(rest[0] == texts[k as int]);
            assert(rest.drop_first() =~= texts.subrange(k as int + 1, texts.len() as int));
        }
        match convert_string_to_string_selector(&tokens[k]) {
            Err(e) => {
                return Err(e);
            },
            Ok(seg) => {
                segments.push(seg);
            },
        }
        k = k + 1;
    }
    proof {
        assert(texts.subrange(k as int, texts.len() as int) =~= Seq::<Seq<char>>::empty());
    }
    Ok(segments)
}

/// Parses an unparsed component selector: tokenizes on `/` and converts every
/// token into a validated `StringPattern` moniker segment. Fails on empty
/// input, on tokenizer errors, and on the first invalid segment.
pub fn parse_component_selector(unparsed_component_selector: &String) -> (r: Result<
    ComponentSelector,
    ParseError,
>)
    ensures
        match r {
            Ok(cs) => spec_parse_component(unparsed_component_selector@) matches Ok(texts)
                && cs.moniker_segments matches Some(v) && segments_are_patterns(v@, texts),
            Err(e) => spec_parse_component(unparsed_component_selector@) == Err::<
                Seq<Seq<char>>,
                ParseError,
            >(e),
        },
{
    if unparsed_component_selector.as_str().is_empty() {
        return Err(ParseError::EmptyInput);
    }
    let tokenized = match tokenize_string(
        unparsed_component_selector.as_str(),
        PATH_NODE_DELIMITER,
    ) {
        Ok(t) => t,
        Err(e) => {
            return Err(e);
        },
    };
    let path_node_vector = match convert_tokens_to_segments(&tokenized) {
        Ok(v) => v,
        Err(e) => {
            return Err(e);
        },
    };
    Ok(ComponentSelector { moniker_segments: Some(path_node_vector) })
}

/// Parses an unparsed node-path selector and property selector into a tree
/// selector. An empty node path is treated as present-but-absent and rejected
/// with `MissingNodePath` — after the property pattern has been validated.
pub fn parse_tree_selector(
    unparsed_node_path: &String,
    unparsed_property_selector: &String,
) -> (r: Result<TreeSelector, ParseError>)
    ensures
        match r {
            Ok(ts) => match spec_parse_tree(unparsed_node_path@, unparsed_property_selector@) {
                Ok(t) => {
                    &&& ts.node_path matches Some(v) && segments_are_patterns(v@, t.0)
                    &&& ts.target_properties matches Some(tp) && tp.is_pattern() && tp.text()
                        == t.1
                },
                Err(_) => false,
            },
            Err(e) => spec_parse_tree(unparsed_node_path@, unparsed_property_selector@) == Err::<
                (Seq<Seq<char>>, Seq<char>),
                ParseError,
            >(e),
        },
{
    let mut node_path: Option<Vec<StringSelector>> = None;
    if !unparsed_node_path.as_str().is_empty() {
        let tokenized = match tokenize_string(unparsed_node_path.as_str(), PATH_NODE_DELIMITER) {
            Ok(t) => t,
            Err(e) => {
                return Err(e);
            },
        };
        match convert_tokens_to_segments(&tokenized) {
            Ok(v) => {
                node_path = Some(v);
            },
            Err(e) => {
                return Err(e);
            },
        }
    }
    let target_properties = match convert_string_to_string_selector(unparsed_property_selector) {
        Ok(tp) => tp,
        Err(e) => {
            return Err(e);
        },
    };
    match node_path {
        None => Err(ParseError::MissingNodePath),
        Some(v) => Ok(TreeSelector { node_path: Some(v), target_properties: Some(target_properties) }),
    }
}

/// Parses one selector string: splits on `:`, requires exactly three
/// sections, and delegates them to the component and tree parsers. A section
/// count other than three fails with `WrongSectionCount`, whatever the
/// sections contain.
pub fn parse_selector(unparsed_selector: &str) -> (r: Result<Selector, ParseError>)
    ensures
        match r {
            Ok(sel) => spec_parse_selector(unparsed_selector@) matches Ok(t) && selector_matches(
                sel,
                t.0,
                t.1,
                t.2,
            ),
            Err(e) => spec_parse_selector(unparsed_selector@) == Err::<
                (Seq<Seq<char>>, Seq<Seq<char>>, Seq<char>),
                ParseError,
            >(e),
        },
        (match spec_tokenize(unparsed_selector@, ':') {
            Ok(sections) => sections.len() != 3,
            Err(_) => false,
        }) ==> r == Err::<Selector, ParseError>(ParseError::WrongSectionCount),
{
    let selector_sections = match tokenize_string(unparsed_selector, SELECTOR_DELIMITER) {
        Ok(t) => t,
        Err(e) => {
            return Err(e);
        },
    };
    if selector_sections.len() != 3 {
        return Err(ParseError::WrongSectionCount);
    }
    proof {
        assert(selector_sections.deep_view()[0] == selector_sections@[0]@);
        assert(selector_sections.deep_view()[1] == selector_sections@[1]@);
        assert(selector_sections.deep_view()[2] == selector_sections@[2]@);
    }
    let component_selector = match parse_component_selector(&selector_sections[0]) {
        Ok(cs) => cs,
        Err(e) => {
            return Err(e);
        },
    };
    let tree_selector = match parse_tree_selector(&selector_sections[1], &selector_sections[2]) {
        Ok(ts) => ts,
        Err(e) => {
            return Err(e);
        },
    };
    Ok(Selector { component_selector, tree_selector })
}

/// Parses many selector strings, one per line, in order. Fails fast on the
/// first line that does not parse, reporting that line's index together with
/// its parse error.
pub fn parse_selectors_from_lines(lines: &Vec<String>) -> (r: Result<Vec<Selector>, LineError>)
    ensures
        match r {
            Ok(v) => v@.len() == lines@.len() && forall|i: int|
                0 <= i < lines@.len() ==> line_parse_ok(lines@[i]@, #[trigger] v@[i]),
            Err(le) => le.line_index < lines@.len() && (spec_parse_selector(
                lines@[le.line_index as int]@,
            ) matches Err(e) && e == le.error) && forall|i: int|
                0 <= i < le.line_index ==> spec_parse_selector(#[trigger] lines@[i]@) is Ok,
        },
{
    let mut selectors: Vec<Selector> = Vec::new();
    let mut k: usize = 0;
    while k < lines.len()
        invariant
            k <= lines@.len(),
            selectors@.len() == k,
            forall|i: int| 0 <= i < k ==> line_parse_ok(lines@[i]@, #[trigger] selectors@[i]),
            forall|i: int| 0 <= i < k ==> spec_parse_selector(#[trigger] lines@[i]@) is Ok,
        decreases lines@.len() - k,
    {
        match parse_selector(lines[k].as_str()) {
            Ok(sel) => {
                selectors.push(sel);
            },
            Err(e) => {
                return Err(LineError { line_index: k, error: e });
            },
        }
        k = k + 1;
    }
    Ok(selectors)
}

} // verus!
