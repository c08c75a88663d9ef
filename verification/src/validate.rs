//! The grammar rules for pattern segments and structured selectors.
//!
//! A pattern segment must be non-empty, must not contain an unescaped glob
//! sequence (`**`), and must not contain an unescaped section (`:`) or path
//! (`/`) delimiter. A single unescaped wildcard (`*`) is always legal.
//! `ExactMatch` segments are exempt: they are taken as opaque literals.

use vstd::prelude::*;

use crate::error::ParseError;
use crate::types::{ComponentSelector, Selector, StringSelector, TreeSelector};

verus! {

/// A glob (`**`) whose first `*` is not immediately preceded by the escape
/// character starts at position `i` of `s`.
pub open spec fn glob_at(s: Seq<char>, i: int) -> bool {
    s[i] == '*' && s[i + 1] == '*' && (i == 0 || s[i - 1] != '\\')
}

/// The character `c`, not immediately preceded by the escape character,
/// occurs at position `i` of `s`.
pub open spec fn unescaped_at(s: Seq<char>, c: char, i: int) -> bool {
    s[i] == c && (i == 0 || s[i - 1] != '\\')
}

/// A glob sequence occurs anywhere in `s`, not immediately preceded by the
/// escape character.
pub open spec fn has_unescaped_glob(s: Seq<char>) -> bool {
    exists|i: int| 0 <= i && i + 1 < s.len() && glob_at(s, i)
}

/// The character `c` occurs anywhere in `s` not immediately preceded by the
/// escape character.
pub open spec fn has_unescaped(s: Seq<char>, c: char) -> bool {
    exists|i: int| 0 <= i < s.len() && unescaped_at(s, c, i)
}

/// A legal pattern segment: non-empty, with no unescaped glob and no
/// unescaped delimiter.
pub open spec fn pattern_ok(s: Seq<char>) -> bool {
    s.len() > 0 && !has_unescaped_glob(s) && !has_unescaped(s, ':') && !has_unescaped(s, '/')
}

/// What `validate_string_pattern` returns for a segment text: empty text is
/// `EmptyInput`; otherwise every class of offending content found is
/// reported, all at once, in a single `PatternInvalid` value.
pub open spec fn spec_validate_pattern(s: Seq<char>) -> Result<(), ParseError> {
    if s.len() == 0 {
        Err(ParseError::EmptyInput)
    } else if has_unescaped_glob(s) || has_unescaped(s, ':') || has_unescaped(s, '/') {
        Err(
            ParseError::PatternInvalid {
                illegal_glob: has_unescaped_glob(s),
                unescaped_selector_delimiter: has_unescaped(s, ':'),
                unescaped_path_delimiter: has_unescaped(s, '/'),
            },
        )
    } else {
        Ok(())
    }
}

/// Whether one segment satisfies the grammar: a `StringPattern` must be a
/// legal pattern; an `ExactMatch` is always acceptable.
pub open spec fn segment_valid(s: StringSelector) -> bool {
    match s {
        StringSelector::StringPattern(p) => pattern_ok(p@),
        StringSelector::ExactMatch(_) => true,
    }
}

/// Whether every segment of a vector satisfies the grammar.
pub open spec fn segments_valid(v: Seq<StringSelector>) -> bool {
    forall|i: int| 0 <= i < v.len() ==> segment_valid(#[trigger] v[i])
}

/// What validating a segment vector returns: the error of the first invalid
/// `StringPattern` segment, or success.
pub open spec fn spec_validate_segments(v: Seq<StringSelector>) -> Result<(), ParseError>
    decreases v.len(),
{
    if v.len() == 0 {
        Ok(())
    } else {
        match v[0] {
            StringSelector::StringPattern(p) => if spec_validate_pattern(p@) is Err {
                spec_validate_pattern(p@)
            } else {
                spec_validate_segments(v.drop_first())
            },
            StringSelector::ExactMatch(_) => spec_validate_segments(v.drop_first()),
        }
    }
}

/// Segment-vector validation succeeds exactly on vectors whose segments all
/// satisfy the grammar.
pub proof fn lemma_validate_segments_ok(v: Seq<StringSelector>)
    ensures
        (spec_validate_segments(v) is Ok) == segments_valid(v),
    decreases v.len(),
{
    if v.len() == 0 {
    } else {
        lemma_validate_segments_ok(v.drop_first());
        assert(v.drop_first().len() == v.len() - 1);
        assert forall|i: int| 0 <= i < v.len() && segment_valid(v[0]) && segments_valid(
            v.drop_first(),
        ) implies segment_valid(#[trigger] v[i]) by {
            if i > 0 {
                assert(v.drop_first()[i - 1] == v[i]);
            }
        }
        if segments_valid(v) {
            assert(segment_valid(v[0]));
            assert forall|i: int| 0 <= i < v.drop_first().len() implies segment_valid(
                #[trigger] v.drop_first()[i],
            ) by {
                assert(v.drop_first()[i] == v[i + 1]);
            }
        }
    }
}

/// Whether a component selector is valid: a present, non-empty moniker whose
/// segments all satisfy the grammar.
pub open spec fn component_selector_valid(cs: ComponentSelector) -> bool {
    match cs.moniker_segments {
        Some(v) => v@.len() > 0 && segments_valid(v@),
        None => false,
    }
}

/// Whether a tree selector is valid: a present, non-empty node path whose
/// segments all satisfy the grammar, and a present, valid target property.
pub open spec fn tree_selector_valid(ts: TreeSelector) -> bool {
    &&& match ts.node_path {
        Some(v) => v@.len() > 0 && segments_valid(v@),
        None => false,
    }
    &&& match ts.target_properties {
        Some(tp) => segment_valid(tp),
        None => false,
    }
}

/// Whether a full selector is valid.
pub open spec fn selector_valid(s: Selector) -> bool {
    component_selector_valid(s.component_selector) && tree_selector_valid(s.tree_selector)
}

/// What `validate_component_selector` returns.
pub open spec fn spec_validate_component(cs: ComponentSelector) -> Result<(), ParseError> {
    match cs.moniker_segments {
        None => Err(ParseError::MissingMoniker),
        Some(v) => if v@.len() == 0 {
            Err(ParseError::EmptyInput)
        } else {
            spec_validate_segments(v@)
        },
    }
}

/// What `validate_tree_selector` returns: the node path is examined first,
/// then the target property.
pub open spec fn spec_validate_tree(ts: TreeSelector) -> Result<(), ParseError> {
    match ts.node_path {
        None => Err(ParseError::MissingNodePath),
        Some(v) => if v@.len() == 0 {
            Err(ParseError::EmptyInput)
        } else if spec_validate_segments(v@) is Err {
            spec_validate_segments(v@)
        } else {
            match ts.target_properties {
                None => Err(ParseError::MissingProperty),
                Some(tp) => match tp {
                    StringSelector::StringPattern(p) => spec_validate_pattern(p@),
                    StringSelector::ExactMatch(_) => Ok(()),
                },
            }
        },
    }
}

/// What `validate_selector` returns: the component selector is examined
/// first, then the tree selector.
pub open spec fn spec_validate_selector(s: Selector) -> Result<(), ParseError> {
    if spec_validate_component(s.component_selector) is Err {
        spec_validate_component(s.component_selector)
    } else {
        spec_validate_tree(s.tree_selector)
    }
}

/// Validates one pattern segment text: rejects empty text, any unescaped glob
/// sequence, and any unescaped `:` or `/`; every offending class found is
/// reported at once. A single unescaped wildcard is legal anywhere, as are
/// escaped occurrences of any special character.
pub fn validate_string_pattern(string_pattern: &str) -> (r: Result<(), ParseError>)
    ensures
        r == spec_validate_pattern(string_pattern@),
        r is Ok <==> pattern_ok(string_pattern@),
{
    let ghost s = string_pattern@;
    let len = string_pattern.unicode_len();
    if len == 0 {
        return Err(ParseError::EmptyInput);
    }
    let mut found_glob = false;
    let mut found_colon = false;
    let mut found_slash = false;
    let mut j: usize = 0;
    while j < len
        invariant
            j <= len,
            len == s.len(),
            s == string_pattern@,
            found_glob <==> exists|i: int| 0 <= i && i + 1 < j as int && glob_at(s, i),
            found_colon <==> exists|i: int| 0 <= i < j as int && unescaped_at(s, ':', i),
            found_slash <==> exists|i: int| 0 <= i < j as int && unescaped_at(s, '/', i),
        decreases len - j,
    {
        let cj = string_pattern.get_char(j);
        if j >= 1 && cj == '*' {
            let cprev = string_pattern.get_char(j - 1);
            if cprev == '*' {
                if j == 1 || string_pattern.get_char(j - 2) != '\\' {
                    found_glob = true;
                    proof {
                        assert(glob_at(s, j as int - 1));
                    }
                }
            }
        }
        if cj == ':' {
            if j == 0 || string_pattern.get_char(j - 1) != '\\' {
                found_colon = true;
                proof {
                    assert(unescaped_at(s, ':', j as int));
                }
            }
        }
        if cj == '/' {
            if j == 0 || string_pattern.get_char(j - 1) != '\\' {
                found_slash = true;
                proof {
                    assert(unescaped_at(s, '/', j as int));
                }
            }
        }
        proof {
            assert((exists|i: int| 0 <= i && i + 1 < j as int + 1 && glob_at(s, i)) <==> ((exists|
                i: int,
            |
                0 <= i && i + 1 < j as int && glob_at(s, i)) || (j as int >= 1 && glob_at(
                s,
                j as int - 1,
            ))));
            assert((exists|i: int| 0 <= i < j as int + 1 && unescaped_at(s, ':', i)) <==> ((exists|
                i: int,
            |
                0 <= i < j as int && unescaped_at(s, ':', i)) || unescaped_at(s, ':', j as int)));
            assert((exists|i: int| 0 <= i < j as int + 1 && unescaped_at(s, '/', i)) <==> ((exists|
                i: int,
            |
                0 <= i < j as int && unescaped_at(s, '/', i)) || unescaped_at(s, '/', j as int)));
        }
        j = j + 1;
    }
    if found_glob || found_colon || found_slash {
        Err(
            ParseError::PatternInvalid {
                illegal_glob: found_glob,
                unescaped_selector_delimiter: found_colon,
                unescaped_path_delimiter: found_slash,
            },
        )
    } else {
        Ok(())
    }
}

/// Validates every segment of a vector, failing on the first invalid
/// `StringPattern`; `ExactMatch` segments are exempt.
pub fn validate_path_selection_vector(path_selection_vector: &Vec<StringSelector>) -> (r: Result<
    (),
    ParseError,
>)
    ensures
        r == spec_validate_segments(path_selection_vector@),
        r is Ok <==> segments_valid(path_selection_vector@),
{
    let ghost v = path_selection_vector@;
    let mut k: usize = 0;
    proof {
        assert(v.subrange(0, v.len() as int) =~= v);
    }
    while k < path_selection_vector.len()
        invariant
            k <= v.len(),
            v == path_selection_vector@,
            spec_validate_segments(v) == spec_validate_segments(
                v.subrange(k as int, v.len() as int),
            ),
        decreases v.len() - k,
    {
        let ghost rest = v.subrange(k as int, v.len() as int);
        proof {
            assert(rest[0] == v[k as int]);
            assert(rest.drop_first() =~= v.subrange(k as int + 1, v.len() as int));
        }
        match &path_selection_vector[k] {
            StringSelector::StringPattern(p) => {
                match validate_string_pattern(p.as_str()) {
                    Ok(_) => {},
                    Err(e) => {
                        return Err(e);
                    },
                }
            },
            StringSelector::ExactMatch(_) => {},
        }
        k = k + 1;
    }
    proof {
        assert(v.subrange(k as int, v.len() as int) =~= Seq::<StringSelector>::empty());
        lemma_validate_segments_ok(v);
    }
    Ok(())
}

/// Validates a component selector: the moniker segment vector must be
/// present, non-empty, and composed of valid segments.
pub fn validate_component_selector(component_selector: &ComponentSelector) -> (r: Result<
    (),
    ParseError,
>)
    ensures
        r == spec_validate_component(*component_selector),
        r is Ok <==> component_selector_valid(*component_selector),
{
    match &component_selector.moniker_segments {
        None => Err(ParseError::MissingMoniker),
        Some(moniker) => {
            if moniker.len() == 0 {
                Err(ParseError::EmptyInput)
            } else {
                validate_path_selection_vector(moniker)
            }
        },
    }
}

/// Validates a tree selector: the node path must be present, non-empty and
/// composed of valid segments, and the target property must be present and
/// valid. The node path is examined first.
pub fn validate_tree_selector(tree_selector: &TreeSelector) -> (r: Result<(), ParseError>)
    ensures
        r == spec_validate_tree(*tree_selector),
        r is Ok <==> tree_selector_valid(*tree_selector),
{
    match &tree_selector.node_path {
        None => Err(ParseError::MissingNodePath),
        Some(node_path) => {
            if node_path.len() == 0 {
                Err(ParseError::EmptyInput)
            } else {
                match validate_path_selection_vector(node_path) {
                    Err(e) => Err(e),
                    Ok(_) => {
                        match &tree_selector.target_properties {
                            None => Err(ParseError::MissingProperty),
                            Some(StringSelector::StringPattern(p)) => {
                                validate_string_pattern(p.as_str())
                            },
                            Some(StringSelector::ExactMatch(_)) => Ok(()),
                        }
                    },
                }
            }
        },
    }
}

/// Validates a full selector: its component selector first, then its tree
/// selector.
pub fn validate_selector(selector: &Selector) -> (r: Result<(), ParseError>)
    ensures
        r == spec_validate_selector(*selector),
        r is Ok <==> selector_valid(*selector),
{
    match validate_component_selector(&selector.component_selector) {
        Err(e) => Err(e),
        Ok(_) => validate_tree_selector(&selector.tree_selector),
    }
}

} // verus!
