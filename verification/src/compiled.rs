//! Compiling translated selector text with the regex engine, and matching
//! sanitized strings against the result.
//!
//! The expression text itself is built by fully verified code in
//! [`crate::translate`]; only the compilation call and the match call go
//! through the engine, behind trusted wrappers.

use vstd::prelude::*;

use crate::error::ParseError;
use crate::strutil::push_char;
use crate::translate::{
    convert_string_selector_to_regex, glob_regex_chars, spec_path_regex, spec_path_regex_parts,
    spec_property_regex, spec_segment_regex, wildcard_regex_chars,
};
use crate::types::StringSelector;

verus! {

#[verifier::external_type_specification]
#[verifier::external_body]
pub struct ExRegex(regex::Regex);

#[verifier::external_type_specification]
#[verifier::external_body]
pub struct ExRegexError(regex::Error);

/// What `regex::Regex::is_match` returns for a given expression text and
/// haystack. The engine is deterministic: the result depends on those two
/// strings alone.
pub uninterp spec fn regex_match(pattern: Seq<char>, text: Seq<char>) -> bool;

/// Whether `regex::Regex::new` accepts the given expression text. Acceptance
/// is a function of the text alone: the engine compiles under its fixed
/// default configuration.
pub uninterp spec fn regex_compiles(pattern: Seq<char>) -> bool;

/// A compiled regular expression, paired with the expression text it was
/// compiled from.
pub struct CompiledRegex {
    source: String,
    regex: regex::Regex,
}

impl CompiledRegex {
    /// The regular-expression text this value was compiled from.
    pub closed spec fn pattern_text(&self) -> Seq<char> {
        self.source@
    }

    /// The regular-expression text, for callers that want to inspect it or
    /// hand it to another engine.
    pub fn source_str(&self) -> (r: &str)
        ensures
            r@ == self.pattern_text(),
    {
        self.source.as_str()
    }

    /// Relies on `regex::Regex::is_match`: whether the expression matches
    /// anywhere inside `text`, a function of the expression text and `text`
    /// alone. The `regex` field always holds the compilation of `source`,
    /// because values of this type are built only by `compile_regex`.
    #[verifier::external_body]
    pub fn is_match(&self, text: &str) -> (r: bool)
        ensures
            r == regex_match(self.pattern_text(), text@),
    {
        self.regex.is_match(text)
    }
}

/// Relies on `regex::Regex::new`: compiles the expression text, succeeding
/// exactly when the engine accepts it — which depends on the text alone, as
/// `regex_compiles` names — and on success the returned value carries
/// exactly that text as its source.
#[verifier::external_body]
fn compile_regex(source: String) -> (r: Result<CompiledRegex, regex::Error>)
    ensures
        r is Ok <==> regex_compiles(source@),
        r matches Ok(c) ==> c.pattern_text() == source@,
{
    match regex::Regex::new(source.as_str()) {
        Ok(regex) => Ok(CompiledRegex { source, regex }),
        Err(e) => Err(e),
    }
}

/// Converts a vector of segments into a single compiled regular expression
/// matching sanitized strings that encode paths: `^`, then each segment's
/// regex — with wildcards bounded to a single path level — followed by a
/// literal `/`, then `$`. Fails with `UnmatchedEscape` exactly when a segment
/// carries a dangling escape, succeeds exactly when the engine accepts the
/// generated text, and fails with `RegexCompileFailure` otherwise.
pub fn convert_path_selector_to_regex(selector: &Vec<StringSelector>) -> (r: Result<
    CompiledRegex,
    ParseError,
>)
    ensures
        r matches Ok(c) ==> spec_path_regex(selector@) matches Some(t) && c.pattern_text() == t,
        spec_path_regex(selector@) matches Some(t) ==> (r is Ok <==> regex_compiles(t)),
        spec_path_regex(selector@) is None <==> r == Err::<CompiledRegex, ParseError>(
            ParseError::UnmatchedEscape,
        ),
        r matches Err(e) ==> e == ParseError::UnmatchedEscape || e
            == ParseError::RegexCompileFailure,
{
    let ghost v = selector@;
    let wildcard_replacement = "(\\\\/|[^/])+";
    proof {
        reveal_strlit("(\\\\/|[^/])+");
        assert(wildcard_replacement@ =~= wildcard_regex_chars());
    }
    let mut regex_string = String::new();
    push_char(&mut regex_string, '^');
    let ghost mut acc: Seq<char> = Seq::empty();
    let mut k: usize = 0;
    proof {
        assert(v.subrange(0, v.len() as int) =~= v);
        assert(regex_string@ =~= seq!['^'] + acc);
    }
    while k < selector.len()
        invariant
            k <= v.len(),
            v == selector@,
            wildcard_replacement@ == wildcard_regex_chars(),
            regex_string@ == seq!['^'] + acc,
            match spec_path_regex_parts(v.subrange(k as int, v.len() as int)) {
                None => spec_path_regex_parts(v) is None,
                Some(rest) => spec_path_regex_parts(v) == Some(acc + rest),
            },
        decreases v.len() - k,
    {
        let ghost restv = v.subrange(k as int, v.len() as int);
        proof {
            assert(restv[0] == v[k as int]);
            assert(restv.drop_first() =~= v.subrange(k as int + 1, v.len() as int));
        }
        match convert_string_selector_to_regex(&selector[k], wildcard_replacement) {
            Err(e) => {
                proof {
                    assert(spec_segment_regex(v[k as int], wildcard_regex_chars()) is None);
                    assert(spec_path_regex_parts(v) is None);
                }
                return Err(e);
            },
            Ok(node_regex) => {
                regex_string.append(node_regex.as_str());
                push_char(&mut regex_string, '/');
                proof {
                    let ghost segtext = spec_segment_regex(
                        v[k as int],
                        wildcard_regex_chars(),
                    )->Some_0;
                    assert(regex_string@ =~= seq!['^'] + (acc + segtext + seq!['/']));
                    match spec_path_regex_parts(v.subrange(k as int + 1, v.len() as int)) {
                        Some(rest) => {
                            assert((acc + segtext + seq!['/']) + rest =~= acc + (segtext
                                + seq!['/'] + rest));
                        },
                        None => {},
                    }
                    acc = acc + segtext + seq!['/'];
                }
            },
        }
        k = k + 1;
    }
    proof {
        assert(v.subrange(k as int, v.len() as int) =~= Seq::<StringSelector>::empty());
        assert(acc + Seq::<char>::empty() =~= acc);
    }
    push_char(&mut regex_string, '$');
    let ghost final_text = regex_string@;
    proof {
        assert(final_text =~= seq!['^'] + acc + seq!['$']);
        assert(spec_path_regex(v) == Some::<Seq<char>>(final_text));
    }
    match compile_regex(regex_string) {
        Ok(compiled) => Ok(compiled),
        Err(_) => Err(ParseError::RegexCompileFailure),
    }
}

/// Converts a single segment into a compiled regular expression matching
/// sanitized strings that encode a property name: `^`, the segment's regex —
/// with wildcards expanding without bound, since properties have no levels —
/// then `$`. Fails with `UnmatchedEscape` exactly when the segment carries a
/// dangling escape, succeeds exactly when the engine accepts the generated
/// text, and fails with `RegexCompileFailure` otherwise.
pub fn convert_property_selector_to_regex(selector: &StringSelector) -> (r: Result<
    CompiledRegex,
    ParseError,
>)
    ensures
        r matches Ok(c) ==> spec_property_regex(*selector) matches Some(t) && c.pattern_text()
            == t,
        spec_property_regex(*selector) matches Some(t) ==> (r is Ok <==> regex_compiles(t)),
        spec_property_regex(*selector) is None <==> r == Err::<CompiledRegex, ParseError>(
            ParseError::UnmatchedEscape,
        ),
        r matches Err(e) ==> e == ParseError::UnmatchedEscape || e
            == ParseError::RegexCompileFailure,
{
    let glob_replacement = ".+";
    proof {
        reveal_strlit(".+");
        assert(glob_replacement@ =~= glob_regex_chars());
    }
    let mut regex_string = String::new();
    push_char(&mut regex_string, '^');
    let property_regex = match convert_string_selector_to_regex(selector, glob_replacement) {
        Ok(s) => s,
        Err(e) => {
            return Err(e);
        },
    };
    regex_string.append(property_regex.as_str());
    push_char(&mut regex_string, '$');
    let ghost final_text = regex_string@;
    proof {
        let ghost body = spec_segment_regex(*selector, glob_regex_chars())->Some_0;
        assert(final_text =~= seq!['^'] + body + seq!['$']);
        assert(spec_property_regex(*selector) == Some::<Seq<char>>(final_text));
    }
    match compile_regex(regex_string) {
        Ok(compiled) => Ok(compiled),
        Err(_) => Err(ParseError::RegexCompileFailure),
    }
}

} // verus!
