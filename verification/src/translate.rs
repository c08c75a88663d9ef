//! Translation of selector segments into regular-expression text, and the
//! sanitizer that prepares live strings for matching.
//!
//! A `StringPattern` segment is scanned character by character: an escape
//! consumes the following character and re-escapes it for the regex (with an
//! extra backslash layer, because the produced regex must match the
//! already-escaped form that [`sanitize_string_for_selectors`] emits), an
//! unescaped wildcard emits the caller's wildcard expansion inline, and any
//! other character is emitted, regex-meta-escaped when needed. An
//! `ExactMatch` segment is emitted as a literal matcher for the sanitized
//! form of its text.

use vstd::prelude::*;

use crate::error::ParseError;
use crate::strutil::push_char;
use crate::types::StringSelector;
use crate::validate::{has_unescaped, pattern_ok, unescaped_at};
use crate::{spec_is_special_char, ESCAPE_CHARACTER, WILDCARD_SYMBOL_CHAR};

verus! {

/// The characters the regex syntax treats as meta characters.
pub open spec fn spec_is_meta_char(c: char) -> bool {
    ||| c == '\\'
    ||| c == '.'
    ||| c == '+'
    ||| c == '*'
    ||| c == '?'
    ||| c == '('
    ||| c == ')'
    ||| c == '|'
    ||| c == '['
    ||| c == ']'
    ||| c == '{'
    ||| c == '}'
    ||| c == '^'
    ||| c == '$'
    ||| c == '#'
    ||| c == '&'
    ||| c == '-'
    ||| c == '~'
}

/// Relies on `regex_syntax::is_meta_character`: true exactly on the meta
/// characters `\ . + * ? ( ) | [ ] { } ^ $ # & - ~`.
#[verifier::external_body]
fn is_regex_meta(c: char) -> (r: bool)
    ensures
        r == spec_is_meta_char(c),
{
    regex_syntax::is_meta_character(c)
}

/// The regex fragment that matches one literal character: the character
/// itself, preceded by a backslash when it is a regex meta character.
pub open spec fn char_to_regex(c: char) -> Seq<char> {
    if spec_is_meta_char(c) {
        seq!['\\', c]
    } else {
        seq![c]
    }
}

/// The regex fragment that matches a literal text exactly, character by
/// character.
pub open spec fn literal_regex(t: Seq<char>) -> Seq<char>
    decreases t.len(),
{
    if t.len() == 0 {
        Seq::empty()
    } else {
        char_to_regex(t[0]) + literal_regex(t.drop_first())
    }
}

/// The regex text for the body of a `StringPattern`: an escape re-escapes the
/// following character behind a doubled backslash (so the regex matches the
/// sanitized form of that character), an unescaped wildcard emits `wildcard`
/// inline, and any other character is emitted as its literal fragment. `None`
/// when a trailing escape has nothing to escape.
pub open spec fn spec_pattern_regex(s: Seq<char>, wildcard: Seq<char>) -> Option<Seq<char>>
    decreases s.len(),
{
    if s.len() == 0 {
        Some(Seq::empty())
    } else if s[0] == '\\' {
        if s.len() == 1 {
            None
        } else {
            match spec_pattern_regex(s.subrange(2, s.len() as int), wildcard) {
                None => None,
                Some(rest) => Some(seq!['\\', '\\'] + char_to_regex(s[1]) + rest),
            }
        }
    } else if s[0] == '*' {
        match spec_pattern_regex(s.drop_first(), wildcard) {
            None => None,
            Some(rest) => Some(wildcard + rest),
        }
    } else {
        match spec_pattern_regex(s.drop_first(), wildcard) {
            None => None,
            Some(rest) => Some(char_to_regex(s[0]) + rest),
        }
    }
}

/// The regex text for the body of an `ExactMatch`: every special character of
/// the selector language is emitted behind a doubled backslash, so the regex
/// matches the sanitized form of the text; all other characters are emitted
/// as their literal fragments.
pub open spec fn spec_exact_regex(s: Seq<char>) -> Seq<char>
    decreases s.len(),
{
    if s.len() == 0 {
        Seq::empty()
    } else {
        (if spec_is_special_char(s[0]) {
            seq!['\\', '\\'] + char_to_regex(s[0])
        } else {
            char_to_regex(s[0])
        }) + spec_exact_regex(s.drop_first())
    }
}

/// The regex text for one segment under the given wildcard expansion: the
/// expansion verbatim for the whole-token wildcard pattern, otherwise the
/// segment's body in a parenthesized group. `None` on a dangling escape.
pub open spec fn spec_segment_regex(seg: StringSelector, wildcard: Seq<char>) -> Option<Seq<char>> {
    match seg {
        StringSelector::StringPattern(p) => if p@ == seq!['*'] {
            Some(wildcard)
        } else {
            match spec_pattern_regex(p@, wildcard) {
                None => None,
                Some(body) => Some(seq!['('] + body + seq![')']),
            }
        },
        StringSelector::ExactMatch(e) => Some(seq!['('] + spec_exact_regex(e@) + seq![')']),
    }
}

/// The bounded wildcard expansion used for node-path segments: one or more
/// characters that are each an escaped-slash pair or any non-slash character,
/// so a wildcard never crosses an unescaped segment boundary. These are the
/// characters of the regex text `(\\/|[^/])+`.
pub open spec fn wildcard_regex_chars() -> Seq<char> {
    seq!['(', '\\', '\\', '/', '|', '[', '^', '/', ']', ')', '+']
}

/// The unbounded wildcard expansion used for property patterns: one or more
/// of any character, since properties have no sublevels. These are the
/// characters of the regex text `.+`.
pub open spec fn glob_regex_chars() -> Seq<char> {
    seq!['.', '+']
}

/// The middle of a node-path regex: for each segment, its regex under the
/// bounded wildcard expansion followed by a literal `/`. `None` on a dangling
/// escape in any segment.
pub open spec fn spec_path_regex_parts(v: Seq<StringSelector>) -> Option<Seq<char>>
    decreases v.len(),
{
    if v.len() == 0 {
        Some(Seq::empty())
    } else {
        match spec_segment_regex(v[0], wildcard_regex_chars()) {
            None => None,
            Some(seg) => match spec_path_regex_parts(v.drop_first()) {
                None => None,
                Some(rest) => Some(seg + seq!['/'] + rest),
            },
        }
    }
}

/// The full anchored regex text for a node path: `^`, then each segment's
/// regex followed by a literal `/`, then `$`.
pub open spec fn spec_path_regex(v: Seq<StringSelector>) -> Option<Seq<char>> {
    match spec_path_regex_parts(v) {
        None => None,
        Some(mid) => Some(seq!['^'] + mid + seq!['$']),
    }
}

/// The full anchored regex text for a property pattern: `^`, the segment's
/// regex under the unbounded wildcard expansion, then `$`.
pub open spec fn spec_property_regex(seg: StringSelector) -> Option<Seq<char>> {
    match spec_segment_regex(seg, glob_regex_chars()) {
        None => None,
        Some(body) => Some(seq!['^'] + body + seq!['$']),
    }
}

/// The escaped form of a raw string: every special character of the selector
/// language gets the escape character inserted immediately before it.
pub open spec fn spec_sanitize(s: Seq<char>) -> Seq<char>
    decreases s.len(),
{
    if s.len() == 0 {
        Seq::empty()
    } else {
        (if spec_is_special_char(s[0]) {
            seq!['\\', s[0]]
        } else {
            seq![s[0]]
        }) + spec_sanitize(s.drop_first())
    }
}

/// Appends the regex fragment for one literal character: the character,
/// preceded by a backslash when the regex syntax treats it as a meta
/// character.
fn convert_single_character_to_regex(token_builder: &mut String, character: char)
    ensures
        final(token_builder)@ == old(token_builder)@ + char_to_regex(character),
{
    if is_regex_meta(character) {
        push_char(token_builder, ESCAPE_CHARACTER);
    }
    push_char(token_builder, character);
    proof {
        if spec_is_meta_char(character) {
            assert(final(token_builder)@ =~= old(token_builder)@ + seq!['\\', character]);
        } else {
            assert(final(token_builder)@ =~= old(token_builder)@ + seq![character]);
        }
    }
}

/// Converts a single segment into regular-expression text.
///
/// A `StringPattern` equal to the wildcard token becomes
/// `wildcard_symbol_replacement` verbatim; any other `StringPattern` becomes
/// a parenthesized group in which escapes match their sanitized literal form
/// and unescaped wildcards expand to `wildcard_symbol_replacement`. An
/// `ExactMatch` becomes a parenthesized literal matcher for the sanitized
/// form of its text. Fails only on a dangling escape.
pub fn convert_string_selector_to_regex(
    node: &StringSelector,
    wildcard_symbol_replacement: &str,
) -> (r: Result<String, ParseError>)
    ensures
        match spec_segment_regex(*node, wildcard_symbol_replacement@) {
            Some(t) => r matches Ok(s) && s@ == t,
            None => r == Err::<String, ParseError>(ParseError::UnmatchedEscape),
        },
{
    let ghost wcv = wildcard_symbol_replacement@;
    match node {
        StringSelector::StringPattern(string_pattern) => {
            let ps = string_pattern.as_str();
            let plen = ps.unicode_len();
            if plen == 1 && ps.get_char(0) == WILDCARD_SYMBOL_CHAR {
                proof {
                    assert(string_pattern@ =~= seq!['*']);
                }
                Ok(wildcard_symbol_replacement.to_owned())
            } else {
                proof {
                    if string_pattern@ == seq!['*'] {
                        assert(string_pattern@.len() == 1);
                        assert(string_pattern@[0] == '*');
                        assert(false);
                    }
                }
                let ghost full = string_pattern@;
                let mut node_regex_builder = String::new();
                push_char(&mut node_regex_builder, '(');
                let ghost mut acc: Seq<char> = Seq::empty();
                let mut i: usize = 0;
                proof {
                    assert(full.subrange(0, plen as int) =~= full);
                    assert(node_regex_builder@ =~= seq!['('] + acc);
                }
                while i < plen
                    invariant
                        i <= plen,
                        plen == full.len(),
                        full == string_pattern@,
                        *node matches StringSelector::StringPattern(sp) && sp@ == full,
                        ps@ == full,
                        !(full == seq!['*']),
                        wcv == wildcard_symbol_replacement@,
                        node_regex_builder@ == seq!['('] + acc,
                        match spec_pattern_regex(
                            full.subrange(i as int, plen as int),
                            wcv,
                        ) {
                            None => spec_pattern_regex(full, wcv) is None,
                            Some(rest) => spec_pattern_regex(full, wcv) == Some(acc + rest),
                        },
                    decreases plen - i,
                {
                    let ghost suffix = full.subrange(i as int, plen as int);
                    proof {
                        assert(suffix[0] == full[i as int]);
                    }
                    let selector_char = ps.get_char(i);
                    if selector_char == ESCAPE_CHARACTER {
                        if i + 1 == plen {
                            proof {
                                assert(suffix.len() == 1);
                                assert(suffix[0] == '\\');
                                assert(spec_pattern_regex(suffix, wcv) is None);
                                assert(spec_pattern_regex(full, wcv) is None);
                            }
                            return Err(ParseError::UnmatchedEscape);
                        }
                        proof {
                            assert(suffix[1] == full[i as int + 1]);
                            assert(suffix.subrange(2, suffix.len() as int) =~= full.subrange(
                                i as int + 2,
                                plen as int,
                            ));
                        }
                        let escaped_char = ps.get_char(i + 1);
                        push_char(&mut node_regex_builder, ESCAPE_CHARACTER);
                        push_char(&mut node_regex_builder, ESCAPE_CHARACTER);
                        convert_single_character_to_regex(&mut node_regex_builder, escaped_char);
                        proof {
                            let head = seq!['\\', '\\'] + char_to_regex(escaped_char);
                            assert(node_regex_builder@ =~= seq!['('] + (acc + head));
                            match spec_pattern_regex(
                                full.subrange(i as int + 2, plen as int),
                                wcv,
                            ) {
                                Some(rest) => {
                                    assert((acc + head) + rest =~= acc + (head + rest));
                                },
                                None => {},
                            }
                            acc = acc + head;
                        }
                        i = i + 2;
                    } else if selector_char == WILDCARD_SYMBOL_CHAR {
                        proof {
                            assert(suffix.drop_first() =~= full.subrange(
                                i as int + 1,
                                plen as int,
                            ));
                        }
                        node_regex_builder.append(wildcard_symbol_replacement);
                        proof {
                            assert(node_regex_builder@ =~= seq!['('] + (acc + wcv));
                            match spec_pattern_regex(
                                full.subrange(i as int + 1, plen as int),
                                wcv,
                            ) {
                                Some(rest) => {
                                    assert((acc + wcv) + rest =~= acc + (wcv + rest));
                                },
                                None => {},
                            }
                            acc = acc + wcv;
                        }
                        i = i + 1;
                    } else {
                        proof {
                            assert(suffix.drop_first() =~= full.subrange(
                                i as int + 1,
                                plen as int,
                            ));
                        }
                        convert_single_character_to_regex(&mut node_regex_builder, selector_char);
                        proof {
                            let head = char_to_regex(selector_char);
                            assert(node_regex_builder@ =~= seq!['('] + (acc + head));
                            match spec_pattern_regex(
                                full.subrange(i as int + 1, plen as int),
                                wcv,
                            ) {
                                Some(rest) => {
                                    assert((acc + head) + rest =~= acc + (head + rest));
                                },
                                None => {},
                            }
                            acc = acc + head;
                        }
                        i = i + 1;
                    }
                }
                proof {
                    assert(full.subrange(i as int, plen as int) =~= Seq::<char>::empty());
                    assert(acc + Seq::<char>::empty() =~= acc);
                }
                push_char(&mut node_regex_builder, ')');
                proof {
                    assert(node_regex_builder@ =~= seq!['('] + acc + seq![')']);
                }
                Ok(node_regex_builder)
            }
        },
        StringSelector::ExactMatch(string_pattern) => {
            let ps = string_pattern.as_str();
            let plen = ps.unicode_len();
            let ghost full = string_pattern@;
            let mut node_regex_builder = String::new();
            push_char(&mut node_regex_builder, '(');
            let ghost mut acc: Seq<char> = Seq::empty();
            let mut i: usize = 0;
            proof {
                assert(full.subrange(0, plen as int) =~= full);
                assert(node_regex_builder@ =~= seq!['('] + acc);
            }
            while i < plen
                invariant
                    i <= plen,
                    plen == full.len(),
                    full == string_pattern@,
                    ps@ == full,
                    node_regex_builder@ == seq!['('] + acc,
                    spec_exact_regex(full) == acc + spec_exact_regex(
                        full.subrange(i as int, plen as int),
                    ),
                decreases plen - i,
            {
                let ghost suffix = full.subrange(i as int, plen as int);
                proof {
                    assert(suffix[0] == full[i as int]);
                    assert(suffix.drop_first() =~= full.subrange(i as int + 1, plen as int));
                }
                let selector_char = ps.get_char(i);
                if crate::is_special_character(selector_char) {
                    // The sanitized form of a special character is the escape
                    // character followed by the character, so the regex must
                    // match a literal backslash first.
                    push_char(&mut node_regex_builder, ESCAPE_CHARACTER);
                    push_char(&mut node_regex_builder, ESCAPE_CHARACTER);
                }
                convert_single_character_to_regex(&mut node_regex_builder, selector_char);
                proof {
                    let head: Seq<char> = if spec_is_special_char(selector_char) {
                        seq!['\\', '\\'] + char_to_regex(selector_char)
                    } else {
                        char_to_regex(selector_char)
                    };
                    assert(node_regex_builder@ =~= seq!['('] + (acc + head));
                    assert(spec_exact_regex(suffix) == head + spec_exact_regex(
                        suffix.drop_first(),
                    ));
                    assert((acc + head) + spec_exact_regex(suffix.drop_first()) =~= acc + (head
                        + spec_exact_regex(suffix.drop_first())));
                    acc = acc + head;
                }
                i = i + 1;
            }
            proof {
                assert(full.subrange(i as int, plen as int) =~= Seq::<char>::empty());
                assert(acc + Seq::<char>::empty() =~= acc);
            }
            push_char(&mut node_regex_builder, ')');
            proof {
                assert(node_regex_builder@ =~= seq!['('] + acc + seq![')']);
            }
            Ok(node_regex_builder)
        },
    }
}

/// Escapes a raw string from the live system so that it aligns with the
/// special-character and escaping semantics of the selector format: the
/// escape character is inserted immediately before every occurrence of a
/// special character. All strings must be sanitized this way before being
/// evaluated against selectors in regex form.
pub fn sanitize_string_for_selectors(node: &str) -> (r: String)
    ensures
        r@ == spec_sanitize(node@),
{
    let ghost full = node@;
    let len = node.unicode_len();
    let mut sanitized_string = String::new();
    let mut i: usize = 0;
    proof {
        assert(full.subrange(0, len as int) =~= full);
        assert(sanitized_string@ =~= Seq::<char>::empty());
    }
    while i < len
        invariant
            i <= len,
            len == full.len(),
            full == node@,
            spec_sanitize(full) == sanitized_string@ + spec_sanitize(
                full.subrange(i as int, len as int),
            ),
        decreases len - i,
    {
        let ghost suffix = full.subrange(i as int, len as int);
        proof {
            assert(suffix[0] == full[i as int]);
            assert(suffix.drop_first() =~= full.subrange(i as int + 1, len as int));
        }
        let node_char = node.get_char(i);
        let ghost before = sanitized_string@;
        if crate::is_special_character(node_char) {
            push_char(&mut sanitized_string, ESCAPE_CHARACTER);
        }
        push_char(&mut sanitized_string, node_char);
        proof {
            let head: Seq<char> = if spec_is_special_char(node_char) {
                seq!['\\', node_char]
            } else {
                seq![node_char]
            };
            assert(sanitized_string@ =~= before + head);
            assert((before + head) + spec_sanitize(suffix.drop_first()) =~= before + (head
                + spec_sanitize(suffix.drop_first())));
        }
        i = i + 1;
    }
    proof {
        assert(full.subrange(i as int, len as int) =~= Seq::<char>::empty());
        assert(sanitized_string@ + Seq::<char>::empty() =~= sanitized_string@);
    }
    sanitized_string
}

/// The regex built from an `ExactMatch` of a raw text is precisely the
/// literal matcher for the sanitized form of that text: matching a sanitized
/// raw string against the regex compiled from an `ExactMatch` of the same raw
/// string always succeeds, and nothing else is matched.
pub proof fn lemma_exact_match_regex_is_sanitized_literal(raw: Seq<char>)
    ensures
        spec_exact_regex(raw) == literal_regex(spec_sanitize(raw)),
    decreases raw.len(),
{
    if raw.len() == 0 {
    } else {
        lemma_exact_match_regex_is_sanitized_literal(raw.drop_first());
        let c = raw[0];
        let san_rest = spec_sanitize(raw.drop_first());
        if spec_is_special_char(c) {
            // sanitize(raw) = ['\\', c] + sanitize(rest); the literal regex of
            // that is char_to_regex('\\') + char_to_regex(c) + ..., and the
            // escape character is itself a regex meta character.
            let san = seq!['\\', c] + san_rest;
            assert(spec_sanitize(raw) == san);
            assert(san[0] == '\\');
            assert(san.drop_first() =~= seq![c] + san_rest);
            assert((seq![c] + san_rest)[0] == c);
            assert((seq![c] + san_rest).drop_first() =~= san_rest);
            assert(literal_regex(san) == char_to_regex(san[0]) + literal_regex(san.drop_first()));
            assert(literal_regex(san.drop_first()) == literal_regex(seq![c] + san_rest));
            assert(literal_regex(seq![c] + san_rest) == char_to_regex(c) + literal_regex(
                (seq![c] + san_rest).drop_first(),
            ));
            assert(literal_regex(san) == char_to_regex('\\') + (char_to_regex(c) + literal_regex(
                san_rest,
            )));
            assert(char_to_regex('\\') == seq!['\\', '\\']);
            assert(spec_exact_regex(raw) == (seq!['\\', '\\'] + char_to_regex(c))
                + spec_exact_regex(raw.drop_first()));
            assert((seq!['\\', '\\'] + char_to_regex(c)) + literal_regex(san_rest) =~= seq![
                '\\',
                '\\',
            ] + (char_to_regex(c) + literal_regex(san_rest)));
            assert(char_to_regex('\\') + (char_to_regex(c) + literal_regex(san_rest)) =~= seq![
                '\\',
                '\\',
            ] + (char_to_regex(c) + literal_regex(san_rest)));
        } else {
            let san = seq![c] + san_rest;
            assert(spec_sanitize(raw) == san);
            assert(san[0] == c);
            assert(san.drop_first() =~= san_rest);
            assert(literal_regex(san) == char_to_regex(c) + literal_regex(san_rest));
            assert(spec_exact_regex(raw) == char_to_regex(c) + spec_exact_regex(raw.drop_first()));
        }
    }
}

/// A pattern with no backslash anywhere contains no escapes, so the grammar
/// flags apply to every character directly: a legal such pattern contains no
/// special character at all (beyond any wildcards it carries).
pub proof fn lemma_plain_pattern_has_no_delimiters(p: Seq<char>)
    requires
        pattern_ok(p),
        forall|i: int| 0 <= i < p.len() ==> p[i] != '\\',
    ensures
        forall|i: int| 0 <= i < p.len() ==> p[i] != ':' && p[i] != '/',
{
    assert forall|i: int| 0 <= i < p.len() implies p[i] != ':' && p[i] != '/' by {
        if p[i] == ':' {
            assert(unescaped_at(p, ':', i));
            assert(has_unescaped(p, ':'));
        }
        if p[i] == '/' {
            assert(unescaped_at(p, '/', i));
            assert(has_unescaped(p, '/'));
        }
    }
}

/// Sanitizing a string with no special characters returns it unchanged.
pub proof fn lemma_sanitize_no_special(s: Seq<char>)
    requires
        forall|i: int| 0 <= i < s.len() ==> !spec_is_special_char(#[trigger] s[i]),
    ensures
        spec_sanitize(s) == s,
    decreases s.len(),
{
    if s.len() == 0 {
        assert(spec_sanitize(s) =~= s);
    } else {
        assert(!spec_is_special_char(s[0]));
        assert forall|i: int| 0 <= i < s.drop_first().len() implies !spec_is_special_char(
            #[trigger] s.drop_first()[i],
        ) by {
            assert(s.drop_first()[i] == s[i + 1]);
        }
        lemma_sanitize_no_special(s.drop_first());
        assert(spec_sanitize(s) =~= seq![s[0]] + s.drop_first());
        assert(seq![s[0]] + s.drop_first() =~= s);
    }
}

/// The pattern body of a wildcard-free, escape-free pattern is the literal
/// regex of the pattern text itself, whatever the wildcard expansion.
pub proof fn lemma_plain_pattern_regex_is_literal(p: Seq<char>, wildcard: Seq<char>)
    requires
        forall|i: int| 0 <= i < p.len() ==> p[i] != '\\' && p[i] != '*',
    ensures
        spec_pattern_regex(p, wildcard) == Some(literal_regex(p)),
    decreases p.len(),
{
    if p.len() == 0 {
        assert(literal_regex(p) =~= Seq::<char>::empty());
    } else {
        assert forall|i: int| 0 <= i < p.drop_first().len() implies p.drop_first()[i] != '\\'
            && p.drop_first()[i] != '*' by {
            assert(p.drop_first()[i] == p[i + 1]);
        }
        lemma_plain_pattern_regex_is_literal(p.drop_first(), wildcard);
    }
}

/// Round-trip law: for any raw text, the property regex built from an
/// `ExactMatch` of that text is the anchored, parenthesized literal matcher
/// for the sanitized form of the text. As an anchored literal regex it
/// matches the sanitized raw string, and nothing else.
pub proof fn lemma_exact_match_property_regex(seg: StringSelector)
    requires
        seg matches StringSelector::ExactMatch(_),
    ensures
        spec_property_regex(seg) == Some(
            seq!['^', '('] + literal_regex(spec_sanitize(seg.text())) + seq![')', '$'],
        ),
{
    let raw = seg.text();
    lemma_exact_match_regex_is_sanitized_literal(raw);
    assert(spec_segment_regex(seg, glob_regex_chars()) == Some(
        seq!['('] + spec_exact_regex(raw) + seq![')'],
    ));
    assert(seq!['^'] + (seq!['('] + literal_regex(spec_sanitize(raw)) + seq![')']) + seq!['$'] =~= seq![
        '^',
        '(',
    ] + literal_regex(spec_sanitize(raw)) + seq![')', '$']);
}

/// Single-literal-segment law: for a valid pattern text that is not the
/// whole-token wildcard and contains neither a wildcard nor an escape, the
/// node-path regex of the one-segment path is the anchored literal matcher
/// for the text followed by `/` — and sanitizing that text returns it
/// unchanged, so the regex matches exactly the sanitized text followed by
/// `/`, and nothing else.
pub proof fn lemma_single_literal_segment_path_regex(seg: StringSelector)
    requires
        seg matches StringSelector::StringPattern(_),
        pattern_ok(seg.text()),
        forall|i: int|
            0 <= i < seg.text().len() ==> seg.text()[i] != '*' && (#[trigger] seg.text()[i])
                != '\\',
    ensures
        spec_path_regex(seq![seg]) == Some(
            seq!['^', '('] + literal_regex(seg.text()) + seq![')', '/', '$'],
        ),
        spec_sanitize(seg.text()) == seg.text(),
{
    let p = seg.text();
    lemma_plain_pattern_has_no_delimiters(p);
    assert forall|i: int| 0 <= i < p.len() implies !spec_is_special_char(#[trigger] p[i]) by {}
    lemma_sanitize_no_special(p);
    lemma_plain_pattern_regex_is_literal(p, wildcard_regex_chars());
    if p == seq!['*'] {
        assert(p[0] == '*');
        assert(false);
    }
    assert(spec_segment_regex(seg, wildcard_regex_chars()) == Some(
        seq!['('] + literal_regex(p) + seq![')'],
    ));
    let v = seq![seg];
    assert(v[0] == seg);
    assert(v.drop_first() =~= Seq::<StringSelector>::empty());
    assert(spec_path_regex_parts(v.drop_first()) == Some(Seq::<char>::empty()));
    let segreg = seq!['('] + literal_regex(p) + seq![')'];
    assert(spec_path_regex_parts(v) == Some(segreg + seq!['/'] + Seq::<char>::empty()));
    assert(seq!['^'] + (segreg + seq!['/'] + Seq::<char>::empty()) + seq!['$'] =~= seq!['^', '(']
        + literal_regex(p) + seq![')', '/', '$']);
}

} // verus!
