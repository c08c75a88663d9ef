//! Escape-aware splitting of selector text on a delimiter character.
//!
//! Scanning walks the input one character at a time. The escape character
//! consumes the following character as a literal two-character unit, so an
//! escaped delimiter never closes a token. Escape sequences are left
//! un-decoded in the emitted tokens; decoding is deferred to validation and
//! regex translation, which need to see the escapes.

use vstd::prelude::*;

use crate::error::ParseError;
use crate::strutil::push_char;
use crate::ESCAPE_CHARACTER;

verus! {

/// The tokenizer as a function of the remaining input, the token being built
/// (`cur`) and the tokens already closed (`acc`).
///
/// An escape character takes the next character verbatim into the current
/// token (or fails when nothing follows); an unescaped delimiter closes the
/// current token, which must be non-empty; the final token is closed by the
/// end of the input under the same emptiness check.
pub open spec fn spec_tokenize_rec(
    s: Seq<char>,
    delimiter: char,
    cur: Seq<char>,
    acc: Seq<Seq<char>>,
) -> Result<Seq<Seq<char>>, ParseError>
    decreases s.len(),
{
    if s.len() == 0 {
        if cur.len() == 0 {
            Err(ParseError::EmptyToken)
        } else {
            Ok(acc.push(cur))
        }
    } else if s[0] == '\\' {
        if s.len() == 1 {
            Err(ParseError::UnmatchedEscape)
        } else {
            spec_tokenize_rec(
                s.subrange(2, s.len() as int),
                delimiter,
                cur.push('\\').push(s[1]),
                acc,
            )
        }
    } else if s[0] == delimiter {
        if cur.len() == 0 {
            Err(ParseError::EmptyToken)
        } else {
            spec_tokenize_rec(s.subrange(1, s.len() as int), delimiter, Seq::empty(), acc.push(cur))
        }
    } else {
        spec_tokenize_rec(s.subrange(1, s.len() as int), delimiter, cur.push(s[0]), acc)
    }
}

/// What `tokenize_string` returns: the token sequence for `s` split on
/// `delimiter`, or the error that stops the scan. Empty input yields
/// `EmptyToken`, so non-empty input never produces zero tokens.
pub open spec fn spec_tokenize(s: Seq<char>, delimiter: char) -> Result<Seq<Seq<char>>, ParseError> {
    spec_tokenize_rec(s, delimiter, Seq::empty(), Seq::empty())
}

/// Tokenization grows the accumulated token list and keeps every closed
/// token non-empty.
pub proof fn lemma_tokenize_rec_tokens(
    s: Seq<char>,
    delimiter: char,
    cur: Seq<char>,
    acc: Seq<Seq<char>>,
)
    requires
        forall|i: int| 0 <= i < acc.len() ==> (#[trigger] acc[i]).len() > 0,
    ensures
        match spec_tokenize_rec(s, delimiter, cur, acc) {
            Ok(tokens) => tokens.len() > acc.len() && forall|i: int|
                0 <= i < tokens.len() ==> (#[trigger] tokens[i]).len() > 0,
            Err(_) => true,
        },
    decreases s.len(),
{
    if s.len() == 0 {
        if cur.len() > 0 {
            let tokens = acc.push(cur);
            assert forall|i: int| 0 <= i < tokens.len() implies (#[trigger] tokens[i]).len()
                > 0 by {
                if i < acc.len() {
                    assert(tokens[i] == acc[i]);
                } else {
                    assert(tokens[i] == cur);
                }
            }
        }
    } else if s[0] == '\\' {
        if s.len() > 1 {
            lemma_tokenize_rec_tokens(
                s.subrange(2, s.len() as int),
                delimiter,
                cur.push('\\').push(s[1]),
                acc,
            );
        }
    } else if s[0] == delimiter {
        if cur.len() > 0 {
            let acc2 = acc.push(cur);
            assert forall|i: int| 0 <= i < acc2.len() implies (#[trigger] acc2[i]).len() > 0 by {
                if i < acc.len() {
                    assert(acc2[i] == acc[i]);
                } else {
                    assert(acc2[i] == cur);
                }
            }
            lemma_tokenize_rec_tokens(s.subrange(1, s.len() as int), delimiter, Seq::empty(), acc2);
        }
    } else {
        lemma_tokenize_rec_tokens(s.subrange(1, s.len() as int), delimiter, cur.push(s[0]), acc);
    }
}

/// When tokenization succeeds there is at least one token — non-empty input
/// never produces zero tokens — and every token is non-empty.
pub proof fn lemma_tokenize_tokens(s: Seq<char>, delimiter: char)
    ensures
        match spec_tokenize(s, delimiter) {
            Ok(tokens) => tokens.len() > 0 && forall|i: int|
                0 <= i < tokens.len() ==> (#[trigger] tokens[i]).len() > 0,
            Err(_) => true,
        },
{
    lemma_tokenize_rec_tokens(s, delimiter, Seq::empty(), Seq::empty());
}

/// Splits `untokenized_selector` on `delimiter`, respecting escape sequences:
/// an escaped delimiter stays inside its token, with the escape kept
/// un-decoded. Fails with `UnmatchedEscape` on a trailing escape character and
/// with `EmptyToken` whenever a closed token (including the final one) is
/// empty.
pub fn tokenize_string(untokenized_selector: &str, delimiter: char) -> (r: Result<
    Vec<String>,
    ParseError,
>)
    ensures
        match r {
            Ok(tokens) => spec_tokenize(untokenized_selector@, delimiter) == Ok::<_, ParseError>(
                tokens.deep_view(),
            ),
            Err(e) => spec_tokenize(untokenized_selector@, delimiter) == Err::<Seq<Seq<char>>, _>(
                e,
            ),
        },
{
    let ghost full = untokenized_selector@;
    let s_len = untokenized_selector.unicode_len();
    let mut token_aggregator: Vec<String> = Vec::new();
    let mut curr_token_builder: String = String::new();
    let mut i: usize = 0;
    proof {
        assert(full.subrange(0, s_len as int) =~= full);
        assert(token_aggregator.deep_view() =~= Seq::<Seq<char>>::empty());
    }
    while i < s_len
        invariant
            i <= s_len,
            s_len == full.len(),
            full == untokenized_selector@,
            spec_tokenize(full, delimiter) == spec_tokenize_rec(
                full.subrange(i as int, s_len as int),
                delimiter,
                curr_token_builder@,
                token_aggregator.deep_view(),
            ),
        decreases s_len - i,
    {
        let ghost suffix = full.subrange(i as int, s_len as int);
        proof {
            assert(suffix.len() == s_len - i);
            assert(suffix[0] == full[i as int]);
        }
        let selector_char = untokenized_selector.get_char(i);
        if selector_char == ESCAPE_CHARACTER {
            if i + 1 == s_len {
                return Err(ParseError::UnmatchedEscape);
            }
            proof {
                assert(suffix[1] == full[i as int + 1]);
                assert(suffix.subrange(2, suffix.len() as int) =~= full.subrange(
                    i as int + 2,
                    s_len as int,
                ));
            }
            let escaped_char = untokenized_selector.get_char(i + 1);
            push_char(&mut curr_token_builder, ESCAPE_CHARACTER);
            push_char(&mut curr_token_builder, escaped_char);
            i = i + 2;
        } else if selector_char == delimiter {
            proof {
                assert(suffix.subrange(1, suffix.len() as int) =~= full.subrange(
                    i as int + 1,
                    s_len as int,
                ));
            }
            if curr_token_builder.as_str().is_empty() {
                return Err(ParseError::EmptyToken);
            }
            let ghost old_tokens = token_aggregator.deep_view();
            let ghost closed = curr_token_builder@;
            token_aggregator.push(curr_token_builder);
            curr_token_builder = String::new();
            proof {
                assert(token_aggregator.deep_view() =~= old_tokens.push(closed));
            }
            i = i + 1;
        } else {
            proof {
                assert(suffix.subrange(1, suffix.len() as int) =~= full.subrange(
                    i as int + 1,
                    s_len as int,
                ));
            }
            push_char(&mut curr_token_builder, selector_char);
            i = i + 1;
        }
    }
    // The end of the input closes the final token, under the same emptiness
    // check as a delimiter.
    proof {
        assert(full.subrange(i as int, s_len as int) =~= Seq::<char>::empty());
    }
    if curr_token_builder.as_str().is_empty() {
        return Err(ParseError::EmptyToken);
    }
    let ghost old_tokens = token_aggregator.deep_view();
    let ghost closed = curr_token_builder@;
    token_aggregator.push(curr_token_builder);
    proof {
        assert(token_aggregator.deep_view() =~= old_tokens.push(closed));
    }
    Ok(token_aggregator)
}

} // verus!
