//! The lexer: a single left-to-right pass from source text to tokens.
//!
//! `spec_lex` is the defining specification; `get_tokens` is proved to
//! return exactly its result. The fixed characters `@ : = ( ) _` map to
//! single tokens, `[...]` captures raw text, a run of identifier
//! characters forms one `Word`, a run of whitespace collapses to one
//! `Whitespace` token, and anything else is a fatal lexing error.

use vstd::prelude::*;
use vstd::string::StrSliceExecFns;
use crate::error::CompileError;
use crate::text::{char_alphanumeric, char_whitespace};
use crate::token::{Token, TokenV};

verus! {

/// Characters that may continue a word: alphanumeric, `-`, `.`, `/`.
pub open spec fn is_word_char(c: char) -> bool {
    char_alphanumeric(c) || c == '-' || c == '.' || c == '/'
}

/// Characters that may begin a word: alphanumeric or `-`.
pub open spec fn is_word_start(c: char) -> bool {
    char_alphanumeric(c) || c == '-'
}

/// The first position at or after `pos` whose character does not
/// continue a word, or the end of input.
pub open spec fn scan_word_end(s: Seq<char>, pos: int) -> int
    decreases s.len() - pos,
    when 0 <= pos <= s.len()
{
    if pos >= s.len() {
        pos
    } else if is_word_char(s[pos]) {
        scan_word_end(s, pos + 1)
    } else {
        pos
    }
}

/// The first position at or after `pos` whose character is not
/// whitespace, or the end of input.
pub open spec fn scan_ws_end(s: Seq<char>, pos: int) -> int
    decreases s.len() - pos,
    when 0 <= pos <= s.len()
{
    if pos >= s.len() {
        pos
    } else if char_whitespace(s[pos]) {
        scan_ws_end(s, pos + 1)
    } else {
        pos
    }
}

/// The position of the first `]` at or after `pos`, or the end of input
/// if there is none.
pub open spec fn scan_raw_end(s: Seq<char>, pos: int) -> int
    decreases s.len() - pos,
    when 0 <= pos <= s.len()
{
    if pos >= s.len() {
        pos
    } else if s[pos] == ']' {
        pos
    } else {
        scan_raw_end(s, pos + 1)
    }
}

pub proof fn lemma_scan_word_end(s: Seq<char>, pos: int)
    requires
        0 <= pos <= s.len(),
    ensures
        pos <= scan_word_end(s, pos) <= s.len(),
        forall|i: int| pos <= i < scan_word_end(s, pos) ==> is_word_char(s[i]),
        scan_word_end(s, pos) < s.len() ==> !is_word_char(s[scan_word_end(s, pos)]),
    decreases s.len() - pos,
{
    if pos < s.len() && is_word_char(s[pos]) {
        lemma_scan_word_end(s, pos + 1);
    }
}

pub proof fn lemma_scan_ws_end(s: Seq<char>, pos: int)
    requires
        0 <= pos <= s.len(),
    ensures
        pos <= scan_ws_end(s, pos) <= s.len(),
        forall|i: int| pos <= i < scan_ws_end(s, pos) ==> char_whitespace(s[i]),
        scan_ws_end(s, pos) < s.len() ==> !char_whitespace(s[scan_ws_end(s, pos)]),
    decreases s.len() - pos,
{
    if pos < s.len() && char_whitespace(s[pos]) {
        lemma_scan_ws_end(s, pos + 1);
    }
}

pub proof fn lemma_scan_raw_end(s: Seq<char>, pos: int)
    requires
        0 <= pos <= s.len(),
    ensures
        pos <= scan_raw_end(s, pos) <= s.len(),
        forall|i: int| pos <= i < scan_raw_end(s, pos) ==> s[i] != ']',
        scan_raw_end(s, pos) < s.len() ==> s[scan_raw_end(s, pos)] == ']',
    decreases s.len() - pos,
{
    if pos < s.len() && s[pos] != ']' {
        lemma_scan_raw_end(s, pos + 1);
    }
}

/// Prefix one token onto the outcome of lexing the rest.
pub open spec fn cons_token(t: TokenV, rest: Result<Seq<TokenV>, CompileError>) -> Result<
    Seq<TokenV>,
    CompileError,
> {
    match rest {
        Ok(ts) => Ok(seq![t] + ts),
        Err(e) => Err(e),
    }
}

/// The tokens of `s` from position `pos` on.
pub open spec fn spec_lex_from(s: Seq<char>, pos: int) -> Result<Seq<TokenV>, CompileError>
    decreases s.len() - pos,
    when 0 <= pos <= s.len()
    via spec_lex_from_decreases
{
    if pos >= s.len() {
        Ok(Seq::empty())
    } else {
        let c = s[pos];
        if c == '@' {
            cons_token(TokenV::At, spec_lex_from(s, pos + 1))
        } else if c == ':' {
            cons_token(TokenV::Colon, spec_lex_from(s, pos + 1))
        } else if c == '=' {
            cons_token(TokenV::Eq, spec_lex_from(s, pos + 1))
        } else if c == '(' {
            cons_token(TokenV::LParen, spec_lex_from(s, pos + 1))
        } else if c == ')' {
            cons_token(TokenV::RParen, spec_lex_from(s, pos + 1))
        } else if c == '_' {
            cons_token(TokenV::Underscore, spec_lex_from(s, pos + 1))
        } else if c == '[' {
            let close = scan_raw_end(s, pos + 1);
            if close >= s.len() {
                Err(CompileError::UnterminatedRawValue)
            } else {
                cons_token(
                    TokenV::RawValue(s.subrange(pos + 1, close)),
                    spec_lex_from(s, close + 1),
                )
            }
        } else if is_word_start(c) {
            let word_end = scan_word_end(s, pos + 1);
            cons_token(TokenV::Word(s.subrange(pos, word_end)), spec_lex_from(s, word_end))
        } else if char_whitespace(c) {
            cons_token(TokenV::Whitespace, spec_lex_from(s, scan_ws_end(s, pos + 1)))
        } else {
            Err(CompileError::UnknownCharacter)
        }
    }
}

#[via_fn]
proof fn spec_lex_from_decreases(s: Seq<char>, pos: int) {
    if 0 <= pos < s.len() {
        lemma_scan_raw_end(s, pos + 1);
        lemma_scan_word_end(s, pos + 1);
        lemma_scan_ws_end(s, pos + 1);
    }
}

/// The token stream of a whole source fragment, or the first lexing
/// error.
pub open spec fn spec_lex(s: Seq<char>) -> Result<Seq<TokenV>, CompileError> {
    spec_lex_from(s, 0)
}

/// How a token list relates a partial result to the whole: the tokens
/// already produced, then whatever lexing from `pos` yields.
pub open spec fn lex_continues(
    done: Seq<TokenV>,
    rest: Result<Seq<TokenV>, CompileError>,
) -> Result<Seq<TokenV>, CompileError> {
    match rest {
        Ok(ts) => Ok(done + ts),
        Err(e) => Err(e),
    }
}

proof fn lemma_lex_shift(done: Seq<TokenV>, t: TokenV, rest: Result<Seq<TokenV>, CompileError>)
    ensures
        lex_continues(done, cons_token(t, rest)) == lex_continues(done.push(t), rest),
{
    match rest {
        Ok(ts) => {
            assert(done + (seq![t] + ts) =~= done.push(t) + ts);
        },
        Err(_) => {},
    }
}

/// Turn source text into its token stream.
///
/// Returns exactly `spec_lex` of the input: `Ok` with the token stream,
/// or the first lexing error (an unterminated `[` escape or a character
/// outside the grammar).
pub fn get_tokens(source: &str) -> (r: Result<Vec<Token>, CompileError>)
    ensures
        match r {
            Ok(tokens) => spec_lex(source@) == Ok::<Seq<TokenV>, CompileError>(
                tokens.deep_view(),
            ),
            Err(e) => spec_lex(source@) == Err::<Seq<TokenV>, CompileError>(e),
        },
{
    let s = source;
    let len = s.unicode_len();
    let mut tokens: Vec<Token> = Vec::new();
    let mut pos: usize = 0;
    while pos < len
        invariant
            s == source,
            0 <= pos <= len,
            len == s@.len(),
            spec_lex(s@) == lex_continues(tokens.deep_view(), spec_lex_from(s@, pos as int)),
        decreases len - pos,
    {
        let ghost done = tokens.deep_view();
        let ghost entry_pos = pos as int;
        let c = s.get_char(pos);
        if c == '@' {
            tokens.push(Token::At);
            pos = pos + 1;
            proof {
                lemma_lex_shift(done, TokenV::At, spec_lex_from(s@, pos as int));
                assert(tokens.deep_view() =~= done.push(TokenV::At));
            }
        } else if c == ':' {
            tokens.push(Token::Colon);
            pos = pos + 1;
            proof {
                lemma_lex_shift(done, TokenV::Colon, spec_lex_from(s@, pos as int));
                assert(tokens.deep_view() =~= done.push(TokenV::Colon));
            }
        } else if c == '=' {
            tokens.push(Token::Eq);
            pos = pos + 1;
            proof {
                lemma_lex_shift(done, TokenV::Eq, spec_lex_from(s@, pos as int));
                assert(tokens.deep_view() =~= done.push(TokenV::Eq));
            }
        } else if c == '(' {
            tokens.push(Token::LParen);
            pos = pos + 1;
            proof {
                lemma_lex_shift(done, TokenV::LParen, spec_lex_from(s@, pos as int));
                assert(tokens.deep_view() =~= done.push(TokenV::LParen));
            }
        } else if c == ')' {
            tokens.push(Token::RParen);
            pos = pos + 1;
            proof {
                lemma_lex_shift(done, TokenV::RParen, spec_lex_from(s@, pos as int));
                assert(tokens.deep_view() =~= done.push(TokenV::RParen));
            }
        } else if c == '_' {
            tokens.push(Token::Underscore);
            pos = pos + 1;
            proof {
                lemma_lex_shift(done, TokenV::Underscore, spec_lex_from(s@, pos as int));
                assert(tokens.deep_view() =~= done.push(TokenV::Underscore));
            }
        } else if c == '[' {
            let mut close: usize = pos + 1;
            while close < len && !char_is_close_bracket(s.get_char(close))
                invariant
                    pos + 1 <= close <= len,
                    len == s@.len(),
                    forall|i: int| pos + 1 <= i < close ==> s@[i] != ']',
                decreases len - close,
            {
                close = close + 1;
            }
            proof {
                lemma_scan_raw_end_eq(s@, entry_pos + 1, close as int);
            }
            if close >= len {
                proof {
                    assert(spec_lex_from(s@, entry_pos) == Err::<Seq<TokenV>, CompileError>(
                        CompileError::UnterminatedRawValue,
                    ));
                }
                return Err(CompileError::UnterminatedRawValue);
            }
            let raw = s.substring_char(pos + 1, close).to_owned();
            tokens.push(Token::RawValue(raw));
            pos = close + 1;
            proof {
                let t = TokenV::RawValue(s@.subrange(entry_pos + 1, close as int));
                lemma_lex_shift(done, t, spec_lex_from(s@, pos as int));
                assert(tokens.deep_view() =~= done.push(t));
            }
        } else if c.is_alphanumeric() || c == '-' {
            let mut word_end: usize = pos + 1;
            while word_end < len && is_word_char_exec(s.get_char(word_end))
                invariant
                    pos + 1 <= word_end <= len,
                    len == s@.len(),
                    forall|i: int| pos + 1 <= i < word_end ==> is_word_char(s@[i]),
                decreases len - word_end,
            {
                word_end = word_end + 1;
            }
            proof {
                lemma_scan_word_end_eq(s@, entry_pos + 1, word_end as int);
            }
            let word = s.substring_char(pos, word_end).to_owned();
            tokens.push(Token::Word(word));
            pos = word_end;
            proof {
                let t = TokenV::Word(s@.subrange(entry_pos, word_end as int));
                lemma_lex_shift(done, t, spec_lex_from(s@, pos as int));
                assert(tokens.deep_view() =~= done.push(t));
            }
        } else if c.is_whitespace() {
            let mut ws_end: usize = pos + 1;
            while ws_end < len && s.get_char(ws_end).is_whitespace()
                invariant
                    pos + 1 <= ws_end <= len,
                    len == s@.len(),
                    forall|i: int| pos + 1 <= i < ws_end ==> char_whitespace(s@[i]),
                decreases len - ws_end,
            {
                ws_end = ws_end + 1;
            }
            proof {
                lemma_scan_ws_end_eq(s@, entry_pos + 1, ws_end as int);
            }
            tokens.push(Token::Whitespace);
            pos = ws_end;
            proof {
                lemma_lex_shift(done, TokenV::Whitespace, spec_lex_from(s@, pos as int));
                assert(tokens.deep_view() =~= done.push(TokenV::Whitespace));
            }
        } else {
            proof {
                assert(spec_lex_from(s@, entry_pos) == Err::<Seq<TokenV>, CompileError>(
                    CompileError::UnknownCharacter,
                ));
            }
            return Err(CompileError::UnknownCharacter);
        }
    }
    proof {
        assert(tokens.deep_view() + Seq::<TokenV>::empty() =~= tokens.deep_view());
    }
    Ok(tokens)
}

/// Whether the character is `]`.
fn char_is_close_bracket(c: char) -> (r: bool)
    ensures
        r == (c == ']'),
{
    c == ']'
}

/// Whether the character may continue a word.
fn is_word_char_exec(c: char) -> (r: bool)
    ensures
        r == is_word_char(c),
{
    c.is_alphanumeric() || c == '-' || c == '.' || c == '/'
}

proof fn lemma_scan_word_end_eq(s: Seq<char>, pos: int, stop: int)
    requires
        0 <= pos <= stop <= s.len(),
        forall|i: int| pos <= i < stop ==> is_word_char(s[i]),
        stop < s.len() ==> !is_word_char(s[stop]),
    ensures
        scan_word_end(s, pos) == stop,
    decreases stop - pos,
{
    if pos < stop {
        lemma_scan_word_end_eq(s, pos + 1, stop);
    }
}

proof fn lemma_scan_ws_end_eq(s: Seq<char>, pos: int, stop: int)
    requires
        0 <= pos <= stop <= s.len(),
        forall|i: int| pos <= i < stop ==> char_whitespace(s[i]),
        stop < s.len() ==> !char_whitespace(s[stop]),
    ensures
        scan_ws_end(s, pos) == stop,
    decreases stop - pos,
{
    if pos < stop {
        lemma_scan_ws_end_eq(s, pos + 1, stop);
    }
}

proof fn lemma_scan_raw_end_eq(s: Seq<char>, pos: int, stop: int)
    requires
        0 <= pos <= stop <= s.len(),
        forall|i: int| pos <= i < stop ==> s[i] != ']',
        stop < s.len() ==> s[stop] == ']',
    ensures
        scan_raw_end(s, pos) == stop,
    decreases stop - pos,
{
    if pos < stop {
        lemma_scan_raw_end_eq(s, pos + 1, stop);
    }
}

} // verus!
