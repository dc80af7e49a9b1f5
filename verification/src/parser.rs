//! The recursive-descent parser, from tokens to the expression tree.
//!
//! The grammar needs one token of committed lookahead plus two deeper
//! peeks: at the Nth token, and at the token just after the next `)` —
//! the latter tells a parenthesized variant group `( ... ):` apart from
//! a parenthesized property list. `spec_parse` is the defining
//! specification; `Parser::parse` is proved to return exactly its
//! result.

use vstd::prelude::*;
use crate::ast::{
    Expr, ExprV, Util, UtilTree, UtilTreeV, UtilV, Value, ValueOrGroup, ValueOrGroupV, ValueV,
    Variant, VariantV, exprs_view, lemma_exprs_view_index,
};
use crate::error::CompileError;
use crate::token::{Token, TokenV};

verus! {

// ---------------------------------------------------------------------
// Token-stream helpers

/// The first position at or after `pos` that is not whitespace.
pub open spec fn spec_skip_ws(t: Seq<TokenV>, pos: int) -> int
    decreases t.len() - pos,
    when 0 <= pos <= t.len()
{
    if pos >= t.len() {
        pos
    } else if t[pos] is Whitespace {
        spec_skip_ws(t, pos + 1)
    } else {
        pos
    }
}

pub proof fn lemma_skip_ws(t: Seq<TokenV>, pos: int)
    requires
        0 <= pos <= t.len(),
    ensures
        pos <= spec_skip_ws(t, pos) <= t.len(),
        forall|i: int| pos <= i < spec_skip_ws(t, pos) ==> t[i] is Whitespace,
        spec_skip_ws(t, pos) < t.len() ==> !(t[spec_skip_ws(t, pos)] is Whitespace),
    decreases t.len() - pos,
{
    if pos < t.len() && t[pos] is Whitespace {
        lemma_skip_ws(t, pos + 1);
    }
}

proof fn lemma_skip_ws_eq(t: Seq<TokenV>, pos: int, stop: int)
    requires
        0 <= pos <= stop <= t.len(),
        forall|i: int| pos <= i < stop ==> t[i] is Whitespace,
        stop < t.len() ==> !(t[stop] is Whitespace),
    ensures
        spec_skip_ws(t, pos) == stop,
    decreases stop - pos,
{
    if pos < stop {
        lemma_skip_ws_eq(t, pos + 1, stop);
    }
}

/// The position of the first token equal to `x` at or after `pos`, or
/// the end of the stream.
pub open spec fn spec_find_token(t: Seq<TokenV>, pos: int, x: TokenV) -> int
    decreases t.len() - pos,
    when 0 <= pos <= t.len()
{
    if pos >= t.len() {
        pos
    } else if t[pos] == x {
        pos
    } else {
        spec_find_token(t, pos + 1, x)
    }
}

proof fn lemma_find_token_eq(t: Seq<TokenV>, pos: int, x: TokenV, stop: int)
    requires
        0 <= pos <= stop <= t.len(),
        forall|i: int| pos <= i < stop ==> t[i] != x,
        stop < t.len() ==> t[stop] == x,
    ensures
        spec_find_token(t, pos, x) == stop,
    decreases stop - pos,
{
    if pos < stop {
        lemma_find_token_eq(t, pos + 1, x, stop);
    }
}

// ---------------------------------------------------------------------
// The specification parser

/// What breaking out of the variant loop yields: leaving a group open is
/// fatal, otherwise the variants parsed so far and the position.
pub open spec fn variants_break(
    in_group: bool,
    vs: Seq<VariantV>,
    grp: Seq<Option<VariantV>>,
    p: int,
) -> Result<(Seq<VariantV>, Seq<Option<VariantV>>, int), CompileError> {
    if in_group {
        Err(CompileError::UnclosedVariantGroup)
    } else {
        Ok((vs, grp, p))
    }
}

/// One pass of the variant list, with the variants and group slots
/// accumulated so far. Stops (without consuming) at the first token
/// that cannot continue the list.
pub open spec fn spec_parse_variants_at(
    t: Seq<TokenV>,
    pos: int,
    in_group: bool,
    vs: Seq<VariantV>,
    grp: Seq<Option<VariantV>>,
) -> Result<(Seq<VariantV>, Seq<Option<VariantV>>, int), CompileError>
    decreases t.len() - pos,
    when 0 <= pos <= t.len()
    via spec_parse_variants_at_decreases
{
    let p = spec_skip_ws(t, pos);
    if p >= t.len() {
        variants_break(in_group, vs, grp, p)
    } else {
        match t[p] {
            TokenV::Word(w) => if in_group {
                spec_parse_variants_at(
                    t,
                    p + 1,
                    in_group,
                    vs,
                    grp.push(Some(VariantV::Pseudo(ValueV::Iden(w)))),
                )
            } else if p + 1 < t.len() && t[p + 1] is Colon {
                spec_parse_variants_at(
                    t,
                    p + 2,
                    in_group,
                    vs.push(VariantV::Pseudo(ValueV::Iden(w))),
                    grp,
                )
            } else {
                variants_break(in_group, vs, grp, p)
            },
            TokenV::RawValue(w) => if in_group {
                spec_parse_variants_at(
                    t,
                    p + 1,
                    in_group,
                    vs,
                    grp.push(Some(VariantV::Pseudo(ValueV::Raw(w)))),
                )
            } else if p + 1 < t.len() && t[p + 1] is Colon {
                spec_parse_variants_at(
                    t,
                    p + 2,
                    in_group,
                    vs.push(VariantV::Pseudo(ValueV::Raw(w))),
                    grp,
                )
            } else {
                variants_break(in_group, vs, grp, p)
            },
            TokenV::At => if p + 1 < t.len() && (t[p + 1] is Word || t[p + 1] is RawValue) {
                let media = match t[p + 1] {
                    TokenV::Word(w) => VariantV::Media(ValueV::Iden(w)),
                    _ => VariantV::Media(ValueV::Raw(t[p + 1]->RawValue_0)),
                };
                if in_group {
                    spec_parse_variants_at(t, p + 2, in_group, vs, grp.push(Some(media)))
                } else if p + 2 < t.len() && t[p + 2] is Colon {
                    spec_parse_variants_at(t, p + 3, in_group, vs.push(media), grp)
                } else {
                    Err(CompileError::UnexpectedToken)
                }
            } else {
                Err(CompileError::UnexpectedToken)
            },
            TokenV::Underscore => if in_group {
                spec_parse_variants_at(t, p + 1, in_group, vs, grp.push(None))
            } else {
                variants_break(in_group, vs, grp, p)
            },
            TokenV::LParen => if !in_group {
                let close = spec_find_token(t, p, TokenV::RParen);
                if close + 1 < t.len() && t[close + 1] is Colon {
                    if grp.len() > 0 {
                        Err(CompileError::SecondVariantGroup)
                    } else {
                        spec_parse_variants_at(t, p + 1, true, vs, grp)
                    }
                } else {
                    variants_break(in_group, vs, grp, p)
                }
            } else {
                variants_break(in_group, vs, grp, p)
            },
            TokenV::RParen => if in_group {
                if p + 1 < t.len() && t[p + 1] is Colon {
                    spec_parse_variants_at(t, p + 2, false, vs, grp)
                } else {
                    Err(CompileError::UnexpectedToken)
                }
            } else {
                variants_break(in_group, vs, grp, p)
            },
            _ => variants_break(in_group, vs, grp, p),
        }
    }
}

#[via_fn]
proof fn spec_parse_variants_at_decreases(
    t: Seq<TokenV>,
    pos: int,
    in_group: bool,
    vs: Seq<VariantV>,
    grp: Seq<Option<VariantV>>,
) {
    lemma_skip_ws(t, pos);
}

/// The variant list at the head of an expression.
pub open spec fn spec_parse_variants(t: Seq<TokenV>, pos: int) -> Result<
    (Seq<VariantV>, Seq<Option<VariantV>>, int),
    CompileError,
> {
    spec_parse_variants_at(t, pos, false, Seq::empty(), Seq::empty())
}

/// Bounds of the variant pass: it stays inside the stream, and it
/// consumes at least one token whenever it produced anything.
pub proof fn lemma_parse_variants_at_bounds(
    t: Seq<TokenV>,
    pos: int,
    in_group: bool,
    vs: Seq<VariantV>,
    grp: Seq<Option<VariantV>>,
)
    requires
        0 <= pos <= t.len(),
    ensures
        spec_parse_variants_at(t, pos, in_group, vs, grp) matches Ok((rvs, rgrp, p)) ==> {
            &&& pos <= p <= t.len()
            &&& (rvs.len() > vs.len() || rgrp.len() > grp.len()) ==> p > pos
            &&& rvs.len() >= vs.len()
            &&& rgrp.len() >= grp.len()
        },
    decreases t.len() - pos,
{
    lemma_skip_ws(t, pos);
    let p = spec_skip_ws(t, pos);
    if p >= t.len() {
    } else {
        match t[p] {
            TokenV::Word(_) => {
                if in_group {
                    lemma_parse_variants_at_bounds(
                        t,
                        p + 1,
                        in_group,
                        vs,
                        grp.push(Some(VariantV::Pseudo(ValueV::Iden(t[p]->Word_0)))),
                    );
                } else if p + 1 < t.len() && t[p + 1] is Colon {
                    lemma_parse_variants_at_bounds(
                        t,
                        p + 2,
                        in_group,
                        vs.push(VariantV::Pseudo(ValueV::Iden(t[p]->Word_0))),
                        grp,
                    );
                }
            },
            TokenV::RawValue(_) => {
                if in_group {
                    lemma_parse_variants_at_bounds(
                        t,
                        p + 1,
                        in_group,
                        vs,
                        grp.push(Some(VariantV::Pseudo(ValueV::Raw(t[p]->RawValue_0)))),
                    );
                } else if p + 1 < t.len() && t[p + 1] is Colon {
                    lemma_parse_variants_at_bounds(
                        t,
                        p + 2,
                        in_group,
                        vs.push(VariantV::Pseudo(ValueV::Raw(t[p]->RawValue_0))),
                        grp,
                    );
                }
            },
            TokenV::At => {
                if p + 1 < t.len() && (t[p + 1] is Word || t[p + 1] is RawValue) {
                    let media = match t[p + 1] {
                        TokenV::Word(w) => VariantV::Media(ValueV::Iden(w)),
                        _ => VariantV::Media(ValueV::Raw(t[p + 1]->RawValue_0)),
                    };
                    if in_group {
                        lemma_parse_variants_at_bounds(t, p + 2, in_group, vs, grp.push(
                            Some(media),
                        ));
                    } else if p + 2 < t.len() && t[p + 2] is Colon {
                        lemma_parse_variants_at_bounds(t, p + 3, in_group, vs.push(media), grp);
                    }
                }
            },
            TokenV::Underscore => {
                if in_group {
                    lemma_parse_variants_at_bounds(t, p + 1, in_group, vs, grp.push(None));
                }
            },
            TokenV::LParen => {
                if !in_group {
                    let close = spec_find_token(t, p, TokenV::RParen);
                    if close + 1 < t.len() && t[close + 1] is Colon {
                        if grp.len() == 0 {
                            lemma_parse_variants_at_bounds(t, p + 1, true, vs, grp);
                        }
                    }
                }
            },
            TokenV::RParen => {
                if in_group {
                    if p + 1 < t.len() && t[p + 1] is Colon {
                        lemma_parse_variants_at_bounds(t, p + 2, false, vs, grp);
                    }
                }
            },
            _ => {},
        }
    }
}

/// The rest of a parenthesized property list.
pub open spec fn spec_parse_props_rest(t: Seq<TokenV>, pos: int, acc: Seq<Seq<char>>) -> Result<
    (Seq<Seq<char>>, int),
    CompileError,
>
    decreases t.len() - pos,
    when 0 <= pos <= t.len()
    via spec_parse_props_rest_decreases
{
    let p = spec_skip_ws(t, pos);
    if p >= t.len() {
        Err(CompileError::UnexpectedToken)
    } else {
        match t[p] {
            TokenV::Word(w) => spec_parse_props_rest(t, p + 1, acc.push(w)),
            TokenV::RParen => Ok((acc, p + 1)),
            _ => Err(CompileError::UnexpectedToken),
        }
    }
}

#[via_fn]
proof fn spec_parse_props_rest_decreases(t: Seq<TokenV>, pos: int, acc: Seq<Seq<char>>) {
    lemma_skip_ws(t, pos);
}

/// The property-name part of a utility: one bare word, a parenthesized
/// list, or nothing at all (no utility starts here).
pub open spec fn spec_parse_properties(t: Seq<TokenV>, pos: int) -> Result<
    (Option<Seq<Seq<char>>>, int),
    CompileError,
> {
    if pos < t.len() && t[pos] is Word {
        Ok((Some(seq![t[pos]->Word_0]), pos + 1))
    } else if pos < t.len() && t[pos] is LParen {
        match spec_parse_props_rest(t, pos + 1, Seq::empty()) {
            Err(e) => Err(e),
            Ok((props, p)) => Ok((Some(props), p)),
        }
    } else {
        Ok((None, pos))
    }
}

pub proof fn lemma_parse_props_rest_bounds(t: Seq<TokenV>, pos: int, acc: Seq<Seq<char>>)
    requires
        0 <= pos <= t.len(),
    ensures
        spec_parse_props_rest(t, pos, acc) matches Ok((props, p)) ==> pos < p <= t.len(),
    decreases t.len() - pos,
{
    lemma_skip_ws(t, pos);
    let p = spec_skip_ws(t, pos);
    if p < t.len() {
        match t[p] {
            TokenV::Word(w) => {
                lemma_parse_props_rest_bounds(t, p + 1, acc.push(w));
            },
            _ => {},
        }
    }
}

pub proof fn lemma_parse_properties_bounds(t: Seq<TokenV>, pos: int)
    requires
        0 <= pos <= t.len(),
    ensures
        spec_parse_properties(t, pos) matches Ok((o, p)) ==> {
            &&& pos <= p <= t.len()
            &&& o is Some ==> p > pos
        },
{
    if pos < t.len() && t[pos] is LParen {
        lemma_parse_props_rest_bounds(t, pos + 1, Seq::empty());
    }
}

/// The rest of a parenthesized value group.
pub open spec fn spec_parse_value_group(
    t: Seq<TokenV>,
    pos: int,
    acc: Seq<Option<ValueV>>,
) -> Result<(Seq<Option<ValueV>>, int), CompileError>
    decreases t.len() - pos,
    when 0 <= pos <= t.len()
    via spec_parse_value_group_decreases
{
    let p = spec_skip_ws(t, pos);
    if p >= t.len() {
        Err(CompileError::UnexpectedToken)
    } else {
        match t[p] {
            TokenV::RawValue(w) => spec_parse_value_group(
                t,
                p + 1,
                acc.push(Some(ValueV::Raw(w))),
            ),
            TokenV::Word(w) => spec_parse_value_group(t, p + 1, acc.push(Some(ValueV::Iden(w)))),
            TokenV::Underscore => spec_parse_value_group(t, p + 1, acc.push(None)),
            TokenV::RParen => if acc.len() == 0 {
                Err(CompileError::EmptyValueGroup)
            } else {
                Ok((acc, p + 1))
            },
            _ => Err(CompileError::UnexpectedToken),
        }
    }
}

#[via_fn]
proof fn spec_parse_value_group_decreases(t: Seq<TokenV>, pos: int, acc: Seq<Option<ValueV>>) {
    lemma_skip_ws(t, pos);
}

pub proof fn lemma_parse_value_group_bounds(t: Seq<TokenV>, pos: int, acc: Seq<Option<ValueV>>)
    requires
        0 <= pos <= t.len(),
    ensures
        spec_parse_value_group(t, pos, acc) matches Ok((vals, p)) ==> pos < p <= t.len(),
    decreases t.len() - pos,
{
    lemma_skip_ws(t, pos);
    let p = spec_skip_ws(t, pos);
    if p < t.len() {
        match t[p] {
            TokenV::RawValue(w) => {
                lemma_parse_value_group_bounds(t, p + 1, acc.push(Some(ValueV::Raw(w))));
            },
            TokenV::Word(w) => {
                lemma_parse_value_group_bounds(t, p + 1, acc.push(Some(ValueV::Iden(w))));
            },
            TokenV::Underscore => {
                lemma_parse_value_group_bounds(t, p + 1, acc.push(None));
            },
            _ => {},
        }
    }
}

/// The value after `=`: a single word or raw value, or a parenthesized
/// group of optional slots.
pub open spec fn spec_parse_value(t: Seq<TokenV>, pos: int) -> Result<
    (ValueOrGroupV, int),
    CompileError,
> {
    if pos >= t.len() {
        Err(CompileError::ExpectedValue)
    } else {
        match t[pos] {
            TokenV::RawValue(w) => Ok((ValueOrGroupV::Value(ValueV::Raw(w)), pos + 1)),
            TokenV::Word(w) => Ok((ValueOrGroupV::Value(ValueV::Iden(w)), pos + 1)),
            TokenV::LParen => match spec_parse_value_group(t, pos + 1, Seq::empty()) {
                Err(e) => Err(e),
                Ok((vals, p)) => Ok((ValueOrGroupV::Group(vals), p)),
            },
            _ => Err(CompileError::ExpectedValue),
        }
    }
}

pub proof fn lemma_parse_value_bounds(t: Seq<TokenV>, pos: int)
    requires
        0 <= pos <= t.len(),
    ensures
        spec_parse_value(t, pos) matches Ok((v, p)) ==> pos < p <= t.len(),
{
    if pos < t.len() && t[pos] is LParen {
        lemma_parse_value_group_bounds(t, pos + 1, Seq::empty());
    }
}

/// One utility invocation: its properties, then a branch, an assigned
/// value, or nothing.
pub open spec fn spec_parse_util(t: Seq<TokenV>, pos: int) -> Result<
    (Option<UtilV>, int),
    CompileError,
>
    decreases t.len() - pos, 1nat,
{
    match spec_parse_properties(t, pos) {
        Err(e) => Err(e),
        Ok((None, p)) => Ok((None, p)),
        Ok((Some(props), p)) => {
            if !(pos <= p <= t.len()) {
                arbitrary()
            } else if p < t.len() && t[p] is LParen {
                match spec_parse_exprs(t, p + 1) {
                    Err(e) => Err(e),
                    Ok((es, p2)) => if p2 < t.len() && t[p2] is RParen {
                        Ok(
                            (
                                Some(UtilV { properties: props, tree: UtilTreeV::Branch(es) }),
                                p2 + 1,
                            ),
                        )
                    } else {
                        Err(CompileError::UnexpectedToken)
                    },
                }
            } else if p < t.len() && t[p] is Eq {
                match spec_parse_value(t, p + 1) {
                    Err(e) => Err(e),
                    Ok((v, p2)) => Ok(
                        (Some(UtilV { properties: props, tree: UtilTreeV::Leaf(Some(v)) }), p2),
                    ),
                }
            } else {
                Ok((Some(UtilV { properties: props, tree: UtilTreeV::Leaf(None) }), p))
            }
        },
    }
}

/// One expression: optional variants, then a raw escape, a utility, or
/// a wrapped child list.
pub open spec fn spec_parse_expr(t: Seq<TokenV>, pos: int) -> Result<
    (Option<ExprV>, int),
    CompileError,
>
    decreases t.len() - pos, 2nat,
{
    match spec_parse_variants(t, pos) {
        Err(e) => Err(e),
        Ok((vs, grp, p)) => {
            if !(pos <= p <= t.len()) {
                arbitrary()
            } else if vs.len() == 0 && grp.len() == 0 {
                if p < t.len() && t[p] is RawValue {
                    Ok((Some(ExprV::RawCss(t[p]->RawValue_0)), p + 1))
                } else {
                    match spec_parse_util(t, p) {
                        Err(e) => Err(e),
                        Ok((None, p2)) => Ok((None, p2)),
                        Ok((Some(u), p2)) => Ok((Some(ExprV::Util(u)), p2)),
                    }
                }
            } else {
                if p < t.len() && t[p] is LParen {
                    match spec_parse_exprs(t, p + 1) {
                        Err(e) => Err(e),
                        Ok((es, p2)) => if p2 < t.len() && t[p2] is RParen {
                            Ok(
                                (
                                    Some(
                                        ExprV::Variant {
                                            variant_group: grp,
                                            variants: vs,
                                            exprs: es,
                                        },
                                    ),
                                    p2 + 1,
                                ),
                            )
                        } else {
                            Err(CompileError::UnexpectedToken)
                        },
                    }
                } else if p > pos {
                    match spec_parse_expr(t, p) {
                        Err(e) => Err(e),
                        Ok((None, _)) => Err(CompileError::ExpectedExpr),
                        Ok((Some(e), p2)) => Ok(
                            (
                                Some(
                                    ExprV::Variant {
                                        variant_group: grp,
                                        variants: vs,
                                        exprs: seq![e],
                                    },
                                ),
                                p2,
                            ),
                        ),
                    }
                } else {
                    arbitrary()
                }
            }
        },
    }
}

/// A whitespace-separated run of expressions, as many as match.
pub open spec fn spec_parse_exprs(t: Seq<TokenV>, pos: int) -> Result<
    (Seq<ExprV>, int),
    CompileError,
>
    decreases t.len() - pos, 3nat,
{
    match spec_parse_expr(t, pos) {
        Err(e) => Err(e),
        Ok((None, p)) => Ok((Seq::empty(), p)),
        Ok((Some(e), p)) => if pos < p <= t.len() {
            match spec_parse_exprs(t, p) {
                Err(e2) => Err(e2),
                Ok((es, p2)) => Ok((seq![e] + es, p2)),
            }
        } else {
            arbitrary()
        },
    }
}

/// The whole token stream as a list of expressions; tokens left over
/// after the last expression are a fatal parse error.
pub open spec fn spec_parse(t: Seq<TokenV>) -> Result<Seq<ExprV>, CompileError> {
    match spec_parse_exprs(t, 0) {
        Err(e) => Err(e),
        Ok((es, p)) => if p < t.len() {
            Err(CompileError::UnexpectedToken)
        } else {
            Ok(es)
        },
    }
}

/// The parse functions stay inside the stream, and an expression that
/// matched consumed at least one token: the `arbitrary()` guards in the
/// definitions above are never taken.
pub proof fn lemma_parse_bounds(t: Seq<TokenV>, pos: int, which: nat)
    requires
        0 <= pos <= t.len(),
    ensures
        which == 1 ==> (spec_parse_util(t, pos) matches Ok((o, p)) ==> {
            &&& pos <= p <= t.len()
            &&& o is Some ==> p > pos
        }),
        which == 2 ==> (spec_parse_expr(t, pos) matches Ok((o, p)) ==> {
            &&& pos <= p <= t.len()
            &&& o is Some ==> p > pos
        }),
        which == 3 ==> (spec_parse_exprs(t, pos) matches Ok((es, p)) ==> pos <= p <= t.len()),
    decreases t.len() - pos, which,
{
    if which == 1 {
        lemma_parse_properties_bounds(t, pos);
        match spec_parse_properties(t, pos) {
            Err(_) => {},
            Ok((None, _)) => {},
            Ok((Some(props), p)) => {
                if p < t.len() && t[p] is LParen {
                    lemma_parse_bounds(t, p + 1, 3);
                    match spec_parse_exprs(t, p + 1) {
                        Err(_) => {},
                        Ok((es, p2)) => {},
                    }
                } else if p < t.len() && t[p] is Eq {
                    lemma_parse_value_bounds(t, p + 1);
                }
            },
        }
    } else if which == 2 {
        lemma_parse_variants_at_bounds(t, pos, false, Seq::empty(), Seq::empty());
        match spec_parse_variants(t, pos) {
            Err(_) => {},
            Ok((vs, grp, p)) => {
                if vs.len() == 0 && grp.len() == 0 {
                    if p < t.len() && t[p] is RawValue {
                    } else {
                        lemma_parse_bounds(t, p, 1);
                    }
                } else {
                    if p < t.len() && t[p] is LParen {
                        lemma_parse_bounds(t, p + 1, 3);
                    } else {
                        lemma_parse_bounds(t, p, 2);
                    }
                }
            },
        }
    } else if which == 3 {
        lemma_parse_bounds(t, pos, 2);
        match spec_parse_expr(t, pos) {
            Err(_) => {},
            Ok((None, _)) => {},
            Ok((Some(e), p)) => {
                lemma_parse_bounds(t, p, 3);
            },
        }
    }
}

// ---------------------------------------------------------------------
// The executable parser

/// A cursor over the token stream.
pub struct Parser {
    tokens: Vec<Token>,
    pos: usize,
}

impl Parser {
    /// The stream being parsed.
    pub closed spec fn toks(&self) -> Seq<TokenV> {
        self.tokens.deep_view()
    }

    /// The cursor stays inside the stream.
    pub closed spec fn wf(&self) -> bool {
        self.pos <= self.tokens@.len()
    }

    /// The current position.
    pub closed spec fn at(&self) -> int {
        self.pos as int
    }

    /// A parser at the start of the given stream.
    pub fn from(tokens: Vec<Token>) -> (r: Parser)
        ensures
            r.toks() == tokens.deep_view(),
            r.at() == 0,
            r.wf(),
    {
        Parser { tokens, pos: 0 }
    }

    /// Advance past whitespace tokens.
    fn eat_whitespaces(&mut self)
        requires
            old(self).wf(),
        ensures
            final(self).tokens == old(self).tokens,
            final(self).wf(),
            final(self).at() == spec_skip_ws(old(self).toks(), old(self).at()),
    {
        let ghost t = self.toks();
        let ghost pos0 = self.at();
        while self.pos < self.tokens.len() && matches!(&self.tokens[self.pos], Token::Whitespace)
            invariant
                self.wf(),
                self.tokens == old(self).tokens,
                t == self.toks(),
                pos0 <= self.at(),
                forall|i: int| pos0 <= i < self.at() ==> t[i] is Whitespace,
            decreases self.tokens@.len() - self.pos,
        {
            proof {
                assert(t[self.at()] == self.tokens@[self.at()].deep_view());
            }
            self.pos = self.pos + 1;
        }
        proof {
            if self.pos < self.tokens.len() {
                assert(t[self.at()] == self.tokens@[self.at()].deep_view());
            }
            lemma_skip_ws_eq(t, pos0, self.at());
        }
    }

    /// Whether the token just after the next `)` is a `:`.
    fn peek_after_rparen_is_colon(&self) -> (r: bool)
        requires
            self.wf(),
        ensures
            r == {
                let close = spec_find_token(self.toks(), self.at(), TokenV::RParen);
                close + 1 < self.toks().len() && self.toks()[close + 1] is Colon
            },
    {
        let ghost t = self.toks();
        let mut j: usize = self.pos;
        while j < self.tokens.len() && !matches!(&self.tokens[j], Token::RParen)
            invariant
                self.wf(),
                self.at() <= j <= self.tokens@.len(),
                t == self.toks(),
                forall|i: int| self.at() <= i < j ==> t[i] != TokenV::RParen,
            decreases self.tokens@.len() - j,
        {
            proof {
                assert(t[j as int] == self.tokens@[j as int].deep_view());
            }
            j = j + 1;
        }
        proof {
            if j < self.tokens.len() {
                assert(t[j as int] == self.tokens@[j as int].deep_view());
            }
            lemma_find_token_eq(t, self.at(), TokenV::RParen, j as int);
        }
        if j < self.tokens.len() {
            let k = j + 1;
            if k < self.tokens.len() {
                proof {
                    assert(t[k as int] == self.tokens@[k as int].deep_view());
                }
                matches!(&self.tokens[k], Token::Colon)
            } else {
                false
            }
        } else {
            false
        }
    }

    /// Parse the property-name part of a utility, if one starts here.
    fn parse_properties(&mut self) -> (r: Result<Option<Vec<String>>, CompileError>)
        requires
            old(self).wf(),
        ensures
            final(self).tokens == old(self).tokens,
            final(self).wf(),
            match r {
                Ok(o) => spec_parse_properties(old(self).toks(), old(self).at()) == Ok::<
                    _,
                    CompileError,
                >((props_opt_view(o), final(self).at())),
                Err(e) => spec_parse_properties(old(self).toks(), old(self).at()) == Err::<
                    (Option<Seq<Seq<char>>>, int),
                    _,
                >(e),
            },
    {
        let ghost t = self.toks();
        let ghost pos0 = self.at();
        if self.pos < self.tokens.len() {
            proof {
                assert(t[pos0] == self.tokens@[pos0].deep_view());
            }
            let is_word = matches!(&self.tokens[self.pos], Token::Word(_));
            let is_lparen = matches!(&self.tokens[self.pos], Token::LParen);
            if is_word {
                let w = match &self.tokens[self.pos] {
                    Token::Word(w) => w.clone(),
                    _ => String::new(),
                };
                self.pos = self.pos + 1;
                let mut props: Vec<String> = Vec::new();
                props.push(w);
                proof {
                    assert(props.deep_view() =~= seq![t[pos0]->Word_0]);
                }
                return Ok(Some(props));
            }
            if is_lparen {
                self.pos = self.pos + 1;
                let mut props: Vec<String> = Vec::new();
                proof {
                    assert(props.deep_view() =~= Seq::<Seq<char>>::empty());
                }
                loop
                    invariant
                        self.wf(),
                        self.tokens == old(self).tokens,
                        t == self.toks(),
                        t.len() == self.tokens@.len(),
                        pos0 == old(self).at(),
                        0 <= pos0 < t.len() && t[pos0] is LParen,
                        spec_parse_props_rest(t, pos0 + 1, Seq::empty())
                            == spec_parse_props_rest(t, self.at(), props.deep_view()),
                    decreases self.tokens@.len() - self.pos,
                {
                    let ghost pre = self.at();
                    let ghost acc = props.deep_view();
                    self.eat_whitespaces();
                    let ghost p = self.at();
                    proof {
                        lemma_skip_ws(t, pre);
                    }
                    if self.pos >= self.tokens.len() {
                        return Err(CompileError::UnexpectedToken);
                    }
                    proof {
                        assert(t[p] == self.tokens@[p].deep_view());
                    }
                    let is_w = matches!(&self.tokens[self.pos], Token::Word(_));
                    let is_rp = matches!(&self.tokens[self.pos], Token::RParen);
                    if is_w {
                        let w = match &self.tokens[self.pos] {
                            Token::Word(w) => w.clone(),
                            _ => String::new(),
                        };
                        self.pos = self.pos + 1;
                        props.push(w);
                        proof {
                            assert(props.deep_view() =~= acc.push(t[p]->Word_0));
                        }
                    } else if is_rp {
                        self.pos = self.pos + 1;
                        return Ok(Some(props));
                    } else {
                        return Err(CompileError::UnexpectedToken);
                    }
                }
            }
        }
        proof {
            if pos0 < t.len() {
                assert(t[pos0] == self.tokens@[pos0].deep_view());
            }
        }
        Ok(None)
    }

    /// Parse the value after `=`.
    fn parse_value(&mut self) -> (r: Result<ValueOrGroup, CompileError>)
        requires
            old(self).wf(),
        ensures
            final(self).tokens == old(self).tokens,
            final(self).wf(),
            match r {
                Ok(v) => spec_parse_value(old(self).toks(), old(self).at()) == Ok::<
                    _,
                    CompileError,
                >((v@, final(self).at())),
                Err(e) => spec_parse_value(old(self).toks(), old(self).at()) == Err::<
                    (ValueOrGroupV, int),
                    _,
                >(e),
            },
    {
        let ghost t = self.toks();
        let ghost pos0 = self.at();
        if self.pos >= self.tokens.len() {
            return Err(CompileError::ExpectedValue);
        }
        proof {
            assert(t[pos0] == self.tokens@[pos0].deep_view());
        }
        let is_raw = matches!(&self.tokens[self.pos], Token::RawValue(_));
        let is_word = matches!(&self.tokens[self.pos], Token::Word(_));
        let is_lparen = matches!(&self.tokens[self.pos], Token::LParen);
        if is_raw {
            let w = match &self.tokens[self.pos] {
                Token::RawValue(w) => w.clone(),
                _ => String::new(),
            };
            self.pos = self.pos + 1;
            return Ok(ValueOrGroup::Value(Value::Raw(w)));
        }
        if is_word {
            let w = match &self.tokens[self.pos] {
                Token::Word(w) => w.clone(),
                _ => String::new(),
            };
            self.pos = self.pos + 1;
            return Ok(ValueOrGroup::Value(Value::Iden(w)));
        }
        if is_lparen {
            self.pos = self.pos + 1;
            let mut vals: Vec<Option<Value>> = Vec::new();
            proof {
                assert(vals.deep_view() =~= Seq::<Option<ValueV>>::empty());
            }
            loop
                invariant
                    self.wf(),
                    self.tokens == old(self).tokens,
                    t == self.toks(),
                    t.len() == self.tokens@.len(),
                    pos0 == old(self).at(),
                    0 <= pos0 < t.len() && t[pos0] is LParen,
                    spec_parse_value_group(t, pos0 + 1, Seq::empty()) == spec_parse_value_group(
                        t,
                        self.at(),
                        vals.deep_view(),
                    ),
                decreases self.tokens@.len() - self.pos,
            {
                let ghost pre = self.at();
                let ghost acc = vals.deep_view();
                self.eat_whitespaces();
                let ghost p = self.at();
                proof {
                    lemma_skip_ws(t, pre);
                }
                if self.pos >= self.tokens.len() {
                    return Err(CompileError::UnexpectedToken);
                }
                proof {
                    assert(t[p] == self.tokens@[p].deep_view());
                }
                let is_r = matches!(&self.tokens[self.pos], Token::RawValue(_));
                let is_w = matches!(&self.tokens[self.pos], Token::Word(_));
                let is_u = matches!(&self.tokens[self.pos], Token::Underscore);
                let is_rp = matches!(&self.tokens[self.pos], Token::RParen);
                if is_r {
                    let w = match &self.tokens[self.pos] {
                        Token::RawValue(w) => w.clone(),
                        _ => String::new(),
                    };
                    self.pos = self.pos + 1;
                    vals.push(Some(Value::Raw(w)));
                    proof {
                        assert(vals.deep_view() =~= acc.push(
                            Some(ValueV::Raw(t[p]->RawValue_0)),
                        ));
                    }
                } else if is_w {
                    let w = match &self.tokens[self.pos] {
                        Token::Word(w) => w.clone(),
                        _ => String::new(),
                    };
                    self.pos = self.pos + 1;
                    vals.push(Some(Value::Iden(w)));
                    proof {
                        assert(vals.deep_view() =~= acc.push(Some(ValueV::Iden(t[p]->Word_0))));
                    }
                } else if is_u {
                    self.pos = self.pos + 1;
                    vals.push(None);
                    proof {
                        assert(vals.deep_view() =~= acc.push(None::<ValueV>));
                    }
                } else if is_rp {
                    if vals.len() == 0 {
                        proof {
                            assert(vals.deep_view().len() == 0);
                        }
                        return Err(CompileError::EmptyValueGroup);
                    }
                    proof {
                        assert(vals.deep_view().len() == vals@.len());
                    }
                    self.pos = self.pos + 1;
                    return Ok(ValueOrGroup::Group(vals));
                } else {
                    return Err(CompileError::UnexpectedToken);
                }
            }
        }
        Err(CompileError::ExpectedValue)
    }
}

/// The views of an optional property list.
pub open spec fn props_opt_view(o: Option<Vec<String>>) -> Option<Seq<Seq<char>>> {
    match o {
        Some(v) => Some(v.deep_view()),
        None => None,
    }
}

/// How an expression list relates a partial result to the whole.
pub open spec fn exprs_continues(
    done: Seq<ExprV>,
    rest: Result<(Seq<ExprV>, int), CompileError>,
) -> Result<(Seq<ExprV>, int), CompileError> {
    match rest {
        Ok((es, p)) => Ok((done + es, p)),
        Err(e) => Err(e),
    }
}

proof fn lemma_exprs_shift(done: Seq<ExprV>, e: ExprV, rest: Result<(Seq<ExprV>, int), CompileError>)
    ensures
        exprs_continues(done, match rest {
            Ok((es, p)) => Ok::<(Seq<ExprV>, int), CompileError>((seq![e] + es, p)),
            Err(err) => Err(err),
        }) == exprs_continues(done.push(e), rest),
{
    match rest {
        Ok((es, p)) => {
            assert(done + (seq![e] + es) =~= done.push(e) + es);
        },
        Err(_) => {},
    }
}

impl Parser {
    /// Parse the variant list at the head of an expression.
    fn parse_variants(&mut self) -> (r: Result<
        (Vec<Variant>, Vec<Option<Variant>>),
        CompileError,
    >)
        requires
            old(self).wf(),
        ensures
            final(self).tokens == old(self).tokens,
            final(self).wf(),
            match r {
                Ok(vg) => spec_parse_variants(old(self).toks(), old(self).at()) == Ok::<
                    _,
                    CompileError,
                >((vg.0.deep_view(), vg.1.deep_view(), final(self).at())),
                Err(e) => spec_parse_variants(old(self).toks(), old(self).at()) == Err::<
                    (Seq<VariantV>, Seq<Option<VariantV>>, int),
                    _,
                >(e),
            },
    {
        let ghost t = self.toks();
        let ghost pos0 = self.at();
        let mut vs: Vec<Variant> = Vec::new();
        let mut grp: Vec<Option<Variant>> = Vec::new();
        let mut in_group: bool = false;
        proof {
            assert(vs.deep_view() =~= Seq::<VariantV>::empty());
            assert(grp.deep_view() =~= Seq::<Option<VariantV>>::empty());
        }
        loop
            invariant
                self.wf(),
                self.tokens == old(self).tokens,
                t == self.toks(),
                t.len() == self.tokens@.len(),
                pos0 == old(self).at(),
                spec_parse_variants(t, pos0) == spec_parse_variants_at(
                    t,
                    self.at(),
                    in_group,
                    vs.deep_view(),
                    grp.deep_view(),
                ),
            decreases self.tokens@.len() - self.pos,
        {
            let ghost pre = self.at();
            let ghost vs0 = vs.deep_view();
            let ghost grp0 = grp.deep_view();
            self.eat_whitespaces();
            let ghost p = self.at();
            proof {
                lemma_skip_ws(t, pre);
            }
            if self.pos >= self.tokens.len() {
                if in_group {
                    return Err(CompileError::UnclosedVariantGroup);
                } else {
                    return Ok((vs, grp));
                }
            }
            proof {
                assert(t[p] == self.tokens@[p].deep_view());
            }
            let is_word = matches!(&self.tokens[self.pos], Token::Word(_));
            let is_raw = matches!(&self.tokens[self.pos], Token::RawValue(_));
            if is_word || is_raw {
                if in_group {
                    let v = match &self.tokens[self.pos] {
                        Token::Word(w) => Value::Iden(w.clone()),
                        Token::RawValue(w) => Value::Raw(w.clone()),
                        _ => Value::Iden(String::new()),
                    };
                    self.pos = self.pos + 1;
                    grp.push(Some(Variant::Pseudo(v)));
                    proof {
                        if t[p] is Word {
                            assert(grp.deep_view() =~= grp0.push(
                                Some(VariantV::Pseudo(ValueV::Iden(t[p]->Word_0))),
                            ));
                        } else {
                            assert(grp.deep_view() =~= grp0.push(
                                Some(VariantV::Pseudo(ValueV::Raw(t[p]->RawValue_0))),
                            ));
                        }
                    }
                } else {
                    let colon_next = self.pos + 1 < self.tokens.len() && matches!(
                        &self.tokens[self.pos + 1],
                        Token::Colon,
                    );
                    proof {
                        if p + 1 < t.len() {
                            assert(t[p + 1] == self.tokens@[p + 1].deep_view());
                        }
                    }
                    if colon_next {
                        let v = match &self.tokens[self.pos] {
                            Token::Word(w) => Value::Iden(w.clone()),
                            Token::RawValue(w) => Value::Raw(w.clone()),
                            _ => Value::Iden(String::new()),
                        };
                        self.pos = self.pos + 2;
                        vs.push(Variant::Pseudo(v));
                        proof {
                            if t[p] is Word {
                                assert(vs.deep_view() =~= vs0.push(
                                    VariantV::Pseudo(ValueV::Iden(t[p]->Word_0)),
                                ));
                            } else {
                                assert(vs.deep_view() =~= vs0.push(
                                    VariantV::Pseudo(ValueV::Raw(t[p]->RawValue_0)),
                                ));
                            }
                        }
                    } else {
                        return Ok((vs, grp));
                    }
                }
            } else if matches!(&self.tokens[self.pos], Token::At) {
                if self.pos + 1 >= self.tokens.len() {
                    return Err(CompileError::UnexpectedToken);
                }
                proof {
                    assert(t[p + 1] == self.tokens@[p + 1].deep_view());
                }
                let next_is_name = matches!(
                    &self.tokens[self.pos + 1],
                    Token::Word(_),
                ) || matches!(&self.tokens[self.pos + 1], Token::RawValue(_));
                if !next_is_name {
                    return Err(CompileError::UnexpectedToken);
                }
                let v = match &self.tokens[self.pos + 1] {
                    Token::Word(w) => Value::Iden(w.clone()),
                    Token::RawValue(w) => Value::Raw(w.clone()),
                    _ => Value::Iden(String::new()),
                };
                if in_group {
                    self.pos = self.pos + 2;
                    grp.push(Some(Variant::Media(v)));
                    proof {
                        if t[p + 1] is Word {
                            assert(grp.deep_view() =~= grp0.push(
                                Some(VariantV::Media(ValueV::Iden(t[p + 1]->Word_0))),
                            ));
                        } else {
                            assert(grp.deep_view() =~= grp0.push(
                                Some(VariantV::Media(ValueV::Raw(t[p + 1]->RawValue_0))),
                            ));
                        }
                    }
                } else {
                    let colon_after = self.pos + 2 < self.tokens.len() && matches!(
                        &self.tokens[self.pos + 2],
                        Token::Colon,
                    );
                    proof {
                        if p + 2 < t.len() {
                            assert(t[p + 2] == self.tokens@[p + 2].deep_view());
                        }
                    }
                    if !colon_after {
                        return Err(CompileError::UnexpectedToken);
                    }
                    self.pos = self.pos + 3;
                    vs.push(Variant::Media(v));
                    proof {
                        if t[p + 1] is Word {
                            assert(vs.deep_view() =~= vs0.push(
                                VariantV::Media(ValueV::Iden(t[p + 1]->Word_0)),
                            ));
                        } else {
                            assert(vs.deep_view() =~= vs0.push(
                                VariantV::Media(ValueV::Raw(t[p + 1]->RawValue_0)),
                            ));
                        }
                    }
                }
            } else if matches!(&self.tokens[self.pos], Token::Underscore) {
                if in_group {
                    self.pos = self.pos + 1;
                    grp.push(None);
                    proof {
                        assert(grp.deep_view() =~= grp0.push(None::<VariantV>));
                    }
                } else {
                    return Ok((vs, grp));
                }
            } else if matches!(&self.tokens[self.pos], Token::LParen) {
                if !in_group {
                    if self.peek_after_rparen_is_colon() {
                        if grp.len() > 0 {
                            proof {
                                assert(grp.deep_view().len() == grp@.len());
                            }
                            return Err(CompileError::SecondVariantGroup);
                        }
                        proof {
                            assert(grp.deep_view().len() == grp@.len());
                        }
                        self.pos = self.pos + 1;
                        in_group = true;
                    } else {
                        return Ok((vs, grp));
                    }
                } else {
                    return Err(CompileError::UnclosedVariantGroup);
                }
            } else if matches!(&self.tokens[self.pos], Token::RParen) {
                if in_group {
                    let colon_next = self.pos + 1 < self.tokens.len() && matches!(
                        &self.tokens[self.pos + 1],
                        Token::Colon,
                    );
                    proof {
                        if p + 1 < t.len() {
                            assert(t[p + 1] == self.tokens@[p + 1].deep_view());
                        }
                    }
                    if !colon_next {
                        return Err(CompileError::UnexpectedToken);
                    }
                    self.pos = self.pos + 2;
                    in_group = false;
                } else {
                    return Ok((vs, grp));
                }
            } else {
                if in_group {
                    return Err(CompileError::UnclosedVariantGroup);
                } else {
                    return Ok((vs, grp));
                }
            }
        }
    }

    /// Parse one utility invocation, if one starts here.
    fn parse_util(&mut self) -> (r: Result<Option<Util>, CompileError>)
        requires
            old(self).wf(),
        ensures
            final(self).tokens == old(self).tokens,
            final(self).wf(),
            match r {
                Ok(o) => spec_parse_util(old(self).toks(), old(self).at()) == Ok::<
                    _,
                    CompileError,
                >((util_opt_view(o), final(self).at())),
                Err(e) => spec_parse_util(old(self).toks(), old(self).at()) == Err::<
                    (Option<UtilV>, int),
                    _,
                >(e),
            },
        decreases self.tokens@.len() - self.pos, 1nat,
    {
        let ghost t = self.toks();
        let ghost pos0 = self.at();
        let props = match self.parse_properties() {
            Err(e) => {
                return Err(e);
            },
            Ok(o) => o,
        };
        proof {
            lemma_parse_properties_bounds(t, pos0);
        }
        match props {
            None => Ok(None),
            Some(props) => {
                let ghost p = self.at();
                let has_lparen = self.pos < self.tokens.len() && matches!(
                    &self.tokens[self.pos],
                    Token::LParen,
                );
                let has_eq = self.pos < self.tokens.len() && matches!(
                    &self.tokens[self.pos],
                    Token::Eq,
                );
                proof {
                    if p < t.len() {
                        assert(t[p] == self.tokens@[p].deep_view());
                    }
                }
                if has_lparen {
                    self.pos = self.pos + 1;
                    let es = match self.parse_exprs() {
                        Err(e) => {
                            return Err(e);
                        },
                        Ok(es) => es,
                    };
                    let ghost p2 = self.at();
                    proof {
                        if p2 < t.len() {
                            assert(t[p2] == self.tokens@[p2].deep_view());
                        }
                    }
                    if self.pos < self.tokens.len() && matches!(
                        &self.tokens[self.pos],
                        Token::RParen,
                    ) {
                        self.pos = self.pos + 1;
                        Ok(Some(Util { properties: props, tree: UtilTree::Branch(es) }))
                    } else {
                        Err(CompileError::UnexpectedToken)
                    }
                } else if has_eq {
                    self.pos = self.pos + 1;
                    match self.parse_value() {
                        Err(e) => Err(e),
                        Ok(v) => Ok(
                            Some(Util { properties: props, tree: UtilTree::Leaf(Some(v)) }),
                        ),
                    }
                } else {
                    Ok(Some(Util { properties: props, tree: UtilTree::Leaf(None) }))
                }
            },
        }
    }

    /// Parse one expression, if one starts here.
    fn parse_expr(&mut self) -> (r: Result<Option<Expr>, CompileError>)
        requires
            old(self).wf(),
        ensures
            final(self).tokens == old(self).tokens,
            final(self).wf(),
            match r {
                Ok(o) => spec_parse_expr(old(self).toks(), old(self).at()) == Ok::<
                    _,
                    CompileError,
                >((o.deep_view(), final(self).at())),
                Err(e) => spec_parse_expr(old(self).toks(), old(self).at()) == Err::<
                    (Option<ExprV>, int),
                    _,
                >(e),
            },
        decreases self.tokens@.len() - self.pos, 2nat,
    {
        let ghost t = self.toks();
        let ghost pos0 = self.at();
        let (vs, grp) = match self.parse_variants() {
            Err(e) => {
                return Err(e);
            },
            Ok(vg) => vg,
        };
        proof {
            lemma_parse_variants_at_bounds(
                t,
                pos0,
                false,
                Seq::<VariantV>::empty(),
                Seq::<Option<VariantV>>::empty(),
            );
        }
        let ghost p = self.at();
        if vs.len() == 0 && grp.len() == 0 {
            proof {
                assert(vs.deep_view().len() == 0 && grp.deep_view().len() == 0);
            }
            let is_raw = self.pos < self.tokens.len() && matches!(
                &self.tokens[self.pos],
                Token::RawValue(_),
            );
            proof {
                if p < t.len() {
                    assert(t[p] == self.tokens@[p].deep_view());
                }
            }
            if is_raw {
                let w = match &self.tokens[self.pos] {
                    Token::RawValue(w) => w.clone(),
                    _ => String::new(),
                };
                self.pos = self.pos + 1;
                Ok(Some(Expr::RawCss(w)))
            } else {
                match self.parse_util() {
                    Err(e) => Err(e),
                    Ok(None) => Ok(None),
                    Ok(Some(u)) => Ok(Some(Expr::Util(u))),
                }
            }
        } else {
            proof {
                assert(vs.deep_view().len() == vs@.len());
                assert(grp.deep_view().len() == grp@.len());
            }
            let is_lparen = self.pos < self.tokens.len() && matches!(
                &self.tokens[self.pos],
                Token::LParen,
            );
            proof {
                if p < t.len() {
                    assert(t[p] == self.tokens@[p].deep_view());
                }
            }
            if is_lparen {
                self.pos = self.pos + 1;
                let es = match self.parse_exprs() {
                    Err(e) => {
                        return Err(e);
                    },
                    Ok(es) => es,
                };
                let ghost p2 = self.at();
                proof {
                    if p2 < t.len() {
                        assert(t[p2] == self.tokens@[p2].deep_view());
                    }
                    lemma_exprs_view_index(es@);
                }
                if self.pos < self.tokens.len() && matches!(
                    &self.tokens[self.pos],
                    Token::RParen,
                ) {
                    self.pos = self.pos + 1;
                    Ok(Some(Expr::Variant { variant_group: grp, variants: vs, exprs: es }))
                } else {
                    Err(CompileError::UnexpectedToken)
                }
            } else {
                match self.parse_expr() {
                    Err(e) => Err(e),
                    Ok(None) => Err(CompileError::ExpectedExpr),
                    Ok(Some(e)) => {
                        let mut es: Vec<Expr> = Vec::new();
                        let ghost ev = e@;
                        es.push(e);
                        proof {
                            lemma_exprs_view_index(es@);
                            assert(exprs_view(es@) =~= seq![ev]);
                        }
                        Ok(Some(Expr::Variant { variant_group: grp, variants: vs, exprs: es }))
                    },
                }
            }
        }
    }

    /// Parse a run of expressions, as many as match.
    fn parse_exprs(&mut self) -> (r: Result<Vec<Expr>, CompileError>)
        requires
            old(self).wf(),
        ensures
            final(self).tokens == old(self).tokens,
            final(self).wf(),
            match r {
                Ok(es) => spec_parse_exprs(old(self).toks(), old(self).at()) == Ok::<
                    _,
                    CompileError,
                >((exprs_view(es@), final(self).at())),
                Err(e) => spec_parse_exprs(old(self).toks(), old(self).at()) == Err::<
                    (Seq<ExprV>, int),
                    _,
                >(e),
            },
        decreases self.tokens@.len() - self.pos, 3nat,
    {
        let ghost t = self.toks();
        let ghost pos0 = self.at();
        let mut acc: Vec<Expr> = Vec::new();
        proof {
            lemma_exprs_view_index(acc@);
            assert(exprs_view(acc@) =~= Seq::<ExprV>::empty());
        }
        loop
            invariant
                self.wf(),
                self.tokens == old(self).tokens,
                t == self.toks(),
                t.len() == self.tokens@.len(),
                pos0 == old(self).at(),
                pos0 <= self.at(),
                spec_parse_exprs(t, pos0) == exprs_continues(
                    exprs_view(acc@),
                    spec_parse_exprs(t, self.at()),
                ),
            decreases self.tokens@.len() - self.pos,
        {
            let ghost pre = self.at();
            let ghost done = exprs_view(acc@);
            let head = match self.parse_expr() {
                Err(e) => {
                    return Err(e);
                },
                Ok(o) => o,
            };
            proof {
                lemma_parse_bounds(t, pre, 2);
            }
            match head {
                None => {
                    proof {
                        assert(done + Seq::<ExprV>::empty() =~= done);
                    }
                    return Ok(acc);
                },
                Some(e) => {
                    let ghost ev = e@;
                    let ghost p = self.at();
                    let ghost accs = acc@;
                    acc.push(e);
                    proof {
                        lemma_exprs_shift(done, ev, spec_parse_exprs(t, p));
                        lemma_exprs_view_index(accs);
                        lemma_exprs_view_index(acc@);
                        assert(acc@ == accs.push(e));
                        assert(exprs_view(acc@) =~= done.push(ev));
                    }
                },
            }
        }
    }

    /// Parse the whole stream.
    ///
    /// Returns exactly `spec_parse` of the stream: the expressions in
    /// order, or the first parse error; input left over after the last
    /// expression is itself an error.
    pub fn parse(&mut self) -> (r: Result<Vec<Expr>, CompileError>)
        requires
            old(self).wf(),
            old(self).at() == 0,
        ensures
            match r {
                Ok(es) => spec_parse(old(self).toks()) == Ok::<Seq<ExprV>, CompileError>(
                    exprs_view(es@),
                ),
                Err(e) => spec_parse(old(self).toks()) == Err::<Seq<ExprV>, CompileError>(e),
            },
    {
        let ghost t = self.toks();
        let es = match self.parse_exprs() {
            Err(e) => {
                return Err(e);
            },
            Ok(es) => es,
        };
        if self.pos < self.tokens.len() {
            Err(CompileError::UnexpectedToken)
        } else {
            Ok(es)
        }
    }
}

/// The views of an optional utility.
pub open spec fn util_opt_view(o: Option<Util>) -> Option<UtilV> {
    match o {
        Some(u) => Some(u@),
        None => None,
    }
}

} // verus!
