//! The flattener: expanding the expression tree into independent style
//! requests.
//!
//! Walking the tree accumulates variant scope (outer before inner) and a
//! property-name prefix; a positional variant group pairs index-for-index
//! with a positional value group. `spec_flatten` is the defining
//! specification; `flatten_expr` is proved to return exactly its result.
//!
//! A value group under a governing variant group of another length is a
//! fatal mismatch. In particular a value group with no governing group
//! at all is rejected, since the parser already refuses an empty value
//! group: the zero-length case cannot pair with anything.

use vstd::prelude::*;
use crate::ast::{
    Expr, ExprV, FlatExpr, FlatExprV, FlatUtil, FlatUtilOrRaw, FlatUtilOrRawV, FlatUtilV, UtilTree,
    UtilTreeV, Value, ValueOrGroup, ValueOrGroupV, ValueV, Variant, VariantV, dup_variant_group,
    dup_variants, exprs_view, lemma_exprs_view_index,
};
use crate::error::CompileError;
use crate::order::{sort_variants, sort_variants_exec};
use vstd::string::StringExecFns;

verus! {

/// Concatenate two flattening outcomes, failing on the first error.
pub open spec fn concat_flat(
    a: Result<Seq<FlatExprV>, CompileError>,
    b: Result<Seq<FlatExprV>, CompileError>,
) -> Result<Seq<FlatExprV>, CompileError> {
    match a {
        Err(e) => Err(e),
        Ok(xs) => match b {
            Err(e) => Err(e),
            Ok(ys) => Ok(xs + ys),
        },
    }
}

/// The variant set of one emitted request: the accumulated variants,
/// sorted, or absent when there are none.
pub open spec fn canonical_variants(variants: Seq<VariantV>) -> Option<Seq<VariantV>> {
    if variants.len() == 0 {
        None
    } else {
        Some(sort_variants(variants))
    }
}

/// The requests of one group-valued leaf, from slot `i` on: slot `i` of
/// the value group pairs with slot `i` of the variant group, and a slot
/// that is empty on either side emits nothing for that index.
pub open spec fn spec_flatten_group(
    values: Seq<Option<ValueV>>,
    group: Seq<Option<VariantV>>,
    variants: Seq<VariantV>,
    name: Seq<char>,
    i: int,
) -> Seq<FlatExprV>
    decreases values.len() - i,
    when 0 <= i <= values.len() && values.len() == group.len()
{
    if i >= values.len() {
        Seq::empty()
    } else {
        let rest = spec_flatten_group(values, group, variants, name, i + 1);
        match (values[i], group[i]) {
            (Some(v), Some(gv)) => seq![
                FlatExprV {
                    variants: Some(sort_variants(variants.push(gv))),
                    css: FlatUtilOrRawV::FlatUtil(FlatUtilV { prop: name, value: Some(v) }),
                },
            ] + rest,
            _ => rest,
        }
    }
}

/// The requests of one value tree under one full property name.
pub open spec fn spec_flatten_tree(
    tree: UtilTreeV,
    name: Seq<char>,
    variants: Seq<VariantV>,
    group: Seq<Option<VariantV>>,
) -> Result<Seq<FlatExprV>, CompileError>
    decreases tree, 0nat,
{
    match tree {
        UtilTreeV::Branch(es) => spec_flatten_seq(es, variants, group, name),
        UtilTreeV::Leaf(value) => match value {
            Some(ValueOrGroupV::Group(values)) => {
                if values.len() != group.len() {
                    Err(CompileError::GroupLengthMismatch)
                } else {
                    Ok(spec_flatten_group(values, group, variants, name, 0))
                }
            },
            Some(ValueOrGroupV::Value(v)) => Ok(
                seq![
                    FlatExprV {
                        variants: canonical_variants(variants),
                        css: FlatUtilOrRawV::FlatUtil(FlatUtilV { prop: name, value: Some(v) }),
                    },
                ],
            ),
            None => Ok(
                seq![
                    FlatExprV {
                        variants: canonical_variants(variants),
                        css: FlatUtilOrRawV::FlatUtil(FlatUtilV { prop: name, value: None }),
                    },
                ],
            ),
        },
    }
}

/// The requests of one utility: each listed property fans out to the
/// shared value tree under `prefix + property`.
pub open spec fn spec_flatten_props(
    props: Seq<Seq<char>>,
    tree: UtilTreeV,
    variants: Seq<VariantV>,
    group: Seq<Option<VariantV>>,
    prefix: Seq<char>,
) -> Result<Seq<FlatExprV>, CompileError>
    decreases tree, props.len() + 1,
{
    if props.len() == 0 {
        Ok(Seq::empty())
    } else {
        concat_flat(
            spec_flatten_tree(tree, prefix + props[0], variants, group),
            spec_flatten_props(props.drop_first(), tree, variants, group, prefix),
        )
    }
}

/// The requests of one expression, given the inherited scope.
pub open spec fn spec_flatten(
    e: ExprV,
    variants: Seq<VariantV>,
    group: Seq<Option<VariantV>>,
    prefix: Seq<char>,
) -> Result<Seq<FlatExprV>, CompileError>
    decreases e, 0nat,
{
    match e {
        ExprV::RawCss(raw) => Ok(
            seq![FlatExprV { variants: None, css: FlatUtilOrRawV::RawCss(raw) }],
        ),
        ExprV::Util(u) => spec_flatten_props(u.properties, u.tree, variants, group, prefix),
        ExprV::Variant { variant_group, variants: own, exprs } => {
            let g = if variant_group.len() > 0 {
                variant_group
            } else {
                group
            };
            spec_flatten_seq(exprs, variants + own, g, prefix)
        },
    }
}

/// The requests of a list of expressions, in order.
pub open spec fn spec_flatten_seq(
    es: Seq<ExprV>,
    variants: Seq<VariantV>,
    group: Seq<Option<VariantV>>,
    prefix: Seq<char>,
) -> Result<Seq<FlatExprV>, CompileError>
    decreases es, 0nat,
{
    if es.len() == 0 {
        Ok(Seq::empty())
    } else {
        concat_flat(
            spec_flatten(es[0], variants, group, prefix),
            spec_flatten_seq(es.drop_first(), variants, group, prefix),
        )
    }
}

// ---------------------------------------------------------------------
// Executable flattening

/// Move every request of `src` onto the end of `dst`.
fn append_flats(dst: &mut Vec<FlatExpr>, src: Vec<FlatExpr>)
    ensures
        final(dst).deep_view() == old(dst).deep_view() + src.deep_view(),
{
    let mut src = src;
    let ghost src_view = src.deep_view();
    dst.append(&mut src);
    proof {
        assert(dst.deep_view() =~= old(dst).deep_view() + src_view);
    }
}

/// The canonical variant set of one request: sorted, absent when empty.
fn canonical_variants_exec(variants: &Vec<Variant>) -> (r: Option<Vec<Variant>>)
    ensures
        r.deep_view() == canonical_variants(variants.deep_view()),
{
    if variants.len() == 0 {
        proof {
            assert(variants.deep_view().len() == 0);
        }
        None
    } else {
        proof {
            assert(variants.deep_view().len() == variants@.len());
        }
        Some(sort_variants_exec(dup_variants(variants)))
    }
}

/// Expand one group-valued leaf, pairing value slots with variant slots.
fn flatten_group_exec(
    values: &Vec<Option<Value>>,
    group: &Vec<Option<Variant>>,
    variants: &Vec<Variant>,
    name: &String,
) -> (r: Vec<FlatExpr>)
    requires
        values.deep_view().len() == group.deep_view().len(),
    ensures
        r.deep_view() == spec_flatten_group(
            values.deep_view(),
            group.deep_view(),
            variants.deep_view(),
            name@,
            0,
        ),
{
    let ghost vals = values.deep_view();
    let ghost grp = group.deep_view();
    let ghost vars = variants.deep_view();
    let mut r: Vec<FlatExpr> = Vec::new();
    let mut i: usize = 0;
    proof {
        assert(vals.len() == values@.len());
        assert(grp.len() == group@.len());
        assert(Seq::<FlatExprV>::empty() + spec_flatten_group(vals, grp, vars, name@, 0)
            =~= spec_flatten_group(vals, grp, vars, name@, 0));
    }
    while i < values.len()
        invariant
            0 <= i <= values.len(),
            values@.len() == vals.len(),
            group@.len() == grp.len(),
            vals.len() == grp.len(),
            vals == values.deep_view(),
            grp == group.deep_view(),
            vars == variants.deep_view(),
            name@ == name@,
            spec_flatten_group(vals, grp, vars, name@, 0) == r.deep_view() + spec_flatten_group(
                vals,
                grp,
                vars,
                name@,
                i as int,
            ),
        decreases values.len() - i,
    {
        let ghost prev = r.deep_view();
        let both = matches!(&values[i], Some(_)) && matches!(&group[i], Some(_));
        if !both {
            proof {
                assert(!(vals[i as int] is Some && grp[i as int] is Some));
                assert(spec_flatten_group(vals, grp, vars, name@, i as int)
                    == spec_flatten_group(vals, grp, vars, name@, i + 1));
            }
        } else {
            match (&values[i], &group[i]) {
            (Some(v), Some(gv)) => {
                let mut with_slot = dup_variants(variants);
                with_slot.push(gv.duplicate());
                proof {
                    assert(with_slot.deep_view() =~= vars.push(grp[i as int]->Some_0));
                }
                let sorted = sort_variants_exec(with_slot);
                let entry = FlatExpr {
                    variants: Some(sorted),
                    css: FlatUtilOrRaw::FlatUtil(
                        FlatUtil { prop: name.clone(), value: Some(v.duplicate()) },
                    ),
                };
                let ghost entry_view = entry@;
                r.push(entry);
                proof {
                    assert(r.deep_view() =~= prev.push(entry_view));
                    assert(vals[i as int] is Some && grp[i as int] is Some);
                    assert(spec_flatten_group(vals, grp, vars, name@, i as int) == seq![
                        entry_view,
                    ] + spec_flatten_group(vals, grp, vars, name@, i + 1));
                    assert(prev + (seq![entry_view] + spec_flatten_group(
                        vals,
                        grp,
                        vars,
                        name@,
                        i + 1,
                    )) =~= prev.push(entry_view) + spec_flatten_group(
                        vals,
                        grp,
                        vars,
                        name@,
                        i + 1,
                    ));
                }
            },
            _ => {},
            }
        }
        i = i + 1;
    }
    proof {
        assert(spec_flatten_group(vals, grp, vars, name@, vals.len() as int)
            =~= Seq::<FlatExprV>::empty());
        assert(r.deep_view() + Seq::<FlatExprV>::empty() =~= r.deep_view());
    }
    r
}

/// Expand one value tree under its full property name.
fn flatten_tree_exec(
    tree: &UtilTree,
    name: String,
    variants: &Vec<Variant>,
    group: &Vec<Option<Variant>>,
) -> (r: Result<Vec<FlatExpr>, CompileError>)
    ensures
        match r {
            Ok(v) => spec_flatten_tree(tree@, name@, variants.deep_view(), group.deep_view())
                == Ok::<Seq<FlatExprV>, CompileError>(v.deep_view()),
            Err(e) => spec_flatten_tree(tree@, name@, variants.deep_view(), group.deep_view())
                == Err::<Seq<FlatExprV>, CompileError>(e),
        },
    decreases tree, 0nat,
{
    match tree {
        UtilTree::Branch(es) => {
            proof {
                lemma_exprs_view_index(es@);
                assert(exprs_view(es@).skip(0) =~= exprs_view(es@));
            }
            flatten_exprs(es, 0, variants, group, &name)
        },
        UtilTree::Leaf(value) => match value {
            Some(ValueOrGroup::Group(values)) => {
                if values.len() != group.len() {
                    proof {
                        assert(values.deep_view().len() == values@.len());
                        assert(group.deep_view().len() == group@.len());
                    }
                    Err(CompileError::GroupLengthMismatch)
                } else {
                    proof {
                        assert(values.deep_view().len() == values@.len());
                        assert(group.deep_view().len() == group@.len());
                    }
                    Ok(flatten_group_exec(values, group, variants, &name))
                }
            },
            Some(ValueOrGroup::Value(v)) => {
                let entry = FlatExpr {
                    variants: canonical_variants_exec(variants),
                    css: FlatUtilOrRaw::FlatUtil(
                        FlatUtil { prop: name, value: Some(v.duplicate()) },
                    ),
                };
                let ghost entry_view = entry@;
                let mut r: Vec<FlatExpr> = Vec::new();
                r.push(entry);
                proof {
                    assert(r.deep_view() =~= seq![entry_view]);
                }
                Ok(r)
            },
            None => {
                let entry = FlatExpr {
                    variants: canonical_variants_exec(variants),
                    css: FlatUtilOrRaw::FlatUtil(FlatUtil { prop: name, value: None }),
                };
                let ghost entry_view = entry@;
                let mut r: Vec<FlatExpr> = Vec::new();
                r.push(entry);
                proof {
                    assert(r.deep_view() =~= seq![entry_view]);
                }
                Ok(r)
            },
        },
    }
}

/// Fan one utility out over its property names, from `i` on.
fn flatten_props(
    props: &Vec<String>,
    i: usize,
    tree: &UtilTree,
    variants: &Vec<Variant>,
    group: &Vec<Option<Variant>>,
    prefix: &String,
) -> (r: Result<Vec<FlatExpr>, CompileError>)
    requires
        i <= props@.len(),
    ensures
        match r {
            Ok(v) => spec_flatten_props(
                props.deep_view().skip(i as int),
                tree@,
                variants.deep_view(),
                group.deep_view(),
                prefix@,
            ) == Ok::<Seq<FlatExprV>, CompileError>(v.deep_view()),
            Err(e) => spec_flatten_props(
                props.deep_view().skip(i as int),
                tree@,
                variants.deep_view(),
                group.deep_view(),
                prefix@,
            ) == Err::<Seq<FlatExprV>, CompileError>(e),
        },
    decreases tree, props@.len() - i + 1,
{
    let ghost pr = props.deep_view();
    proof {
        assert(pr.len() == props@.len());
    }
    if i == props.len() {
        let r: Vec<FlatExpr> = Vec::new();
        proof {
            assert(pr.skip(i as int).len() == 0);
            assert(r.deep_view() =~= Seq::<FlatExprV>::empty());
        }
        Ok(r)
    } else {
        proof {
            assert(pr.skip(i as int)[0] == pr[i as int]);
            assert(pr.skip(i as int).drop_first() =~= pr.skip(i + 1));
            assert(pr[i as int] == props@[i as int]@);
        }
        let name = prefix.clone().concat(props[i].as_str());
        proof {
            assert(name@ == prefix@ + pr[i as int]);
        }
        let head = flatten_tree_exec(tree, name, variants, group);
        match head {
            Err(e) => Err(e),
            Ok(mut out) => {
                let rest = flatten_props(props, i + 1, tree, variants, group, prefix);
                match rest {
                    Err(e) => Err(e),
                    Ok(tail) => {
                        append_flats(&mut out, tail);
                        Ok(out)
                    },
                }
            },
        }
    }
}

/// Expand one expression into its style requests, given the inherited
/// variant scope, the governing variant group, and the accumulated
/// property-name prefix.
///
/// Returns exactly `spec_flatten` of the views: the requests in order,
/// or `GroupLengthMismatch` where a value group's length differs from
/// its governing variant group's.
pub fn flatten_expr(
    expr: &Expr,
    variants: Vec<Variant>,
    variant_group: Vec<Option<Variant>>,
    prev_prop: String,
) -> (r: Result<Vec<FlatExpr>, CompileError>)
    ensures
        match r {
            Ok(v) => spec_flatten(
                expr@,
                variants.deep_view(),
                variant_group.deep_view(),
                prev_prop@,
            ) == Ok::<Seq<FlatExprV>, CompileError>(v.deep_view()),
            Err(e) => spec_flatten(
                expr@,
                variants.deep_view(),
                variant_group.deep_view(),
                prev_prop@,
            ) == Err::<Seq<FlatExprV>, CompileError>(e),
        },
    decreases expr, 0nat,
{
    match expr {
        Expr::RawCss(raw) => {
            let entry = FlatExpr { variants: None, css: FlatUtilOrRaw::RawCss(raw.clone()) };
            let ghost entry_view = entry@;
            let mut r: Vec<FlatExpr> = Vec::new();
            r.push(entry);
            proof {
                assert(r.deep_view() =~= seq![entry_view]);
            }
            Ok(r)
        },
        Expr::Util(u) => {
            proof {
                assert(u.properties.deep_view().skip(0) =~= u.properties.deep_view());
            }
            flatten_props(&u.properties, 0, &u.tree, &variants, &variant_group, &prev_prop)
        },
        Expr::Variant { variant_group: own_group, variants: own, exprs } => {
            let mut combined = variants;
            let ghost inherited = combined.deep_view();
            let mut k: usize = 0;
            while k < own.len()
                invariant
                    0 <= k <= own.len(),
                    combined.deep_view() =~= inherited + own.deep_view().take(k as int),
                decreases own.len() - k,
            {
                let ghost prev = combined.deep_view();
                combined.push(own[k].duplicate());
                proof {
                    assert(combined.deep_view() =~= prev.push(own.deep_view()[k as int]));
                    assert(prev.push(own.deep_view()[k as int]) =~= inherited + own.deep_view()
                        .take(k + 1));
                }
                k = k + 1;
            }
            proof {
                assert(own.deep_view().take(own@.len() as int) =~= own.deep_view());
                lemma_exprs_view_index(exprs@);
                assert(exprs_view(exprs@).skip(0) =~= exprs_view(exprs@));
            }
            if own_group.len() > 0 {
                proof {
                    assert(own_group.deep_view().len() == own_group@.len());
                }
                flatten_exprs(exprs, 0, &combined, own_group, &prev_prop)
            } else {
                proof {
                    assert(own_group.deep_view().len() == own_group@.len());
                }
                flatten_exprs(exprs, 0, &combined, &variant_group, &prev_prop)
            }
        },
    }
}

/// Expand a whole fragment's expressions with an empty inherited
/// scope: the flattening that one compile call performs.
pub fn flatten_all(es: &Vec<Expr>) -> (r: Result<Vec<FlatExpr>, CompileError>)
    ensures
        match r {
            Ok(v) => spec_flatten_seq(
                exprs_view(es@),
                Seq::empty(),
                Seq::empty(),
                Seq::empty(),
            ) == Ok::<Seq<FlatExprV>, CompileError>(v.deep_view()),
            Err(e) => spec_flatten_seq(
                exprs_view(es@),
                Seq::empty(),
                Seq::empty(),
                Seq::empty(),
            ) == Err::<Seq<FlatExprV>, CompileError>(e),
        },
{
    let variants: Vec<Variant> = Vec::new();
    let group: Vec<Option<Variant>> = Vec::new();
    let prefix = String::new();
    proof {
        assert(variants.deep_view() =~= Seq::<VariantV>::empty());
        assert(group.deep_view() =~= Seq::<Option<VariantV>>::empty());
        lemma_exprs_view_index(es@);
        assert(exprs_view(es@).skip(0) =~= exprs_view(es@));
    }
    flatten_exprs(es, 0, &variants, &group, &prefix)
}

/// Expand a list of expressions, from `i` on.
fn flatten_exprs(
    es: &Vec<Expr>,
    i: usize,
    variants: &Vec<Variant>,
    group: &Vec<Option<Variant>>,
    prefix: &String,
) -> (r: Result<Vec<FlatExpr>, CompileError>)
    requires
        i <= es@.len(),
    ensures
        match r {
            Ok(v) => spec_flatten_seq(
                exprs_view(es@).skip(i as int),
                variants.deep_view(),
                group.deep_view(),
                prefix@,
            ) == Ok::<Seq<FlatExprV>, CompileError>(v.deep_view()),
            Err(e) => spec_flatten_seq(
                exprs_view(es@).skip(i as int),
                variants.deep_view(),
                group.deep_view(),
                prefix@,
            ) == Err::<Seq<FlatExprV>, CompileError>(e),
        },
    decreases es, es@.len() - i,
{
    let ghost evs = exprs_view(es@);
    proof {
        lemma_exprs_view_index(es@);
    }
    if i == es.len() {
        let r: Vec<FlatExpr> = Vec::new();
        proof {
            assert(evs.skip(i as int).len() == 0);
            assert(r.deep_view() =~= Seq::<FlatExprV>::empty());
        }
        Ok(r)
    } else {
        proof {
            assert(evs.skip(i as int)[0] == evs[i as int]);
            assert(evs.skip(i as int).drop_first() =~= evs.skip(i + 1));
            assert(evs[i as int] == es@[i as int].view());
        }
        let head = flatten_expr(
            &es[i],
            dup_variants(variants),
            dup_variant_group(group),
            prefix.clone(),
        );
        match head {
            Err(e) => Err(e),
            Ok(mut out) => {
                let rest = flatten_exprs(es, i + 1, variants, group, prefix);
                match rest {
                    Err(e) => Err(e),
                    Ok(tail) => {
                        append_flats(&mut out, tail);
                        Ok(out)
                    },
                }
            },
        }
    }
}

} // verus!
