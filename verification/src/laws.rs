//! The laws the pipeline guarantees, stated and proved over the
//! specification functions that the executable contracts return.

use vstd::prelude::*;
use vstd::relations::sorted_by;
use crate::ast::FlatExprV;
use crate::compiler::spec_compile;
use crate::css_writer::{
    canon_flat, class_name_of, find_entry, lemma_find_entry, spec_get_css, spec_intern,
    spec_render_entry, spec_render_from,
};
use crate::order::{
    lemma_sort_by_insertion_of_multiset, lemma_sort_strings_ensures, lemma_sort_variants_of_multiset,
    sort_strings,
};
use crate::text::lex_le_rel;

verus! {

/// Determinism: compiling one fragment is a function of the registry
/// and the source text alone, so two runs from equal registries return
/// the same class names, reach the same registry, and then emit
/// byte-identical stylesheets.
pub proof fn lemma_compile_deterministic(
    a: Seq<(FlatExprV, Seq<char>)>,
    b: Seq<(FlatExprV, Seq<char>)>,
    code: Seq<char>,
)
    requires
        a == b,
    ensures
        spec_compile(a, code) == spec_compile(b, code),
        spec_compile(a, code) matches Ok(out) ==> spec_get_css(out.0) == spec_get_css(
            spec_compile(b, code)->Ok_0.0,
        ),
{
}

/// Canonicalization: two requests that differ only in the order their
/// variants were written intern identically — same class name, same
/// resulting registry. The written order never reaches the key.
pub proof fn lemma_variant_order_irrelevant(
    reg: Seq<(FlatExprV, Seq<char>)>,
    a: FlatExprV,
    b: FlatExprV,
)
    requires
        a.css == b.css,
        match (a.variants, b.variants) {
            (Some(x), Some(y)) => x.to_multiset() == y.to_multiset(),
            (None, None) => true,
            _ => false,
        },
    ensures
        spec_intern(reg, a) == spec_intern(reg, b),
{
    match (a.variants, b.variants) {
        (Some(x), Some(y)) => {
            lemma_sort_variants_of_multiset(x, y);
            assert(canon_flat(a) == canon_flat(b));
        },
        _ => {},
    }
}

/// The registry only grows: interning keeps every existing entry in
/// its place with its name, and adds at most one entry at the end.
pub proof fn lemma_registry_monotone(reg: Seq<(FlatExprV, Seq<char>)>, f: FlatExprV)
    ensures
        spec_intern(reg, f).0.len() >= reg.len(),
        forall|i: int| 0 <= i < reg.len() ==> spec_intern(reg, f).0[i] == reg[i],
{
    lemma_find_entry(reg, canon_flat(f), 0);
}

/// A whole compile call only grows the registry: every entry present
/// before keeps its place and its name, so a class name, once
/// assigned, is stable for the instance's lifetime.
pub proof fn lemma_generate_monotone(
    reg: Seq<(FlatExprV, Seq<char>)>,
    es: Seq<crate::ast::ExprV>,
)
    ensures
        crate::css_writer::spec_generate(reg, es) matches Ok(out) ==> {
            &&& out.0.len() >= reg.len()
            &&& forall|i: int| 0 <= i < reg.len() ==> out.0[i] == reg[i]
        },
{
    match crate::flatten::spec_flatten_seq(es, Seq::empty(), Seq::empty(), Seq::empty()) {
        Err(_) => {},
        Ok(flats) => {
            lemma_intern_all_monotone(reg, flats);
        },
    }
}

/// Interning any list of requests only appends.
pub proof fn lemma_intern_all_monotone(reg: Seq<(FlatExprV, Seq<char>)>, fs: Seq<FlatExprV>)
    ensures
        crate::css_writer::spec_intern_all(reg, fs).0.len() >= reg.len(),
        forall|i: int|
            0 <= i < reg.len() ==> crate::css_writer::spec_intern_all(reg, fs).0[i] == reg[i],
    decreases fs.len(),
{
    if fs.len() > 0 {
        lemma_registry_monotone(reg, fs[0]);
        lemma_intern_all_monotone(spec_intern(reg, fs[0]).0, fs.drop_first());
    }
}

/// Re-interning a request that was just interned returns the same name
/// and leaves the registry unchanged: the sequence counter never
/// advances for a request already seen.
pub proof fn lemma_intern_idempotent(reg: Seq<(FlatExprV, Seq<char>)>, f: FlatExprV)
    ensures
        spec_intern(spec_intern(reg, f).0, f) == spec_intern(reg, f),
{
    let key = canon_flat(f);
    let at = find_entry(reg, key, 0);
    lemma_find_entry(reg, key, 0);
    if at < reg.len() {
    } else {
        let reg1 = reg.push((key, class_name_of(reg.len() as nat)));
        lemma_find_entry(reg1, key, 0);
        let at1 = find_entry(reg1, key, 0);
        assert(reg1[reg.len() as int].0 == key);
        assert(at1 <= reg.len());
        if at1 < reg.len() {
            assert(reg1[at1] == reg[at1]);
            assert(false);
        }
        assert(at1 == reg.len());
        assert(reg1[at1].1 == class_name_of(reg.len() as nat));
    }
}

/// Stable numbering: in a fresh registry the first distinct request is
/// named `_E0` and a second, distinct request `_E1`; re-interning the
/// first afterwards returns `_E0` again without growing the registry.
pub proof fn lemma_stable_numbering(f0: FlatExprV, f1: FlatExprV)
    requires
        canon_flat(f0) != canon_flat(f1),
    ensures
        ({
            let empty_reg = Seq::<(FlatExprV, Seq<char>)>::empty();
            let (reg1, n0) = spec_intern(empty_reg, f0);
            let (reg2, n1) = spec_intern(reg1, f1);
            let (reg3, n0_again) = spec_intern(reg2, f0);
            &&& n0 == class_name_of(0)
            &&& n1 == class_name_of(1)
            &&& n0_again == n0
            &&& reg3 == reg2
            &&& reg2.len() == 2
        }),
{
    let empty_reg = Seq::<(FlatExprV, Seq<char>)>::empty();
    let k0 = canon_flat(f0);
    let k1 = canon_flat(f1);
    assert(find_entry(empty_reg, k0, 0) == 0);
    let reg1 = empty_reg.push((k0, class_name_of(0)));
    assert(reg1[0].0 == k0);
    assert(find_entry(reg1, k1, 0) == 1) by {
        assert(reg1[0].0 != k1);
        assert(find_entry(reg1, k1, 1) == 1);
    }
    let reg2 = reg1.push((k1, class_name_of(1)));
    assert(reg2[0].0 == k0 && reg2[1].0 == k1);
    assert(find_entry(reg2, k0, 0) == 0);
}

/// Raw passthrough: a `[...]` value is never resolved. Every value
/// table hands a raw value back verbatim, and a raw pseudo-class or
/// media condition bypasses its table too.
pub proof fn lemma_raw_value_bypasses_tables(raw: Seq<char>)
    ensures
        crate::utils::values::spec_spacing_value(crate::ast::ValueV::Raw(raw)) == Some(raw),
        crate::utils::values::spec_percentage_value(crate::ast::ValueV::Raw(raw)) == Some(raw),
        crate::utils::values::spec_number_value(crate::ast::ValueV::Raw(raw), "px"@) == Some(
            raw,
        ),
        crate::utils::values::spec_grid_cols_rows_value(crate::ast::ValueV::Raw(raw)) == Some(
            raw,
        ),
        crate::utils::values::spec_overflow_value(crate::ast::ValueV::Raw(raw)) == Some(raw),
        crate::utils::colors::spec_color_value(crate::ast::ValueV::Raw(raw)) == Some(raw),
        spec_render_entry(
            FlatExprV {
                variants: Some(seq![crate::ast::VariantV::Media(crate::ast::ValueV::Raw(raw))]),
                css: crate::ast::FlatUtilOrRawV::RawCss(Seq::empty()),
            },
            Seq::empty(),
        ) is Ok,
{
    let vs = seq![crate::ast::VariantV::Media(crate::ast::ValueV::Raw(raw))];
    assert(vs.drop_first() =~= Seq::<crate::ast::VariantV>::empty());
    assert(crate::css_writer::pseudo_values(Seq::<crate::ast::VariantV>::empty())
        == Seq::<crate::ast::ValueV>::empty());
    assert(crate::css_writer::media_values(Seq::<crate::ast::VariantV>::empty())
        == Seq::<crate::ast::ValueV>::empty());
    assert(crate::css_writer::pseudo_values(vs) =~= Seq::<crate::ast::ValueV>::empty());
    assert(crate::css_writer::media_values(vs) =~= seq![crate::ast::ValueV::Raw(raw)]);
    let ms = seq![crate::ast::ValueV::Raw(raw)];
    assert(ms.drop_first() =~= Seq::<crate::ast::ValueV>::empty());
    assert(crate::css_writer::spec_media_join(Seq::<crate::ast::ValueV>::empty(), false)
        == Ok::<Seq<char>, crate::error::CompileError>(Seq::empty()));
    assert(crate::css_writer::spec_media_join(ms, true) is Ok);
    assert(crate::css_writer::spec_pseudo_selectors(Seq::<crate::ast::ValueV>::empty())
        == Ok::<Seq<char>, crate::error::CompileError>(Seq::empty()));
    assert(crate::css_writer::media_values(vs) == ms);
}

/// Sorted output: the emitted stylesheet is the concatenation of the
/// rendered rules in lexicographically non-decreasing order.
pub proof fn lemma_css_sorted(reg: Seq<(FlatExprV, Seq<char>)>)
    requires
        spec_render_from(reg, 0) is Ok,
    ensures
        sorted_by(sort_strings(spec_render_from(reg, 0)->Ok_0), lex_le_rel()),
        spec_get_css(reg) == Ok::<Seq<char>, crate::error::CompileError>(
            crate::css_writer::concat_all(sort_strings(spec_render_from(reg, 0)->Ok_0)),
        ),
{
    lemma_sort_strings_ensures(spec_render_from(reg, 0)->Ok_0);
}

/// The rules of a registry, entry for entry.
pub open spec fn rendered_rule(p: (FlatExprV, Seq<char>)) -> Seq<char> {
    spec_render_entry(p.0, p.1)->Ok_0
}

/// Rendering goes entry by entry: it succeeds exactly when every entry
/// renders, and then the rule list is the registry mapped through
/// `rendered_rule`.
pub proof fn lemma_render_elementwise(reg: Seq<(FlatExprV, Seq<char>)>, i: int)
    requires
        0 <= i <= reg.len(),
    ensures
        spec_render_from(reg, i) is Ok <==> (forall|j: int|
            i <= j < reg.len() ==> (#[trigger] spec_render_entry(reg[j].0, reg[j].1)) is Ok),
        spec_render_from(reg, i) is Ok ==> spec_render_from(reg, i)->Ok_0
            =~= reg.skip(i).map_values(|p: (FlatExprV, Seq<char>)| rendered_rule(p)),
    decreases reg.len() - i,
{
    if i < reg.len() {
        lemma_render_elementwise(reg, i + 1);
        if spec_render_from(reg, i) is Ok {
            let rules = spec_render_from(reg, i)->Ok_0;
            let rest = spec_render_from(reg, i + 1)->Ok_0;
            let mapped = reg.skip(i).map_values(|p: (FlatExprV, Seq<char>)| rendered_rule(p));
            assert(rest =~= reg.skip(i + 1).map_values(
                |p: (FlatExprV, Seq<char>)| rendered_rule(p),
            ));
            assert forall|j: int| 0 <= j < mapped.len() implies mapped[j] == rules[j] by {
                assert(mapped[j] == rendered_rule(reg.skip(i)[j]));
                assert(reg.skip(i)[j] == reg[i + j]);
                if j > 0 {
                    assert(rules[j] == rest[j - 1]);
                    assert(rest[j - 1] == reg.skip(i + 1).map_values(
                        |p: (FlatExprV, Seq<char>)| rendered_rule(p),
                    )[j - 1]);
                    assert(reg.skip(i + 1)[j - 1] == reg[i + j]);
                }
            }
            assert(rules =~= mapped);
        }
    }
}

/// Mapping a function over two rearrangements of the same elements
/// gives rearrangements of the same results.
pub proof fn lemma_map_multiset<A, B>(a: Seq<A>, b: Seq<A>, f: spec_fn(A) -> B)
    requires
        a.to_multiset() == b.to_multiset(),
    ensures
        a.map_values(f).to_multiset() == b.map_values(f).to_multiset(),
    decreases a.len(),
{
    broadcast use vstd::seq_lib::group_to_multiset_ensures;

    if a.len() == 0 {
        assert(b.to_multiset().len() == 0);
        assert(b.len() == 0);
        assert(a.map_values(f) =~= b.map_values(f));
    } else {
        let x = a[0];
        assert(a.to_multiset().contains(x)) by {
            assert(a.contains(x));
        }
        assert(b.to_multiset().contains(x));
        assert(b.contains(x));
        let j = choose|j: int| 0 <= j < b.len() && b[j] == x;
        let a2 = a.remove(0);
        let b2 = b.remove(j);
        assert(a2.to_multiset() =~= a.to_multiset().remove(x));
        assert(b2.to_multiset() =~= b.to_multiset().remove(x));
        lemma_map_multiset(a2, b2, f);
        assert(a2.map_values(f) =~= a.map_values(f).remove(0)) by {
            assert(a2.map_values(f).len() == a.map_values(f).remove(0).len());
            assert forall|k: int| 0 <= k < a2.map_values(f).len() implies a2.map_values(f)[k]
                == a.map_values(f).remove(0)[k] by {
                assert(a2[k] == a[k + 1]);
            }
        }
        assert(b2.map_values(f) =~= b.map_values(f).remove(j)) by {
            assert(b2.map_values(f).len() == b.map_values(f).remove(j).len());
            assert forall|k: int| 0 <= k < b2.map_values(f).len() implies b2.map_values(f)[k]
                == b.map_values(f).remove(j)[k] by {
                if k < j {
                    assert(b2[k] == b[k]);
                } else {
                    assert(b2[k] == b[k + 1]);
                }
            }
        }
        assert(a.map_values(f).remove(0).to_multiset() =~= a.map_values(f).to_multiset().remove(
            a.map_values(f)[0],
        ));
        assert(b.map_values(f).remove(j).to_multiset() =~= b.map_values(f).to_multiset().remove(
            b.map_values(f)[j],
        ));
        assert(a.map_values(f)[0] == f(x));
        assert(b.map_values(f)[j] == f(x));
        assert(a.map_values(f).to_multiset().contains(f(x))) by {
            assert(a.map_values(f).contains(f(x))) by {
                assert(a.map_values(f)[0] == f(x));
            }
        }
        assert(b.map_values(f).to_multiset().contains(f(x))) by {
            assert(b.map_values(f).contains(f(x))) by {
                assert(b.map_values(f)[j] == f(x));
            }
        }
        assert(a.map_values(f).to_multiset() =~= a.map_values(f).to_multiset().remove(
            f(x),
        ).insert(f(x)));
        assert(b.map_values(f).to_multiset() =~= b.map_values(f).to_multiset().remove(
            f(x),
        ).insert(f(x)));
    }
}

/// Intern-order independence: two registries holding the same entries,
/// in whatever order, emit the same stylesheet — the sorting step makes
/// the output a function of the set of stored requests alone.
pub proof fn lemma_css_order_independent(
    a: Seq<(FlatExprV, Seq<char>)>,
    b: Seq<(FlatExprV, Seq<char>)>,
)
    requires
        a.to_multiset() == b.to_multiset(),
        spec_render_from(a, 0) is Ok,
    ensures
        spec_render_from(b, 0) is Ok,
        spec_get_css(a) == spec_get_css(b),
{
    broadcast use vstd::seq_lib::group_to_multiset_ensures;

    lemma_render_elementwise(a, 0);
    assert forall|j: int| 0 <= j < b.len() implies (#[trigger] spec_render_entry(
        b[j].0,
        b[j].1,
    )) is Ok by {
        assert(b.to_multiset().contains(b[j])) by {
            assert(b.contains(b[j]));
        }
        assert(a.to_multiset().contains(b[j]));
        assert(a.contains(b[j]));
        let k = choose|k: int| 0 <= k < a.len() && a[k] == b[j];
        assert(spec_render_entry(a[k].0, a[k].1) is Ok);
    }
    lemma_render_elementwise(b, 0);
    let f = |p: (FlatExprV, Seq<char>)| rendered_rule(p);
    assert(a.skip(0) =~= a);
    assert(b.skip(0) =~= b);
    lemma_map_multiset(a, b, f);
    crate::text::lemma_lex_le_total_ordering();
    lemma_sort_by_insertion_of_multiset(
        spec_render_from(a, 0)->Ok_0,
        spec_render_from(b, 0)->Ok_0,
        lex_le_rel(),
    );
}

} // verus!
