//! The total order on variants, and verified sorting.
//!
//! The variant order (pseudo before media, identifier before raw, then
//! the text lexicographically) is load-bearing: requests differing only
//! in the order their variants were written sort to the same canonical
//! key. Sorting is specified by insertion (`sort_by_insertion`), proved
//! to produce the one sorted rearrangement of its input.

use vstd::prelude::*;
use vstd::relations::{sorted_by, total_ordering};
use vstd::seq_lib::{lemma_multiset_commutative, lemma_sorted_unique};
use crate::ast::{Value, ValueV, Variant, VariantV};
use crate::text::{
    lex_le, lex_le_rel, lemma_lex_le_antisymmetric, lemma_lex_le_connected, lemma_lex_le_refl,
    lemma_lex_le_total_ordering, lemma_lex_le_transitive, str_le,
};

verus! {

/// Identifier values order before raw values.
pub open spec fn value_rank(v: ValueV) -> int {
    match v {
        ValueV::Iden(_) => 0,
        ValueV::Raw(_) => 1,
    }
}

/// The text inside a value.
pub open spec fn value_text(v: ValueV) -> Seq<char> {
    match v {
        ValueV::Iden(s) => s,
        ValueV::Raw(s) => s,
    }
}

/// Values order by kind, then by text.
pub open spec fn value_le(a: ValueV, b: ValueV) -> bool {
    if value_rank(a) != value_rank(b) {
        value_rank(a) < value_rank(b)
    } else {
        lex_le(value_text(a), value_text(b))
    }
}

/// Pseudo variants order before media variants.
pub open spec fn variant_rank(v: VariantV) -> int {
    match v {
        VariantV::Pseudo(_) => 0,
        VariantV::Media(_) => 1,
    }
}

/// The value inside a variant.
pub open spec fn variant_value(v: VariantV) -> ValueV {
    match v {
        VariantV::Pseudo(x) => x,
        VariantV::Media(x) => x,
    }
}

/// The canonical order on variants: tag first, then the inner value.
pub open spec fn variant_le(a: VariantV, b: VariantV) -> bool {
    if variant_rank(a) != variant_rank(b) {
        variant_rank(a) < variant_rank(b)
    } else {
        value_le(variant_value(a), variant_value(b))
    }
}

/// The variant order as a relation value.
pub open spec fn variant_le_rel() -> spec_fn(VariantV, VariantV) -> bool {
    |a: VariantV, b: VariantV| variant_le(a, b)
}

/// The canonical variant order is a total order.
pub proof fn lemma_variant_le_total_ordering()
    ensures
        total_ordering(variant_le_rel()),
{
    let r = variant_le_rel();
    assert forall|a: VariantV| #[trigger] r(a, a) by {
        lemma_lex_le_refl(value_text(variant_value(a)));
    }
    assert forall|a: VariantV, b: VariantV| #[trigger] r(a, b) && #[trigger] r(b, a) implies a
        == b by {
        lemma_lex_le_antisymmetric(value_text(variant_value(a)), value_text(variant_value(b)));
    }
    assert forall|a: VariantV, b: VariantV, c: VariantV|
        #[trigger] r(a, b) && #[trigger] r(b, c) implies r(a, c) by {
        if variant_rank(a) == variant_rank(b) && variant_rank(b) == variant_rank(c)
            && value_rank(variant_value(a)) == value_rank(variant_value(b)) && value_rank(
            variant_value(b),
        ) == value_rank(variant_value(c)) {
            lemma_lex_le_transitive(
                value_text(variant_value(a)),
                value_text(variant_value(b)),
                value_text(variant_value(c)),
            );
        }
    }
    assert forall|a: VariantV, b: VariantV| !(#[trigger] r(a, b)) implies #[trigger] r(b, a) by {
        lemma_lex_le_connected(value_text(variant_value(a)), value_text(variant_value(b)));
    }
}

// ---------------------------------------------------------------------
// Insertion sorting, generic in the relation

/// Insert `x` into `s` before the first element it orders at or before.
pub open spec fn insert_sorted<T>(x: T, s: Seq<T>, leq: spec_fn(T, T) -> bool) -> Seq<T>
    decreases s.len(),
{
    if s.len() == 0 {
        seq![x]
    } else if leq(x, s[0]) {
        seq![x] + s
    } else {
        seq![s[0]] + insert_sorted(x, s.drop_first(), leq)
    }
}

/// Sort a sequence by repeated insertion, back to front.
pub open spec fn sort_by_insertion<T>(s: Seq<T>, leq: spec_fn(T, T) -> bool) -> Seq<T>
    decreases s.len(),
{
    if s.len() == 0 {
        Seq::empty()
    } else {
        insert_sorted(s[0], sort_by_insertion(s.drop_first(), leq), leq)
    }
}

pub proof fn lemma_insert_sorted_ensures<T>(x: T, s: Seq<T>, leq: spec_fn(T, T) -> bool)
    requires
        total_ordering(leq),
        sorted_by(s, leq),
    ensures
        sorted_by(insert_sorted(x, s, leq), leq),
        insert_sorted(x, s, leq).to_multiset() == s.to_multiset().insert(x),
        insert_sorted(x, s, leq).len() == s.len() + 1,
    decreases s.len(),
{
    broadcast use vstd::seq_lib::group_to_multiset_ensures;

    if s.len() == 0 {
        assert(seq![x] =~= Seq::<T>::empty().push(x));
        assert(seq![x].to_multiset() =~= s.to_multiset().insert(x));
    } else if leq(x, s[0]) {
        let r = seq![x] + s;
        assert forall|i: int, j: int| 0 <= i < j < r.len() implies leq(r[i], r[j]) by {
            if i == 0 {
                if j > 0 {
                    assert(r[j] == s[j - 1]);
                    if j - 1 == 0 {
                    } else {
                        assert(leq(s[0], s[j - 1]));
                    }
                }
            } else {
                assert(r[i] == s[i - 1] && r[j] == s[j - 1]);
            }
        }
        lemma_multiset_commutative(seq![x], s);
        assert(seq![x] =~= Seq::<T>::empty().push(x));
        assert(r.to_multiset() =~= s.to_multiset().insert(x));
    } else {
        let rest = insert_sorted(x, s.drop_first(), leq);
        assert(sorted_by(s.drop_first(), leq)) by {
            assert forall|i: int, j: int|
                0 <= i < j < s.drop_first().len() implies leq(
                s.drop_first()[i],
                s.drop_first()[j],
            ) by {
                assert(s.drop_first()[i] == s[i + 1]);
                assert(s.drop_first()[j] == s[j + 1]);
            }
        }
        lemma_insert_sorted_ensures(x, s.drop_first(), leq);
        let r = seq![s[0]] + rest;
        assert forall|i: int, j: int| 0 <= i < j < r.len() implies leq(r[i], r[j]) by {
            if i > 0 {
                assert(r[i] == rest[i - 1] && r[j] == rest[j - 1]);
                assert(leq(rest[i - 1], rest[j - 1]));
            } else {
                assert(r[j] == rest[j - 1]);
                assert(rest.to_multiset().contains(rest[j - 1]));
                assert(rest.to_multiset() == s.drop_first().to_multiset().insert(x));
                if rest[j - 1] == x {
                    assert(leq(s[0], x));
                } else {
                    assert(s.drop_first().to_multiset().contains(rest[j - 1]));
                    assert(s.drop_first().contains(rest[j - 1]));
                    let k = choose|k: int|
                        0 <= k < s.drop_first().len() && s.drop_first()[k] == rest[j - 1];
                    assert(s.drop_first()[k] == s[k + 1]);
                    assert(leq(s[0], s[k + 1]));
                }
            }
        }
        lemma_multiset_commutative(seq![s[0]], rest);
        assert(seq![s[0]] =~= Seq::<T>::empty().push(s[0]));
        assert(s =~= seq![s[0]] + s.drop_first());
        lemma_multiset_commutative(seq![s[0]], s.drop_first());
        assert(r.to_multiset() =~= s.to_multiset().insert(x));
    }
}

pub proof fn lemma_sort_by_insertion_ensures<T>(s: Seq<T>, leq: spec_fn(T, T) -> bool)
    requires
        total_ordering(leq),
    ensures
        sorted_by(sort_by_insertion(s, leq), leq),
        sort_by_insertion(s, leq).to_multiset() == s.to_multiset(),
        sort_by_insertion(s, leq).len() == s.len(),
    decreases s.len(),
{
    broadcast use vstd::seq_lib::group_to_multiset_ensures;

    if s.len() > 0 {
        lemma_sort_by_insertion_ensures(s.drop_first(), leq);
        lemma_insert_sorted_ensures(s[0], sort_by_insertion(s.drop_first(), leq), leq);
        assert(s =~= seq![s[0]] + s.drop_first());
        lemma_multiset_commutative(seq![s[0]], s.drop_first());
        assert(seq![s[0]] =~= Seq::<T>::empty().push(s[0]));
        assert(sort_by_insertion(s, leq).to_multiset() =~= s.to_multiset());
    }
}

/// Two sequences with the same elements sort to the same sequence: the
/// canonical form forgets the order in which items were written.
pub proof fn lemma_sort_by_insertion_of_multiset<T>(
    a: Seq<T>,
    b: Seq<T>,
    leq: spec_fn(T, T) -> bool,
)
    requires
        total_ordering(leq),
        a.to_multiset() == b.to_multiset(),
    ensures
        sort_by_insertion(a, leq) == sort_by_insertion(b, leq),
{
    lemma_sort_by_insertion_ensures(a, leq);
    lemma_sort_by_insertion_ensures(b, leq);
    lemma_sorted_unique(sort_by_insertion(a, leq), sort_by_insertion(b, leq), leq);
}

/// Where `x` lands: inserting before position `first_ge` splices the
/// sequence there.
pub proof fn lemma_insert_sorted_at<T>(x: T, s: Seq<T>, leq: spec_fn(T, T) -> bool, at: int)
    requires
        0 <= at <= s.len(),
        forall|k: int| 0 <= k < at ==> !leq(x, s[k]),
        at < s.len() ==> leq(x, s[at]),
    ensures
        insert_sorted(x, s, leq) == s.take(at) + seq![x] + s.skip(at),
    decreases at,
{
    if s.len() == 0 {
        assert(insert_sorted(x, s, leq) =~= s.take(at) + seq![x] + s.skip(at));
    } else if at == 0 {
        assert(insert_sorted(x, s, leq) =~= s.take(0) + seq![x] + s.skip(0));
    } else {
        assert(!leq(x, s[0]));
        assert forall|k: int| 0 <= k < at - 1 implies !leq(x, s.drop_first()[k]) by {
            assert(s.drop_first()[k] == s[k + 1]);
        }
        assert(at - 1 < s.drop_first().len() ==> leq(x, s.drop_first()[at - 1]));
        lemma_insert_sorted_at(x, s.drop_first(), leq, at - 1);
        assert(seq![s[0]] + (s.drop_first().take(at - 1) + seq![x] + s.drop_first().skip(at - 1))
            =~= s.take(at) + seq![x] + s.skip(at));
    }
}

// ---------------------------------------------------------------------
// Executable sorting

/// Compare two variants in the canonical order.
pub fn variant_le_exec(a: &Variant, b: &Variant) -> (r: bool)
    ensures
        r == variant_le(a@, b@),
{
    let (a_rank, a_value): (usize, &Value) = match a {
        Variant::Pseudo(v) => (0, v),
        Variant::Media(v) => (1, v),
    };
    let (b_rank, b_value): (usize, &Value) = match b {
        Variant::Pseudo(v) => (0, v),
        Variant::Media(v) => (1, v),
    };
    if a_rank != b_rank {
        return a_rank < b_rank;
    }
    let (a_kind, a_text): (usize, &String) = match a_value {
        Value::Iden(s) => (0, s),
        Value::Raw(s) => (1, s),
    };
    let (b_kind, b_text): (usize, &String) = match b_value {
        Value::Iden(s) => (0, s),
        Value::Raw(s) => (1, s),
    };
    if a_kind != b_kind {
        return a_kind < b_kind;
    }
    str_le(a_text.as_str(), b_text.as_str())
}

/// Sort a variant list into the canonical order.
pub fn sort_variants_exec(vs: Vec<Variant>) -> (r: Vec<Variant>)
    ensures
        r.deep_view() == sort_by_insertion(vs.deep_view(), variant_le_rel()),
{
    let ghost leq = variant_le_rel();
    let mut out: Vec<Variant> = Vec::new();
    let mut i: usize = vs.len();
    proof {
        assert(vs.deep_view().skip(vs.len() as int) =~= Seq::<VariantV>::empty());
        assert(out.deep_view() =~= sort_by_insertion(vs.deep_view().skip(vs.len() as int), leq));
    }
    while i > 0
        invariant
            0 <= i <= vs.len(),
            out.deep_view() == sort_by_insertion(vs.deep_view().skip(i as int), leq),
            leq == variant_le_rel(),
        decreases i,
    {
        i = i - 1;
        let x = vs[i].duplicate();
        let ghost prev = out.deep_view();
        let ghost xv = x@;
        // find the first element that x orders at or before
        let mut at: usize = 0;
        while at < out.len() && !variant_le_exec(&x, &out[at])
            invariant
                leq == variant_le_rel(),
                0 <= at <= out.len(),
                forall|k: int| 0 <= k < at ==> !leq(xv, out.deep_view()[k]),
                x@ == xv,
                out.deep_view() == prev,
            decreases out.len() - at,
        {
            proof {
                assert(out.deep_view()[at as int] == out@[at as int].deep_view());
            }
            at = at + 1;
        }
        proof {
            assert(at < out.len() ==> out.deep_view()[at as int] == out@[
                at as int
            ].deep_view());
        }
        proof {
            assert(at < out.len() ==> leq(xv, out.deep_view()[at as int]));
            lemma_insert_sorted_at(xv, prev, leq, at as int);
        }
        out.insert(at, x);
        proof {
            assert(out.deep_view() =~= prev.take(at as int) + seq![xv] + prev.skip(at as int));
            let tail = vs.deep_view().skip(i as int);
            assert(tail[0] == vs.deep_view()[i as int]);
            assert(tail.drop_first() =~= vs.deep_view().skip(i + 1));
            assert(out.deep_view() == insert_sorted(
                tail[0],
                sort_by_insertion(tail.drop_first(), leq),
                leq,
            ));
        }
    }
    proof {
        assert(vs.deep_view().skip(0) =~= vs.deep_view());
    }
    out
}

/// Sort the emitted rule strings lexicographically.
pub fn sort_strings_exec(vs: Vec<String>) -> (r: Vec<String>)
    ensures
        r.deep_view() == sort_by_insertion(vs.deep_view(), lex_le_rel()),
{
    let ghost leq = lex_le_rel();
    let mut out: Vec<String> = Vec::new();
    let mut i: usize = vs.len();
    proof {
        assert(vs.deep_view().skip(vs.len() as int) =~= Seq::<Seq<char>>::empty());
        assert(out.deep_view() =~= sort_by_insertion(vs.deep_view().skip(vs.len() as int), leq));
    }
    while i > 0
        invariant
            0 <= i <= vs.len(),
            out.deep_view() == sort_by_insertion(vs.deep_view().skip(i as int), leq),
            leq == lex_le_rel(),
        decreases i,
    {
        i = i - 1;
        let x = vs[i].clone();
        let ghost prev = out.deep_view();
        let ghost xv = x@;
        let mut at: usize = 0;
        while at < out.len() && !str_le(x.as_str(), out[at].as_str())
            invariant
                leq == lex_le_rel(),
                0 <= at <= out.len(),
                forall|k: int| 0 <= k < at ==> !leq(xv, out.deep_view()[k]),
                x@ == xv,
                out.deep_view() == prev,
            decreases out.len() - at,
        {
            proof {
                assert(out.deep_view()[at as int] == out@[at as int].deep_view());
            }
            at = at + 1;
        }
        proof {
            assert(at < out.len() ==> out.deep_view()[at as int] == out@[
                at as int
            ].deep_view());
        }
        proof {
            assert(at < out.len() ==> leq(xv, out.deep_view()[at as int]));
            lemma_insert_sorted_at(xv, prev, leq, at as int);
        }
        out.insert(at, x);
        proof {
            assert(out.deep_view() =~= prev.take(at as int) + seq![xv] + prev.skip(at as int));
            let tail = vs.deep_view().skip(i as int);
            assert(tail[0] == vs.deep_view()[i as int]);
            assert(tail.drop_first() =~= vs.deep_view().skip(i + 1));
            assert(out.deep_view() == insert_sorted(
                tail[0],
                sort_by_insertion(tail.drop_first(), leq),
                leq,
            ));
        }
    }
    proof {
        assert(vs.deep_view().skip(0) =~= vs.deep_view());
    }
    out
}

/// The canonical form of a variant list.
pub open spec fn sort_variants(s: Seq<VariantV>) -> Seq<VariantV> {
    sort_by_insertion(s, variant_le_rel())
}

/// The canonical form of the rendered rule list.
pub open spec fn sort_strings(s: Seq<Seq<char>>) -> Seq<Seq<char>> {
    sort_by_insertion(s, lex_le_rel())
}

/// Sorting two rearrangements of the same variants gives one canonical
/// list: the written order of variants never reaches the key.
pub proof fn lemma_sort_variants_of_multiset(a: Seq<VariantV>, b: Seq<VariantV>)
    requires
        a.to_multiset() == b.to_multiset(),
    ensures
        sort_variants(a) == sort_variants(b),
{
    lemma_variant_le_total_ordering();
    lemma_sort_by_insertion_of_multiset(a, b, variant_le_rel());
}

/// The canonical variant list is sorted and keeps exactly the elements.
pub proof fn lemma_sort_variants_ensures(s: Seq<VariantV>)
    ensures
        sorted_by(sort_variants(s), variant_le_rel()),
        sort_variants(s).to_multiset() == s.to_multiset(),
        sort_variants(s).len() == s.len(),
{
    lemma_variant_le_total_ordering();
    lemma_sort_by_insertion_ensures(s, variant_le_rel());
}

/// The sorted rule list is sorted and keeps exactly the elements.
pub proof fn lemma_sort_strings_ensures(s: Seq<Seq<char>>)
    ensures
        sorted_by(sort_strings(s), lex_le_rel()),
        sort_strings(s).to_multiset() == s.to_multiset(),
        sort_strings(s).len() == s.len(),
{
    lemma_lex_le_total_ordering();
    lemma_sort_by_insertion_ensures(s, lex_le_rel());
}

} // verus!
