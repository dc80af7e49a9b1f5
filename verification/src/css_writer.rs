//! The dedup store, class-name registry, and stylesheet emitter.
//!
//! `CssWriter` owns the only mutable state of the compiler: a registry
//! mapping each canonical style request to a stable class name `_E<n>`,
//! assigned in first-seen order and never reused. `get_css` renders
//! every stored request into a CSS rule and concatenates the rules in
//! lexicographic order, so the output is deterministic whatever order
//! requests were interned in.

use vstd::prelude::*;
use vstd::string::{StrSliceExecFns, StringExecFns};
use crate::ast::{
    Expr, ExprV, FlatExpr, FlatExprV, FlatUtilOrRaw, FlatUtilOrRawV, Value, ValueV, Variant,
    VariantV, exprs_view,
};
use crate::error::CompileError;
use crate::flatten::{flatten_all, spec_flatten_seq};
use crate::order::{sort_strings, sort_strings_exec, sort_variants, sort_variants_exec};
use crate::text::{decimal_digits, push_decimal};
use crate::utils::get_util_css;
use crate::utils::spec_util_css;
use crate::utils::media_queries::{get_media_query, spec_media_query};
use crate::utils::pseudo_classes::{get_pseudo, spec_pseudo};

verus! {

// ---------------------------------------------------------------------
// The registry model

/// The class name of the `i`th distinct request: `_E` then `i`.
pub open spec fn class_name_of(i: nat) -> Seq<char> {
    "_E"@ + decimal_digits(i)
}

/// The canonical form of a style request: its variants sorted.
pub open spec fn canon_flat(f: FlatExprV) -> FlatExprV {
    FlatExprV {
        variants: match f.variants {
            Some(vs) => Some(sort_variants(vs)),
            None => None,
        },
        css: f.css,
    }
}

/// The position of the first entry with the given key at or after `i`,
/// or the registry's length.
pub open spec fn find_entry(reg: Seq<(FlatExprV, Seq<char>)>, key: FlatExprV, i: int) -> int
    decreases reg.len() - i,
    when 0 <= i <= reg.len()
{
    if i >= reg.len() {
        i
    } else if reg[i].0 == key {
        i
    } else {
        find_entry(reg, key, i + 1)
    }
}

pub proof fn lemma_find_entry(reg: Seq<(FlatExprV, Seq<char>)>, key: FlatExprV, i: int)
    requires
        0 <= i <= reg.len(),
    ensures
        i <= find_entry(reg, key, i) <= reg.len(),
        forall|j: int| i <= j < find_entry(reg, key, i) ==> reg[j].0 != key,
        find_entry(reg, key, i) < reg.len() ==> reg[find_entry(reg, key, i)].0 == key,
    decreases reg.len() - i,
{
    if i < reg.len() && reg[i].0 != key {
        lemma_find_entry(reg, key, i + 1);
    }
}

proof fn lemma_find_entry_eq(
    reg: Seq<(FlatExprV, Seq<char>)>,
    key: FlatExprV,
    i: int,
    stop: int,
)
    requires
        0 <= i <= stop <= reg.len(),
        forall|j: int| i <= j < stop ==> reg[j].0 != key,
        stop < reg.len() ==> reg[stop].0 == key,
    ensures
        find_entry(reg, key, i) == stop,
    decreases stop - i,
{
    if i < stop {
        lemma_find_entry_eq(reg, key, i + 1, stop);
    }
}

/// Interning one request: canonicalize, reuse the existing name on a
/// hit, append with the next name on a miss. The registry only grows.
pub open spec fn spec_intern(reg: Seq<(FlatExprV, Seq<char>)>, f: FlatExprV) -> (
    Seq<(FlatExprV, Seq<char>)>,
    Seq<char>,
) {
    let key = canon_flat(f);
    let at = find_entry(reg, key, 0);
    if at < reg.len() {
        (reg, reg[at].1)
    } else {
        (reg.push((key, class_name_of(reg.len() as nat))), class_name_of(reg.len() as nat))
    }
}

/// Interning a list of requests in order, collecting the names.
pub open spec fn spec_intern_all(reg: Seq<(FlatExprV, Seq<char>)>, fs: Seq<FlatExprV>) -> (
    Seq<(FlatExprV, Seq<char>)>,
    Seq<Seq<char>>,
)
    decreases fs.len(),
{
    if fs.len() == 0 {
        (reg, Seq::empty())
    } else {
        let (reg1, name) = spec_intern(reg, fs[0]);
        let (reg2, names) = spec_intern_all(reg1, fs.drop_first());
        (reg2, seq![name] + names)
    }
}

/// What one compile call does to the registry: flatten every
/// expression, then intern every request.
pub open spec fn spec_generate(reg: Seq<(FlatExprV, Seq<char>)>, es: Seq<ExprV>) -> Result<
    (Seq<(FlatExprV, Seq<char>)>, Seq<Seq<char>>),
    CompileError,
> {
    match spec_flatten_seq(es, Seq::empty(), Seq::empty(), Seq::empty()) {
        Err(e) => Err(e),
        Ok(flats) => Ok(spec_intern_all(reg, flats)),
    }
}

/// A well-formed registry: names are assigned by position, and no key
/// occurs twice.
pub open spec fn reg_wf(reg: Seq<(FlatExprV, Seq<char>)>) -> bool {
    &&& forall|i: int| 0 <= i < reg.len() ==> (#[trigger] reg[i].1) == class_name_of(i as nat)
    &&& forall|i: int, j: int|
        0 <= i < j < reg.len() ==> (#[trigger] reg[i].0) != (#[trigger] reg[j].0)
}

// ---------------------------------------------------------------------
// The writer

/// The dedup store and class-name registry.
pub struct CssWriter {
    class_names: Vec<(FlatExpr, String)>,
}

impl View for CssWriter {
    type V = Seq<(FlatExprV, Seq<char>)>;

    closed spec fn view(&self) -> Seq<(FlatExprV, Seq<char>)> {
        Seq::new(self.class_names@.len(), |i: int| (self.class_names@[i].0@, self.class_names@[i].1@))
    }
}

impl CssWriter {
    /// The registry is well formed.
    pub open spec fn wf(&self) -> bool {
        reg_wf(self@)
    }

    /// An empty registry.
    pub fn new() -> (r: CssWriter)
        ensures
            r@ == Seq::<(FlatExprV, Seq<char>)>::empty(),
            r.wf(),
    {
        let r = CssWriter { class_names: Vec::new() };
        proof {
            assert(r@ =~= Seq::<(FlatExprV, Seq<char>)>::empty());
        }
        r
    }

    /// The name the next distinct request will receive.
    fn new_class_name(&self) -> (r: String)
        ensures
            r@ == class_name_of(self@.len() as nat),
    {
        let mut s = String::from_str("_E");
        push_decimal(&mut s, self.class_names.len());
        proof {
            assert(self@.len() == self.class_names@.len());
            assert(s@ =~= class_name_of(self@.len() as nat));
        }
        s
    }

    /// Intern one request: the canonical form gets the existing name on
    /// a hit, and the next sequence name on a miss.
    fn intern(&mut self, entry: FlatExpr) -> (r: String)
        requires
            old(self).wf(),
        ensures
            final(self).wf(),
            final(self)@ == spec_intern(old(self)@, entry@).0,
            r@ == spec_intern(old(self)@, entry@).1,
    {
        let ghost reg0 = self@;
        let ghost fv = entry@;
        let FlatExpr { variants, css } = entry;
        let canon_vars = match variants {
            Some(vs) => Some(sort_variants_exec(vs)),
            None => None,
        };
        let key = FlatExpr { variants: canon_vars, css };
        proof {
            assert(key@ == canon_flat(fv));
        }
        let ghost keyv = key@;
        let mut i: usize = 0;
        let mut found = false;
        while i < self.class_names.len() && !found
            invariant
                0 <= i <= self.class_names@.len(),
                self@ == reg0,
                keyv == key@,
                forall|j: int| 0 <= j < i ==> reg0[j].0 != keyv,
                found ==> i < self.class_names@.len() && reg0[i as int].0 == keyv,
            decreases self.class_names@.len() - i + if found { 0 as int } else { 1 as int },
        {
            proof {
                assert(reg0[i as int] == (self.class_names@[i as int].0@, self.class_names@[
                    i as int
                ].1@));
            }
            if self.class_names[i].0.matches(&key) {
                found = true;
            } else {
                i = i + 1;
            }
        }
        if found {
            proof {
                lemma_find_entry_eq(reg0, keyv, 0, i as int);
            }
            return self.class_names[i].1.clone();
        }
        proof {
            lemma_find_entry_eq(reg0, keyv, 0, reg0.len() as int);
        }
        let name = self.new_class_name();
        let name_out = name.clone();
        self.class_names.push((key, name));
        proof {
            assert(self@ =~= reg0.push((keyv, class_name_of(reg0.len() as nat))));
            assert(reg_wf(self@)) by {
                assert(forall|j: int| 0 <= j < reg0.len() ==> self@[j] == reg0[j]);
            }
        }
        name_out
    }

    /// Compile one parsed fragment against the registry: flatten every
    /// expression into style requests, intern each, and return the class
    /// names in source order.
    ///
    /// On a flattening error the registry is unchanged.
    pub fn generate_classes(&mut self, ast: &Vec<Expr>) -> (r: Result<Vec<String>, CompileError>)
        requires
            old(self).wf(),
        ensures
            final(self).wf(),
            match r {
                Ok(names) => spec_generate(old(self)@, exprs_view(ast@)) == Ok::<
                    _,
                    CompileError,
                >((final(self)@, names.deep_view())),
                Err(e) => spec_generate(old(self)@, exprs_view(ast@)) == Err::<
                    (Seq<(FlatExprV, Seq<char>)>, Seq<Seq<char>>),
                    _,
                >(e) && final(self)@ == old(self)@,
            },
    {
        let ghost reg0 = self@;
        let flats = match flatten_all(ast) {
            Err(e) => {
                return Err(e);
            },
            Ok(flats) => flats,
        };
        let ghost all = flats.deep_view();
        let mut names: Vec<String> = Vec::new();
        let mut flats = flats;
        proof {
            assert(names.deep_view() =~= Seq::<Seq<char>>::empty());
            assert(spec_intern_all(reg0, all) == (
                spec_intern_all(self@, flats.deep_view()).0,
                names.deep_view() + spec_intern_all(self@, flats.deep_view()).1,
            )) by {
                assert(names.deep_view() + spec_intern_all(self@, flats.deep_view()).1
                    =~= spec_intern_all(self@, flats.deep_view()).1);
            }
        }
        while flats.len() > 0
            invariant
                self.wf(),
                spec_intern_all(reg0, all).0 == spec_intern_all(self@, flats.deep_view()).0,
                spec_intern_all(reg0, all).1 == names.deep_view() + spec_intern_all(
                    self@,
                    flats.deep_view(),
                ).1,
            decreases flats@.len(),
        {
            let ghost pre_reg = self@;
            let ghost done = names.deep_view();
            let ghost rest = flats.deep_view();
            proof {
                assert(rest.len() == flats@.len());
                assert(rest[0] == flats@[0].deep_view());
            }
            let entry = flats.remove(0);
            proof {
                assert(flats.deep_view() =~= rest.drop_first());
            }
            let name = self.intern(entry);
            let ghost namev = name@;
            names.push(name);
            proof {
                assert(names.deep_view() =~= done.push(namev));
                assert(done + (seq![namev] + spec_intern_all(self@, rest.drop_first()).1)
                    =~= done.push(namev) + spec_intern_all(self@, rest.drop_first()).1);
            }
        }
        proof {
            assert(flats.deep_view() =~= Seq::<FlatExprV>::empty());
            assert(names.deep_view() + Seq::<Seq<char>>::empty() =~= names.deep_view());
        }
        Ok(names)
    }
}


// ---------------------------------------------------------------------
// The emitter

/// The pseudo-class values of a variant list, in order.
pub open spec fn pseudo_values(vs: Seq<VariantV>) -> Seq<ValueV>
    decreases vs.len(),
{
    if vs.len() == 0 {
        Seq::empty()
    } else {
        let rest = pseudo_values(vs.drop_first());
        match vs[0] {
            VariantV::Pseudo(v) => seq![v] + rest,
            VariantV::Media(_) => rest,
        }
    }
}

/// The media-query values of a variant list, in order.
pub open spec fn media_values(vs: Seq<VariantV>) -> Seq<ValueV>
    decreases vs.len(),
{
    if vs.len() == 0 {
        Seq::empty()
    } else {
        let rest = media_values(vs.drop_first());
        match vs[0] {
            VariantV::Media(v) => seq![v] + rest,
            VariantV::Pseudo(_) => rest,
        }
    }
}

proof fn lemma_split_push(vs: Seq<VariantV>, x: VariantV)
    ensures
        pseudo_values(vs.push(x)) == pseudo_values(vs) + (match x {
            VariantV::Pseudo(v) => seq![v],
            VariantV::Media(_) => Seq::<ValueV>::empty(),
        }),
        media_values(vs.push(x)) == media_values(vs) + (match x {
            VariantV::Media(v) => seq![v],
            VariantV::Pseudo(_) => Seq::<ValueV>::empty(),
        }),
    decreases vs.len(),
{
    if vs.len() == 0 {
        assert(vs.push(x).drop_first() =~= Seq::<VariantV>::empty());
        assert(vs.push(x)[0] == x);
        assert(vs =~= Seq::<VariantV>::empty());
        assert(pseudo_values(Seq::<VariantV>::empty()) == Seq::<ValueV>::empty());
        assert(media_values(Seq::<VariantV>::empty()) == Seq::<ValueV>::empty());
        match x {
            VariantV::Pseudo(v) => {
                assert(pseudo_values(vs.push(x)) =~= pseudo_values(vs) + seq![v]);
                assert(media_values(vs.push(x)) =~= media_values(vs));
                assert(media_values(vs) + Seq::<ValueV>::empty() =~= media_values(vs));
            },
            VariantV::Media(v) => {
                assert(media_values(vs.push(x)) =~= media_values(vs) + seq![v]);
                assert(pseudo_values(vs.push(x)) =~= pseudo_values(vs));
                assert(pseudo_values(vs) + Seq::<ValueV>::empty() =~= pseudo_values(vs));
            },
        }
    } else {
        lemma_split_push(vs.drop_first(), x);
        assert(vs.push(x).drop_first() =~= vs.drop_first().push(x));
        assert(vs.push(x)[0] == vs[0]);
        match vs[0] {
            VariantV::Pseudo(v0) => {
                assert(seq![v0] + (pseudo_values(vs.drop_first()) + (match x {
                    VariantV::Pseudo(v) => seq![v],
                    VariantV::Media(_) => Seq::<ValueV>::empty(),
                })) =~= (seq![v0] + pseudo_values(vs.drop_first())) + (match x {
                    VariantV::Pseudo(v) => seq![v],
                    VariantV::Media(_) => Seq::<ValueV>::empty(),
                }));
            },
            VariantV::Media(v0) => {
                assert(seq![v0] + (media_values(vs.drop_first()) + (match x {
                    VariantV::Media(v) => seq![v],
                    VariantV::Pseudo(_) => Seq::<ValueV>::empty(),
                })) =~= (seq![v0] + media_values(vs.drop_first())) + (match x {
                    VariantV::Media(v) => seq![v],
                    VariantV::Pseudo(_) => Seq::<ValueV>::empty(),
                }));
            },
        }
    }
}

/// The selector fragments of the pseudo-class values, concatenated: a
/// named pseudo-class resolves through the table, a raw one is used as
/// `:` plus its text.
pub open spec fn spec_pseudo_selectors(ps: Seq<ValueV>) -> Result<Seq<char>, CompileError>
    decreases ps.len(),
{
    if ps.len() == 0 {
        Ok(Seq::empty())
    } else {
        let frag = match ps[0] {
            ValueV::Iden(n) => spec_pseudo(n),
            ValueV::Raw(r) => Some(":"@ + r),
        };
        match frag {
            None => Err(CompileError::UnknownPseudo),
            Some(f) => match spec_pseudo_selectors(ps.drop_first()) {
                Err(e) => Err(e),
                Ok(more) => Ok(f + more),
            },
        }
    }
}

/// The media queries joined by `" and "`: a named query resolves
/// through the table, a raw one is used verbatim.
pub open spec fn spec_media_join(ms: Seq<ValueV>, first: bool) -> Result<Seq<char>, CompileError>
    decreases ms.len(),
{
    if ms.len() == 0 {
        Ok(Seq::empty())
    } else {
        let q = match ms[0] {
            ValueV::Iden(n) => spec_media_query(n),
            ValueV::Raw(r) => Some(r),
        };
        match q {
            None => Err(CompileError::UnknownMediaQuery),
            Some(qt) => match spec_media_join(ms.drop_first(), false) {
                Err(e) => Err(e),
                Ok(more) => Ok(
                    (if first {
                        qt
                    } else {
                        " and "@ + qt
                    }) + more,
                ),
            },
        }
    }
}

/// The CSS rule of one stored request: class selector, pseudo-class
/// fragments, declaration block, and a media wrapper when the request
/// carries media variants.
pub open spec fn spec_render_entry(f: FlatExprV, name: Seq<char>) -> Result<
    Seq<char>,
    CompileError,
> {
    let vs = match f.variants {
        Some(v) => v,
        None => Seq::empty(),
    };
    match spec_pseudo_selectors(pseudo_values(vs)) {
        Err(e) => Err(e),
        Ok(sel) => {
            let body = match f.css {
                FlatUtilOrRawV::FlatUtil(u) => spec_util_css(u.prop, u.value),
                FlatUtilOrRawV::RawCss(raw) => Ok(raw + ";"@),
            };
            match body {
                Err(e) => Err(e),
                Ok(decls) => {
                    let rule = "."@ + name + sel + "{"@ + decls + "}"@;
                    let ms = media_values(vs);
                    if ms.len() == 0 {
                        Ok(rule)
                    } else {
                        match spec_media_join(ms, true) {
                            Err(e) => Err(e),
                            Ok(queries) => Ok("@media "@ + queries + "{"@ + rule + "}"@),
                        }
                    }
                },
            }
        },
    }
}

/// The rules of the registry entries from `i` on, in registry order.
pub open spec fn spec_render_from(reg: Seq<(FlatExprV, Seq<char>)>, i: int) -> Result<
    Seq<Seq<char>>,
    CompileError,
>
    decreases reg.len() - i,
    when 0 <= i <= reg.len()
{
    if i >= reg.len() {
        Ok(Seq::empty())
    } else {
        match spec_render_entry(reg[i].0, reg[i].1) {
            Err(e) => Err(e),
            Ok(rule) => match spec_render_from(reg, i + 1) {
                Err(e) => Err(e),
                Ok(rules) => Ok(seq![rule] + rules),
            },
        }
    }
}

/// All concatenated, in order.
pub open spec fn concat_all(ss: Seq<Seq<char>>) -> Seq<char>
    decreases ss.len(),
{
    if ss.len() == 0 {
        Seq::empty()
    } else {
        concat_all(ss.drop_last()) + ss.last()
    }
}

/// The stylesheet of a registry: every entry rendered, the rules sorted
/// lexicographically, and the sorted rules concatenated.
pub open spec fn spec_get_css(reg: Seq<(FlatExprV, Seq<char>)>) -> Result<
    Seq<char>,
    CompileError,
> {
    match spec_render_from(reg, 0) {
        Err(e) => Err(e),
        Ok(rules) => Ok(concat_all(sort_strings(rules))),
    }
}

/// Split a variant list into its pseudo and media values, in order.
fn split_variants(vs: &Vec<Variant>) -> (r: (Vec<Value>, Vec<Value>))
    ensures
        r.0.deep_view() == pseudo_values(vs.deep_view()),
        r.1.deep_view() == media_values(vs.deep_view()),
{
    let ghost vsv = vs.deep_view();
    let mut ps: Vec<Value> = Vec::new();
    let mut ms: Vec<Value> = Vec::new();
    let mut i: usize = 0;
    proof {
        assert(vsv.take(0) =~= Seq::<VariantV>::empty());
        assert(ps.deep_view() =~= pseudo_values(vsv.take(0)));
        assert(ms.deep_view() =~= media_values(vsv.take(0)));
    }
    while i < vs.len()
        invariant
            0 <= i <= vs@.len(),
            vsv == vs.deep_view(),
            vsv.len() == vs@.len(),
            ps.deep_view() == pseudo_values(vsv.take(i as int)),
            ms.deep_view() == media_values(vsv.take(i as int)),
        decreases vs@.len() - i,
    {
        let ghost psv = ps.deep_view();
        let ghost msv = ms.deep_view();
        proof {
            assert(vsv[i as int] == vs@[i as int].deep_view());
            assert(vsv.take(i + 1) =~= vsv.take(i as int).push(vsv[i as int]));
            lemma_split_push(vsv.take(i as int), vsv[i as int]);
        }
        match &vs[i] {
            Variant::Pseudo(v) => {
                ps.push(v.duplicate());
                proof {
                    assert(ps.deep_view() =~= psv.push(vsv[i as int]->Pseudo_0));
                    assert(psv.push(vsv[i as int]->Pseudo_0) =~= psv + seq![
                        vsv[i as int]->Pseudo_0,
                    ]);
                    assert(ms.deep_view() =~= msv + Seq::<ValueV>::empty());
                }
            },
            Variant::Media(v) => {
                ms.push(v.duplicate());
                proof {
                    assert(ms.deep_view() =~= msv.push(vsv[i as int]->Media_0));
                    assert(msv.push(vsv[i as int]->Media_0) =~= msv + seq![
                        vsv[i as int]->Media_0,
                    ]);
                    assert(ps.deep_view() =~= psv + Seq::<ValueV>::empty());
                }
            },
        }
        i = i + 1;
    }
    proof {
        assert(vsv.take(vsv.len() as int) =~= vsv);
    }
    (ps, ms)
}

/// How a partial selector string relates to the whole.
pub open spec fn str_continues(
    done: Seq<char>,
    rest: Result<Seq<char>, CompileError>,
) -> Result<Seq<char>, CompileError> {
    match rest {
        Ok(more) => Ok(done + more),
        Err(e) => Err(e),
    }
}

/// Build the pseudo-class selector fragments.
fn pseudo_selectors_exec(ps: &Vec<Value>) -> (r: Result<String, CompileError>)
    ensures
        match r {
            Ok(s) => spec_pseudo_selectors(ps.deep_view()) == Ok::<Seq<char>, CompileError>(s@),
            Err(e) => spec_pseudo_selectors(ps.deep_view()) == Err::<Seq<char>, CompileError>(e),
        },
{
    let ghost psv = ps.deep_view();
    let mut out = String::new();
    let mut i: usize = 0;
    proof {
        assert(psv.skip(0) =~= psv);
        if spec_pseudo_selectors(psv) is Ok {
            assert(Seq::<char>::empty() + spec_pseudo_selectors(psv)->Ok_0
                =~= spec_pseudo_selectors(psv)->Ok_0);
        }
    }
    while i < ps.len()
        invariant
            0 <= i <= ps@.len(),
            psv == ps.deep_view(),
            psv.len() == ps@.len(),
            spec_pseudo_selectors(psv) == str_continues(out@, spec_pseudo_selectors(
                psv.skip(i as int),
            )),
        decreases ps@.len() - i,
    {
        let ghost done = out@;
        proof {
            assert(psv[i as int] == ps@[i as int].deep_view());
            assert(psv.skip(i as int)[0] == psv[i as int]);
            assert(psv.skip(i as int).drop_first() =~= psv.skip(i + 1));
        }
        match &ps[i] {
            Value::Iden(n) => {
                match get_pseudo(n.as_str()) {
                    Err(e) => {
                        return Err(e);
                    },
                    Ok(f) => {
                        out.append(f.as_str());
                        proof {
                            assert(done + (f@ + (spec_pseudo_selectors(psv.skip(i + 1))
                                ->Ok_0)) =~= (done + f@) + (spec_pseudo_selectors(
                                psv.skip(i + 1),
                            )->Ok_0));
                        }
                    },
                }
            },
            Value::Raw(rw) => {
                out.append(":");
                out.append(rw.as_str());
                proof {
                    assert(done + ((":"@ + rw@) + (spec_pseudo_selectors(psv.skip(i + 1))
                        ->Ok_0)) =~= ((done + ":"@) + rw@) + (spec_pseudo_selectors(
                        psv.skip(i + 1),
                    )->Ok_0));
                }
            },
        }
        i = i + 1;
    }
    proof {
        assert(psv.skip(psv.len() as int) =~= Seq::<ValueV>::empty());
        assert(out@ + Seq::<char>::empty() =~= out@);
    }
    Ok(out)
}

/// Join the media queries with `" and "`.
fn media_join_exec(ms: &Vec<Value>) -> (r: Result<String, CompileError>)
    ensures
        match r {
            Ok(s) => spec_media_join(ms.deep_view(), true) == Ok::<Seq<char>, CompileError>(s@),
            Err(e) => spec_media_join(ms.deep_view(), true) == Err::<Seq<char>, CompileError>(e),
        },
{
    let ghost msv = ms.deep_view();
    let mut out = String::new();
    let mut i: usize = 0;
    proof {
        assert(msv.skip(0) =~= msv);
        if spec_media_join(msv, true) is Ok {
            assert(Seq::<char>::empty() + spec_media_join(msv, true)->Ok_0 =~= spec_media_join(
                msv,
                true,
            )->Ok_0);
        }
    }
    while i < ms.len()
        invariant
            0 <= i <= ms@.len(),
            msv == ms.deep_view(),
            msv.len() == ms@.len(),
            spec_media_join(msv, true) == str_continues(out@, spec_media_join(
                msv.skip(i as int),
                i == 0,
            )),
        decreases ms@.len() - i,
    {
        let ghost done = out@;
        proof {
            assert(msv[i as int] == ms@[i as int].deep_view());
            assert(msv.skip(i as int)[0] == msv[i as int]);
            assert(msv.skip(i as int).drop_first() =~= msv.skip(i + 1));
        }
        let q = match &ms[i] {
            Value::Iden(n) => match get_media_query(n.as_str()) {
                Err(e) => {
                    return Err(e);
                },
                Ok(q) => q,
            },
            Value::Raw(rw) => rw.clone(),
        };
        if i > 0 {
            out.append(" and ");
        }
        out.append(q.as_str());
        proof {
            let ghost qt = q@;
            let rest = spec_media_join(msv.skip(i + 1), false)->Ok_0;
            if i == 0 {
                assert(done + (qt + rest) =~= (done + qt) + rest);
            } else {
                assert(done + ((" and "@ + qt) + rest) =~= ((done + " and "@) + qt) + rest);
            }
        }
        i = i + 1;
    }
    proof {
        assert(msv.skip(msv.len() as int) =~= Seq::<ValueV>::empty());
        assert(out@ + Seq::<char>::empty() =~= out@);
    }
    Ok(out)
}

/// Render one stored request into its CSS rule.
fn render_entry_exec(f: &FlatExpr, name: &String) -> (r: Result<String, CompileError>)
    ensures
        match r {
            Ok(s) => spec_render_entry(f@, name@) == Ok::<Seq<char>, CompileError>(s@),
            Err(e) => spec_render_entry(f@, name@) == Err::<Seq<char>, CompileError>(e),
        },
{
    let empty_list: Vec<Variant> = Vec::new();
    let vs = match &f.variants {
        Some(v) => v,
        None => &empty_list,
    };
    proof {
        if f.variants is None {
            assert(vs.deep_view() =~= Seq::<VariantV>::empty());
        }
    }
    let (ps, ms) = split_variants(vs);
    let sel = match pseudo_selectors_exec(&ps) {
        Err(e) => {
            return Err(e);
        },
        Ok(sel) => sel,
    };
    let decls = match &f.css {
        FlatUtilOrRaw::FlatUtil(u) => match get_util_css(u.prop.as_str(), &u.value) {
            Err(e) => {
                return Err(e);
            },
            Ok(d) => d,
        },
        FlatUtilOrRaw::RawCss(raw) => {
            let mut d = raw.clone();
            d.append(";");
            d
        },
    };
    let mut rule = String::from_str(".");
    rule.append(name.as_str());
    rule.append(sel.as_str());
    rule.append("{");
    rule.append(decls.as_str());
    rule.append("}");
    proof {
        assert(rule@ =~= "."@ + name@ + sel@ + "{"@ + decls@ + "}"@);
    }
    if ms.len() == 0 {
        proof {
            assert(ms.deep_view().len() == 0);
        }
        Ok(rule)
    } else {
        proof {
            assert(ms.deep_view().len() == ms@.len());
        }
        let queries = match media_join_exec(&ms) {
            Err(e) => {
                return Err(e);
            },
            Ok(q) => q,
        };
        let mut wrapped = String::from_str("@media ");
        wrapped.append(queries.as_str());
        wrapped.append("{");
        wrapped.append(rule.as_str());
        wrapped.append("}");
        proof {
            assert(wrapped@ =~= "@media "@ + queries@ + "{"@ + rule@ + "}"@);
        }
        Ok(wrapped)
    }
}

impl CssWriter {
    /// Emit the stylesheet accumulated so far: every stored request
    /// rendered as a rule, the rules sorted lexicographically, and the
    /// sorted rules concatenated. The registry is unchanged.
    pub fn get_css(&mut self) -> (r: Result<String, CompileError>)
        requires
            old(self).wf(),
        ensures
            final(self)@ == old(self)@,
            final(self).wf(),
            match r {
                Ok(s) => spec_get_css(old(self)@) == Ok::<Seq<char>, CompileError>(s@),
                Err(e) => spec_get_css(old(self)@) == Err::<Seq<char>, CompileError>(e),
            },
    {
        let ghost reg = self@;
        let mut rules: Vec<String> = Vec::new();
        let mut i: usize = 0;
        proof {
            assert(rules.deep_view() =~= Seq::<Seq<char>>::empty());
        }
        while i < self.class_names.len()
            invariant
                0 <= i <= self.class_names@.len(),
                self@ == reg,
                reg == old(self)@,
                self.wf(),
                reg.len() == self.class_names@.len(),
                spec_render_from(reg, 0) == (match spec_render_from(reg, i as int) {
                    Ok(rest) => Ok::<Seq<Seq<char>>, CompileError>(rules.deep_view() + rest),
                    Err(e) => Err(e),
                }),
            decreases self.class_names@.len() - i,
        {
            let ghost done = rules.deep_view();
            proof {
                assert(reg[i as int] == (self.class_names@[i as int].0@, self.class_names@[
                    i as int
                ].1@));
            }
            let rule = match render_entry_exec(&self.class_names[i].0, &self.class_names[i].1) {
                Err(e) => {
                    return Err(e);
                },
                Ok(rule) => rule,
            };
            let ghost rv = rule@;
            rules.push(rule);
            proof {
                assert(rules.deep_view() =~= done.push(rv));
                let rest = spec_render_from(reg, i + 1)->Ok_0;
                assert(done + (seq![rv] + rest) =~= done.push(rv) + rest);
            }
            i = i + 1;
        }
        proof {
            assert(rules.deep_view() + Seq::<Seq<char>>::empty() =~= rules.deep_view());
        }
        let sorted = sort_strings_exec(rules);
        let ghost sortedv = sorted.deep_view();
        let mut out = String::new();
        let mut j: usize = 0;
        proof {
            assert(sortedv.take(0) =~= Seq::<Seq<char>>::empty());
        }
        while j < sorted.len()
            invariant
                0 <= j <= sorted@.len(),
                sortedv == sorted.deep_view(),
                sortedv.len() == sorted@.len(),
                out@ == concat_all(sortedv.take(j as int)),
            decreases sorted@.len() - j,
        {
            proof {
                assert(sortedv[j as int] == sorted@[j as int].deep_view());
                assert(sortedv.take(j + 1).drop_last() =~= sortedv.take(j as int));
                assert(sortedv.take(j + 1).last() == sortedv[j as int]);
            }
            out.append(sorted[j].as_str());
            j = j + 1;
        }
        proof {
            assert(sortedv.take(sortedv.len() as int) =~= sortedv);
        }
        Ok(out)
    }
}

} // verus!
