//! The abstract syntax tree of the source language, the flattened style
//! requests it expands to, and their mathematical views.
//!
//! Every syntax type has a ghost view (`ExprV`, `ValueV`, ...) over
//! `Seq<char>` and `Seq`, and the contracts of the whole pipeline are
//! stated over those views.

use vstd::prelude::*;
use crate::text::str_eq;

verus! {

/// One parsed expression: a variant scope wrapping children, a utility
/// invocation, or an escaped raw CSS declaration block.
#[derive(Debug)]
pub enum Expr {
    Variant {
        /// The positional variant group `( ... ):`, one slot per entry;
        /// `None` is a placeholder slot written `_`.
        variant_group: Vec<Option<Variant>>,
        /// The ordinary variants written `name:` before the children.
        variants: Vec<Variant>,
        /// The wrapped child expressions.
        exprs: Vec<Expr>,
    },
    Util(Util),
    RawCss(String),
}

/// A utility invocation: one or more shorthand property names sharing
/// one value tree.
#[derive(Debug)]
pub struct Util {
    pub properties: Vec<String>,
    pub tree: UtilTree,
}

/// The value tree of a utility: a terminal assignment or nested
/// utilities sharing a property-name prefix.
#[derive(Debug)]
pub enum UtilTree {
    Leaf(Option<ValueOrGroup>),
    Branch(Vec<Expr>),
}

/// A pseudo-class or media-query condition scoping a utility.
#[derive(Debug, Hash, Clone, PartialEq, Eq, PartialOrd, Ord)]
pub enum Variant {
    Pseudo(Value),
    Media(Value),
}

/// A single assigned value, or a parenthesized positional group of
/// optional values.
#[derive(Debug, Hash, Clone, PartialEq, Eq, PartialOrd, Ord)]
pub enum ValueOrGroup {
    Value(Value),
    Group(Vec<Option<Value>>),
}

/// A bare identifier value, or text captured verbatim between `[` `]`
/// that bypasses all resolution.
#[derive(Debug, Hash, Clone, PartialEq, Eq, PartialOrd, Ord)]
pub enum Value {
    Iden(String),
    Raw(String),
}

/// One flattened, independent style request: the deduplication key.
#[derive(Debug, PartialEq, Eq, Hash)]
pub struct FlatExpr {
    /// The canonical (sorted) variant set, or `None` when empty.
    pub variants: Option<Vec<Variant>>,
    pub css: FlatUtilOrRaw,
}

/// The body of a flattened request.
#[derive(Debug, PartialEq, Eq, Hash)]
pub enum FlatUtilOrRaw {
    FlatUtil(FlatUtil),
    RawCss(String),
}

/// A fully-prefixed property with its optional value.
#[derive(Debug, PartialEq, Eq, Hash)]
pub struct FlatUtil {
    pub prop: String,
    pub value: Option<Value>,
}

// ---------------------------------------------------------------------
// Views

/// View of `Value`.
pub enum ValueV {
    Iden(Seq<char>),
    Raw(Seq<char>),
}

/// View of `Variant`.
pub enum VariantV {
    Pseudo(ValueV),
    Media(ValueV),
}

/// View of `ValueOrGroup`.
pub enum ValueOrGroupV {
    Value(ValueV),
    Group(Seq<Option<ValueV>>),
}

/// View of `Expr`.
pub enum ExprV {
    Variant { variant_group: Seq<Option<VariantV>>, variants: Seq<VariantV>, exprs: Seq<ExprV> },
    Util(UtilV),
    RawCss(Seq<char>),
}

/// View of `Util`.
pub struct UtilV {
    pub properties: Seq<Seq<char>>,
    pub tree: UtilTreeV,
}

/// View of `UtilTree`.
pub enum UtilTreeV {
    Leaf(Option<ValueOrGroupV>),
    Branch(Seq<ExprV>),
}

/// View of `FlatExpr`.
pub struct FlatExprV {
    pub variants: Option<Seq<VariantV>>,
    pub css: FlatUtilOrRawV,
}

/// View of `FlatUtilOrRaw`.
pub enum FlatUtilOrRawV {
    FlatUtil(FlatUtilV),
    RawCss(Seq<char>),
}

/// View of `FlatUtil`.
pub struct FlatUtilV {
    pub prop: Seq<char>,
    pub value: Option<ValueV>,
}

impl View for Value {
    type V = ValueV;

    open spec fn view(&self) -> ValueV {
        match self {
            Value::Iden(s) => ValueV::Iden(s@),
            Value::Raw(s) => ValueV::Raw(s@),
        }
    }
}

impl DeepView for Value {
    type V = ValueV;

    open spec fn deep_view(&self) -> ValueV {
        self.view()
    }
}

impl View for Variant {
    type V = VariantV;

    open spec fn view(&self) -> VariantV {
        match self {
            Variant::Pseudo(v) => VariantV::Pseudo(v@),
            Variant::Media(v) => VariantV::Media(v@),
        }
    }
}

impl DeepView for Variant {
    type V = VariantV;

    open spec fn deep_view(&self) -> VariantV {
        self.view()
    }
}

impl View for ValueOrGroup {
    type V = ValueOrGroupV;

    open spec fn view(&self) -> ValueOrGroupV {
        match self {
            ValueOrGroup::Value(v) => ValueOrGroupV::Value(v@),
            ValueOrGroup::Group(vs) => ValueOrGroupV::Group(vs.deep_view()),
        }
    }
}

impl DeepView for ValueOrGroup {
    type V = ValueOrGroupV;

    open spec fn deep_view(&self) -> ValueOrGroupV {
        self.view()
    }
}

/// The views of a sequence of expressions.
pub open spec fn exprs_view(es: Seq<Expr>) -> Seq<ExprV>
    decreases es,
{
    if es.len() == 0 {
        Seq::empty()
    } else {
        seq![es[0].view()] + exprs_view(es.drop_first())
    }
}

impl View for Expr {
    type V = ExprV;

    open spec fn view(&self) -> ExprV
        decreases self,
    {
        match self {
            Expr::Variant { variant_group, variants, exprs } => ExprV::Variant {
                variant_group: variant_group.deep_view(),
                variants: variants.deep_view(),
                exprs: exprs_view(exprs@),
            },
            Expr::Util(u) => ExprV::Util(u.view()),
            Expr::RawCss(s) => ExprV::RawCss(s@),
        }
    }
}

impl DeepView for Expr {
    type V = ExprV;

    open spec fn deep_view(&self) -> ExprV {
        self.view()
    }
}

impl View for Util {
    type V = UtilV;

    open spec fn view(&self) -> UtilV
        decreases self,
    {
        UtilV { properties: self.properties.deep_view(), tree: self.tree.view() }
    }
}

impl View for UtilTree {
    type V = UtilTreeV;

    open spec fn view(&self) -> UtilTreeV
        decreases self,
    {
        match self {
            UtilTree::Leaf(v) => UtilTreeV::Leaf(v.deep_view()),
            UtilTree::Branch(es) => UtilTreeV::Branch(exprs_view(es@)),
        }
    }
}

impl View for FlatExpr {
    type V = FlatExprV;

    open spec fn view(&self) -> FlatExprV {
        FlatExprV { variants: self.variants.deep_view(), css: self.css@ }
    }
}

impl DeepView for FlatExpr {
    type V = FlatExprV;

    open spec fn deep_view(&self) -> FlatExprV {
        self.view()
    }
}

impl View for FlatUtilOrRaw {
    type V = FlatUtilOrRawV;

    open spec fn view(&self) -> FlatUtilOrRawV {
        match self {
            FlatUtilOrRaw::FlatUtil(u) => FlatUtilOrRawV::FlatUtil(u@),
            FlatUtilOrRaw::RawCss(s) => FlatUtilOrRawV::RawCss(s@),
        }
    }
}

impl View for FlatUtil {
    type V = FlatUtilV;

    open spec fn view(&self) -> FlatUtilV {
        FlatUtilV { prop: self.prop@, value: self.value.deep_view() }
    }
}

/// `exprs_view` maps the sequence element-for-element.
pub proof fn lemma_exprs_view_index(es: Seq<Expr>)
    ensures
        exprs_view(es).len() == es.len(),
        forall|i: int| 0 <= i < es.len() ==> exprs_view(es)[i] == es[i].view(),
    decreases es,
{
    if es.len() > 0 {
        lemma_exprs_view_index(es.drop_first());
        assert(exprs_view(es) == seq![es[0].view()] + exprs_view(es.drop_first()));
        assert forall|i: int| 0 <= i < es.len() implies exprs_view(es)[i] == es[i].view() by {
            if i > 0 {
                assert((seq![es[0].view()] + exprs_view(es.drop_first()))[i] == exprs_view(
                    es.drop_first(),
                )[i - 1]);
                assert(es.drop_first()[i - 1] == es[i]);
            }
        }
    }
}

// ---------------------------------------------------------------------
// Executable equality and duplication

impl Value {
    /// A copy whose view is the same.
    pub fn duplicate(&self) -> (r: Value)
        ensures
            r@ == self@,
    {
        match self {
            Value::Iden(s) => Value::Iden(s.clone()),
            Value::Raw(s) => Value::Raw(s.clone()),
        }
    }

    /// Structural equality on views.
    pub fn matches(&self, other: &Value) -> (r: bool)
        ensures
            r == (self@ == other@),
    {
        match (self, other) {
            (Value::Iden(a), Value::Iden(b)) => str_eq(a.as_str(), b.as_str()),
            (Value::Raw(a), Value::Raw(b)) => str_eq(a.as_str(), b.as_str()),
            _ => false,
        }
    }
}

impl Variant {
    /// A copy whose view is the same.
    pub fn duplicate(&self) -> (r: Variant)
        ensures
            r@ == self@,
    {
        match self {
            Variant::Pseudo(v) => Variant::Pseudo(v.duplicate()),
            Variant::Media(v) => Variant::Media(v.duplicate()),
        }
    }

    /// Structural equality on views.
    pub fn matches(&self, other: &Variant) -> (r: bool)
        ensures
            r == (self@ == other@),
    {
        match (self, other) {
            (Variant::Pseudo(a), Variant::Pseudo(b)) => a.matches(b),
            (Variant::Media(a), Variant::Media(b)) => a.matches(b),
            _ => false,
        }
    }
}

/// A copy of a variant list whose deep view is the same.
pub fn dup_variants(vs: &Vec<Variant>) -> (r: Vec<Variant>)
    ensures
        r.deep_view() == vs.deep_view(),
{
    let mut r: Vec<Variant> = Vec::new();
    let mut i: usize = 0;
    while i < vs.len()
        invariant
            0 <= i <= vs.len(),
            r@.len() == i,
            forall|j: int| 0 <= j < i ==> r@[j].deep_view() == vs@[j].deep_view(),
        decreases vs.len() - i,
    {
        r.push(vs[i].duplicate());
        i += 1;
    }
    proof {
        assert(r.deep_view() =~= vs.deep_view());
    }
    r
}

/// A copy of a variant group whose deep view is the same.
pub fn dup_variant_group(vs: &Vec<Option<Variant>>) -> (r: Vec<Option<Variant>>)
    ensures
        r.deep_view() == vs.deep_view(),
{
    let mut r: Vec<Option<Variant>> = Vec::new();
    let mut i: usize = 0;
    while i < vs.len()
        invariant
            0 <= i <= vs.len(),
            r@.len() == i,
            forall|j: int| 0 <= j < i ==> r@[j].deep_view() == vs@[j].deep_view(),
        decreases vs.len() - i,
    {
        match &vs[i] {
            Some(v) => r.push(Some(v.duplicate())),
            None => r.push(None),
        }
        i += 1;
    }
    proof {
        assert(r.deep_view() =~= vs.deep_view());
    }
    r
}

/// Structural equality of two variant lists, on views.
pub fn variants_eq(a: &Vec<Variant>, b: &Vec<Variant>) -> (r: bool)
    ensures
        r == (a.deep_view() == b.deep_view()),
{
    if a.len() != b.len() {
        proof {
            assert(a.deep_view().len() != b.deep_view().len());
        }
        return false;
    }
    let mut i: usize = 0;
    while i < a.len()
        invariant
            0 <= i <= a.len(),
            a.len() == b.len(),
            forall|j: int| 0 <= j < i ==> a@[j].deep_view() == b@[j].deep_view(),
        decreases a.len() - i,
    {
        if !a[i].matches(&b[i]) {
            proof {
                assert(a.deep_view()[i as int] == a@[i as int].deep_view());
                assert(b.deep_view()[i as int] == b@[i as int].deep_view());
            }
            return false;
        }
        i += 1;
    }
    proof {
        assert(a.deep_view() =~= b.deep_view());
    }
    true
}

impl FlatUtil {
    /// Structural equality on views.
    pub fn matches(&self, other: &FlatUtil) -> (r: bool)
        ensures
            r == (self@ == other@),
    {
        if !str_eq(self.prop.as_str(), other.prop.as_str()) {
            return false;
        }
        match (&self.value, &other.value) {
            (Some(a), Some(b)) => a.matches(b),
            (None, None) => true,
            _ => false,
        }
    }
}

impl FlatExpr {
    /// Structural equality on views: the deduplication test.
    pub fn matches(&self, other: &FlatExpr) -> (r: bool)
        ensures
            r == (self@ == other@),
    {
        let vars_equal = match (&self.variants, &other.variants) {
            (Some(a), Some(b)) => variants_eq(a, b),
            (None, None) => true,
            _ => false,
        };
        if !vars_equal {
            return false;
        }
        match (&self.css, &other.css) {
            (FlatUtilOrRaw::FlatUtil(a), FlatUtilOrRaw::FlatUtil(b)) => a.matches(b),
            (FlatUtilOrRaw::RawCss(a), FlatUtilOrRaw::RawCss(b)) => str_eq(
                a.as_str(),
                b.as_str(),
            ),
            _ => false,
        }
    }
}

} // verus!
