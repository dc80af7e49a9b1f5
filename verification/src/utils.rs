//! The utility-to-CSS dispatcher and its resolution tables.
//!
//! `get_util_css` maps a fully-prefixed shorthand property and its
//! optional value to CSS declaration text, consulting the per-value
//! tables; an unknown property or value is fatal to the render call.

pub mod colors;
pub mod media_queries;
pub mod pseudo_classes;
pub mod values;

use vstd::prelude::*;
use crate::error::CompileError;
use crate::ast::{Value, ValueV};
use crate::text::str_eq;
use crate::utils::colors::{get_color_value, spec_color_value};
use crate::utils::values::{
    get_align_items_value, get_auto_value, get_border_radius_value, get_flex_dir_value,
    get_flex_shrink_grow_value, get_flex_value, get_flex_wrap_value, get_font_family_value,
    get_font_size_line_height_value, get_font_size_value, get_font_weight_value,
    get_grid_cols_rows_value, get_height_value, get_justify_align_content_value,
    get_justify_items_value, get_line_height_value, get_max_width_value, get_number_value,
    get_overflow_value, get_percentage_value, get_spacing_value, get_text_align_value,
    get_transition_easing_value, get_width_value, spec_align_items_value, spec_auto_value,
    spec_border_radius_value, spec_flex_dir_value, spec_flex_shrink_grow_value, spec_flex_value,
    spec_flex_wrap_value, spec_font_family_value, spec_font_size_line_height_value,
    spec_font_size_value, spec_font_weight_value, spec_grid_cols_rows_value, spec_height_value,
    spec_justify_align_content_value, spec_justify_items_value, spec_line_height_value,
    spec_max_width_value, spec_number_value, spec_overflow_value, spec_percentage_value,
    spec_spacing_value, spec_text_align_value, spec_transition_easing_value, spec_width_value,
};
use vstd::string::{StrSliceExecFns, StringExecFns};

verus! {

/// How an executable lookup relates to its table: `Ok` returns exactly
/// the table's text, and a name outside the table gives `err`.
pub open spec fn resolved_as(
    r: Result<String, CompileError>,
    o: Option<Seq<char>>,
    err: CompileError,
) -> bool {
    match r {
        Ok(s) => o == Some(s@),
        Err(e) => o is None && e == err,
    }
}

/// One declaration from a prefix and a resolved value.
pub open spec fn css_wrap(prefix: Seq<char>, o: Option<Seq<char>>) -> Result<
    Seq<char>,
    CompileError,
> {
    match o {
        Some(s) => Ok(prefix + s + ";"@),
        None => Err(CompileError::UnknownValue),
    }
}

/// Two declarations sharing one resolved value.
pub open spec fn css_wrap2(p1: Seq<char>, p2: Seq<char>, o: Option<Seq<char>>) -> Result<
    Seq<char>,
    CompileError,
> {
    match o {
        Some(s) => Ok(p1 + s + ";"@ + p2 + s + ";"@),
        None => Err(CompileError::UnknownValue),
    }
}

/// The first table that accepts the value.
pub open spec fn or_value(a: Option<Seq<char>>, b: Option<Seq<char>>) -> Option<Seq<char>> {
    if a is Some {
        a
    } else {
        b
    }
}

/// How an executable rendering relates to its specification.
pub open spec fn css_result_matches(
    r: Result<String, CompileError>,
    s: Result<Seq<char>, CompileError>,
) -> bool {
    match r {
        Ok(text) => s == Ok::<Seq<char>, CompileError>(text@),
        Err(e) => s == Err::<Seq<char>, CompileError>(e),
    }
}

/// Wrap a resolved value into one declaration.
fn wrap1(prefix: &str, r: Result<String, CompileError>) -> (out: Result<String, CompileError>)
    ensures
        match out {
            Ok(s) => r is Ok && s@ == prefix@ + r->Ok_0@ + ";"@,
            Err(e) => r is Err && e == r->Err_0,
        },
{
    match r {
        Ok(s) => {
            let mut o = String::from_str(prefix);
            o.append(s.as_str());
            o.append(";");
            proof {
                assert(o@ =~= prefix@ + s@ + ";"@);
            }
            Ok(o)
        },
        Err(e) => Err(e),
    }
}

/// Wrap one resolved value into two declarations.
fn wrap2(p1: &str, p2: &str, r: Result<String, CompileError>) -> (out: Result<
    String,
    CompileError,
>)
    ensures
        match out {
            Ok(s) => r is Ok && s@ == p1@ + r->Ok_0@ + ";"@ + p2@ + r->Ok_0@ + ";"@,
            Err(e) => r is Err && e == r->Err_0,
        },
{
    match r {
        Ok(s) => {
            let mut o = String::from_str(p1);
            o.append(s.as_str());
            o.append(";");
            o.append(p2);
            o.append(s.as_str());
            o.append(";");
            proof {
                assert(o@ =~= p1@ + s@ + ";"@ + p2@ + s@ + ";"@);
            }
            Ok(o)
        },
        Err(e) => Err(e),
    }
}

/// The utilities that take no value: each maps straight to declaration
/// text.
pub open spec fn spec_flag_css(p: Seq<char>) -> Result<Seq<char>, CompileError> {
    if p == "center"@ {
        Ok("display:flex;justify-content:center;align-items:center;"@)
    } else if p == "block"@ {
        Ok("display:block;"@)
    } else if p == "inline-block"@ {
        Ok("display:inline-block;"@)
    } else if p == "inline"@ {
        Ok("display:inline;"@)
    } else if p == "flex"@ {
        Ok("display:flex;"@)
    } else if p == "inline-flex"@ {
        Ok("display:inline-flex;"@)
    } else if p == "grid"@ {
        Ok("display:grid;"@)
    } else if p == "inline-grid"@ {
        Ok("display:inline-grid;"@)
    } else if p == "hidden"@ {
        Ok("display:none;"@)
    } else if p == "static"@ {
        Ok("position:static;"@)
    } else if p == "fixed"@ {
        Ok("position:fixed;"@)
    } else if p == "absolute"@ {
        Ok("position:absolute;"@)
    } else if p == "relative"@ {
        Ok("position:relative;"@)
    } else if p == "sticky"@ {
        Ok("position:sticky;"@)
    } else if p == "visible"@ {
        Ok("visibility:visible;"@)
    } else if p == "invisible"@ {
        Ok("visibility:hidden;"@)
    } else if p == "list-none"@ {
        Ok("list-style-type:none;"@)
    } else if p == "list-disc"@ {
        Ok("list-style-type:disc;"@)
    } else if p == "list-decimal"@ {
        Ok("list-style-type:decimal;"@)
    } else if p == "list-inside"@ {
        Ok("list-style-position:inside;"@)
    } else if p == "list-outside"@ {
        Ok("list-style-position:outside;"@)
    } else if p == "font-italic"@ {
        Ok("font-style:italic;"@)
    } else if p == "font-not-italic"@ {
        Ok("font-style:normal;"@)
    } else if p == "antialiased"@ {
        Ok("-webkit-font-smoothing:antialiased;-moz-osx-font-smoothing:grayscale;"@)
    } else if p == "subpixel-antialiased"@ {
        Ok("-webkit-font-smoothing:auto;-moz-osx-font-smoothing:auto;"@)
    } else if p == "text-underline"@ {
        Ok("text-decoration:underline;"@)
    } else if p == "text-line-through"@ {
        Ok("text-decoration:line-through;"@)
    } else if p == "text-no-underline"@ {
        Ok("text-decoration:none;"@)
    } else if p == "text-uppercase"@ {
        Ok("text-transform:uppercase;"@)
    } else if p == "text-lowercase"@ {
        Ok("text-transform:lowercase;"@)
    } else if p == "text-capitalize"@ {
        Ok("text-transform:capitalize;"@)
    } else if p == "text-normal-case"@ {
        Ok("text-transform:none;"@)
    } else if p == "border-solid"@ {
        Ok("border-style:solid;"@)
    } else if p == "border-dashed"@ {
        Ok("border-style:dashed;"@)
    } else if p == "border-dotted"@ {
        Ok("border-style:dotted;"@)
    } else if p == "border-double"@ {
        Ok("border-style:double;"@)
    } else if p == "border-hidden"@ {
        Ok("border-style:hidden;"@)
    } else if p == "border-none"@ {
        Ok("border-style:none;"@)
    } else if p == "transition-none"@ {
        Ok("transition-property:none;"@)
    } else if p == "transition-all"@ {
        Ok("transition-property:all;transition-timing-function:cubic-bezier(0.4,0,0.2,1);transition-duration:150ms;"@)
    } else if p == "transition"@ {
        Ok("transition-property:background-color,border-color,color,fill,stroke,opacity,box-shadow,transform,filter,backdrop-filter;transition-timing-function:cubic-bezier(0.4,0,0.2,1);transition-duration:150ms;"@)
    } else if p == "transition-colors"@ {
        Ok("transition-property:background-color,border-color,color,fill,stroke;transition-timing-function:cubic-bezier(0.4,0,0.2,1);transition-duration:150ms;"@)
    } else if p == "transition-opacity"@ {
        Ok("transition-property:opacity;transition-timing-function:cubic-bezier(0.4,0,0.2,1);transition-duration:150ms;"@)
    } else if p == "transition-shadow"@ {
        Ok("transition-property:box-shadow;transition-timing-function:cubic-bezier(0.4,0,0.2,1);transition-duration:150ms;"@)
    } else if p == "transition-transform"@ {
        Ok("transition-property:transform;transition-timing-function:cubic-bezier(0.4,0,0.2,1);transition-duration:150ms;"@)
    } else if p == "appearance-none"@ {
        Ok("appearance:none;"@)
    } else {
        Err(CompileError::UnknownProperty)
    }
}

#[verifier::rlimit(100)]
fn flag_css(p: &str) -> (r: Result<String, CompileError>)
    ensures
        css_result_matches(r, spec_flag_css(p@)),
{
    if str_eq(p, "center") {
        Ok(String::from_str("display:flex;justify-content:center;align-items:center;"))
    } else if str_eq(p, "block") {
        Ok(String::from_str("display:block;"))
    } else if str_eq(p, "inline-block") {
        Ok(String::from_str("display:inline-block;"))
    } else if str_eq(p, "inline") {
        Ok(String::from_str("display:inline;"))
    } else if str_eq(p, "flex") {
        Ok(String::from_str("display:flex;"))
    } else if str_eq(p, "inline-flex") {
        Ok(String::from_str("display:inline-flex;"))
    } else if str_eq(p, "grid") {
        Ok(String::from_str("display:grid;"))
    } else if str_eq(p, "inline-grid") {
        Ok(String::from_str("display:inline-grid;"))
    } else if str_eq(p, "hidden") {
        Ok(String::from_str("display:none;"))
    } else if str_eq(p, "static") {
        Ok(String::from_str("position:static;"))
    } else if str_eq(p, "fixed") {
        Ok(String::from_str("position:fixed;"))
    } else if str_eq(p, "absolute") {
        Ok(String::from_str("position:absolute;"))
    } else if str_eq(p, "relative") {
        Ok(String::from_str("position:relative;"))
    } else if str_eq(p, "sticky") {
        Ok(String::from_str("position:sticky;"))
    } else if str_eq(p, "visible") {
        Ok(String::from_str("visibility:visible;"))
    } else if str_eq(p, "invisible") {
        Ok(String::from_str("visibility:hidden;"))
    } else if str_eq(p, "list-none") {
        Ok(String::from_str("list-style-type:none;"))
    } else if str_eq(p, "list-disc") {
        Ok(String::from_str("list-style-type:disc;"))
    } else if str_eq(p, "list-decimal") {
        Ok(String::from_str("list-style-type:decimal;"))
    } else if str_eq(p, "list-inside") {
        Ok(String::from_str("list-style-position:inside;"))
    } else if str_eq(p, "list-outside") {
        Ok(String::from_str("list-style-position:outside;"))
    } else if str_eq(p, "font-italic") {
        Ok(String::from_str("font-style:italic;"))
    } else if str_eq(p, "font-not-italic") {
        Ok(String::from_str("font-style:normal;"))
    } else if str_eq(p, "antialiased") {
        Ok(String::from_str("-webkit-font-smoothing:antialiased;-moz-osx-font-smoothing:grayscale;"))
    } else if str_eq(p, "subpixel-antialiased") {
        Ok(String::from_str("-webkit-font-smoothing:auto;-moz-osx-font-smoothing:auto;"))
    } else if str_eq(p, "text-underline") {
        Ok(String::from_str("text-decoration:underline;"))
    } else if str_eq(p, "text-line-through") {
        Ok(String::from_str("text-decoration:line-through;"))
    } else if str_eq(p, "text-no-underline") {
        Ok(String::from_str("text-decoration:none;"))
    } else if str_eq(p, "text-uppercase") {
        Ok(String::from_str("text-transform:uppercase;"))
    } else if str_eq(p, "text-lowercase") {
        Ok(String::from_str("text-transform:lowercase;"))
    } else if str_eq(p, "text-capitalize") {
        Ok(String::from_str("text-transform:capitalize;"))
    } else if str_eq(p, "text-normal-case") {
        Ok(String::from_str("text-transform:none;"))
    } else if str_eq(p, "border-solid") {
        Ok(String::from_str("border-style:solid;"))
    } else if str_eq(p, "border-dashed") {
        Ok(String::from_str("border-style:dashed;"))
    } else if str_eq(p, "border-dotted") {
        Ok(String::from_str("border-style:dotted;"))
    } else if str_eq(p, "border-double") {
        Ok(String::from_str("border-style:double;"))
    } else if str_eq(p, "border-hidden") {
        Ok(String::from_str("border-style:hidden;"))
    } else if str_eq(p, "border-none") {
        Ok(String::from_str("border-style:none;"))
    } else if str_eq(p, "transition-none") {
        Ok(String::from_str("transition-property:none;"))
    } else if str_eq(p, "transition-all") {
        Ok(String::from_str("transition-property:all;transition-timing-function:cubic-bezier(0.4,0,0.2,1);transition-duration:150ms;"))
    } else if str_eq(p, "transition") {
        Ok(String::from_str("transition-property:background-color,border-color,color,fill,stroke,opacity,box-shadow,transform,filter,backdrop-filter;transition-timing-function:cubic-bezier(0.4,0,0.2,1);transition-duration:150ms;"))
    } else if str_eq(p, "transition-colors") {
        Ok(String::from_str("transition-property:background-color,border-color,color,fill,stroke;transition-timing-function:cubic-bezier(0.4,0,0.2,1);transition-duration:150ms;"))
    } else if str_eq(p, "transition-opacity") {
        Ok(String::from_str("transition-property:opacity;transition-timing-function:cubic-bezier(0.4,0,0.2,1);transition-duration:150ms;"))
    } else if str_eq(p, "transition-shadow") {
        Ok(String::from_str("transition-property:box-shadow;transition-timing-function:cubic-bezier(0.4,0,0.2,1);transition-duration:150ms;"))
    } else if str_eq(p, "transition-transform") {
        Ok(String::from_str("transition-property:transform;transition-timing-function:cubic-bezier(0.4,0,0.2,1);transition-duration:150ms;"))
    } else if str_eq(p, "appearance-none") {
        Ok(String::from_str("appearance:none;"))
    } else {
        Err(CompileError::UnknownProperty)
    }
}

/// One group of the valued-utility table.
pub open spec fn spec_valued_layout(p: Seq<char>, v: ValueV) -> Result<Seq<char>, CompileError> {
    if p == "overflow"@ {
        css_wrap("overflow:"@, spec_overflow_value(v))
    } else if p == "overflow-x"@ {
        css_wrap("overflow-x:"@, spec_overflow_value(v))
    } else if p == "overflow-y"@ {
        css_wrap("overflow-y:"@, spec_overflow_value(v))
    } else if p == "t"@ {
        css_wrap("top:"@, or_value(spec_auto_value(v), or_value(spec_spacing_value(v), spec_percentage_value(v))))
    } else if p == "r"@ {
        css_wrap("right:"@, or_value(spec_auto_value(v), or_value(spec_spacing_value(v), spec_percentage_value(v))))
    } else if p == "b"@ {
        css_wrap("bottom:"@, or_value(spec_auto_value(v), or_value(spec_spacing_value(v), spec_percentage_value(v))))
    } else if p == "l"@ {
        css_wrap("left:"@, or_value(spec_auto_value(v), or_value(spec_spacing_value(v), spec_percentage_value(v))))
    } else if p == "z"@ {
        css_wrap("z-index:"@, or_value(spec_auto_value(v), spec_number_value(v, ""@)))
    } else if p == "flex"@ {
        css_wrap("flex:"@, spec_flex_value(v))
    } else if p == "flex-b"@ {
        css_wrap("flex-basis:"@, or_value(spec_spacing_value(v), spec_percentage_value(v)))
    } else if p == "flex-d"@ {
        css_wrap("flex-direction:"@, spec_flex_dir_value(v))
    } else if p == "flex-w"@ {
        css_wrap("flex-wrap:"@, spec_flex_wrap_value(v))
    } else if p == "flex-g"@ {
        css_wrap("flex-grow:"@, spec_flex_shrink_grow_value(v))
    } else if p == "flex-s"@ {
        css_wrap("flex-shrink:"@, spec_flex_shrink_grow_value(v))
    } else if p == "grid-c"@ {
        css_wrap("grid-template-columns:"@, spec_grid_cols_rows_value(v))
    } else if p == "grid-r"@ {
        css_wrap("grid-template-rows:"@, spec_grid_cols_rows_value(v))
    } else if p == "gap"@ {
        css_wrap("gap:"@, spec_spacing_value(v))
    } else if p == "gap-x"@ {
        css_wrap("column-gap:"@, spec_spacing_value(v))
    } else if p == "gap-y"@ {
        css_wrap("row-gap:"@, spec_spacing_value(v))
    } else if p == "justify-c"@ {
        css_wrap("justify-content:"@, spec_justify_align_content_value(v))
    } else if p == "justify-i"@ {
        css_wrap("justify-items:"@, spec_justify_items_value(v))
    } else if p == "justify-s"@ {
        css_wrap("justify-self:"@, or_value(spec_justify_items_value(v), spec_auto_value(v)))
    } else if p == "align-c"@ {
        css_wrap("align-content:"@, spec_justify_align_content_value(v))
    } else if p == "align-i"@ {
        css_wrap("align-items:"@, spec_align_items_value(v))
    } else if p == "align-s"@ {
        css_wrap("align-self:"@, or_value(spec_align_items_value(v), spec_auto_value(v)))    } else {
        Err(CompileError::UnknownProperty)
    }
}

#[verifier::rlimit(100)]
fn valued_layout_css(p: &str, v: &Value) -> (r: Result<String, CompileError>)
    ensures
        css_result_matches(r, spec_valued_layout(p@, v@)),
{
    if str_eq(p, "overflow") {
        wrap1("overflow:", get_overflow_value(v))
    } else if str_eq(p, "overflow-x") {
        wrap1("overflow-x:", get_overflow_value(v))
    } else if str_eq(p, "overflow-y") {
        wrap1("overflow-y:", get_overflow_value(v))
    } else if str_eq(p, "t") {
        let rv = match get_auto_value(v) {
            Ok(s) => Ok(s),
            Err(_) => match get_spacing_value(v) {
            Ok(s) => Ok(s),
            Err(_) => get_percentage_value(v),
        },
        };
        wrap1("top:", rv)
    } else if str_eq(p, "r") {
        let rv = match get_auto_value(v) {
            Ok(s) => Ok(s),
            Err(_) => match get_spacing_value(v) {
            Ok(s) => Ok(s),
            Err(_) => get_percentage_value(v),
        },
        };
        wrap1("right:", rv)
    } else if str_eq(p, "b") {
        let rv = match get_auto_value(v) {
            Ok(s) => Ok(s),
            Err(_) => match get_spacing_value(v) {
            Ok(s) => Ok(s),
            Err(_) => get_percentage_value(v),
        },
        };
        wrap1("bottom:", rv)
    } else if str_eq(p, "l") {
        let rv = match get_auto_value(v) {
            Ok(s) => Ok(s),
            Err(_) => match get_spacing_value(v) {
            Ok(s) => Ok(s),
            Err(_) => get_percentage_value(v),
        },
        };
        wrap1("left:", rv)
    } else if str_eq(p, "z") {
        let rv = match get_auto_value(v) {
            Ok(s) => Ok(s),
            Err(_) => get_number_value(v, ""),
        };
        wrap1("z-index:", rv)
    } else if str_eq(p, "flex") {
        wrap1("flex:", get_flex_value(v))
    } else if str_eq(p, "flex-b") {
        let rv = match get_spacing_value(v) {
            Ok(s) => Ok(s),
            Err(_) => get_percentage_value(v),
        };
        wrap1("flex-basis:", rv)
    } else if str_eq(p, "flex-d") {
        wrap1("flex-direction:", get_flex_dir_value(v))
    } else if str_eq(p, "flex-w") {
        wrap1("flex-wrap:", get_flex_wrap_value(v))
    } else if str_eq(p, "flex-g") {
        wrap1("flex-grow:", get_flex_shrink_grow_value(v))
    } else if str_eq(p, "flex-s") {
        wrap1("flex-shrink:", get_flex_shrink_grow_value(v))
    } else if str_eq(p, "grid-c") {
        wrap1("grid-template-columns:", get_grid_cols_rows_value(v))
    } else if str_eq(p, "grid-r") {
        wrap1("grid-template-rows:", get_grid_cols_rows_value(v))
    } else if str_eq(p, "gap") {
        wrap1("gap:", get_spacing_value(v))
    } else if str_eq(p, "gap-x") {
        wrap1("column-gap:", get_spacing_value(v))
    } else if str_eq(p, "gap-y") {
        wrap1("row-gap:", get_spacing_value(v))
    } else if str_eq(p, "justify-c") {
        wrap1("justify-content:", get_justify_align_content_value(v))
    } else if str_eq(p, "justify-i") {
        wrap1("justify-items:", get_justify_items_value(v))
    } else if str_eq(p, "justify-s") {
        let rv = match get_justify_items_value(v) {
            Ok(s) => Ok(s),
            Err(_) => get_auto_value(v),
        };
        wrap1("justify-self:", rv)
    } else if str_eq(p, "align-c") {
        wrap1("align-content:", get_justify_align_content_value(v))
    } else if str_eq(p, "align-i") {
        wrap1("align-items:", get_align_items_value(v))
    } else if str_eq(p, "align-s") {
        let rv = match get_align_items_value(v) {
            Ok(s) => Ok(s),
            Err(_) => get_auto_value(v),
        };
        wrap1("align-self:", rv)    } else {
        Err(CompileError::UnknownProperty)
    }
}

/// One group of the valued-utility table.
pub open spec fn spec_valued_spacing(p: Seq<char>, v: ValueV) -> Result<Seq<char>, CompileError> {
    if p == "p"@ {
        css_wrap("padding:"@, spec_spacing_value(v))
    } else if p == "p-t"@ {
        css_wrap("padding-top:"@, spec_spacing_value(v))
    } else if p == "p-r"@ {
        css_wrap("padding-right:"@, spec_spacing_value(v))
    } else if p == "p-b"@ {
        css_wrap("padding-bottom:"@, spec_spacing_value(v))
    } else if p == "p-l"@ {
        css_wrap("padding-left:"@, spec_spacing_value(v))
    } else if p == "p-x"@ {
        css_wrap2("padding-left:"@, "padding-right:"@, spec_spacing_value(v))
    } else if p == "p-y"@ {
        css_wrap2("padding-top:"@, "padding-bottom:"@, spec_spacing_value(v))
    } else if p == "m"@ {
        css_wrap("margin:"@, or_value(spec_spacing_value(v), spec_auto_value(v)))
    } else if p == "m-t"@ {
        css_wrap("margin-top:"@, or_value(spec_spacing_value(v), spec_auto_value(v)))
    } else if p == "m-r"@ {
        css_wrap("margin-right:"@, or_value(spec_spacing_value(v), spec_auto_value(v)))
    } else if p == "m-b"@ {
        css_wrap("margin-bottom:"@, or_value(spec_spacing_value(v), spec_auto_value(v)))
    } else if p == "m-l"@ {
        css_wrap("margin-left:"@, or_value(spec_spacing_value(v), spec_auto_value(v)))
    } else if p == "m-x"@ {
        css_wrap2("margin-left:"@, "margin-right:"@, or_value(spec_spacing_value(v), spec_auto_value(v)))
    } else if p == "m-y"@ {
        css_wrap2("margin-top:"@, "margin-bottom:"@, or_value(spec_spacing_value(v), spec_auto_value(v)))
    } else if p == "w"@ {
        css_wrap("width:"@, or_value(spec_spacing_value(v), or_value(spec_percentage_value(v), spec_width_value(v))))
    } else if p == "h"@ {
        css_wrap("height:"@, or_value(spec_spacing_value(v), or_value(spec_percentage_value(v), spec_height_value(v))))
    } else if p == "max-w"@ {
        css_wrap("max-width:"@, spec_max_width_value(v))    } else {
        Err(CompileError::UnknownProperty)
    }
}

#[verifier::rlimit(100)]
fn valued_spacing_css(p: &str, v: &Value) -> (r: Result<String, CompileError>)
    ensures
        css_result_matches(r, spec_valued_spacing(p@, v@)),
{
    if str_eq(p, "p") {
        wrap1("padding:", get_spacing_value(v))
    } else if str_eq(p, "p-t") {
        wrap1("padding-top:", get_spacing_value(v))
    } else if str_eq(p, "p-r") {
        wrap1("padding-right:", get_spacing_value(v))
    } else if str_eq(p, "p-b") {
        wrap1("padding-bottom:", get_spacing_value(v))
    } else if str_eq(p, "p-l") {
        wrap1("padding-left:", get_spacing_value(v))
    } else if str_eq(p, "p-x") {
        let rv = get_spacing_value(v);
        wrap2("padding-left:", "padding-right:", rv)
    } else if str_eq(p, "p-y") {
        let rv = get_spacing_value(v);
        wrap2("padding-top:", "padding-bottom:", rv)
    } else if str_eq(p, "m") {
        let rv = match get_spacing_value(v) {
            Ok(s) => Ok(s),
            Err(_) => get_auto_value(v),
        };
        wrap1("margin:", rv)
    } else if str_eq(p, "m-t") {
        let rv = match get_spacing_value(v) {
            Ok(s) => Ok(s),
            Err(_) => get_auto_value(v),
        };
        wrap1("margin-top:", rv)
    } else if str_eq(p, "m-r") {
        let rv = match get_spacing_value(v) {
            Ok(s) => Ok(s),
            Err(_) => get_auto_value(v),
        };
        wrap1("margin-right:", rv)
    } else if str_eq(p, "m-b") {
        let rv = match get_spacing_value(v) {
            Ok(s) => Ok(s),
            Err(_) => get_auto_value(v),
        };
        wrap1("margin-bottom:", rv)
    } else if str_eq(p, "m-l") {
        let rv = match get_spacing_value(v) {
            Ok(s) => Ok(s),
            Err(_) => get_auto_value(v),
        };
        wrap1("margin-left:", rv)
    } else if str_eq(p, "m-x") {
        let rv = match get_spacing_value(v) {
            Ok(s) => Ok(s),
            Err(_) => get_auto_value(v),
        };
        wrap2("margin-left:", "margin-right:", rv)
    } else if str_eq(p, "m-y") {
        let rv = match get_spacing_value(v) {
            Ok(s) => Ok(s),
            Err(_) => get_auto_value(v),
        };
        wrap2("margin-top:", "margin-bottom:", rv)
    } else if str_eq(p, "w") {
        let rv = match get_spacing_value(v) {
            Ok(s) => Ok(s),
            Err(_) => match get_percentage_value(v) {
            Ok(s) => Ok(s),
            Err(_) => get_width_value(v),
        },
        };
        wrap1("width:", rv)
    } else if str_eq(p, "h") {
        let rv = match get_spacing_value(v) {
            Ok(s) => Ok(s),
            Err(_) => match get_percentage_value(v) {
            Ok(s) => Ok(s),
            Err(_) => get_height_value(v),
        },
        };
        wrap1("height:", rv)
    } else if str_eq(p, "max-w") {
        wrap1("max-width:", get_max_width_value(v))    } else {
        Err(CompileError::UnknownProperty)
    }
}

/// One group of the valued-utility table.
pub open spec fn spec_valued_style(p: Seq<char>, v: ValueV) -> Result<Seq<char>, CompileError> {
    if p == "font-f"@ {
        css_wrap("font-family:"@, spec_font_family_value(v))
    } else if p == "font-w"@ {
        css_wrap("font-weight:"@, spec_font_weight_value(v))
    } else if p == "line-h"@ {
        css_wrap("line-height:"@, or_value(spec_line_height_value(v), spec_spacing_value(v)))
    } else if p == "text-a"@ {
        css_wrap("text-align:"@, spec_text_align_value(v))
    } else if p == "text-c"@ {
        css_wrap("color:"@, spec_color_value(v))
    } else if p == "bg-c"@ {
        css_wrap("background-color:"@, spec_color_value(v))
    } else if p == "border-r"@ {
        css_wrap("border-radius:"@, spec_border_radius_value(v))
    } else if p == "border-w"@ {
        css_wrap("border-width:"@, spec_number_value(v, "px"@))
    } else if p == "border-lw"@ {
        css_wrap("border-left-width:"@, spec_number_value(v, "px"@))
    } else if p == "border-rw"@ {
        css_wrap("border-right-width:"@, spec_number_value(v, "px"@))
    } else if p == "border-tw"@ {
        css_wrap("border-top-width:"@, spec_number_value(v, "px"@))
    } else if p == "border-bw"@ {
        css_wrap("border-bottom-width:"@, spec_number_value(v, "px"@))
    } else if p == "border-c"@ {
        css_wrap("border-color:"@, spec_color_value(v))
    } else if p == "transition-duration"@ {
        css_wrap("transition-duration:"@, spec_number_value(v, "ms"@))
    } else if p == "transition-delay"@ {
        css_wrap("transition-delay:"@, spec_number_value(v, "ms"@))
    } else if p == "transition-ease"@ {
        css_wrap("transition-timing-function:"@, spec_transition_easing_value(v))    } else if p == "font-s"@ {
        match v {
            ValueV::Raw(_) => css_wrap("font-size:"@, spec_font_size_value(v)),
            ValueV::Iden(_) => match (spec_font_size_value(v), spec_font_size_line_height_value(
                v,
            )) {
                (Some(a), Some(b)) => Ok(
                    "font-size:"@ + a + ";line-height:"@ + b + ";"@,
                ),
                _ => Err(CompileError::UnknownValue),
            },
        }
    } else {
        Err(CompileError::UnknownProperty)
    }
}

#[verifier::rlimit(100)]
fn valued_style_css(p: &str, v: &Value) -> (r: Result<String, CompileError>)
    ensures
        css_result_matches(r, spec_valued_style(p@, v@)),
{
    if str_eq(p, "font-f") {
        wrap1("font-family:", get_font_family_value(v))
    } else if str_eq(p, "font-w") {
        wrap1("font-weight:", get_font_weight_value(v))
    } else if str_eq(p, "line-h") {
        let rv = match get_line_height_value(v) {
            Ok(s) => Ok(s),
            Err(_) => get_spacing_value(v),
        };
        wrap1("line-height:", rv)
    } else if str_eq(p, "text-a") {
        wrap1("text-align:", get_text_align_value(v))
    } else if str_eq(p, "text-c") {
        wrap1("color:", get_color_value(v))
    } else if str_eq(p, "bg-c") {
        wrap1("background-color:", get_color_value(v))
    } else if str_eq(p, "border-r") {
        wrap1("border-radius:", get_border_radius_value(v))
    } else if str_eq(p, "border-w") {
        let rv = get_number_value(v, "px");
        wrap1("border-width:", rv)
    } else if str_eq(p, "border-lw") {
        let rv = get_number_value(v, "px");
        wrap1("border-left-width:", rv)
    } else if str_eq(p, "border-rw") {
        let rv = get_number_value(v, "px");
        wrap1("border-right-width:", rv)
    } else if str_eq(p, "border-tw") {
        let rv = get_number_value(v, "px");
        wrap1("border-top-width:", rv)
    } else if str_eq(p, "border-bw") {
        let rv = get_number_value(v, "px");
        wrap1("border-bottom-width:", rv)
    } else if str_eq(p, "border-c") {
        wrap1("border-color:", get_color_value(v))
    } else if str_eq(p, "transition-duration") {
        let rv = get_number_value(v, "ms");
        wrap1("transition-duration:", rv)
    } else if str_eq(p, "transition-delay") {
        let rv = get_number_value(v, "ms");
        wrap1("transition-delay:", rv)
    } else if str_eq(p, "transition-ease") {
        wrap1("transition-timing-function:", get_transition_easing_value(v))    } else if str_eq(p, "font-s") {
        match v {
            Value::Raw(_) => wrap1("font-size:", get_font_size_value(v)),
            Value::Iden(_) => {
                match (get_font_size_value(v), get_font_size_line_height_value(v)) {
                    (Ok(a), Ok(b)) => {
                        let mut o = String::from_str("font-size:");
                        o.append(a.as_str());
                        o.append(";line-height:");
                        o.append(b.as_str());
                        o.append(";");
                        proof {
                            assert(o@ =~= "font-size:"@ + a@ + ";line-height:"@ + b@ + ";"@);
                        }
                        Ok(o)
                    },
                    _ => Err(CompileError::UnknownValue),
                }
            },
        }
    } else {
        Err(CompileError::UnknownProperty)
    }
}

/// The utilities that take a value, over the three table groups.
pub open spec fn spec_valued_css(p: Seq<char>, v: ValueV) -> Result<Seq<char>, CompileError> {
    if spec_valued_layout(p, v) != Err::<Seq<char>, CompileError>(CompileError::UnknownProperty) {
        spec_valued_layout(p, v)
    } else if spec_valued_spacing(p, v) != Err::<Seq<char>, CompileError>(
        CompileError::UnknownProperty,
    ) {
        spec_valued_spacing(p, v)
    } else {
        spec_valued_style(p, v)
    }
}

/// The declaration block of one utility: the property name with its
/// optional value, resolved through the tables.
pub open spec fn spec_util_css(prop: Seq<char>, value: Option<ValueV>) -> Result<
    Seq<char>,
    CompileError,
> {
    match value {
        None => spec_flag_css(prop),
        Some(v) => spec_valued_css(prop, v),
    }
}

/// The declaration block of one utility invocation.
///
/// Returns exactly `spec_util_css`: the declaration text, or
/// `UnknownProperty` for a property/value shape outside the table, or
/// `UnknownValue` for a value its property does not accept.
pub fn get_util_css(property: &str, value: &Option<Value>) -> (r: Result<String, CompileError>)
    ensures
        css_result_matches(r, spec_util_css(property@, value.deep_view())),
{
    match value {
        None => flag_css(property),
        Some(v) => {
            let ra = valued_layout_css(property, v);
            let a_other = !matches!(ra, Err(CompileError::UnknownProperty));
            if a_other {
                return ra;
            }
            let rb = valued_spacing_css(property, v);
            let b_other = !matches!(rb, Err(CompileError::UnknownProperty));
            if b_other {
                return rb;
            }
            valued_style_css(property, v)
        },
    }
}

} // verus!
