//! The per-value resolution tables: each maps an identifier value to
//! CSS text. A raw `[...]` value always passes through unresolved.

use vstd::prelude::*;
use vstd::string::{StrSliceExecFns, StringExecFns};
use crate::ast::{Value, ValueV};
use crate::error::CompileError;
use crate::numeric::{
    is_digit, lemma_find_char_eq, lemma_mul_le, pow10_u128,
    all_digits, digits_to_nat, check_digits, max_digits, lemma_digits_to_nat_bound,
    lemma_pow10_increases, lemma_pow10_pos, parse_decimal, pow10, pow10_u64, push_decimal_u64,
    push_scaled, render_scaled, scan_digits, spec_parse_decimal, find_char,
};
use crate::text::{decimal_digits, str_eq};
use crate::utils::resolved_as;

verus! {


/// How content overflowing a box is treated, for identifier values.
pub open spec fn spec_overflow_value_iden(s: Seq<char>) -> Option<Seq<char>> {
    if s == "auto"@ {
        Some("auto"@)
    } else if s == "hidden"@ {
        Some("hidden"@)
    } else if s == "clip"@ {
        Some("clip"@)
    } else if s == "visible"@ {
        Some("visible"@)
    } else if s == "scroll"@ {
        Some("scroll"@)
    } else {
        None
    }
}

/// How content overflowing a box is treated.
pub open spec fn spec_overflow_value(v: ValueV) -> Option<Seq<char>> {
    match v {
        ValueV::Raw(raw) => Some(raw),
        ValueV::Iden(s) => spec_overflow_value_iden(s),
    }
}

fn get_overflow_value_iden(s: &str) -> (r: Result<String, CompileError>)
    ensures
        resolved_as(r, spec_overflow_value_iden(s@), CompileError::UnknownValue),
{
    if str_eq(s, "auto") {
        Ok(String::from_str("auto"))
    } else if str_eq(s, "hidden") {
        Ok(String::from_str("hidden"))
    } else if str_eq(s, "clip") {
        Ok(String::from_str("clip"))
    } else if str_eq(s, "visible") {
        Ok(String::from_str("visible"))
    } else if str_eq(s, "scroll") {
        Ok(String::from_str("scroll"))
    } else {
        Err(CompileError::UnknownValue)
    }
}

/// How content overflowing a box is treated. A raw value passes through unresolved.
pub fn get_overflow_value(value: &Value) -> (r: Result<String, CompileError>)
    ensures
        resolved_as(r, spec_overflow_value(value@), CompileError::UnknownValue),
{
    match value {
        Value::Raw(raw) => Ok(raw.clone()),
        Value::Iden(iden) => get_overflow_value_iden(iden.as_str()),
    }
}

/// Content distribution along an axis, for identifier values.
pub open spec fn spec_justify_align_content_value_iden(s: Seq<char>) -> Option<Seq<char>> {
    if s == "start"@ {
        Some("flex-start"@)
    } else if s == "end"@ {
        Some("flex-end"@)
    } else if s == "center"@ {
        Some("center"@)
    } else if s == "between"@ {
        Some("space-between"@)
    } else if s == "around"@ {
        Some("space-around"@)
    } else if s == "evenly"@ {
        Some("space-evenly"@)
    } else {
        None
    }
}

/// Content distribution along an axis.
pub open spec fn spec_justify_align_content_value(v: ValueV) -> Option<Seq<char>> {
    match v {
        ValueV::Raw(raw) => Some(raw),
        ValueV::Iden(s) => spec_justify_align_content_value_iden(s),
    }
}

fn get_justify_align_content_value_iden(s: &str) -> (r: Result<String, CompileError>)
    ensures
        resolved_as(r, spec_justify_align_content_value_iden(s@), CompileError::UnknownValue),
{
    if str_eq(s, "start") {
        Ok(String::from_str("flex-start"))
    } else if str_eq(s, "end") {
        Ok(String::from_str("flex-end"))
    } else if str_eq(s, "center") {
        Ok(String::from_str("center"))
    } else if str_eq(s, "between") {
        Ok(String::from_str("space-between"))
    } else if str_eq(s, "around") {
        Ok(String::from_str("space-around"))
    } else if str_eq(s, "evenly") {
        Ok(String::from_str("space-evenly"))
    } else {
        Err(CompileError::UnknownValue)
    }
}

/// Content distribution along an axis. A raw value passes through unresolved.
pub fn get_justify_align_content_value(value: &Value) -> (r: Result<String, CompileError>)
    ensures
        resolved_as(r, spec_justify_align_content_value(value@), CompileError::UnknownValue),
{
    match value {
        Value::Raw(raw) => Ok(raw.clone()),
        Value::Iden(iden) => get_justify_align_content_value_iden(iden.as_str()),
    }
}

/// Item justification inside a grid area, for identifier values.
pub open spec fn spec_justify_items_value_iden(s: Seq<char>) -> Option<Seq<char>> {
    if s == "start"@ {
        Some("start"@)
    } else if s == "end"@ {
        Some("end"@)
    } else if s == "center"@ {
        Some("center"@)
    } else if s == "stretch"@ {
        Some("stretch"@)
    } else {
        None
    }
}

/// Item justification inside a grid area.
pub open spec fn spec_justify_items_value(v: ValueV) -> Option<Seq<char>> {
    match v {
        ValueV::Raw(raw) => Some(raw),
        ValueV::Iden(s) => spec_justify_items_value_iden(s),
    }
}

fn get_justify_items_value_iden(s: &str) -> (r: Result<String, CompileError>)
    ensures
        resolved_as(r, spec_justify_items_value_iden(s@), CompileError::UnknownValue),
{
    if str_eq(s, "start") {
        Ok(String::from_str("start"))
    } else if str_eq(s, "end") {
        Ok(String::from_str("end"))
    } else if str_eq(s, "center") {
        Ok(String::from_str("center"))
    } else if str_eq(s, "stretch") {
        Ok(String::from_str("stretch"))
    } else {
        Err(CompileError::UnknownValue)
    }
}

/// Item justification inside a grid area. A raw value passes through unresolved.
pub fn get_justify_items_value(value: &Value) -> (r: Result<String, CompileError>)
    ensures
        resolved_as(r, spec_justify_items_value(value@), CompileError::UnknownValue),
{
    match value {
        Value::Raw(raw) => Ok(raw.clone()),
        Value::Iden(iden) => get_justify_items_value_iden(iden.as_str()),
    }
}

/// Item alignment on the cross axis, for identifier values.
pub open spec fn spec_align_items_value_iden(s: Seq<char>) -> Option<Seq<char>> {
    if s == "start"@ {
        Some("flex-start"@)
    } else if s == "end"@ {
        Some("flex-end"@)
    } else if s == "center"@ {
        Some("center"@)
    } else if s == "baseline"@ {
        Some("baseline"@)
    } else if s == "stretch"@ {
        Some("stretch"@)
    } else {
        None
    }
}

/// Item alignment on the cross axis.
pub open spec fn spec_align_items_value(v: ValueV) -> Option<Seq<char>> {
    match v {
        ValueV::Raw(raw) => Some(raw),
        ValueV::Iden(s) => spec_align_items_value_iden(s),
    }
}

fn get_align_items_value_iden(s: &str) -> (r: Result<String, CompileError>)
    ensures
        resolved_as(r, spec_align_items_value_iden(s@), CompileError::UnknownValue),
{
    if str_eq(s, "start") {
        Ok(String::from_str("flex-start"))
    } else if str_eq(s, "end") {
        Ok(String::from_str("flex-end"))
    } else if str_eq(s, "center") {
        Ok(String::from_str("center"))
    } else if str_eq(s, "baseline") {
        Ok(String::from_str("baseline"))
    } else if str_eq(s, "stretch") {
        Ok(String::from_str("stretch"))
    } else {
        Err(CompileError::UnknownValue)
    }
}

/// Item alignment on the cross axis. A raw value passes through unresolved.
pub fn get_align_items_value(value: &Value) -> (r: Result<String, CompileError>)
    ensures
        resolved_as(r, spec_align_items_value(value@), CompileError::UnknownValue),
{
    match value {
        Value::Raw(raw) => Ok(raw.clone()),
        Value::Iden(iden) => get_align_items_value_iden(iden.as_str()),
    }
}

/// The keyword `auto`, for identifier values.
pub open spec fn spec_auto_value_iden(s: Seq<char>) -> Option<Seq<char>> {
    if s == "auto"@ {
        Some("auto"@)
    } else {
        None
    }
}

/// The keyword `auto`.
pub open spec fn spec_auto_value(v: ValueV) -> Option<Seq<char>> {
    match v {
        ValueV::Raw(raw) => Some(raw),
        ValueV::Iden(s) => spec_auto_value_iden(s),
    }
}

fn get_auto_value_iden(s: &str) -> (r: Result<String, CompileError>)
    ensures
        resolved_as(r, spec_auto_value_iden(s@), CompileError::UnknownValue),
{
    if str_eq(s, "auto") {
        Ok(String::from_str("auto"))
    } else {
        Err(CompileError::UnknownValue)
    }
}

/// The keyword `auto`. A raw value passes through unresolved.
pub fn get_auto_value(value: &Value) -> (r: Result<String, CompileError>)
    ensures
        resolved_as(r, spec_auto_value(value@), CompileError::UnknownValue),
{
    match value {
        Value::Raw(raw) => Ok(raw.clone()),
        Value::Iden(iden) => get_auto_value_iden(iden.as_str()),
    }
}

/// Viewport-relative widths, for identifier values.
pub open spec fn spec_width_value_iden(s: Seq<char>) -> Option<Seq<char>> {
    if s == "screen"@ {
        Some("100vw"@)
    } else {
        None
    }
}

/// Viewport-relative widths.
pub open spec fn spec_width_value(v: ValueV) -> Option<Seq<char>> {
    match v {
        ValueV::Raw(raw) => Some(raw),
        ValueV::Iden(s) => spec_width_value_iden(s),
    }
}

fn get_width_value_iden(s: &str) -> (r: Result<String, CompileError>)
    ensures
        resolved_as(r, spec_width_value_iden(s@), CompileError::UnknownValue),
{
    if str_eq(s, "screen") {
        Ok(String::from_str("100vw"))
    } else {
        Err(CompileError::UnknownValue)
    }
}

/// Viewport-relative widths. A raw value passes through unresolved.
pub fn get_width_value(value: &Value) -> (r: Result<String, CompileError>)
    ensures
        resolved_as(r, spec_width_value(value@), CompileError::UnknownValue),
{
    match value {
        Value::Raw(raw) => Ok(raw.clone()),
        Value::Iden(iden) => get_width_value_iden(iden.as_str()),
    }
}

/// Viewport-relative heights, for identifier values.
pub open spec fn spec_height_value_iden(s: Seq<char>) -> Option<Seq<char>> {
    if s == "screen"@ {
        Some("100vh"@)
    } else {
        None
    }
}

/// Viewport-relative heights.
pub open spec fn spec_height_value(v: ValueV) -> Option<Seq<char>> {
    match v {
        ValueV::Raw(raw) => Some(raw),
        ValueV::Iden(s) => spec_height_value_iden(s),
    }
}

fn get_height_value_iden(s: &str) -> (r: Result<String, CompileError>)
    ensures
        resolved_as(r, spec_height_value_iden(s@), CompileError::UnknownValue),
{
    if str_eq(s, "screen") {
        Ok(String::from_str("100vh"))
    } else {
        Err(CompileError::UnknownValue)
    }
}

/// Viewport-relative heights. A raw value passes through unresolved.
pub fn get_height_value(value: &Value) -> (r: Result<String, CompileError>)
    ensures
        resolved_as(r, spec_height_value(value@), CompileError::UnknownValue),
{
    match value {
        Value::Raw(raw) => Ok(raw.clone()),
        Value::Iden(iden) => get_height_value_iden(iden.as_str()),
    }
}

/// The maximum-width scale, for identifier values.
pub open spec fn spec_max_width_value_iden(s: Seq<char>) -> Option<Seq<char>> {
    if s == "0"@ {
        Some("0rem"@)
    } else if s == "none"@ {
        Some("none"@)
    } else if s == "xs"@ {
        Some("20rem"@)
    } else if s == "sm"@ {
        Some("24rem"@)
    } else if s == "md"@ {
        Some("28rem"@)
    } else if s == "lg"@ {
        Some("32rem"@)
    } else if s == "xl"@ {
        Some("36rem"@)
    } else if s == "2xl"@ {
        Some("42rem"@)
    } else if s == "3xl"@ {
        Some("48rem"@)
    } else if s == "4xl"@ {
        Some("56rem"@)
    } else if s == "5xl"@ {
        Some("64rem"@)
    } else if s == "6xl"@ {
        Some("72rem"@)
    } else if s == "7xl"@ {
        Some("80rem"@)
    } else if s == "full"@ {
        Some("100%"@)
    } else if s == "min"@ {
        Some("min-content"@)
    } else if s == "max"@ {
        Some("max-content"@)
    } else if s == "fit"@ {
        Some("fit-content"@)
    } else if s == "prose"@ {
        Some("65ch"@)
    } else if s == "screen-sm"@ {
        Some("640px"@)
    } else if s == "screen-md"@ {
        Some("768px"@)
    } else if s == "screen-lg"@ {
        Some("1024px"@)
    } else if s == "screen-xl"@ {
        Some("1280px"@)
    } else if s == "screen-2xl"@ {
        Some("1536px"@)
    } else {
        None
    }
}

/// The maximum-width scale.
pub open spec fn spec_max_width_value(v: ValueV) -> Option<Seq<char>> {
    match v {
        ValueV::Raw(raw) => Some(raw),
        ValueV::Iden(s) => spec_max_width_value_iden(s),
    }
}

fn get_max_width_value_iden(s: &str) -> (r: Result<String, CompileError>)
    ensures
        resolved_as(r, spec_max_width_value_iden(s@), CompileError::UnknownValue),
{
    if str_eq(s, "0") {
        Ok(String::from_str("0rem"))
    } else if str_eq(s, "none") {
        Ok(String::from_str("none"))
    } else if str_eq(s, "xs") {
        Ok(String::from_str("20rem"))
    } else if str_eq(s, "sm") {
        Ok(String::from_str("24rem"))
    } else if str_eq(s, "md") {
        Ok(String::from_str("28rem"))
    } else if str_eq(s, "lg") {
        Ok(String::from_str("32rem"))
    } else if str_eq(s, "xl") {
        Ok(String::from_str("36rem"))
    } else if str_eq(s, "2xl") {
        Ok(String::from_str("42rem"))
    } else if str_eq(s, "3xl") {
        Ok(String::from_str("48rem"))
    } else if str_eq(s, "4xl") {
        Ok(String::from_str("56rem"))
    } else if str_eq(s, "5xl") {
        Ok(String::from_str("64rem"))
    } else if str_eq(s, "6xl") {
        Ok(String::from_str("72rem"))
    } else if str_eq(s, "7xl") {
        Ok(String::from_str("80rem"))
    } else if str_eq(s, "full") {
        Ok(String::from_str("100%"))
    } else if str_eq(s, "min") {
        Ok(String::from_str("min-content"))
    } else if str_eq(s, "max") {
        Ok(String::from_str("max-content"))
    } else if str_eq(s, "fit") {
        Ok(String::from_str("fit-content"))
    } else if str_eq(s, "prose") {
        Ok(String::from_str("65ch"))
    } else if str_eq(s, "screen-sm") {
        Ok(String::from_str("640px"))
    } else if str_eq(s, "screen-md") {
        Ok(String::from_str("768px"))
    } else if str_eq(s, "screen-lg") {
        Ok(String::from_str("1024px"))
    } else if str_eq(s, "screen-xl") {
        Ok(String::from_str("1280px"))
    } else if str_eq(s, "screen-2xl") {
        Ok(String::from_str("1536px"))
    } else {
        Err(CompileError::UnknownValue)
    }
}

/// The maximum-width scale. A raw value passes through unresolved.
pub fn get_max_width_value(value: &Value) -> (r: Result<String, CompileError>)
    ensures
        resolved_as(r, spec_max_width_value(value@), CompileError::UnknownValue),
{
    match value {
        Value::Raw(raw) => Ok(raw.clone()),
        Value::Iden(iden) => get_max_width_value_iden(iden.as_str()),
    }
}

/// The flex shorthand scale, for identifier values.
pub open spec fn spec_flex_value_iden(s: Seq<char>) -> Option<Seq<char>> {
    if s == "1"@ {
        Some("1 1 0%"@)
    } else if s == "auto"@ {
        Some("1 1 auto"@)
    } else if s == "initial"@ {
        Some("0 1 auto"@)
    } else if s == "none"@ {
        Some("none"@)
    } else {
        None
    }
}

/// The flex shorthand scale.
pub open spec fn spec_flex_value(v: ValueV) -> Option<Seq<char>> {
    match v {
        ValueV::Raw(raw) => Some(raw),
        ValueV::Iden(s) => spec_flex_value_iden(s),
    }
}

fn get_flex_value_iden(s: &str) -> (r: Result<String, CompileError>)
    ensures
        resolved_as(r, spec_flex_value_iden(s@), CompileError::UnknownValue),
{
    if str_eq(s, "1") {
        Ok(String::from_str("1 1 0%"))
    } else if str_eq(s, "auto") {
        Ok(String::from_str("1 1 auto"))
    } else if str_eq(s, "initial") {
        Ok(String::from_str("0 1 auto"))
    } else if str_eq(s, "none") {
        Ok(String::from_str("none"))
    } else {
        Err(CompileError::UnknownValue)
    }
}

/// The flex shorthand scale. A raw value passes through unresolved.
pub fn get_flex_value(value: &Value) -> (r: Result<String, CompileError>)
    ensures
        resolved_as(r, spec_flex_value(value@), CompileError::UnknownValue),
{
    match value {
        Value::Raw(raw) => Ok(raw.clone()),
        Value::Iden(iden) => get_flex_value_iden(iden.as_str()),
    }
}

/// Flex directions, for identifier values.
pub open spec fn spec_flex_dir_value_iden(s: Seq<char>) -> Option<Seq<char>> {
    if s == "row"@ {
        Some("row"@)
    } else if s == "-row"@ {
        Some("row-reverse"@)
    } else if s == "col"@ {
        Some("column"@)
    } else if s == "-col"@ {
        Some("column-reverse"@)
    } else {
        None
    }
}

/// Flex directions.
pub open spec fn spec_flex_dir_value(v: ValueV) -> Option<Seq<char>> {
    match v {
        ValueV::Raw(raw) => Some(raw),
        ValueV::Iden(s) => spec_flex_dir_value_iden(s),
    }
}

fn get_flex_dir_value_iden(s: &str) -> (r: Result<String, CompileError>)
    ensures
        resolved_as(r, spec_flex_dir_value_iden(s@), CompileError::UnknownValue),
{
    if str_eq(s, "row") {
        Ok(String::from_str("row"))
    } else if str_eq(s, "-row") {
        Ok(String::from_str("row-reverse"))
    } else if str_eq(s, "col") {
        Ok(String::from_str("column"))
    } else if str_eq(s, "-col") {
        Ok(String::from_str("column-reverse"))
    } else {
        Err(CompileError::UnknownValue)
    }
}

/// Flex directions. A raw value passes through unresolved.
pub fn get_flex_dir_value(value: &Value) -> (r: Result<String, CompileError>)
    ensures
        resolved_as(r, spec_flex_dir_value(value@), CompileError::UnknownValue),
{
    match value {
        Value::Raw(raw) => Ok(raw.clone()),
        Value::Iden(iden) => get_flex_dir_value_iden(iden.as_str()),
    }
}

/// Flex wrapping, for identifier values.
pub open spec fn spec_flex_wrap_value_iden(s: Seq<char>) -> Option<Seq<char>> {
    if s == "wrap"@ {
        Some("wrap"@)
    } else if s == "-wrap"@ {
        Some("wrap-reverse"@)
    } else if s == "nowrap"@ {
        Some("nowrap"@)
    } else {
        None
    }
}

/// Flex wrapping.
pub open spec fn spec_flex_wrap_value(v: ValueV) -> Option<Seq<char>> {
    match v {
        ValueV::Raw(raw) => Some(raw),
        ValueV::Iden(s) => spec_flex_wrap_value_iden(s),
    }
}

fn get_flex_wrap_value_iden(s: &str) -> (r: Result<String, CompileError>)
    ensures
        resolved_as(r, spec_flex_wrap_value_iden(s@), CompileError::UnknownValue),
{
    if str_eq(s, "wrap") {
        Ok(String::from_str("wrap"))
    } else if str_eq(s, "-wrap") {
        Ok(String::from_str("wrap-reverse"))
    } else if str_eq(s, "nowrap") {
        Ok(String::from_str("nowrap"))
    } else {
        Err(CompileError::UnknownValue)
    }
}

/// Flex wrapping. A raw value passes through unresolved.
pub fn get_flex_wrap_value(value: &Value) -> (r: Result<String, CompileError>)
    ensures
        resolved_as(r, spec_flex_wrap_value(value@), CompileError::UnknownValue),
{
    match value {
        Value::Raw(raw) => Ok(raw.clone()),
        Value::Iden(iden) => get_flex_wrap_value_iden(iden.as_str()),
    }
}

/// Flex grow and shrink factors, for identifier values.
pub open spec fn spec_flex_shrink_grow_value_iden(s: Seq<char>) -> Option<Seq<char>> {
    if s == "1"@ {
        Some("1"@)
    } else if s == "0"@ {
        Some("0"@)
    } else {
        None
    }
}

/// Flex grow and shrink factors.
pub open spec fn spec_flex_shrink_grow_value(v: ValueV) -> Option<Seq<char>> {
    match v {
        ValueV::Raw(raw) => Some(raw),
        ValueV::Iden(s) => spec_flex_shrink_grow_value_iden(s),
    }
}

fn get_flex_shrink_grow_value_iden(s: &str) -> (r: Result<String, CompileError>)
    ensures
        resolved_as(r, spec_flex_shrink_grow_value_iden(s@), CompileError::UnknownValue),
{
    if str_eq(s, "1") {
        Ok(String::from_str("1"))
    } else if str_eq(s, "0") {
        Ok(String::from_str("0"))
    } else {
        Err(CompileError::UnknownValue)
    }
}

/// Flex grow and shrink factors. A raw value passes through unresolved.
pub fn get_flex_shrink_grow_value(value: &Value) -> (r: Result<String, CompileError>)
    ensures
        resolved_as(r, spec_flex_shrink_grow_value(value@), CompileError::UnknownValue),
{
    match value {
        Value::Raw(raw) => Ok(raw.clone()),
        Value::Iden(iden) => get_flex_shrink_grow_value_iden(iden.as_str()),
    }
}

/// The font-family stacks, for identifier values.
pub open spec fn spec_font_family_value_iden(s: Seq<char>) -> Option<Seq<char>> {
    if s == "sans"@ {
        Some("ui-sans-serif, system-ui, -apple-system, BlinkMacSystemFont, \"Segoe UI\", Roboto, \"Helvetica Neue\", Arial, \"Noto Sans\", sans-serif, \"Apple Color Emoji\", \"Segoe UI Emoji\", \"Segoe UI Symbol\", \"Noto Color Emoji\""@)
    } else if s == "serif"@ {
        Some("ui-serif, Georgia, Cambria, \"Times New Roman\", Times, serif"@)
    } else if s == "mono"@ {
        Some("ui-monospace, SFMono-Regular, Menlo, Monaco, Consolas, \"Liberation Mono\", \"Courier New\", monospace"@)
    } else {
        None
    }
}

/// The font-family stacks.
pub open spec fn spec_font_family_value(v: ValueV) -> Option<Seq<char>> {
    match v {
        ValueV::Raw(raw) => Some(raw),
        ValueV::Iden(s) => spec_font_family_value_iden(s),
    }
}

fn get_font_family_value_iden(s: &str) -> (r: Result<String, CompileError>)
    ensures
        resolved_as(r, spec_font_family_value_iden(s@), CompileError::UnknownValue),
{
    if str_eq(s, "sans") {
        Ok(String::from_str("ui-sans-serif, system-ui, -apple-system, BlinkMacSystemFont, \"Segoe UI\", Roboto, \"Helvetica Neue\", Arial, \"Noto Sans\", sans-serif, \"Apple Color Emoji\", \"Segoe UI Emoji\", \"Segoe UI Symbol\", \"Noto Color Emoji\""))
    } else if str_eq(s, "serif") {
        Ok(String::from_str("ui-serif, Georgia, Cambria, \"Times New Roman\", Times, serif"))
    } else if str_eq(s, "mono") {
        Ok(String::from_str("ui-monospace, SFMono-Regular, Menlo, Monaco, Consolas, \"Liberation Mono\", \"Courier New\", monospace"))
    } else {
        Err(CompileError::UnknownValue)
    }
}

/// The font-family stacks. A raw value passes through unresolved.
pub fn get_font_family_value(value: &Value) -> (r: Result<String, CompileError>)
    ensures
        resolved_as(r, spec_font_family_value(value@), CompileError::UnknownValue),
{
    match value {
        Value::Raw(raw) => Ok(raw.clone()),
        Value::Iden(iden) => get_font_family_value_iden(iden.as_str()),
    }
}

/// The font-size scale, for identifier values.
pub open spec fn spec_font_size_value_iden(s: Seq<char>) -> Option<Seq<char>> {
    if s == "xs"@ {
        Some("0.75rem"@)
    } else if s == "sm"@ {
        Some("0.875rem"@)
    } else if s == "base"@ {
        Some("1rem"@)
    } else if s == "lg"@ {
        Some("1.125rem"@)
    } else if s == "xl"@ {
        Some("1.25rem"@)
    } else if s == "2xl"@ {
        Some("1.5rem"@)
    } else if s == "3xl"@ {
        Some("1.875rem"@)
    } else if s == "4xl"@ {
        Some("2.25rem"@)
    } else if s == "5xl"@ {
        Some("3rem"@)
    } else if s == "6xl"@ {
        Some("3.75rem"@)
    } else if s == "7xl"@ {
        Some("4.5rem"@)
    } else if s == "8xl"@ {
        Some("6rem"@)
    } else if s == "9xl"@ {
        Some("8rem"@)
    } else {
        None
    }
}

/// The font-size scale.
pub open spec fn spec_font_size_value(v: ValueV) -> Option<Seq<char>> {
    match v {
        ValueV::Raw(raw) => Some(raw),
        ValueV::Iden(s) => spec_font_size_value_iden(s),
    }
}

fn get_font_size_value_iden(s: &str) -> (r: Result<String, CompileError>)
    ensures
        resolved_as(r, spec_font_size_value_iden(s@), CompileError::UnknownValue),
{
    if str_eq(s, "xs") {
        Ok(String::from_str("0.75rem"))
    } else if str_eq(s, "sm") {
        Ok(String::from_str("0.875rem"))
    } else if str_eq(s, "base") {
        Ok(String::from_str("1rem"))
    } else if str_eq(s, "lg") {
        Ok(String::from_str("1.125rem"))
    } else if str_eq(s, "xl") {
        Ok(String::from_str("1.25rem"))
    } else if str_eq(s, "2xl") {
        Ok(String::from_str("1.5rem"))
    } else if str_eq(s, "3xl") {
        Ok(String::from_str("1.875rem"))
    } else if str_eq(s, "4xl") {
        Ok(String::from_str("2.25rem"))
    } else if str_eq(s, "5xl") {
        Ok(String::from_str("3rem"))
    } else if str_eq(s, "6xl") {
        Ok(String::from_str("3.75rem"))
    } else if str_eq(s, "7xl") {
        Ok(String::from_str("4.5rem"))
    } else if str_eq(s, "8xl") {
        Ok(String::from_str("6rem"))
    } else if str_eq(s, "9xl") {
        Ok(String::from_str("8rem"))
    } else {
        Err(CompileError::UnknownValue)
    }
}

/// The font-size scale. A raw value passes through unresolved.
pub fn get_font_size_value(value: &Value) -> (r: Result<String, CompileError>)
    ensures
        resolved_as(r, spec_font_size_value(value@), CompileError::UnknownValue),
{
    match value {
        Value::Raw(raw) => Ok(raw.clone()),
        Value::Iden(iden) => get_font_size_value_iden(iden.as_str()),
    }
}

/// The line-height paired with each font size, for identifier values.
pub open spec fn spec_font_size_line_height_value_iden(s: Seq<char>) -> Option<Seq<char>> {
    if s == "xs"@ {
        Some("1rem"@)
    } else if s == "sm"@ {
        Some("1.25rem"@)
    } else if s == "base"@ {
        Some("1.5rem"@)
    } else if s == "lg"@ {
        Some("1.75rem"@)
    } else if s == "xl"@ {
        Some("1.75rem"@)
    } else if s == "2xl"@ {
        Some("2rem"@)
    } else if s == "3xl"@ {
        Some("2.25rem"@)
    } else if s == "4xl"@ {
        Some("2.5rem"@)
    } else if s == "5xl"@ {
        Some("1"@)
    } else if s == "6xl"@ {
        Some("1"@)
    } else if s == "7xl"@ {
        Some("1"@)
    } else if s == "8xl"@ {
        Some("1"@)
    } else if s == "9xl"@ {
        Some("1"@)
    } else {
        None
    }
}

/// The line-height paired with each font size.
pub open spec fn spec_font_size_line_height_value(v: ValueV) -> Option<Seq<char>> {
    match v {
        ValueV::Raw(raw) => Some(raw),
        ValueV::Iden(s) => spec_font_size_line_height_value_iden(s),
    }
}

fn get_font_size_line_height_value_iden(s: &str) -> (r: Result<String, CompileError>)
    ensures
        resolved_as(r, spec_font_size_line_height_value_iden(s@), CompileError::UnknownValue),
{
    if str_eq(s, "xs") {
        Ok(String::from_str("1rem"))
    } else if str_eq(s, "sm") {
        Ok(String::from_str("1.25rem"))
    } else if str_eq(s, "base") {
        Ok(String::from_str("1.5rem"))
    } else if str_eq(s, "lg") {
        Ok(String::from_str("1.75rem"))
    } else if str_eq(s, "xl") {
        Ok(String::from_str("1.75rem"))
    } else if str_eq(s, "2xl") {
        Ok(String::from_str("2rem"))
    } else if str_eq(s, "3xl") {
        Ok(String::from_str("2.25rem"))
    } else if str_eq(s, "4xl") {
        Ok(String::from_str("2.5rem"))
    } else if str_eq(s, "5xl") {
        Ok(String::from_str("1"))
    } else if str_eq(s, "6xl") {
        Ok(String::from_str("1"))
    } else if str_eq(s, "7xl") {
        Ok(String::from_str("1"))
    } else if str_eq(s, "8xl") {
        Ok(String::from_str("1"))
    } else if str_eq(s, "9xl") {
        Ok(String::from_str("1"))
    } else {
        Err(CompileError::UnknownValue)
    }
}

/// The line-height paired with each font size. A raw value passes through unresolved.
pub fn get_font_size_line_height_value(value: &Value) -> (r: Result<String, CompileError>)
    ensures
        resolved_as(r, spec_font_size_line_height_value(value@), CompileError::UnknownValue),
{
    match value {
        Value::Raw(raw) => Ok(raw.clone()),
        Value::Iden(iden) => get_font_size_line_height_value_iden(iden.as_str()),
    }
}

/// The font-weight scale, by name or number, for identifier values.
pub open spec fn spec_font_weight_value_iden(s: Seq<char>) -> Option<Seq<char>> {
    if s == "thin"@ {
        Some("100"@)
    } else if s == "100"@ {
        Some("100"@)
    } else if s == "extralight"@ {
        Some("200"@)
    } else if s == "200"@ {
        Some("200"@)
    } else if s == "light"@ {
        Some("300"@)
    } else if s == "300"@ {
        Some("300"@)
    } else if s == "normal"@ {
        Some("400"@)
    } else if s == "400"@ {
        Some("400"@)
    } else if s == "medium"@ {
        Some("500"@)
    } else if s == "500"@ {
        Some("500"@)
    } else if s == "semibold"@ {
        Some("600"@)
    } else if s == "600"@ {
        Some("600"@)
    } else if s == "bold"@ {
        Some("700"@)
    } else if s == "700"@ {
        Some("700"@)
    } else if s == "extrabold"@ {
        Some("800"@)
    } else if s == "800"@ {
        Some("800"@)
    } else if s == "black"@ {
        Some("900"@)
    } else if s == "900"@ {
        Some("900"@)
    } else {
        None
    }
}

/// The font-weight scale, by name or number.
pub open spec fn spec_font_weight_value(v: ValueV) -> Option<Seq<char>> {
    match v {
        ValueV::Raw(raw) => Some(raw),
        ValueV::Iden(s) => spec_font_weight_value_iden(s),
    }
}

fn get_font_weight_value_iden(s: &str) -> (r: Result<String, CompileError>)
    ensures
        resolved_as(r, spec_font_weight_value_iden(s@), CompileError::UnknownValue),
{
    if str_eq(s, "thin") {
        Ok(String::from_str("100"))
    } else if str_eq(s, "100") {
        Ok(String::from_str("100"))
    } else if str_eq(s, "extralight") {
        Ok(String::from_str("200"))
    } else if str_eq(s, "200") {
        Ok(String::from_str("200"))
    } else if str_eq(s, "light") {
        Ok(String::from_str("300"))
    } else if str_eq(s, "300") {
        Ok(String::from_str("300"))
    } else if str_eq(s, "normal") {
        Ok(String::from_str("400"))
    } else if str_eq(s, "400") {
        Ok(String::from_str("400"))
    } else if str_eq(s, "medium") {
        Ok(String::from_str("500"))
    } else if str_eq(s, "500") {
        Ok(String::from_str("500"))
    } else if str_eq(s, "semibold") {
        Ok(String::from_str("600"))
    } else if str_eq(s, "600") {
        Ok(String::from_str("600"))
    } else if str_eq(s, "bold") {
        Ok(String::from_str("700"))
    } else if str_eq(s, "700") {
        Ok(String::from_str("700"))
    } else if str_eq(s, "extrabold") {
        Ok(String::from_str("800"))
    } else if str_eq(s, "800") {
        Ok(String::from_str("800"))
    } else if str_eq(s, "black") {
        Ok(String::from_str("900"))
    } else if str_eq(s, "900") {
        Ok(String::from_str("900"))
    } else {
        Err(CompileError::UnknownValue)
    }
}

/// The font-weight scale, by name or number. A raw value passes through unresolved.
pub fn get_font_weight_value(value: &Value) -> (r: Result<String, CompileError>)
    ensures
        resolved_as(r, spec_font_weight_value(value@), CompileError::UnknownValue),
{
    match value {
        Value::Raw(raw) => Ok(raw.clone()),
        Value::Iden(iden) => get_font_weight_value_iden(iden.as_str()),
    }
}

/// Text alignment, for identifier values.
pub open spec fn spec_text_align_value_iden(s: Seq<char>) -> Option<Seq<char>> {
    if s == "left"@ {
        Some("left"@)
    } else if s == "center"@ {
        Some("center"@)
    } else if s == "right"@ {
        Some("right"@)
    } else if s == "justify"@ {
        Some("justify"@)
    } else {
        None
    }
}

/// Text alignment.
pub open spec fn spec_text_align_value(v: ValueV) -> Option<Seq<char>> {
    match v {
        ValueV::Raw(raw) => Some(raw),
        ValueV::Iden(s) => spec_text_align_value_iden(s),
    }
}

fn get_text_align_value_iden(s: &str) -> (r: Result<String, CompileError>)
    ensures
        resolved_as(r, spec_text_align_value_iden(s@), CompileError::UnknownValue),
{
    if str_eq(s, "left") {
        Ok(String::from_str("left"))
    } else if str_eq(s, "center") {
        Ok(String::from_str("center"))
    } else if str_eq(s, "right") {
        Ok(String::from_str("right"))
    } else if str_eq(s, "justify") {
        Ok(String::from_str("justify"))
    } else {
        Err(CompileError::UnknownValue)
    }
}

/// Text alignment. A raw value passes through unresolved.
pub fn get_text_align_value(value: &Value) -> (r: Result<String, CompileError>)
    ensures
        resolved_as(r, spec_text_align_value(value@), CompileError::UnknownValue),
{
    match value {
        Value::Raw(raw) => Ok(raw.clone()),
        Value::Iden(iden) => get_text_align_value_iden(iden.as_str()),
    }
}

/// The border-radius scale, for identifier values.
pub open spec fn spec_border_radius_value_iden(s: Seq<char>) -> Option<Seq<char>> {
    if s == "none"@ {
        Some("0px"@)
    } else if s == "sm"@ {
        Some("0.125rem"@)
    } else if s == "md"@ {
        Some("0.25rem"@)
    } else if s == "lg"@ {
        Some("0.375rem"@)
    } else if s == "xl"@ {
        Some("0.5rem"@)
    } else if s == "2xl"@ {
        Some("0.75rem"@)
    } else if s == "3xl"@ {
        Some("1rem"@)
    } else if s == "4xl"@ {
        Some("1.5rem"@)
    } else if s == "full"@ {
        Some("9999px"@)
    } else {
        None
    }
}

/// The border-radius scale.
pub open spec fn spec_border_radius_value(v: ValueV) -> Option<Seq<char>> {
    match v {
        ValueV::Raw(raw) => Some(raw),
        ValueV::Iden(s) => spec_border_radius_value_iden(s),
    }
}

fn get_border_radius_value_iden(s: &str) -> (r: Result<String, CompileError>)
    ensures
        resolved_as(r, spec_border_radius_value_iden(s@), CompileError::UnknownValue),
{
    if str_eq(s, "none") {
        Ok(String::from_str("0px"))
    } else if str_eq(s, "sm") {
        Ok(String::from_str("0.125rem"))
    } else if str_eq(s, "md") {
        Ok(String::from_str("0.25rem"))
    } else if str_eq(s, "lg") {
        Ok(String::from_str("0.375rem"))
    } else if str_eq(s, "xl") {
        Ok(String::from_str("0.5rem"))
    } else if str_eq(s, "2xl") {
        Ok(String::from_str("0.75rem"))
    } else if str_eq(s, "3xl") {
        Ok(String::from_str("1rem"))
    } else if str_eq(s, "4xl") {
        Ok(String::from_str("1.5rem"))
    } else if str_eq(s, "full") {
        Ok(String::from_str("9999px"))
    } else {
        Err(CompileError::UnknownValue)
    }
}

/// The border-radius scale. A raw value passes through unresolved.
pub fn get_border_radius_value(value: &Value) -> (r: Result<String, CompileError>)
    ensures
        resolved_as(r, spec_border_radius_value(value@), CompileError::UnknownValue),
{
    match value {
        Value::Raw(raw) => Ok(raw.clone()),
        Value::Iden(iden) => get_border_radius_value_iden(iden.as_str()),
    }
}

/// Transition timing functions, for identifier values.
pub open spec fn spec_transition_easing_value_iden(s: Seq<char>) -> Option<Seq<char>> {
    if s == "linear"@ {
        Some("linear"@)
    } else if s == "in"@ {
        Some("cubic-bezier(0.4,0,1,1)"@)
    } else if s == "out"@ {
        Some("cubic-bezier(0,0,0.2,1)"@)
    } else if s == "in-out"@ {
        Some("cubic-bezier(0.4,0,0.2,1)"@)
    } else {
        None
    }
}

/// Transition timing functions.
pub open spec fn spec_transition_easing_value(v: ValueV) -> Option<Seq<char>> {
    match v {
        ValueV::Raw(raw) => Some(raw),
        ValueV::Iden(s) => spec_transition_easing_value_iden(s),
    }
}

fn get_transition_easing_value_iden(s: &str) -> (r: Result<String, CompileError>)
    ensures
        resolved_as(r, spec_transition_easing_value_iden(s@), CompileError::UnknownValue),
{
    if str_eq(s, "linear") {
        Ok(String::from_str("linear"))
    } else if str_eq(s, "in") {
        Ok(String::from_str("cubic-bezier(0.4,0,1,1)"))
    } else if str_eq(s, "out") {
        Ok(String::from_str("cubic-bezier(0,0,0.2,1)"))
    } else if str_eq(s, "in-out") {
        Ok(String::from_str("cubic-bezier(0.4,0,0.2,1)"))
    } else {
        Err(CompileError::UnknownValue)
    }
}

/// Transition timing functions. A raw value passes through unresolved.
pub fn get_transition_easing_value(value: &Value) -> (r: Result<String, CompileError>)
    ensures
        resolved_as(r, spec_transition_easing_value(value@), CompileError::UnknownValue),
{
    match value {
        Value::Raw(raw) => Ok(raw.clone()),
        Value::Iden(iden) => get_transition_easing_value_iden(iden.as_str()),
    }
}

/// The line-height scale, for identifier values.
pub open spec fn spec_line_height_value_iden(s: Seq<char>) -> Option<Seq<char>> {
    if s == "none"@ {
        Some("1"@)
    } else if s == "tight"@ {
        Some("1.25"@)
    } else if s == "snug"@ {
        Some("1.375"@)
    } else if s == "normal"@ {
        Some("1.5"@)
    } else if s == "relaxed"@ {
        Some("1.625"@)
    } else if s == "loose"@ {
        Some("2"@)
    } else {
        None
    }
}

/// The line-height scale.
pub open spec fn spec_line_height_value(v: ValueV) -> Option<Seq<char>> {
    match v {
        ValueV::Raw(raw) => Some(raw),
        ValueV::Iden(s) => spec_line_height_value_iden(s),
    }
}

fn get_line_height_value_iden(s: &str) -> (r: Result<String, CompileError>)
    ensures
        resolved_as(r, spec_line_height_value_iden(s@), CompileError::UnknownValue),
{
    if str_eq(s, "none") {
        Ok(String::from_str("1"))
    } else if str_eq(s, "tight") {
        Ok(String::from_str("1.25"))
    } else if str_eq(s, "snug") {
        Ok(String::from_str("1.375"))
    } else if str_eq(s, "normal") {
        Ok(String::from_str("1.5"))
    } else if str_eq(s, "relaxed") {
        Ok(String::from_str("1.625"))
    } else if str_eq(s, "loose") {
        Ok(String::from_str("2"))
    } else {
        Err(CompileError::UnknownValue)
    }
}

/// The line-height scale. A raw value passes through unresolved.
pub fn get_line_height_value(value: &Value) -> (r: Result<String, CompileError>)
    ensures
        resolved_as(r, spec_line_height_value(value@), CompileError::UnknownValue),
{
    match value {
        Value::Raw(raw) => Ok(raw.clone()),
        Value::Iden(iden) => get_line_height_value_iden(iden.as_str()),
    }
}


/// The spacing scale, for identifier values: `0` and `px` are special,
/// and any other decimal is a quarter of its value in `rem`.
pub open spec fn spec_spacing_iden(s: Seq<char>) -> Option<Seq<char>> {
    if s == "0"@ {
        Some("0px"@)
    } else if s == "px"@ {
        Some("1px"@)
    } else {
        match spec_parse_decimal(s) {
            None => None,
            Some((neg, m, k)) => Some(render_scaled(neg, m * 25, k + 2) + "rem"@),
        }
    }
}

/// The spacing scale.
pub open spec fn spec_spacing_value(v: ValueV) -> Option<Seq<char>> {
    match v {
        ValueV::Raw(raw) => Some(raw),
        ValueV::Iden(s) => spec_spacing_iden(s),
    }
}

/// The spacing scale. A raw value passes through unresolved.
pub fn get_spacing_value(value: &Value) -> (r: Result<String, CompileError>)
    ensures
        resolved_as(r, spec_spacing_value(value@), CompileError::UnknownValue),
{
    match value {
        Value::Raw(raw) => Ok(raw.clone()),
        Value::Iden(iden) => {
            let s = iden.as_str();
            if str_eq(s, "0") {
                Ok(String::from_str("0px"))
            } else if str_eq(s, "px") {
                Ok(String::from_str("1px"))
            } else {
                match parse_decimal(s) {
                    None => Err(CompileError::UnknownValue),
                    Some((neg, m, k)) => {
                        proof {
                            assert(pow10(max_digits()) == 1000000000000) by {
                                reveal_with_fuel(pow10, 14);
                            }
                            lemma_mul_le(m as nat, pow10(max_digits()), 25, 25);
                        }
                        let scaled = m * 25;
                        let mut out = String::new();
                        push_scaled(&mut out, neg, scaled, k + 2);
                        out.append("rem");
                        proof {
                            assert(out@ =~= render_scaled(neg, (m * 25) as nat, (k + 2) as nat)
                                + "rem"@);
                        }
                        Ok(out)
                    },
                }
            }
        },
    }
}

/// A plain number with a unit, for identifier values.
pub open spec fn spec_number_iden(s: Seq<char>, unit: Seq<char>) -> Option<Seq<char>> {
    match spec_parse_decimal(s) {
        None => None,
        Some((neg, m, k)) => Some(render_scaled(neg, m, k) + unit),
    }
}

/// A plain number with a unit.
pub open spec fn spec_number_value(v: ValueV, unit: Seq<char>) -> Option<Seq<char>> {
    match v {
        ValueV::Raw(raw) => Some(raw),
        ValueV::Iden(s) => spec_number_iden(s, unit),
    }
}

/// A plain decimal number rendered with the given unit. A raw value
/// passes through unresolved.
pub fn get_number_value(value: &Value, unit: &str) -> (r: Result<String, CompileError>)
    ensures
        resolved_as(r, spec_number_value(value@, unit@), CompileError::UnknownValue),
{
    match value {
        Value::Raw(raw) => Ok(raw.clone()),
        Value::Iden(iden) => {
            let s = iden.as_str();
            match parse_decimal(s) {
                None => Err(CompileError::UnknownValue),
                Some((neg, m, k)) => {
                    let mut out = String::new();
                    push_scaled(&mut out, neg, m, k);
                    out.append(unit);
                    proof {
                        assert(out@ =~= render_scaled(neg, m as nat, k as nat) + unit@);
                    }
                    Ok(out)
                },
            }
        },
    }
}

/// Grid track counts, for identifier values: a track count up to 65535
/// becomes a `repeat` template.
pub open spec fn spec_grid_cols_rows_iden(s: Seq<char>) -> Option<Seq<char>> {
    if 1 <= s.len() <= 5 && all_digits(s) && digits_to_nat(s) <= 65535 {
        Some("repeat("@ + decimal_digits(digits_to_nat(s)) + ", minmax(0, 1fr))"@)
    } else {
        None
    }
}

/// Grid track counts.
pub open spec fn spec_grid_cols_rows_value(v: ValueV) -> Option<Seq<char>> {
    match v {
        ValueV::Raw(raw) => Some(raw),
        ValueV::Iden(s) => spec_grid_cols_rows_iden(s),
    }
}

/// Grid track counts. A raw value passes through unresolved.
pub fn get_grid_cols_rows_value(value: &Value) -> (r: Result<String, CompileError>)
    ensures
        resolved_as(r, spec_grid_cols_rows_value(value@), CompileError::UnknownValue),
{
    match value {
        Value::Raw(raw) => Ok(raw.clone()),
        Value::Iden(iden) => {
            let s = iden.as_str();
            let len = s.unicode_len();
            if len < 1 || len > 5 {
                return Err(CompileError::UnknownValue);
            }
            if !check_digits(s, 0, len) {
                proof {
                    let i = choose|i: int| 0 <= i < len && !is_digit(s@[i]);
                    assert(!all_digits(s@));
                }
                return Err(CompileError::UnknownValue);
            }
            proof {
                assert(s@.subrange(0, len as int) =~= s@);
            }
            let n = scan_digits(s, 0, len);
            if n > 65535 {
                return Err(CompileError::UnknownValue);
            }
            let mut out = String::new();
            out.append("repeat(");
            push_decimal_u64(&mut out, n);
            out.append(", minmax(0, 1fr))");
            proof {
                assert(out@ =~= "repeat("@ + decimal_digits(digits_to_nat(s@)) + ", minmax(0, 1fr))"@);
            }
            Ok(out)
        },
    }
}

/// Fractional widths, for identifier values: `full` is `100%`, and a
/// fraction `a/b` is its value as a percentage, truncated to six
/// fraction digits.
pub open spec fn spec_percentage_iden(s: Seq<char>) -> Option<Seq<char>> {
    if s == "full"@ {
        Some("100%"@)
    } else {
        let slash = find_char(s, 0, '/');
        if slash >= s.len() {
            None
        } else {
            match (spec_parse_decimal(s.take(slash)), spec_parse_decimal(s.skip(slash + 1))) {
                (Some((n1, m1, k1)), Some((n2, m2, k2))) => if m2 == 0 {
                    None
                } else {
                    let num = m1 * 100 * pow10(k2) * pow10(6);
                    let den = m2 * pow10(k1);
                    let q = num / den;
                    if q >= pow10(18) {
                        None
                    } else {
                        Some(render_scaled(n1 != n2, q, 6) + "%"@)
                    }
                },
                _ => None,
            }
        }
    }
}

/// Fractional widths.
pub open spec fn spec_percentage_value(v: ValueV) -> Option<Seq<char>> {
    match v {
        ValueV::Raw(raw) => Some(raw),
        ValueV::Iden(s) => spec_percentage_iden(s),
    }
}

/// Fractional widths as percentages. A raw value passes through
/// unresolved.
#[verifier::rlimit(100)]
pub fn get_percentage_value(value: &Value) -> (r: Result<String, CompileError>)
    ensures
        resolved_as(r, spec_percentage_value(value@), CompileError::UnknownValue),
{
    match value {
        Value::Raw(raw) => Ok(raw.clone()),
        Value::Iden(iden) => {
            let s = iden.as_str();
            if str_eq(s, "full") {
                return Ok(String::from_str("100%"));
            }
            let len = s.unicode_len();
            let mut slash: usize = 0;
            while slash < len && !char_is_slash(s.get_char(slash))
                invariant
                    0 <= slash <= len,
                    len == s@.len(),
                    forall|i: int| 0 <= i < slash ==> s@[i] != '/',
                decreases len - slash,
            {
                slash = slash + 1;
            }
            proof {
                lemma_find_char_eq(s@, 0, '/', slash as int);
            }
            if slash >= len {
                return Err(CompileError::UnknownValue);
            }
            let left = s.substring_char(0, slash);
            let right = s.substring_char(slash + 1, len);
            proof {
                assert(left@ =~= s@.take(slash as int));
                assert(right@ =~= s@.skip(slash + 1));
            }
            let first = parse_decimal(left);
            let second = parse_decimal(right);
            match (first, second) {
                (Some((n1, m1, k1)), Some((n2, m2, k2))) => {
                    if m2 == 0 {
                        return Err(CompileError::UnknownValue);
                    }
                    proof {
                        assert(pow10(max_digits()) == 1000000000000) by {
                            reveal_with_fuel(pow10, 14);
                        }
                        assert(pow10(6) == 1000000) by {
                            reveal_with_fuel(pow10, 14);
                        }
                        assert(pow10(18) == 1000000000000000000) by {
                            reveal_with_fuel(pow10, 20);
                        }
                        lemma_mul_le(m1 as nat, pow10(max_digits()), 100, 100);
                        lemma_pow10_increases(k2 as nat, max_digits());
                        lemma_mul_le(
                            (m1 as nat) * 100,
                            pow10(max_digits()) * 100,
                            pow10(k2 as nat),
                            pow10(max_digits()),
                        );
                        lemma_mul_le(
                            (m1 as nat) * 100 * pow10(k2 as nat),
                            pow10(max_digits()) * 100 * pow10(max_digits()),
                            pow10(6),
                            pow10(6),
                        );
                        lemma_pow10_increases(k1 as nat, max_digits());
                        lemma_mul_le(
                            m2 as nat,
                            pow10(max_digits()),
                            pow10(k1 as nat),
                            pow10(max_digits()),
                        );
                        assert((m2 as nat) * pow10(k1 as nat) >= 1) by (nonlinear_arith)
                            requires
                                m2 >= 1,
                                pow10(k1 as nat) >= 1,
                        ;
                        lemma_pow10_pos(k1 as nat);
                    }
                    let p_k2 = pow10_u128(k2);
                    let p_k1 = pow10_u128(k1);
                    let num = (m1 as u128) * 100 * p_k2 * 1000000;
                    let den = (m2 as u128) * p_k1;
                    let q = num / den;
                    let cap = pow10_u128(18);
                    if q >= cap {
                        return Err(CompileError::UnknownValue);
                    }
                    let q64 = q as u64;
                    let mut out = String::new();
                    push_scaled(&mut out, n1 != n2, q64, 6);
                    out.append("%");
                    proof {
                        assert(out@ =~= render_scaled(n1 != n2, q as nat, 6) + "%"@);
                    }
                    Ok(out)
                },
                _ => Err(CompileError::UnknownValue),
            }
        },
    }
}

/// Whether the character is `/`.
fn char_is_slash(c: char) -> (r: bool)
    ensures
        r == (c == '/'),
{
    c == '/'
}

} // verus!
