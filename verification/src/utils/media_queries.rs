//! The named media-query conditions.

use vstd::prelude::*;
use vstd::string::StringExecFns;
use crate::error::CompileError;
use crate::text::str_eq;
use crate::utils::resolved_as;

verus! {

/// The media-query text of a named condition.
pub open spec fn spec_media_query(s: Seq<char>) -> Option<Seq<char>> {
    if s == "sm"@ {
        Some("(min-width:640px)"@)
    } else if s == "md"@ {
        Some("(min-width:768px)"@)
    } else if s == "lg"@ {
        Some("(min-width:1024px)"@)
    } else if s == "xl"@ {
        Some("(min-width:1280px)"@)
    } else if s == "2xl"@ {
        Some("(min-width:1536px)"@)
    } else if s == "dark"@ {
        Some("(prefers-color-scheme: dark)"@)
    } else if s == "portrait"@ {
        Some("(orientation: portrait)"@)
    } else if s == "landscape"@ {
        Some("(orientation: landscape)"@)
    } else if s == "motion-safe"@ {
        Some("(prefers-reduced-motion: no-preference)"@)
    } else if s == "motion-reduce"@ {
        Some("(prefers-reduced-motion: reduce)"@)
    } else if s == "print"@ {
        Some("print"@)
    } else {
        None
    }
}

/// The media-query text of a named condition. An unknown name is fatal to the render call.
pub fn get_media_query(name: &str) -> (r: Result<String, CompileError>)
    ensures
        resolved_as(r, spec_media_query(name@), CompileError::UnknownMediaQuery),
{
    if str_eq(name, "sm") {
        Ok(String::from_str("(min-width:640px)"))
    } else if str_eq(name, "md") {
        Ok(String::from_str("(min-width:768px)"))
    } else if str_eq(name, "lg") {
        Ok(String::from_str("(min-width:1024px)"))
    } else if str_eq(name, "xl") {
        Ok(String::from_str("(min-width:1280px)"))
    } else if str_eq(name, "2xl") {
        Ok(String::from_str("(min-width:1536px)"))
    } else if str_eq(name, "dark") {
        Ok(String::from_str("(prefers-color-scheme: dark)"))
    } else if str_eq(name, "portrait") {
        Ok(String::from_str("(orientation: portrait)"))
    } else if str_eq(name, "landscape") {
        Ok(String::from_str("(orientation: landscape)"))
    } else if str_eq(name, "motion-safe") {
        Ok(String::from_str("(prefers-reduced-motion: no-preference)"))
    } else if str_eq(name, "motion-reduce") {
        Ok(String::from_str("(prefers-reduced-motion: reduce)"))
    } else if str_eq(name, "print") {
        Ok(String::from_str("print"))
    } else {
        Err(CompileError::UnknownMediaQuery)
    }
}

} // verus!
