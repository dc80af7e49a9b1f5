//! The named pseudo-class selector fragments.

use vstd::prelude::*;
use vstd::string::StringExecFns;
use crate::error::CompileError;
use crate::text::str_eq;
use crate::utils::resolved_as;

verus! {

/// The selector fragment of a named pseudo-class.
pub open spec fn spec_pseudo(s: Seq<char>) -> Option<Seq<char>> {
    if s == "hover"@ {
        Some(":hover"@)
    } else if s == "focus"@ {
        Some(":focus"@)
    } else if s == "focus-within"@ {
        Some(":focus-within"@)
    } else if s == "focus-visible"@ {
        Some(":focus-visible"@)
    } else if s == "active"@ {
        Some(":active"@)
    } else if s == "visited"@ {
        Some(":visited"@)
    } else if s == "target"@ {
        Some(":target"@)
    } else if s == "first"@ {
        Some(":first-child"@)
    } else if s == "last"@ {
        Some(":last-child"@)
    } else if s == "only"@ {
        Some(":only-child"@)
    } else if s == "odd"@ {
        Some(":nth-child(odd)"@)
    } else if s == "even"@ {
        Some(":nth-child(even)"@)
    } else if s == "empty"@ {
        Some(":empty"@)
    } else if s == "disabled"@ {
        Some(":disabled"@)
    } else if s == "enabled"@ {
        Some(":enabled"@)
    } else if s == "checked"@ {
        Some(":checked"@)
    } else if s == "required"@ {
        Some(":required"@)
    } else if s == "valid"@ {
        Some(":valid"@)
    } else if s == "invalid"@ {
        Some(":invalid"@)
    } else {
        None
    }
}

/// The selector fragment of a named pseudo-class. An unknown name is fatal to the render call.
pub fn get_pseudo(name: &str) -> (r: Result<String, CompileError>)
    ensures
        resolved_as(r, spec_pseudo(name@), CompileError::UnknownPseudo),
{
    if str_eq(name, "hover") {
        Ok(String::from_str(":hover"))
    } else if str_eq(name, "focus") {
        Ok(String::from_str(":focus"))
    } else if str_eq(name, "focus-within") {
        Ok(String::from_str(":focus-within"))
    } else if str_eq(name, "focus-visible") {
        Ok(String::from_str(":focus-visible"))
    } else if str_eq(name, "active") {
        Ok(String::from_str(":active"))
    } else if str_eq(name, "visited") {
        Ok(String::from_str(":visited"))
    } else if str_eq(name, "target") {
        Ok(String::from_str(":target"))
    } else if str_eq(name, "first") {
        Ok(String::from_str(":first-child"))
    } else if str_eq(name, "last") {
        Ok(String::from_str(":last-child"))
    } else if str_eq(name, "only") {
        Ok(String::from_str(":only-child"))
    } else if str_eq(name, "odd") {
        Ok(String::from_str(":nth-child(odd)"))
    } else if str_eq(name, "even") {
        Ok(String::from_str(":nth-child(even)"))
    } else if str_eq(name, "empty") {
        Ok(String::from_str(":empty"))
    } else if str_eq(name, "disabled") {
        Ok(String::from_str(":disabled"))
    } else if str_eq(name, "enabled") {
        Ok(String::from_str(":enabled"))
    } else if str_eq(name, "checked") {
        Ok(String::from_str(":checked"))
    } else if str_eq(name, "required") {
        Ok(String::from_str(":required"))
    } else if str_eq(name, "valid") {
        Ok(String::from_str(":valid"))
    } else if str_eq(name, "invalid") {
        Ok(String::from_str(":invalid"))
    } else {
        Err(CompileError::UnknownPseudo)
    }
}

} // verus!
