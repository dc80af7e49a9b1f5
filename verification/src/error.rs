//! The failure taxonomy of the compiler.
//!
//! Every failure is fatal to the current compile or render call: lexing
//! errors, parse errors, the flattener's group-length mismatch, and
//! unknown names handed to the resolution tables.

use vstd::prelude::*;

verus! {

/// Why a compile or render call failed.
///
/// Each variant is produced on exactly the inputs its contract names;
/// there is no recovery mode.
#[derive(Debug, Clone, Copy, PartialEq, Eq, Structural)]
pub enum CompileError {
    /// A `[` raw escape reached end of input before its `]`.
    UnterminatedRawValue,
    /// A character outside the lexical grammar.
    UnknownCharacter,
    /// A token where the grammar required a different one, or input left
    /// over after a complete parse.
    UnexpectedToken,
    /// A variant scope with no expression after it.
    ExpectedExpr,
    /// An `=` with no value after it.
    ExpectedValue,
    /// A parenthesized value group with no slots.
    EmptyValueGroup,
    /// A second variant group in one variant list.
    SecondVariantGroup,
    /// End of input with a variant group still open.
    UnclosedVariantGroup,
    /// A value group whose length differs from its governing variant
    /// group's length.
    GroupLengthMismatch,
    /// A utility property (or property/value shape) outside the table.
    UnknownProperty,
    /// A value the recognized property does not accept.
    UnknownValue,
    /// A pseudo-class name outside the table.
    UnknownPseudo,
    /// A media-query name outside the table.
    UnknownMediaQuery,
}

impl CompileError {
    /// A short stable description, for diagnostics.
    pub fn describe(&self) -> (r: &'static str)
        ensures
            r@ == self.spec_describe(),
    {
        match self {
            CompileError::UnterminatedRawValue => "unterminated raw value",
            CompileError::UnknownCharacter => "unknown character",
            CompileError::UnexpectedToken => "unexpected token",
            CompileError::ExpectedExpr => "expected an expression",
            CompileError::ExpectedValue => "expected a value",
            CompileError::EmptyValueGroup => "empty value group",
            CompileError::SecondVariantGroup => "only one variant group allowed",
            CompileError::UnclosedVariantGroup => "unclosed variant group",
            CompileError::GroupLengthMismatch => "group length mismatch",
            CompileError::UnknownProperty => "unknown property",
            CompileError::UnknownValue => "unknown value",
            CompileError::UnknownPseudo => "unknown pseudo-class",
            CompileError::UnknownMediaQuery => "unknown media query",
        }
    }

    /// The text `describe` returns.
    pub open spec fn spec_describe(&self) -> Seq<char> {
        match self {
            CompileError::UnterminatedRawValue => "unterminated raw value"@,
            CompileError::UnknownCharacter => "unknown character"@,
            CompileError::UnexpectedToken => "unexpected token"@,
            CompileError::ExpectedExpr => "expected an expression"@,
            CompileError::ExpectedValue => "expected a value"@,
            CompileError::EmptyValueGroup => "empty value group"@,
            CompileError::SecondVariantGroup => "only one variant group allowed"@,
            CompileError::UnclosedVariantGroup => "unclosed variant group"@,
            CompileError::GroupLengthMismatch => "group length mismatch"@,
            CompileError::UnknownProperty => "unknown property"@,
            CompileError::UnknownValue => "unknown value"@,
            CompileError::UnknownPseudo => "unknown pseudo-class"@,
            CompileError::UnknownMediaQuery => "unknown media query"@,
        }
    }
}

} // verus!
