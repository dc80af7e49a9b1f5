//! The compiler: one instance owns one class-name registry and turns
//! source fragments into class names and, on demand, the stylesheet.

use vstd::prelude::*;
use crate::css_writer::{spec_generate, spec_get_css, CssWriter};
use crate::ast::FlatExprV;
use crate::error::CompileError;
use crate::lexer::{get_tokens, spec_lex};
use crate::parser::{spec_parse, Parser};

verus! {

/// What one compile call yields over a registry: lex, parse, flatten,
/// and intern, or the first error on the way.
pub open spec fn spec_compile(reg: Seq<(FlatExprV, Seq<char>)>, code: Seq<char>) -> Result<
    (Seq<(FlatExprV, Seq<char>)>, Seq<Seq<char>>),
    CompileError,
> {
    match spec_lex(code) {
        Err(e) => Err(e),
        Ok(toks) => match spec_parse(toks) {
            Err(e) => Err(e),
            Ok(es) => spec_generate(reg, es),
        },
    }
}

/// A compiler instance: the accumulating registry behind the two calls
/// of the public surface.
pub struct Compiler {
    css_writer: CssWriter,
}

impl View for Compiler {
    type V = Seq<(FlatExprV, Seq<char>)>;

    closed spec fn view(&self) -> Seq<(FlatExprV, Seq<char>)> {
        self.css_writer@
    }
}

impl Compiler {
    /// The registry is well formed.
    pub closed spec fn wf(&self) -> bool {
        self.css_writer.wf()
    }

    /// A fresh compiler with an empty registry.
    pub fn new() -> (r: Compiler)
        ensures
            r@ == Seq::<(FlatExprV, Seq<char>)>::empty(),
            r.wf(),
    {
        Compiler { css_writer: CssWriter::new() }
    }

    /// Compile one source fragment: one class name per top-level
    /// expression, in source order. Structurally identical requests
    /// reuse their first name, across calls and fragments.
    ///
    /// On any lexing, parse, or flattening error the registry is
    /// unchanged.
    pub fn generate_classes(&mut self, code: &str) -> (r: Result<Vec<String>, CompileError>)
        requires
            old(self).wf(),
        ensures
            final(self).wf(),
            match r {
                Ok(names) => spec_compile(old(self)@, code@) == Ok::<_, CompileError>(
                    (final(self)@, names.deep_view()),
                ),
                Err(e) => spec_compile(old(self)@, code@) == Err::<
                    (Seq<(FlatExprV, Seq<char>)>, Seq<Seq<char>>),
                    _,
                >(e) && final(self)@ == old(self)@,
            },
    {
        let tokens = match get_tokens(code) {
            Err(e) => {
                return Err(e);
            },
            Ok(tokens) => tokens,
        };
        let mut parser = Parser::from(tokens);
        let ast = match parser.parse() {
            Err(e) => {
                return Err(e);
            },
            Ok(ast) => ast,
        };
        self.css_writer.generate_classes(&ast)
    }

    /// Emit the stylesheet accumulated so far: deterministic, sorted
    /// CSS text reflecting every request interned up to now.
    pub fn get_css(&mut self) -> (r: Result<String, CompileError>)
        requires
            old(self).wf(),
        ensures
            final(self)@ == old(self)@,
            final(self).wf(),
            match r {
                Ok(s) => spec_get_css(old(self)@) == Ok::<Seq<char>, CompileError>(s@),
                Err(e) => spec_get_css(old(self)@) == Err::<Seq<char>, CompileError>(e),
            },
    {
        self.css_writer.get_css()
    }
}

} // verus!
