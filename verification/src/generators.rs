//! The generators over the frozen schema, as a closed set, and what each
//! of them gives for a schema.

use vstd::prelude::*;
use crate::assert_layouts::{assert_layouts_result, AssertLayouts, ASSERT_LAYOUTS};
use crate::ast_builder::{ast_builder_result, AstBuilderGenerator, AST_BUILDER};
use crate::ast_kind::{ast_kind_result, AstKindGenerator, AST_KIND};
use crate::context::LateCtx;
use crate::emit::outcome_view;
use crate::error::{CodegenError, CodegenErrorView};
use crate::impl_get_span::{impl_get_span_result, ImplGetSpanGenerator, IMPL_GET_SPAN};
use crate::output::{GeneratorOutput, GeneratorOutputView};
use crate::schema::{views, TypeDefView};
use crate::visit::{visit_result, VisitGenerator, VisitMutGenerator};

verus! {

/// The name of the generator of the read-only traversal.
pub const VISIT: &'static str = "Visit";

/// The name of the generator of the mutating traversal.
pub const VISIT_MUT: &'static str = "VisitMut";

/// A generator over the frozen schema. No generator reads what another
/// one gave.
#[derive(Clone, Copy, Debug, PartialEq, Eq, Structural)]
pub enum Generator {
    AssertLayouts,
    AstKind,
    AstBuilder,
    ImplGetSpan,
    Visit,
    VisitMut,
}

/// What a generator gives for a schema.
pub open spec fn generator_result(generator: Generator, defs: Seq<TypeDefView>) -> Result<
    GeneratorOutputView,
    CodegenErrorView,
> {
    match generator {
        Generator::AssertLayouts => assert_layouts_result(defs),
        Generator::AstKind => ast_kind_result(defs),
        Generator::AstBuilder => ast_builder_result(defs),
        Generator::ImplGetSpan => impl_get_span_result(defs),
        Generator::Visit => visit_result(defs, false),
        Generator::VisitMut => visit_result(defs, true),
    }
}

impl Generator {
    /// The name of the generator.
    pub open spec fn name_text(self) -> Seq<char> {
        match self {
            Generator::AssertLayouts => ASSERT_LAYOUTS@,
            Generator::AstKind => AST_KIND@,
            Generator::AstBuilder => AST_BUILDER@,
            Generator::ImplGetSpan => IMPL_GET_SPAN@,
            Generator::Visit => VISIT@,
            Generator::VisitMut => VISIT_MUT@,
        }
    }

    /// The name of the generator.
    pub fn name(self) -> (name: &'static str)
        ensures
            name@ == self.name_text(),
    {
        match self {
            Generator::AssertLayouts => ASSERT_LAYOUTS,
            Generator::AstKind => AST_KIND,
            Generator::AstBuilder => AST_BUILDER,
            Generator::ImplGetSpan => IMPL_GET_SPAN,
            Generator::Visit => VISIT,
            Generator::VisitMut => VISIT_MUT,
        }
    }

    /// Runs the generator on the schema.
    pub fn run(self, ctx: &LateCtx) -> (outcome: Result<GeneratorOutput, CodegenError>)
        ensures
            outcome_view(outcome) == generator_result(self, views(ctx.schema.definitions@)),
    {
        match self {
            Generator::AssertLayouts => AssertLayouts::run(ctx),
            Generator::AstKind => AstKindGenerator::run(ctx),
            Generator::AstBuilder => AstBuilderGenerator::run(ctx),
            Generator::ImplGetSpan => ImplGetSpanGenerator::run(ctx),
            Generator::Visit => VisitGenerator::run(ctx),
            Generator::VisitMut => VisitMutGenerator::run(ctx),
        }
    }
}

} // verus!
