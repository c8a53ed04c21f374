//! The span accessor generator: an accessor of the source span for every
//! definition that carries one, and for every struct that wraps exactly
//! one child that does.

use vstd::prelude::*;
use vstd::string::*;
use crate::context::LateCtx;
use crate::emit::{
    cannot_render, first_flag, generator_error, is_first_flag, lemma_first_flag, lemma_no_flag,
    outcome_view,
};
use crate::error::{CodegenError, CodegenErrorView};
use crate::output::{output, output_path, GeneratorOutput, GeneratorOutputView, AST_CRATE};
use crate::rust_ast::{shape_carries_span, shape_has_span};
use crate::schema::{
    views, Container, Member, MemberView, Target, TargetView, TypeDef, TypeDefView, TypeKind,
};

verus! {

/// The name of the generator.
pub const IMPL_GET_SPAN: &'static str = "ImplGetSpan";

/// The file of the generated accessors.
pub const SPAN_FILE: &'static str = "span.rs";

/// The arms that hand the question on to the payload of each of the first
/// `n` variants.
pub open spec fn span_arms(members: Seq<MemberView>, n: nat) -> Seq<char>
    decreases n,
{
    if n == 0 || n > members.len() {
        Seq::empty()
    } else {
        span_arms(members, (n - 1) as nat) + "            Self::"@ + members[n - 1].name
            + "(it) => it.span(),\n"@
    }
}

/// The body of the accessor: a struct answers with its own field, an enum
/// asks the payload of its active variant.
pub open spec fn span_body(def: TypeDefView) -> Seq<char> {
    match def.kind {
        TypeKind::Struct => "        self.span\n"@,
        TypeKind::Enum => "        match self {\n"@ + span_arms(def.members, def.members.len())
            + "        }\n"@,
    }
}

/// The accessor of one definition.
pub open spec fn span_impl(def: TypeDefView) -> Seq<char> {
    "impl GetSpan for "@ + def.name + " {\n    fn span(&self) -> Span {\n"@ + span_body(def)
        + "    }\n}\n\n"@
}

/// Whether a member is a child that carries a span: its type is a
/// definition that carries one, held directly or in boxes.
pub open spec fn is_span_child(defs: Seq<TypeDefView>, member: MemberView) -> bool {
    match member.ty {
        Some(reference) => {
            &&& forall|k: int|
                0 <= k < reference.containers.len() ==> reference.containers[k]
                    == Container::Boxed
            &&& match reference.target {
                TargetView::Resolved(id) => id < defs.len() && defs[id as int].has_span,
                _ => false,
            }
        },
        None => false,
    }
}

/// How many of the first `n` members are children that carry a span.
pub open spec fn span_children(defs: Seq<TypeDefView>, members: Seq<MemberView>, n: nat) -> nat
    decreases n,
{
    if n == 0 || n > members.len() {
        0
    } else if is_span_child(defs, members[n - 1]) {
        span_children(defs, members, (n - 1) as nat) + 1
    } else {
        span_children(defs, members, (n - 1) as nat)
    }
}

/// The last among the first `n` members that is a child that carries a
/// span; it is the only one where there is exactly one.
pub open spec fn span_child(defs: Seq<TypeDefView>, members: Seq<MemberView>, n: nat) -> int
    decreases n,
{
    if n == 0 || n > members.len() {
        0
    } else if is_span_child(defs, members[n - 1]) {
        n - 1
    } else {
        span_child(defs, members, (n - 1) as nat)
    }
}

/// Whether a definition answers with the span of a child: it is a struct
/// that carries no span of its own and wraps exactly one child that does.
pub open spec fn delegates(defs: Seq<TypeDefView>, def: TypeDefView) -> bool {
    !def.has_span && def.kind == TypeKind::Struct && span_children(
        defs,
        def.members,
        def.members.len(),
    ) == 1
}

/// The accessor of a struct that answers with the span of its child.
pub open spec fn delegate_impl(defs: Seq<TypeDefView>, def: TypeDefView) -> Seq<char> {
    "impl GetSpan for "@ + def.name + " {\n    fn span(&self) -> Span {\n        self."@
        + def.members[span_child(defs, def.members, def.members.len())].name
        + ".span()\n    }\n}\n\n"@
}

/// The accessor of a definition, if it gets one.
pub open spec fn span_accessor(defs: Seq<TypeDefView>, def: TypeDefView) -> Seq<char> {
    if def.has_span {
        span_impl(def)
    } else if delegates(defs, def) {
        delegate_impl(defs, def)
    } else {
        Seq::empty()
    }
}

/// The accessors of the first `n` definitions.
pub open spec fn span_impls(defs: Seq<TypeDefView>, n: nat) -> Seq<char>
    decreases n,
{
    if n == 0 || n > defs.len() {
        Seq::empty()
    } else {
        span_impls(defs, (n - 1) as nat) + span_accessor(defs, defs[n - 1])
    }
}

/// The generated source.
pub open spec fn span_text(defs: Seq<TypeDefView>) -> Seq<char> {
    "use oxc_span::{GetSpan, Span};\n\n"@ + span_impls(defs, defs.len())
}

/// Which definitions are said to carry a span although their shape has
/// none.
pub open spec fn spanless_flags(defs: Seq<TypeDefView>) -> Seq<bool> {
    Seq::new(defs.len(), |i: int| defs[i].has_span && !shape_has_span(defs[i].kind, defs[i].members))
}

/// What the span accessor generator gives for a schema: the source of the
/// accessors, or an error for the first definition that is said to carry a
/// span and has none.
pub open spec fn impl_get_span_result(defs: Seq<TypeDefView>) -> Result<
    GeneratorOutputView,
    CodegenErrorView,
> {
    match first_flag(spanless_flags(defs)) {
        Some(i) => Err(generator_error(IMPL_GET_SPAN@, defs[i].name)),
        None => Ok(
            GeneratorOutputView::Stream(output_path(AST_CRATE@, SPAN_FILE@), span_text(defs)),
        ),
    }
}

/// Appends the accessor of one definition.
fn push_span_impl(text: &mut String, def: &TypeDef)
    ensures
        final(text)@ == old(text)@ + span_impl(def@),
{
    let ghost start = text@;
    text.append("impl GetSpan for ");
    text.append(def.name.as_str());
    text.append(" {\n    fn span(&self) -> Span {\n");
    let ghost head = text@;
    match def.kind {
        TypeKind::Struct => {
            text.append("        self.span\n");
        },
        TypeKind::Enum => {
            text.append("        match self {\n");
            let ghost open = text@;
            let ghost members = def@.members;
            let mut j: usize = 0;
            while j < def.members.len()
                invariant
                    j <= def.members.len(),
                    members == def@.members,
                    text@ == open + span_arms(members, j as nat),
                decreases def.members.len() - j,
            {
                assert(members[j as int] == def.members[j as int]@);
                text.append("            Self::");
                text.append(def.members[j].name.as_str());
                text.append("(it) => it.span(),\n");
                assert(text@ =~= open + span_arms(members, (j + 1) as nat));
                j = j + 1;
            }
            text.append("        }\n");
            assert(text@ =~= head + span_body(def@));
        },
    }
    text.append("    }\n}\n\n");
    assert(text@ =~= start + span_impl(def@));
}

/// Whether a member is a child that carries a span.
fn carries_span(defs: &Vec<TypeDef>, member: &Member) -> (b: bool)
    ensures
        b == is_span_child(views(defs@), member@),
{
    match &member.ty {
        Some(reference) => {
            let containers = &reference.containers;
            let mut k: usize = 0;
            while k < containers.len()
                invariant
                    k <= containers.len(),
                    member@.ty is Some,
                    containers@ == member@.ty->0.containers,
                    forall|m: int| 0 <= m < k ==> containers[m] == Container::Boxed,
                decreases containers.len() - k,
            {
                if containers[k] != Container::Boxed {
                    return false;
                }
                k = k + 1;
            }
            match &reference.target {
                Target::Resolved(id) => {
                    if *id < defs.len() {
                        assert(views(defs@)[*id as int] == defs[*id as int]@);
                        defs[*id].has_span
                    } else {
                        false
                    }
                },
                _ => false,
            }
        },
        None => false,
    }
}

/// The place of the only child of a struct that carries a span, if there
/// is exactly one.
fn only_span_child(defs: &Vec<TypeDef>, def: &TypeDef) -> (found: Option<usize>)
    ensures
        match found {
            Some(j) => span_children(views(defs@), def@.members, def@.members.len()) == 1 && j
                == span_child(views(defs@), def@.members, def@.members.len()) && j
                < def.members.len(),
            None => span_children(views(defs@), def@.members, def@.members.len()) != 1,
        },
{
    let ghost shown = views(defs@);
    let ghost members = def@.members;
    let mut count: usize = 0;
    let mut last: usize = 0;
    let mut j: usize = 0;
    while j < def.members.len()
        invariant
            j <= def.members.len(),
            shown == views(defs@),
            members == def@.members,
            count <= j,
            count == span_children(shown, members, j as nat),
            last == span_child(shown, members, j as nat),
            count > 0 ==> last < j,
        decreases def.members.len() - j,
    {
        assert(members[j as int] == def.members[j as int]@);
        if carries_span(defs, &def.members[j]) {
            count = count + 1;
            last = j;
        }
        j = j + 1;
    }
    if count == 1 {
        Some(last)
    } else {
        None
    }
}

/// Appends the accessor of a struct that answers with the span of the
/// child at `child`.
fn push_delegate_impl(text: &mut String, defs: &Vec<TypeDef>, def: &TypeDef, child: usize)
    requires
        child < def.members.len(),
        child == span_child(views(defs@), def@.members, def@.members.len()),
    ensures
        final(text)@ == old(text)@ + delegate_impl(views(defs@), def@),
{
    assert(def@.members[child as int] == def.members[child as int]@);
    text.append("impl GetSpan for ");
    text.append(def.name.as_str());
    text.append(" {\n    fn span(&self) -> Span {\n        self.");
    text.append(def.members[child].name.as_str());
    text.append(".span()\n    }\n}\n\n");
    assert(text@ =~= old(text)@ + delegate_impl(views(defs@), def@));
}

/// The span accessor generator.
pub struct ImplGetSpanGenerator;

impl ImplGetSpanGenerator {
    /// Hands back the source of a span accessor for every definition that
    /// carries a span, and for every struct without one that wraps exactly
    /// one child that carries a span. A definition that is said to carry
    /// one and whose shape has none is refused.
    pub fn run(ctx: &LateCtx) -> (outcome: Result<GeneratorOutput, CodegenError>)
        ensures
            outcome_view(outcome) == impl_get_span_result(views(ctx.schema.definitions@)),
    {
        let defs = &ctx.schema.definitions;
        let ghost shown = views(defs@);
        let mut text = String::from_str("use oxc_span::{GetSpan, Span};\n\n");
        let ghost head = text@;
        let mut i: usize = 0;
        while i < defs.len()
            invariant
                i <= defs.len(),
                shown == views(defs@),
                shown == views(ctx.schema.definitions@),
                head == "use oxc_span::{GetSpan, Span};\n\n"@,
                text@ == head + span_impls(shown, i as nat),
                forall|k: int| 0 <= k < i ==> !(#[trigger] spanless_flags(shown)[k]),
            decreases defs.len() - i,
        {
            let def = &defs[i];
            assert(shown[i as int] == def@);
            if def.has_span {
                if !shape_carries_span(def.kind, &def.members) {
                    proof {
                        assert(spanless_flags(shown)[i as int]);
                        assert(is_first_flag(spanless_flags(shown), i as int));
                        lemma_first_flag(spanless_flags(shown), i as int);
                    }
                    return Err(cannot_render(IMPL_GET_SPAN, &def.name));
                }
                push_span_impl(&mut text, def);
            } else if def.kind == TypeKind::Struct {
                if let Some(child) = only_span_child(defs, def) {
                    push_delegate_impl(&mut text, defs, def, child);
                }
            }
            assert(text@ =~= head + span_impls(shown, (i + 1) as nat));
            i = i + 1;
        }
        proof {
            lemma_no_flag(spanless_flags(shown));
        }
        Ok(GeneratorOutput::Stream((output(AST_CRATE, SPAN_FILE), text)))
    }
}

} // verus!
