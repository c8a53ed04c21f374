//! The visitor generators: a traversal entry point for every definition
//! that takes part in traversal, once for reading and once for changing
//! the tree.

use vstd::prelude::*;
use vstd::string::*;
use crate::context::LateCtx;
use crate::emit::outcome_view;
use crate::error::{CodegenError, CodegenErrorView};
use crate::output::{output, output_path, GeneratorOutput, GeneratorOutputView, AST_CRATE};
use crate::schema::{views, MemberView, TypeDef, TypeDefView, TypeKind};

verus! {

/// The file of the generated read-only traversal.
pub const VISIT_FILE: &'static str = "visit.rs";

/// The file of the generated mutating traversal.
pub const VISIT_MUT_FILE: &'static str = "visit_mut.rs";

/// How the traversal borrows a node.
pub open spec fn borrow_text(mutable: bool) -> Seq<char> {
    if mutable {
        "&mut "@
    } else {
        "&"@
    }
}

/// The trait of the callback.
pub open spec fn visitor_trait(mutable: bool) -> Seq<char> {
    if mutable {
        "VisitMut"@
    } else {
        "Visit"@
    }
}

/// The ending of the names of the entry points.
pub open spec fn walk_suffix(mutable: bool) -> Seq<char> {
    if mutable {
        "_mut"@
    } else {
        Seq::empty()
    }
}

/// The calls of the callback for the first `n` fields of a struct, in the
/// order of their declaration.
pub open spec fn field_visits(members: Seq<MemberView>, n: nat, mutable: bool) -> Seq<char>
    decreases n,
{
    if n == 0 || n > members.len() {
        Seq::empty()
    } else {
        field_visits(members, (n - 1) as nat, mutable) + "    visitor.visit("@ + borrow_text(
            mutable,
        ) + "it."@ + members[n - 1].name + ");\n"@
    }
}

/// The arm of one variant: the callback is called on the payload; a
/// variant without one has nothing to traverse.
pub open spec fn variant_visit(owner: Seq<char>, member: MemberView) -> Seq<char> {
    if member.ty is Some {
        "        "@ + owner + "::"@ + member.name + "(it) => visitor.visit(it),\n"@
    } else {
        "        "@ + owner + "::"@ + member.name + " => {}\n"@
    }
}

/// The arms of the first `n` variants of an enum.
pub open spec fn variant_visits(owner: Seq<char>, members: Seq<MemberView>, n: nat) -> Seq<char>
    decreases n,
{
    if n == 0 || n > members.len() {
        Seq::empty()
    } else {
        variant_visits(owner, members, (n - 1) as nat) + variant_visit(owner, members[n - 1])
    }
}

/// The body of an entry point: a struct hands every field to the callback,
/// an enum only the payload of its active variant.
pub open spec fn walk_body(def: TypeDefView, mutable: bool) -> Seq<char> {
    match def.kind {
        TypeKind::Struct => field_visits(def.members, def.members.len(), mutable),
        TypeKind::Enum => "    match it {\n"@ + variant_visits(
            def.name,
            def.members,
            def.members.len(),
        ) + "    }\n"@,
    }
}

/// The entry point of one definition.
pub open spec fn walk_fn(def: TypeDefView, mutable: bool) -> Seq<char> {
    "pub fn walk_"@ + def.name + walk_suffix(mutable) + "<V: "@ + visitor_trait(mutable)
        + ">(visitor: &mut V, it: "@ + borrow_text(mutable) + def.name + ") {\n"@ + walk_body(
        def,
        mutable,
    ) + "}\n\n"@
}

/// The entry points of those among the first `n` definitions that take
/// part in traversal.
pub open spec fn walk_fns(defs: Seq<TypeDefView>, n: nat, mutable: bool) -> Seq<char>
    decreases n,
{
    if n == 0 || n > defs.len() {
        Seq::empty()
    } else if defs[n - 1].traversable {
        walk_fns(defs, (n - 1) as nat, mutable) + walk_fn(defs[n - 1], mutable)
    } else {
        walk_fns(defs, (n - 1) as nat, mutable)
    }
}

/// The generated source.
pub open spec fn visit_text(defs: Seq<TypeDefView>, mutable: bool) -> Seq<char> {
    "use crate::ast::*;\n\n"@ + walk_fns(defs, defs.len(), mutable)
}

/// The file that the traversal is written to.
pub open spec fn visit_file(mutable: bool) -> Seq<char> {
    if mutable {
        VISIT_MUT_FILE@
    } else {
        VISIT_FILE@
    }
}

/// What a visitor generator gives for a schema.
pub open spec fn visit_result(defs: Seq<TypeDefView>, mutable: bool) -> Result<
    GeneratorOutputView,
    CodegenErrorView,
> {
    Ok(
        GeneratorOutputView::Stream(
            output_path(AST_CRATE@, visit_file(mutable)),
            visit_text(defs, mutable),
        ),
    )
}

/// How the traversal borrows a node.
fn borrow_of(mutable: bool) -> (text: &'static str)
    ensures
        text@ == borrow_text(mutable),
{
    if mutable {
        "&mut "
    } else {
        "&"
    }
}

/// Appends the entry point of one definition.
fn push_walk_fn(text: &mut String, def: &TypeDef, mutable: bool)
    ensures
        final(text)@ == old(text)@ + walk_fn(def@, mutable),
{
    let ghost start = text@;
    let ghost members = def@.members;
    text.append("pub fn walk_");
    text.append(def.name.as_str());
    if mutable {
        text.append("_mut");
    }
    text.append("<V: ");
    text.append(
        if mutable {
            "VisitMut"
        } else {
            "Visit"
        },
    );
    text.append(">(visitor: &mut V, it: ");
    text.append(borrow_of(mutable));
    text.append(def.name.as_str());
    text.append(") {\n");
    let ghost head = text@;
    assert(head =~= start + "pub fn walk_"@ + def@.name + walk_suffix(mutable) + "<V: "@
        + visitor_trait(mutable) + ">(visitor: &mut V, it: "@ + borrow_text(mutable) + def@.name
        + ") {\n"@);
    match def.kind {
        TypeKind::Struct => {
            let mut j: usize = 0;
            while j < def.members.len()
                invariant
                    j <= def.members.len(),
                    members == def@.members,
                    text@ == head + field_visits(members, j as nat, mutable),
                decreases def.members.len() - j,
            {
                assert(members[j as int] == def.members[j as int]@);
                text.append("    visitor.visit(");
                text.append(borrow_of(mutable));
                text.append("it.");
                text.append(def.members[j].name.as_str());
                text.append(");\n");
                assert(text@ =~= head + field_visits(members, (j + 1) as nat, mutable));
                j = j + 1;
            }
        },
        TypeKind::Enum => {
            text.append("    match it {\n");
            let ghost open = text@;
            let mut j: usize = 0;
            while j < def.members.len()
                invariant
                    j <= def.members.len(),
                    members == def@.members,
                    text@ == open + variant_visits(def@.name, members, j as nat),
                decreases def.members.len() - j,
            {
                let member = &def.members[j];
                assert(members[j as int] == member@);
                text.append("        ");
                text.append(def.name.as_str());
                text.append("::");
                text.append(member.name.as_str());
                if member.ty.is_some() {
                    text.append("(it) => visitor.visit(it),\n");
                } else {
                    text.append(" => {}\n");
                }
                assert(text@ =~= open + variant_visits(def@.name, members, (j + 1) as nat));
                j = j + 1;
            }
            text.append("    }\n");
            assert(text@ =~= head + walk_body(def@, mutable));
        },
    }
    text.append("}\n\n");
    assert(text@ =~= start + walk_fn(def@, mutable));
}

/// The source of the traversal of a schema.
fn render_walks(defs: &Vec<TypeDef>, mutable: bool) -> (text: String)
    ensures
        text@ == visit_text(views(defs@), mutable),
{
    let ghost shown = views(defs@);
    let mut text = String::from_str("use crate::ast::*;\n\n");
    let ghost head = text@;
    let mut i: usize = 0;
    while i < defs.len()
        invariant
            i <= defs.len(),
            shown == views(defs@),
            text@ == head + walk_fns(shown, i as nat, mutable),
        decreases defs.len() - i,
    {
        let def = &defs[i];
        assert(shown[i as int] == def@);
        if def.traversable {
            push_walk_fn(&mut text, def, mutable);
        }
        assert(text@ =~= head + walk_fns(shown, (i + 1) as nat, mutable));
        i = i + 1;
    }
    text
}

/// The generator of the read-only traversal.
pub struct VisitGenerator;

impl VisitGenerator {
    /// Hands back the source of the read-only traversal: one entry point
    /// for every definition that takes part in traversal.
    pub fn run(ctx: &LateCtx) -> (outcome: Result<GeneratorOutput, CodegenError>)
        ensures
            outcome_view(outcome) == visit_result(views(ctx.schema.definitions@), false),
    {
        let text = render_walks(&ctx.schema.definitions, false);
        Ok(GeneratorOutput::Stream((output(AST_CRATE, VISIT_FILE), text)))
    }
}

/// The generator of the mutating traversal.
pub struct VisitMutGenerator;

impl VisitMutGenerator {
    /// Hands back the source of the mutating traversal: one entry point for
    /// every definition that takes part in traversal.
    pub fn run(ctx: &LateCtx) -> (outcome: Result<GeneratorOutput, CodegenError>)
        ensures
            outcome_view(outcome) == visit_result(views(ctx.schema.definitions@), true),
    {
        let text = render_walks(&ctx.schema.definitions, true);
        Ok(GeneratorOutput::Stream((output(AST_CRATE, VISIT_MUT_FILE), text)))
    }
}

} // verus!
