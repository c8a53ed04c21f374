//! The builder generator: a constructor for every struct, taking one
//! parameter per field, and one for every variant of every enum.

use vstd::prelude::*;
use vstd::string::*;
use crate::context::LateCtx;
use crate::emit::{
    cannot_render, first_flag, generator_error, is_first_flag, lemma_first_flag, lemma_no_flag,
    outcome_view,
};
use crate::error::{CodegenError, CodegenErrorView};
use crate::output::{output, output_path, GeneratorOutput, GeneratorOutputView, AST_CRATE};
use crate::schema::{
    leaf_name, views, Container, Member, MemberView, Target, TargetView, TypeDef, TypeDefView,
    TypeKind, TypeRef, TypeRefView,
};

verus! {

/// The name of the generator.
pub const AST_BUILDER: &'static str = "AstBuilder";

/// The file of the generated constructors.
pub const AST_BUILDER_FILE: &'static str = "ast_builder.rs";

/// How a container is opened in source.
pub open spec fn container_open(container: Container) -> Seq<char> {
    match container {
        Container::Optional => "Option<"@,
        Container::Boxed => "Box<"@,
        Container::Sequence => "Vec<"@,
    }
}

/// The first `n` containers of a reference, opened.
pub open spec fn opens_text(containers: Seq<Container>, n: nat) -> Seq<char>
    decreases n,
{
    if n == 0 || n > containers.len() {
        Seq::empty()
    } else {
        opens_text(containers, (n - 1) as nat) + container_open(containers[n - 1])
    }
}

/// `n` closing brackets.
pub open spec fn closes_text(n: nat) -> Seq<char>
    decreases n,
{
    if n == 0 {
        Seq::empty()
    } else {
        closes_text((n - 1) as nat) + ">"@
    }
}

/// The name of what a reference points at.
pub open spec fn target_text(defs: Seq<TypeDefView>, target: TargetView) -> Seq<char> {
    match target {
        TargetView::Leaf(leaf) => leaf_name(leaf),
        TargetView::Resolved(id) => defs[id as int].name,
        TargetView::Named(name) => name,
    }
}

/// A reference as it is written in source.
pub open spec fn ref_text(defs: Seq<TypeDefView>, reference: TypeRefView) -> Seq<char> {
    opens_text(reference.containers, reference.containers.len()) + target_text(
        defs,
        reference.target,
    ) + closes_text(reference.containers.len())
}

/// Whether a member can be rendered: a reference must not point outside
/// the table, and a field must have a type.
pub open spec fn member_renders(member: MemberView, kind: TypeKind, n: nat) -> bool {
    match member.ty {
        Some(reference) => match reference.target {
            TargetView::Resolved(id) => id < n,
            _ => true,
        },
        None => kind == TypeKind::Enum,
    }
}

/// Whether each of the first `m` members of a definition can be rendered.
pub open spec fn members_render(def: TypeDefView, m: int, n: nat) -> bool {
    forall|j: int|
        0 <= j < m && j < def.members.len() ==> member_renders(
            #[trigger] def.members[j],
            def.kind,
            n,
        )
}

/// Which definitions cannot be rendered.
pub open spec fn unrendered_flags(defs: Seq<TypeDefView>) -> Seq<bool> {
    Seq::new(
        defs.len(),
        |i: int| !members_render(defs[i], defs[i].members.len() as int, defs.len()),
    )
}

/// The parameters for the first `n` fields of a struct.
pub open spec fn params_text(defs: Seq<TypeDefView>, members: Seq<MemberView>, n: nat) -> Seq<
    char,
>
    decreases n,
{
    if n == 0 || n > members.len() {
        Seq::empty()
    } else {
        params_text(defs, members, (n - 1) as nat) + ", "@ + members[n - 1].name + ": "@
            + ref_text(defs, members[n - 1].ty->0)
    }
}

/// The first `n` fields of a struct as they are filled in.
pub open spec fn inits_text(members: Seq<MemberView>, n: nat) -> Seq<char>
    decreases n,
{
    if n == 0 || n > members.len() {
        Seq::empty()
    } else {
        inits_text(members, (n - 1) as nat) + members[n - 1].name + ", "@
    }
}

/// The constructor of a struct: one parameter per field, in the order of
/// their declaration.
pub open spec fn struct_builder(defs: Seq<TypeDefView>, def: TypeDefView) -> Seq<char> {
    "    pub fn build_"@ + def.name + "(self"@ + params_text(
        defs,
        def.members,
        def.members.len(),
    ) + ") -> "@ + def.name + " {\n        "@ + def.name + " { "@ + inits_text(
        def.members,
        def.members.len(),
    ) + "}\n    }\n\n"@
}

/// The parameter for the payload of a variant.
pub open spec fn payload_param(defs: Seq<TypeDefView>, member: MemberView) -> Seq<char> {
    match member.ty {
        Some(reference) => ", it: "@ + ref_text(defs, reference),
        None => Seq::empty(),
    }
}

/// The payload of a variant as it is filled in.
pub open spec fn payload_init(member: MemberView) -> Seq<char> {
    if member.ty is Some {
        "(it)"@
    } else {
        Seq::empty()
    }
}

/// The constructor of one variant of the enum called `owner`.
pub open spec fn variant_builder(defs: Seq<TypeDefView>, owner: Seq<char>, member: MemberView)
    -> Seq<char> {
    "    pub fn build_"@ + owner + "_"@ + member.name + "(self"@ + payload_param(defs, member)
        + ") -> "@ + owner + " {\n        "@ + owner + "::"@ + member.name + payload_init(member)
        + "\n    }\n\n"@
}

/// The constructors of the first `n` variants of an enum.
pub open spec fn variant_builders(
    defs: Seq<TypeDefView>,
    owner: Seq<char>,
    members: Seq<MemberView>,
    n: nat,
) -> Seq<char>
    decreases n,
{
    if n == 0 || n > members.len() {
        Seq::empty()
    } else {
        variant_builders(defs, owner, members, (n - 1) as nat) + variant_builder(
            defs,
            owner,
            members[n - 1],
        )
    }
}

/// The constructors of one definition.
pub open spec fn def_builders(defs: Seq<TypeDefView>, def: TypeDefView) -> Seq<char> {
    match def.kind {
        TypeKind::Struct => struct_builder(defs, def),
        TypeKind::Enum => variant_builders(defs, def.name, def.members, def.members.len()),
    }
}

/// The constructors of the first `n` definitions.
pub open spec fn builders_text(defs: Seq<TypeDefView>, n: nat) -> Seq<char>
    decreases n,
{
    if n == 0 || n > defs.len() {
        Seq::empty()
    } else {
        builders_text(defs, (n - 1) as nat) + def_builders(defs, defs[n - 1])
    }
}

/// The generated source.
pub open spec fn ast_builder_text(defs: Seq<TypeDefView>) -> Seq<char> {
    "impl AstBuilder {\n"@ + builders_text(defs, defs.len()) + "}\n"@
}

/// What the builder generator gives for a schema: the source of the
/// constructors, or an error for the first definition that cannot be
/// rendered.
pub open spec fn ast_builder_result(defs: Seq<TypeDefView>) -> Result<
    GeneratorOutputView,
    CodegenErrorView,
> {
    match first_flag(unrendered_flags(defs)) {
        Some(i) => Err(generator_error(AST_BUILDER@, defs[i].name)),
        None => Ok(
            GeneratorOutputView::Stream(
                output_path(AST_CRATE@, AST_BUILDER_FILE@),
                ast_builder_text(defs),
            ),
        ),
    }
}

/// Whether every member of a definition can be rendered in a table of `n`
/// definitions.
fn can_render(def: &TypeDef, n: usize) -> (b: bool)
    ensures
        b == members_render(def@, def@.members.len() as int, n as nat),
{
    let ghost members = def@.members;
    let mut j: usize = 0;
    while j < def.members.len()
        invariant
            j <= def.members.len(),
            members == def@.members,
            members_render(def@, j as int, n as nat),
        decreases def.members.len() - j,
    {
        assert(members[j as int] == def.members[j as int]@);
        let fine = match &def.members[j].ty {
            Some(reference) => match &reference.target {
                Target::Resolved(id) => *id < n,
                _ => true,
            },
            None => def.kind == TypeKind::Enum,
        };
        if !fine {
            assert(!member_renders(members[j as int], def@.kind, n as nat));
            return false;
        }
        j = j + 1;
    }
    true
}

/// Appends a reference as it is written in source.
fn push_ref(text: &mut String, defs: &Vec<TypeDef>, reference: &TypeRef)
    requires
        reference@.target matches TargetView::Resolved(id) ==> id < defs.len(),
    ensures
        final(text)@ == old(text)@ + ref_text(views(defs@), reference@),
{
    let ghost start = text@;
    let containers = &reference.containers;
    let mut k: usize = 0;
    while k < containers.len()
        invariant
            k <= containers.len(),
            text@ == start + opens_text(containers@, k as nat),
        decreases containers.len() - k,
    {
        text.append(
            match containers[k] {
                Container::Optional => "Option<",
                Container::Boxed => "Box<",
                Container::Sequence => "Vec<",
            },
        );
        assert(text@ =~= start + opens_text(containers@, (k + 1) as nat));
        k = k + 1;
    }
    match &reference.target {
        Target::Leaf(leaf) => text.append(leaf.name()),
        Target::Resolved(id) => {
            assert(views(defs@)[*id as int] == defs[*id as int]@);
            text.append(defs[*id].name.as_str());
        },
        Target::Named(name) => text.append(name.as_str()),
    }
    let ghost named = text@;
    let mut k: usize = 0;
    while k < containers.len()
        invariant
            k <= containers.len(),
            text@ == named + closes_text(k as nat),
        decreases containers.len() - k,
    {
        text.append(">");
        assert(text@ =~= named + closes_text((k + 1) as nat));
        k = k + 1;
    }
    assert(text@ =~= start + ref_text(views(defs@), reference@));
}

/// Appends the constructor of a struct.
fn push_struct_builder(text: &mut String, defs: &Vec<TypeDef>, def: &TypeDef)
    requires
        def.kind == TypeKind::Struct,
        members_render(def@, def@.members.len() as int, defs.len() as nat),
    ensures
        final(text)@ == old(text)@ + struct_builder(views(defs@), def@),
{
    let ghost start = text@;
    let ghost shown = views(defs@);
    let ghost members = def@.members;
    text.append("    pub fn build_");
    text.append(def.name.as_str());
    text.append("(self");
    let ghost head = text@;
    let mut j: usize = 0;
    while j < def.members.len()
        invariant
            j <= def.members.len(),
            def.kind == TypeKind::Struct,
            members == def@.members,
            shown == views(defs@),
            members_render(def@, def@.members.len() as int, defs.len() as nat),
            text@ == head + params_text(shown, members, j as nat),
        decreases def.members.len() - j,
    {
        let member = &def.members[j];
        assert(members[j as int] == member@);
        assert(member_renders(members[j as int], def@.kind, defs.len() as nat));
        text.append(", ");
        text.append(member.name.as_str());
        text.append(": ");
        match &member.ty {
            Some(reference) => push_ref(text, defs, reference),
            None => {},
        }
        assert(text@ =~= head + params_text(shown, members, (j + 1) as nat));
        j = j + 1;
    }
    text.append(") -> ");
    text.append(def.name.as_str());
    text.append(" {\n        ");
    text.append(def.name.as_str());
    text.append(" { ");
    let ghost head = text@;
    let mut j: usize = 0;
    while j < def.members.len()
        invariant
            j <= def.members.len(),
            members == def@.members,
            text@ == head + inits_text(members, j as nat),
        decreases def.members.len() - j,
    {
        assert(members[j as int] == def.members[j as int]@);
        text.append(def.members[j].name.as_str());
        text.append(", ");
        assert(text@ =~= head + inits_text(members, (j + 1) as nat));
        j = j + 1;
    }
    text.append("}\n    }\n\n");
    assert(text@ =~= start + struct_builder(shown, def@));
}

/// Appends the constructor of one variant of the enum called `owner`.
fn push_variant_builder(
    text: &mut String,
    defs: &Vec<TypeDef>,
    owner: &String,
    member: &Member,
)
    requires
        member_renders(member@, TypeKind::Enum, defs.len() as nat),
    ensures
        final(text)@ == old(text)@ + variant_builder(views(defs@), owner@, member@),
{
    let ghost start = text@;
    text.append("    pub fn build_");
    text.append(owner.as_str());
    text.append("_");
    text.append(member.name.as_str());
    text.append("(self");
    match &member.ty {
        Some(reference) => {
            text.append(", it: ");
            push_ref(text, defs, reference);
        },
        None => {},
    }
    text.append(") -> ");
    text.append(owner.as_str());
    text.append(" {\n        ");
    text.append(owner.as_str());
    text.append("::");
    text.append(member.name.as_str());
    if member.ty.is_some() {
        text.append("(it)");
    }
    text.append("\n    }\n\n");
    assert(text@ =~= start + variant_builder(views(defs@), owner@, member@));
}

/// Appends the constructors of one definition.
fn push_builders(text: &mut String, defs: &Vec<TypeDef>, def: &TypeDef)
    requires
        members_render(def@, def@.members.len() as int, defs.len() as nat),
    ensures
        final(text)@ == old(text)@ + def_builders(views(defs@), def@),
{
    match def.kind {
        TypeKind::Struct => push_struct_builder(text, defs, def),
        TypeKind::Enum => {
            let ghost start = text@;
            let ghost shown = views(defs@);
            let ghost members = def@.members;
            let mut j: usize = 0;
            while j < def.members.len()
                invariant
                    j <= def.members.len(),
                    def.kind == TypeKind::Enum,
                    members == def@.members,
                    shown == views(defs@),
                    members_render(def@, def@.members.len() as int, defs.len() as nat),
                    text@ == start + variant_builders(shown, def@.name, members, j as nat),
                decreases def.members.len() - j,
            {
                let member = &def.members[j];
                assert(members[j as int] == member@);
                assert(member_renders(members[j as int], def@.kind, defs.len() as nat));
                push_variant_builder(text, defs, &def.name, member);
                assert(text@ =~= start + variant_builders(
                    shown,
                    def@.name,
                    members,
                    (j + 1) as nat,
                ));
                j = j + 1;
            }
        },
    }
}

/// The builder generator.
pub struct AstBuilderGenerator;

impl AstBuilderGenerator {
    /// Hands back the source of the constructors of every definition. A
    /// definition with a field without a type, or with a reference that
    /// points outside the schema, is refused.
    pub fn run(ctx: &LateCtx) -> (outcome: Result<GeneratorOutput, CodegenError>)
        ensures
            outcome_view(outcome) == ast_builder_result(views(ctx.schema.definitions@)),
    {
        let defs = &ctx.schema.definitions;
        let ghost shown = views(defs@);
        let mut text = String::from_str("impl AstBuilder {\n");
        let ghost head = text@;
        let mut i: usize = 0;
        while i < defs.len()
            invariant
                i <= defs.len(),
                shown == views(defs@),
                shown == views(ctx.schema.definitions@),
                head == "impl AstBuilder {\n"@,
                text@ == head + builders_text(shown, i as nat),
                forall|k: int| 0 <= k < i ==> !(#[trigger] unrendered_flags(shown)[k]),
            decreases defs.len() - i,
        {
            let def = &defs[i];
            assert(shown[i as int] == def@);
            if !can_render(def, defs.len()) {
                proof {
                    assert(unrendered_flags(shown)[i as int]);
                    assert(is_first_flag(unrendered_flags(shown), i as int));
                    lemma_first_flag(unrendered_flags(shown), i as int);
                }
                return Err(cannot_render(AST_BUILDER, &def.name));
            }
            push_builders(&mut text, defs, def);
            assert(text@ =~= head + builders_text(shown, (i + 1) as nat));
            i = i + 1;
        }
        proof {
            lemma_no_flag(unrendered_flags(shown));
        }
        text.append("}\n");
        Ok(GeneratorOutput::Stream((output(AST_CRATE, AST_BUILDER_FILE), text)))
    }
}

} // verus!
