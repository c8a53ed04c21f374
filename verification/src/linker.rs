//! The linker pass: every reference by name becomes a reference to the
//! definition of that name, or to a leaf type.

use vstd::prelude::*;
use vstd::string::*;
use crate::context::{find_before, texts, EarlyCtx};
use crate::error::{CodegenError, CodegenErrorView};
use crate::schema::{
    closed, def_closed, is_first_match, leaf_of, lemma_position_absent, lemma_position_found,
    names_of, position, ref_closed, views, Leaf, Member, MemberView, Target, TargetView, TypeDef,
    TypeDefView, TypeRef, TypeRefView,
};

verus! {

/// What a target resolves to among the definitions called `names`. A name
/// is looked up among the definitions first and among the leaf types
/// second; an identifier stays if the table has it.
pub open spec fn resolve_target(names: Seq<Seq<char>>, target: TargetView) -> Option<TargetView> {
    match target {
        TargetView::Named(name) => match position(names, name) {
            Some(id) => Some(TargetView::Resolved(id)),
            None => match leaf_of(name) {
                Some(leaf) => Some(TargetView::Leaf(leaf)),
                None => None,
            },
        },
        TargetView::Leaf(leaf) => Some(TargetView::Leaf(leaf)),
        TargetView::Resolved(id) => if id < names.len() {
            Some(TargetView::Resolved(id))
        } else {
            None
        },
    }
}

/// A member with its reference resolved; `None` if it does not resolve.
pub open spec fn link_member(names: Seq<Seq<char>>, member: MemberView) -> Option<MemberView> {
    match member.ty {
        None => Some(member),
        Some(reference) => match resolve_target(names, reference.target) {
            Some(target) => Some(
                MemberView {
                    name: member.name,
                    ty: Some(TypeRefView { containers: reference.containers, target }),
                },
            ),
            None => None,
        },
    }
}

/// Whether each of the first `n` members of a definition resolves.
pub open spec fn members_link(names: Seq<Seq<char>>, def: TypeDefView, n: int) -> bool {
    forall|j: int|
        0 <= j < n && j < def.members.len() ==> link_member(names, #[trigger] def.members[j])
            is Some
}

/// A definition with every reference resolved.
pub open spec fn link_def(names: Seq<Seq<char>>, def: TypeDefView) -> TypeDefView {
    TypeDefView {
        members: Seq::new(def.members.len(), |j: int| link_member(names, def.members[j])->0),
        ..def
    }
}

/// Whether every member of each of the first `n` definitions resolves.
pub open spec fn table_links(names: Seq<Seq<char>>, defs: Seq<TypeDefView>, n: int) -> bool {
    forall|i: int|
        0 <= i < n && i < defs.len() ==> members_link(
            names,
            #[trigger] defs[i],
            defs[i].members.len() as int,
        )
}

/// A table with every reference resolved against its own names.
pub open spec fn link_table(defs: Seq<TypeDefView>) -> Seq<TypeDefView> {
    Seq::new(defs.len(), |i: int| link_def(names_of(defs), defs[i]))
}

/// The error for a member of `def` that does not resolve: it names the
/// definition, the member and what the member refers to.
pub open spec fn link_error(def: TypeDefView, member: MemberView) -> CodegenErrorView {
    match member.ty {
        Some(reference) => match reference.target {
            TargetView::Resolved(id) => CodegenErrorView::DanglingReference {
                owner: def.name,
                member: member.name,
                id,
            },
            TargetView::Named(name) => CodegenErrorView::UnresolvedReference {
                owner: def.name,
                member: member.name,
                reference: name,
            },
            TargetView::Leaf(leaf) => CodegenErrorView::UnresolvedReference {
                owner: def.name,
                member: member.name,
                reference: crate::schema::leaf_name(leaf),
            },
        },
        None => CodegenErrorView::UnresolvedReference {
            owner: def.name,
            member: member.name,
            reference: Seq::empty(),
        },
    }
}

/// Whether member `j` of definition `i` is the first member of the table,
/// in the order of the definitions and of their members, that does not
/// resolve.
pub open spec fn is_first_unlinked(defs: Seq<TypeDefView>, i: int, j: int) -> bool {
    &&& 0 <= i < defs.len()
    &&& 0 <= j < defs[i].members.len()
    &&& table_links(names_of(defs), defs, i)
    &&& members_link(names_of(defs), defs[i], j)
    &&& link_member(names_of(defs), defs[i].members[j]) is None
}

/// Resolves one target against the names of the table.
fn resolve(names: &Vec<String>, target: &Target) -> (resolved: Option<Target>)
    ensures
        match resolved {
            Some(resolved) => resolve_target(texts(names@), target@) == Some(resolved@),
            None => resolve_target(texts(names@), target@) is None,
        },
{
    match target {
        Target::Named(name) => {
            let found = find_before(names, name, names.len());
            proof {
                match found {
                    Some(i) => lemma_position_found(texts(names@), name@, i as int),
                    None => lemma_position_absent(texts(names@), name@),
                }
            }
            match found {
                Some(id) => Some(Target::Resolved(id)),
                None => match Leaf::from_name(name.as_str()) {
                    Some(leaf) => Some(Target::Leaf(leaf)),
                    None => None,
                },
            }
        },
        Target::Leaf(leaf) => Some(Target::Leaf(*leaf)),
        Target::Resolved(id) => {
            if *id < names.len() {
                Some(Target::Resolved(*id))
            } else {
                None
            }
        },
    }
}

/// Resolves the reference of one member.
fn link_one(names: &Vec<String>, member: &Member) -> (linked: Option<Member>)
    ensures
        match linked {
            Some(linked) => link_member(texts(names@), member@) == Some(linked@),
            None => link_member(texts(names@), member@) is None,
        },
{
    match &member.ty {
        None => Some(member.duplicate()),
        Some(reference) => match resolve(names, &reference.target) {
            Some(target) => {
                let copy = reference.duplicate();
                Some(
                    Member {
                        name: member.name.clone(),
                        ty: Some(TypeRef { containers: copy.containers, target }),
                    },
                )
            },
            None => None,
        },
    }
}

/// The error for a member of `def` that does not resolve.
pub(crate) fn unlinked(def: &TypeDef, member: &Member) -> (error: CodegenError)
    ensures
        error@ == link_error(def@, member@),
{
    match &member.ty {
        Some(reference) => match &reference.target {
            Target::Resolved(id) => CodegenError::DanglingReference {
                owner: def.name.clone(),
                member: member.name.clone(),
                id: *id,
            },
            Target::Named(name) => CodegenError::UnresolvedReference {
                owner: def.name.clone(),
                member: member.name.clone(),
                reference: name.clone(),
            },
            Target::Leaf(leaf) => CodegenError::UnresolvedReference {
                owner: def.name.clone(),
                member: member.name.clone(),
                reference: String::from_str(leaf.name()),
            },
        },
        None => CodegenError::UnresolvedReference {
            owner: def.name.clone(),
            member: member.name.clone(),
            reference: String::new(),
        },
    }
}

/// Resolves every reference of one definition; fails with the place of the
/// first member that does not resolve.
fn link_one_def(names: &Vec<String>, def: &TypeDef) -> (linked: Result<TypeDef, usize>)
    ensures
        match linked {
            Ok(linked) => {
                &&& members_link(texts(names@), def@, def@.members.len() as int)
                &&& linked@ == link_def(texts(names@), def@)
            },
            Err(j) => {
                &&& j < def.members.len()
                &&& members_link(texts(names@), def@, j as int)
                &&& link_member(texts(names@), def@.members[j as int]) is None
            },
        },
{
    let ghost shown = views(def.members@);
    let mut members: Vec<Member> = Vec::new();
    let mut j: usize = 0;
    while j < def.members.len()
        invariant
            j <= def.members.len(),
            members.len() == j,
            shown == views(def.members@),
            shown == def@.members,
            members_link(texts(names@), def@, j as int),
            forall|k: int|
                0 <= k < j ==> (#[trigger] members[k])@ == link_member(
                    texts(names@),
                    shown[k],
                )->0,
        decreases def.members.len() - j,
    {
        assert(shown[j as int] == def.members[j as int]@);
        match link_one(names, &def.members[j]) {
            Some(member) => members.push(member),
            None => {
                return Err(j);
            },
        }
        j = j + 1;
    }
    assert(views(members@) =~= link_def(texts(names@), def@).members);
    Ok(
        TypeDef {
            name: def.name.clone(),
            kind: def.kind,
            members,
            visited: def.visited,
            family: crate::schema::duplicate_text(&def.family),
            has_span: def.has_span,
            traversable: def.traversable,
            layout: def.layout,
        },
    )
}

/// The linker pass.
pub struct Linker;

impl Linker {
    /// Replaces every reference by name with the identifier of the
    /// definition of that name, or with the leaf type of that name where no
    /// definition has it. The first member that resolves to neither fails
    /// the pass, and the table is then left as it was.
    pub fn run(ctx: &mut EarlyCtx) -> (done: Result<(), CodegenError>)
        requires
            old(ctx).wf(),
        ensures
            final(ctx).ident_table == old(ctx).ident_table,
            final(ctx).mods == old(ctx).mods,
            final(ctx).wf(),
            match done {
                Ok(()) => {
                    &&& table_links(
                        old(ctx).names(),
                        old(ctx).defs(),
                        old(ctx).defs().len() as int,
                    )
                    &&& final(ctx).defs() == link_table(old(ctx).defs())
                    &&& closed(final(ctx).defs())
                },
                Err(error) => {
                    &&& final(ctx).ty_table == old(ctx).ty_table
                    &&& exists|i: int, j: int|
                        {
                            &&& #[trigger] is_first_unlinked(old(ctx).defs(), i, j)
                            &&& error@ == link_error(
                                old(ctx).defs()[i],
                                old(ctx).defs()[i].members[j],
                            )
                        }
                },
            },
    {
        let ghost defs = ctx.defs();
        let ghost names = ctx.names();
        let mut linked: Vec<TypeDef> = Vec::new();
        let mut i: usize = 0;
        while i < ctx.ty_table.len()
            invariant
                i <= ctx.ty_table.len(),
                *ctx == *old(ctx),
                ctx.wf(),
                defs == ctx.defs(),
                names == ctx.names(),
                names == texts(ctx.ident_table@),
                linked.len() == i,
                table_links(names, defs, i as int),
                forall|k: int| 0 <= k < i ==> (#[trigger] linked[k])@ == link_def(names, defs[k]),
            decreases ctx.ty_table.len() - i,
        {
            assert(defs[i as int] == ctx.ty_table[i as int]@);
            match link_one_def(&ctx.ident_table, &ctx.ty_table[i]) {
                Ok(def) => linked.push(def),
                Err(j) => {
                    let def = &ctx.ty_table[i];
                    let error = unlinked(def, &def.members[j]);
                    assert(def@.members[j as int] == def.members[j as int]@);
                    assert(is_first_unlinked(defs, i as int, j as int));
                    return Err(error);
                },
            }
            i = i + 1;
        }
        assert(views(linked@) =~= link_table(defs));
        proof {
            lemma_link_table_closed(defs);
            assert(names_of(link_table(defs)) =~= names);
        }
        ctx.ty_table = linked;
        Ok(())
    }
}

/// After linking, every reference points at a leaf type or at a definition
/// of the table: no reference by name is left and none dangles.
pub proof fn lemma_link_table_closed(defs: Seq<TypeDefView>)
    requires
        table_links(names_of(defs), defs, defs.len() as int),
    ensures
        closed(link_table(defs)),
        link_table(defs).len() == defs.len(),
{
    let names = names_of(defs);
    let linked = link_table(defs);
    assert forall|i: int| 0 <= i < linked.len() implies def_closed(
        #[trigger] linked[i],
        linked.len(),
    ) by {
        let def = defs[i];
        assert(members_link(names, def, def.members.len() as int));
        assert forall|j: int| 0 <= j < linked[i].members.len() implies match (
        #[trigger] linked[i].members[j]).ty {
            Some(reference) => ref_closed(reference, linked.len()),
            None => true,
        } by {
            let member = def.members[j];
            assert(link_member(names, member) is Some);
            if let Some(reference) = member.ty {
                if let TargetView::Named(name) = reference.target {
                    if position(names, name) is Some {
                        let chosen = choose|k: int| is_first_match(names, name, k);
                        assert(is_first_match(names, name, chosen));
                    }
                }
            }
        }
    }
}

} // verus!
