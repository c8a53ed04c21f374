//! The passes over the symbol table, as a closed set, and what each of
//! them makes of a table.

use vstd::prelude::*;
use crate::calc_layout::{
    agrees, all_agree, all_sized, is_family_head, is_first_mismatch, is_first_open,
    is_first_unsized, is_sized, member_closed, members_closed, mismatch_error, size_error,
    table_closed, with_layouts, CalcLayout,
};
use crate::context::EarlyCtx;
use crate::calc_layout::{lemma_family_layouts_equal, same_family};
use crate::emit::{
    first_flag, is_first_flag, lemma_first_flag, lemma_flag_has_first, lemma_no_flag,
};
use crate::error::{CodegenError, CodegenErrorView};
use crate::layout::layouts;
use crate::linker::{
    is_first_unlinked, link_error, link_member, link_table, members_link, table_links, Linker,
};
use crate::linker::lemma_link_table_closed;
use crate::schema::{closed, def_closed, names_of, LayoutInfo, TypeDefView};

verus! {

/// A pass over the symbol table.
#[derive(Clone, Copy, Debug, PartialEq, Eq, Structural)]
pub enum Pass {
    /// Resolves the references between definitions.
    Linker,
    /// Computes and checks the layouts.
    CalcLayout,
}

/// The first member of the table that does not resolve: the place of its
/// definition and its place in it.
pub open spec fn first_unlinked(defs: Seq<TypeDefView>) -> Option<(int, int)> {
    if exists|i: int, j: int| is_first_unlinked(defs, i, j) {
        Some(choose|i: int, j: int| is_first_unlinked(defs, i, j))
    } else {
        None
    }
}

/// What the linker makes of a table: the table with every reference
/// resolved, or the error for the first member that does not resolve.
pub open spec fn link_result(defs: Seq<TypeDefView>) -> Result<Seq<TypeDefView>, CodegenErrorView> {
    match first_unlinked(defs) {
        Some((i, j)) => Err(link_error(defs[i], defs[i].members[j])),
        None => Ok(link_table(defs)),
    }
}

/// Which layouts are unknown or at the limit of sizes.
pub open spec fn unsized_flags(table: Seq<Option<LayoutInfo>>) -> Seq<bool> {
    Seq::new(table.len(), |i: int| !is_sized(table[i]))
}

/// The first definition whose layout differs from that of the first
/// definition of its family, after that first definition.
pub open spec fn first_mismatch_pair(defs: Seq<TypeDefView>, table: Seq<Option<LayoutInfo>>)
    -> Option<(int, int)> {
    if exists|i: int, j: int| is_first_mismatch(defs, table, i, j) {
        Some(choose|i: int, j: int| is_first_mismatch(defs, table, i, j))
    } else {
        None
    }
}

/// The first member of the table whose reference is still a name or
/// points outside the table.
pub open spec fn first_open(defs: Seq<TypeDefView>) -> Option<(int, int)> {
    if exists|i: int, j: int| is_first_open(defs, i, j) {
        Some(choose|i: int, j: int| is_first_open(defs, i, j))
    } else {
        None
    }
}

/// What the layout pass makes of a table: the table with every layout
/// attached; or the error that names the first member whose reference is
/// not linked; or else the error for the first definition without a usable
/// layout; or else the error for the first definition that differs from
/// its family.
pub open spec fn layout_result(defs: Seq<TypeDefView>) -> Result<
    Seq<TypeDefView>,
    CodegenErrorView,
> {
    let table = layouts(defs);
    match first_open(defs) {
        Some((i, j)) => Err(link_error(defs[i], defs[i].members[j])),
        None => match first_flag(unsized_flags(table)) {
            Some(i) => Err(size_error(defs[i], table[i])),
            None => match first_mismatch_pair(defs, table) {
                Some((i, j)) => Err(mismatch_error(defs, table, i, j)),
                None => Ok(with_layouts(defs, table)),
            },
        },
    }
}

/// There is one first member whose reference is not linked.
pub proof fn lemma_first_open(defs: Seq<TypeDefView>, i: int, j: int)
    requires
        is_first_open(defs, i, j),
    ensures
        first_open(defs) == Some((i, j)),
{
    let chosen = choose|a: int, b: int| is_first_open(defs, a, b);
    assert(is_first_open(defs, chosen.0, chosen.1));
    if chosen.0 < i {
        assert(members_closed(defs[chosen.0], defs[chosen.0].members.len() as int, defs.len()));
    } else if i < chosen.0 {
        assert(members_closed(defs[i], defs[i].members.len() as int, defs.len()));
    } else {
        if chosen.1 < j {
            assert(member_closed(defs[i].members[chosen.1], defs.len()));
        }
        if j < chosen.1 {
            assert(member_closed(defs[i].members[j], defs.len()));
        }
    }
}

/// Where every reference is linked, none is the first that is not.
pub proof fn lemma_all_closed(defs: Seq<TypeDefView>)
    requires
        table_closed(defs, defs.len() as int),
    ensures
        first_open(defs) is None,
{
    if exists|i: int, j: int| is_first_open(defs, i, j) {
        let chosen = choose|a: int, b: int| is_first_open(defs, a, b);
        assert(is_first_open(defs, chosen.0, chosen.1));
        assert(members_closed(defs[chosen.0], defs[chosen.0].members.len() as int, defs.len()));
    }
}

/// Among the first `m` members of a definition, either all are linked or
/// one is the first that is not.
proof fn lemma_members_closed_or_first(defs: Seq<TypeDefView>, i: int, m: int)
    requires
        0 <= i < defs.len(),
        0 <= m <= defs[i].members.len(),
    ensures
        members_closed(defs[i], m, defs.len()) || exists|j: int|
            0 <= j < m && members_closed(defs[i], j, defs.len()) && !member_closed(
                #[trigger] defs[i].members[j],
                defs.len(),
            ),
    decreases m,
{
    if m > 0 {
        lemma_members_closed_or_first(defs, i, m - 1);
    }
}

/// Among the first `n` definitions, either every reference is linked or
/// one member is the first whose reference is not.
proof fn lemma_closed_or_first(defs: Seq<TypeDefView>, n: int)
    requires
        0 <= n <= defs.len(),
    ensures
        table_closed(defs, n) || first_open(defs) is Some,
    decreases n,
{
    if n > 0 {
        lemma_closed_or_first(defs, n - 1);
        if table_closed(defs, n - 1) {
            let i = n - 1;
            lemma_members_closed_or_first(defs, i, defs[i].members.len() as int);
            if !members_closed(defs[i], defs[i].members.len() as int, defs.len()) {
                let j = choose|j: int|
                    0 <= j < defs[i].members.len() && members_closed(defs[i], j, defs.len())
                        && !member_closed(#[trigger] defs[i].members[j], defs.len());
                assert(is_first_open(defs, i, j));
            }
        }
    }
}

/// What a pass makes of a table.
pub open spec fn pass_result(pass: Pass, defs: Seq<TypeDefView>) -> Result<
    Seq<TypeDefView>,
    CodegenErrorView,
> {
    match pass {
        Pass::Linker => link_result(defs),
        Pass::CalcLayout => layout_result(defs),
    }
}

/// Whether a pass ended as `pass_result` says: on success the table is the
/// new one, on failure the error is the one named.
pub open spec fn pass_ended(
    expected: Result<Seq<TypeDefView>, CodegenErrorView>,
    done: Result<(), CodegenError>,
    defs: Seq<TypeDefView>,
) -> bool {
    match (expected, done) {
        (Ok(table), Ok(())) => defs == table,
        (Err(expected), Err(error)) => error@ == expected,
        _ => false,
    }
}

/// There is one first member that does not resolve.
pub proof fn lemma_first_unlinked(defs: Seq<TypeDefView>, i: int, j: int)
    requires
        is_first_unlinked(defs, i, j),
    ensures
        first_unlinked(defs) == Some((i, j)),
{
    let chosen = choose|a: int, b: int| is_first_unlinked(defs, a, b);
    assert(is_first_unlinked(defs, chosen.0, chosen.1));
    let names = names_of(defs);
    if chosen.0 < i {
        assert(members_link(names, defs[chosen.0], defs[chosen.0].members.len() as int));
    } else if i < chosen.0 {
        assert(members_link(names, defs[i], defs[i].members.len() as int));
    } else {
        if chosen.1 < j {
            assert(link_member(names, defs[i].members[chosen.1]) is Some);
        }
        if j < chosen.1 {
            assert(link_member(names, defs[i].members[j]) is Some);
        }
    }
}

/// Where every member resolves, none is the first that does not.
pub proof fn lemma_all_linked(defs: Seq<TypeDefView>)
    requires
        table_links(names_of(defs), defs, defs.len() as int),
    ensures
        first_unlinked(defs) is None,
{
    if exists|i: int, j: int| is_first_unlinked(defs, i, j) {
        let chosen = choose|a: int, b: int| is_first_unlinked(defs, a, b);
        assert(is_first_unlinked(defs, chosen.0, chosen.1));
        assert(members_link(names_of(defs), defs[chosen.0], defs[chosen.0].members.len() as int));
    }
}

/// There is one first definition that differs from its family, and one
/// first definition of that family.
pub proof fn lemma_first_mismatch_pair(
    defs: Seq<TypeDefView>,
    table: Seq<Option<LayoutInfo>>,
    i: int,
    j: int,
)
    requires
        is_first_mismatch(defs, table, i, j),
    ensures
        first_mismatch_pair(defs, table) == Some((i, j)),
{
    let chosen = choose|a: int, b: int| is_first_mismatch(defs, table, a, b);
    assert(is_first_mismatch(defs, table, chosen.0, chosen.1));
    if chosen.1 < j {
        assert(agrees(defs, table, chosen.1));
    }
    if j < chosen.1 {
        assert(agrees(defs, table, j));
    }
}

/// Where all definitions agree with their families, no pair differs.
pub proof fn lemma_no_mismatch_pair(defs: Seq<TypeDefView>, table: Seq<Option<LayoutInfo>>)
    requires
        all_agree(defs, table, defs.len() as int),
    ensures
        first_mismatch_pair(defs, table) is None,
{
    if exists|i: int, j: int| is_first_mismatch(defs, table, i, j) {
        let chosen = choose|a: int, b: int| is_first_mismatch(defs, table, a, b);
        assert(is_first_mismatch(defs, table, chosen.0, chosen.1));
        assert(agrees(defs, table, chosen.1));
    }
}

impl Pass {
    /// The name of the pass.
    pub open spec fn name_text(self) -> Seq<char> {
        match self {
            Pass::Linker => "Linker"@,
            Pass::CalcLayout => "CalcLayout"@,
        }
    }

    /// The name of the pass.
    pub fn name(self) -> (name: &'static str)
        ensures
            name@ == self.name_text(),
    {
        match self {
            Pass::Linker => "Linker",
            Pass::CalcLayout => "CalcLayout",
        }
    }

    /// Runs the pass on the table. What it makes of the table is what
    /// `pass_result` says; a pass that fails leaves the table as it was.
    pub fn run(self, ctx: &mut EarlyCtx) -> (done: Result<(), CodegenError>)
        requires
            old(ctx).wf(),
        ensures
            final(ctx).wf(),
            final(ctx).ident_table == old(ctx).ident_table,
            final(ctx).mods == old(ctx).mods,
            pass_ended(pass_result(self, old(ctx).defs()), done, final(ctx).defs()),
            done is Err ==> final(ctx).ty_table == old(ctx).ty_table,
    {
        let ghost defs = ctx.defs();
        match self {
            Pass::Linker => {
                let done = Linker::run(ctx);
                proof {
                    match &done {
                        Ok(_) => {
                            lemma_all_linked(defs);
                        },
                        Err(error) => {
                            let (i, j) = choose|i: int, j: int|
                                {
                                    &&& #[trigger] is_first_unlinked(defs, i, j)
                                    &&& error@ == link_error(defs[i], defs[i].members[j])
                                };
                            lemma_first_unlinked(defs, i, j);
                        },
                    }
                }
                done
            },
            Pass::CalcLayout => {
                let done = CalcLayout::run(ctx);
                proof {
                    let table = layouts(defs);
                    let flags = unsized_flags(table);
                    match &done {
                        Ok(_) => {
                            lemma_all_closed(defs);
                            assert forall|i: int| 0 <= i < flags.len() implies !flags[i] by {
                                assert(is_sized(table[i]));
                            }
                            lemma_no_flag(flags);
                            lemma_no_mismatch_pair(defs, table);
                        },
                        Err(error) => {
                            if exists|i: int, j: int| #[trigger]
                                is_first_open(defs, i, j) && error@ == link_error(
                                    defs[i],
                                    defs[i].members[j],
                                ) {
                                let (i, j) = choose|i: int, j: int| #[trigger]
                                    is_first_open(defs, i, j) && error@ == link_error(
                                        defs[i],
                                        defs[i].members[j],
                                    );
                                lemma_first_open(defs, i, j);
                            } else if exists|i: int| #[trigger]
                                is_first_unsized(table, i) && error@ == size_error(
                                    defs[i],
                                    table[i],
                                ) {
                                lemma_all_closed(defs);
                                let i = choose|i: int| #[trigger]
                                    is_first_unsized(table, i) && error@ == size_error(
                                        defs[i],
                                        table[i],
                                    );
                                assert forall|k: int| 0 <= k < i implies !flags[k] by {
                                    assert(is_sized(table[k]));
                                }
                                assert(is_first_flag(flags, i));
                                lemma_first_flag(flags, i);
                            } else {
                                lemma_all_closed(defs);
                                assert forall|i: int| 0 <= i < flags.len() implies !flags[i] by {
                                    assert(is_sized(table[i]));
                                }
                                lemma_no_flag(flags);
                                let (i, j) = choose|i: int, j: int|
                                    {
                                        &&& #[trigger] is_first_mismatch(defs, table, i, j)
                                        &&& error@ == mismatch_error(defs, table, i, j)
                                    };
                                lemma_first_mismatch_pair(defs, table, i, j);
                            }
                        },
                    }
                }
                done
            },
        }
    }
}

/// Among the first `m` members of a definition, either all resolve or one
/// is the first that does not.
proof fn lemma_members_link_or_first(defs: Seq<TypeDefView>, i: int, m: int)
    requires
        0 <= i < defs.len(),
        0 <= m <= defs[i].members.len(),
    ensures
        members_link(names_of(defs), defs[i], m) || exists|j: int|
            0 <= j < m && members_link(names_of(defs), defs[i], j) && link_member(
                names_of(defs),
                #[trigger] defs[i].members[j],
            ) is None,
    decreases m,
{
    if m > 0 {
        lemma_members_link_or_first(defs, i, m - 1);
    }
}

/// Among the first `n` definitions, either every member resolves or one
/// member is the first that does not.
proof fn lemma_links_or_first(defs: Seq<TypeDefView>, n: int)
    requires
        0 <= n <= defs.len(),
    ensures
        table_links(names_of(defs), defs, n) || first_unlinked(defs) is Some,
    decreases n,
{
    if n > 0 {
        lemma_links_or_first(defs, n - 1);
        if table_links(names_of(defs), defs, n - 1) {
            let i = n - 1;
            lemma_members_link_or_first(defs, i, defs[i].members.len() as int);
            if !members_link(names_of(defs), defs[i], defs[i].members.len() as int) {
                let j = choose|j: int|
                    0 <= j < defs[i].members.len() && members_link(names_of(defs), defs[i], j)
                        && link_member(names_of(defs), #[trigger] defs[i].members[j]) is None;
                assert(is_first_unlinked(defs, i, j));
            }
        }
    }
}

/// Among the first `n` definitions, either each agrees with its family or
/// one is the first that does not.
proof fn lemma_agree_or_first(defs: Seq<TypeDefView>, table: Seq<Option<LayoutInfo>>, n: int)
    requires
        0 <= n <= defs.len(),
    ensures
        all_agree(defs, table, n) || first_mismatch_pair(defs, table) is Some,
    decreases n,
{
    if n > 0 {
        lemma_agree_or_first(defs, table, n - 1);
        if all_agree(defs, table, n - 1) && !agrees(defs, table, n - 1) {
            let i = choose|i: int| #[trigger]
                is_family_head(defs, i, n - 1) && table[i] != table[n - 1];
            assert(is_first_mismatch(defs, table, i, n - 1));
        }
    }
}

/// The linker succeeds exactly where every member resolves.
pub proof fn lemma_link_result(defs: Seq<TypeDefView>)
    ensures
        link_result(defs) is Ok <==> table_links(names_of(defs), defs, defs.len() as int),
{
    lemma_links_or_first(defs, defs.len() as int);
    if table_links(names_of(defs), defs, defs.len() as int) {
        lemma_all_linked(defs);
    }
}

/// The layout pass succeeds exactly where every reference is linked and
/// every definition has a layout below the limit of sizes and agrees with
/// its family.
pub proof fn lemma_layout_result(defs: Seq<TypeDefView>)
    ensures
        layout_result(defs) is Ok <==> table_closed(defs, defs.len() as int) && all_sized(
            layouts(defs),
            defs.len() as int,
        ) && all_agree(defs, layouts(defs), defs.len() as int),
        layouts(defs).len() == defs.len(),
{
    let table = layouts(defs);
    let flags = unsized_flags(table);
    assert(table.len() == defs.len());
    lemma_closed_or_first(defs, defs.len() as int);
    if table_closed(defs, defs.len() as int) {
        lemma_all_closed(defs);
    }
    lemma_agree_or_first(defs, table, defs.len() as int);
    if all_agree(defs, table, defs.len() as int) {
        lemma_no_mismatch_pair(defs, table);
    }
    if all_sized(table, defs.len() as int) {
        assert forall|i: int| 0 <= i < flags.len() implies !flags[i] by {
            assert(is_sized(table[i]));
        }
        lemma_no_flag(flags);
    } else {
        let i = choose|i: int| 0 <= i < defs.len() && i < table.len() && !is_sized(table[i]);
        assert(flags[i]);
        lemma_flag_has_first(flags, i);
    }
}

/// Reference closure: in the table that the linker gives, every reference
/// of every member points at a leaf type or at a definition of that table.
/// No reference by name is left and none dangles.
pub proof fn lemma_linked_is_closed(defs: Seq<TypeDefView>)
    requires
        link_result(defs) is Ok,
    ensures
        closed(link_result(defs)->Ok_0),
        link_result(defs)->Ok_0.len() == defs.len(),
{
    lemma_link_result(defs);
    lemma_link_table_closed(defs);
}

/// The layout pass touches no reference: a closed table stays closed.
pub proof fn lemma_layouts_keep_closed(defs: Seq<TypeDefView>)
    requires
        closed(defs),
        layout_result(defs) is Ok,
    ensures
        closed(layout_result(defs)->Ok_0),
{
    let table = layout_result(defs)->Ok_0;
    assert forall|i: int| 0 <= i < table.len() implies def_closed(
        #[trigger] table[i],
        table.len(),
    ) by {
        assert(def_closed(defs[i], defs.len()));
        assert(table[i].members == defs[i].members);
    }
}

/// Layout equality: in the table that the layout pass gives, any two
/// definitions that are declared layout-interchangeable have the same
/// size, the same alignment and the same tag offset.
pub proof fn lemma_families_agree(defs: Seq<TypeDefView>, a: int, b: int)
    requires
        layout_result(defs) is Ok,
        0 <= a < defs.len(),
        0 <= b < defs.len(),
        same_family(defs[a], defs[b]),
    ensures
        layout_result(defs)->Ok_0[a].layout is Some,
        layout_result(defs)->Ok_0[a].layout == layout_result(defs)->Ok_0[b].layout,
{
    lemma_layout_result(defs);
    let table = layouts(defs);
    lemma_family_layouts_equal(defs, table, a, b);
    assert(is_sized(table[a]));
}

} // verus!
