//! The layout pass: computes the layout of every definition and checks
//! that the definitions of one family agree exactly.

use vstd::prelude::*;
use vstd::string::*;
use crate::context::EarlyCtx;
use crate::error::{CodegenError, CodegenErrorView};
use crate::layout::{def_layout, layout_of_def, layout_round, layouts, table_ok, SIZE_LIMIT};
use crate::linker::{link_error, unlinked};
use crate::schema::{
    names_of, ref_closed, views, LayoutInfo, Member, MemberView, Target, TypeDef, TypeDefView,
};

verus! {

/// Whether the reference of a member, if it has one, points at a leaf type
/// or at a definition of a table of `n` definitions.
pub open spec fn member_closed(member: MemberView, n: nat) -> bool {
    match member.ty {
        Some(reference) => ref_closed(reference, n),
        None => true,
    }
}

/// Whether the reference of each of the first `m` members of a definition
/// is closed.
pub open spec fn members_closed(def: TypeDefView, m: int, n: nat) -> bool {
    forall|j: int|
        0 <= j < m && j < def.members.len() ==> member_closed(#[trigger] def.members[j], n)
}

/// Whether every reference of each of the first `k` definitions is closed.
pub open spec fn table_closed(defs: Seq<TypeDefView>, k: int) -> bool {
    forall|i: int|
        0 <= i < k && i < defs.len() ==> members_closed(
            #[trigger] defs[i],
            defs[i].members.len() as int,
            defs.len(),
        )
}

/// Whether member `j` of definition `i` is the first member of the table
/// whose reference is still a name or points outside the table.
pub open spec fn is_first_open(defs: Seq<TypeDefView>, i: int, j: int) -> bool {
    &&& 0 <= i < defs.len()
    &&& 0 <= j < defs[i].members.len()
    &&& table_closed(defs, i)
    &&& members_closed(defs[i], j, defs.len())
    &&& !member_closed(defs[i].members[j], defs.len())
}

/// Whether a layout is known and below the limit of sizes.
pub open spec fn is_sized(entry: Option<LayoutInfo>) -> bool {
    entry matches Some(layout) && layout.size < SIZE_LIMIT
}

/// Whether each of the first `n` layouts is known and below the limit.
pub open spec fn all_sized(table: Seq<Option<LayoutInfo>>, n: int) -> bool {
    forall|i: int| 0 <= i < n && i < table.len() ==> is_sized(#[trigger] table[i])
}

/// Whether `i` is the first definition without a usable layout.
pub open spec fn is_first_unsized(table: Seq<Option<LayoutInfo>>, i: int) -> bool {
    &&& 0 <= i < table.len()
    &&& all_sized(table, i)
    &&& !is_sized(table[i])
}

/// The error for a definition without a usable layout: it has none because
/// it holds itself by value, or its size reached the limit.
pub open spec fn size_error(def: TypeDefView, entry: Option<LayoutInfo>) -> CodegenErrorView {
    match entry {
        None => CodegenErrorView::LayoutCycle { owner: def.name },
        Some(_) => CodegenErrorView::LayoutTooLarge { owner: def.name },
    }
}

/// Whether two definitions are declared layout-interchangeable: both name a
/// family, and it is the same.
pub open spec fn same_family(a: TypeDefView, b: TypeDefView) -> bool {
    a.family is Some && a.family == b.family
}

/// Whether `i` is the first definition of the family of `j`.
pub open spec fn is_family_head(defs: Seq<TypeDefView>, i: int, j: int) -> bool {
    &&& 0 <= i <= j < defs.len()
    &&& same_family(defs[i], defs[j])
    &&& forall|k: int| 0 <= k < i ==> !same_family(#[trigger] defs[k], defs[j])
}

/// Whether definition `j` has the layout of the first of its family.
pub open spec fn agrees(defs: Seq<TypeDefView>, table: Seq<Option<LayoutInfo>>, j: int) -> bool {
    forall|i: int| #[trigger] is_family_head(defs, i, j) ==> table[i] == table[j]
}

/// Whether each of the first `n` definitions has the layout of the first of
/// its family.
pub open spec fn all_agree(defs: Seq<TypeDefView>, table: Seq<Option<LayoutInfo>>, n: int)
    -> bool {
    forall|j: int| 0 <= j < n ==> #[trigger] agrees(defs, table, j)
}

/// Whether `j` is the first definition whose layout differs from that of
/// `i`, the first of its family.
pub open spec fn is_first_mismatch(
    defs: Seq<TypeDefView>,
    table: Seq<Option<LayoutInfo>>,
    i: int,
    j: int,
) -> bool {
    &&& is_family_head(defs, i, j)
    &&& table[i] != table[j]
    &&& all_agree(defs, table, j)
}

/// The error for two definitions of one family that differ in layout: it
/// names both and gives both layouts.
pub open spec fn mismatch_error(
    defs: Seq<TypeDefView>,
    table: Seq<Option<LayoutInfo>>,
    i: int,
    j: int,
) -> CodegenErrorView {
    CodegenErrorView::LayoutMismatch {
        first: defs[i].name,
        second: defs[j].name,
        first_layout: table[i]->0,
        second_layout: table[j]->0,
    }
}

/// The definitions with their layouts attached.
pub open spec fn with_layouts(defs: Seq<TypeDefView>, table: Seq<Option<LayoutInfo>>) -> Seq<
    TypeDefView,
> {
    Seq::new(defs.len(), |i: int| TypeDefView { layout: table[i], ..defs[i] })
}

/// Whether two layouts are the same in size, alignment and tag offset.
pub fn same_layout(a: &LayoutInfo, b: &LayoutInfo) -> (same: bool)
    ensures
        same == (*a == *b),
{
    let tags = match (a.tag_offset, b.tag_offset) {
        (Some(x), Some(y)) => x == y,
        (None, None) => true,
        _ => false,
    };
    a.size == b.size && a.align == b.align && tags
}

/// Whether two definitions are declared layout-interchangeable.
pub fn in_same_family(a: &TypeDef, b: &TypeDef) -> (same: bool)
    ensures
        same == same_family(a@, b@),
{
    match (&a.family, &b.family) {
        (Some(x), Some(y)) => *x == *y,
        _ => false,
    }
}

/// Whether two entries of a layout table are the same.
pub fn same_entry(a: &Option<LayoutInfo>, b: &Option<LayoutInfo>) -> (same: bool)
    ensures
        same == (*a == *b),
{
    match (a, b) {
        (Some(x), Some(y)) => same_layout(x, y),
        (None, None) => true,
        _ => false,
    }
}

/// The first definition whose layout differs from that of the first
/// definition of its family, together with that first definition.
pub fn find_mismatch(defs: &Vec<TypeDef>, table: &Vec<Option<LayoutInfo>>) -> (found: Option<
    (usize, usize),
>)
    requires
        table.len() == defs.len(),
    ensures
        match found {
            Some((h, j)) => is_first_mismatch(views(defs@), table@, h as int, j as int),
            None => all_agree(views(defs@), table@, defs.len() as int),
        },
{
    let ghost shown = views(defs@);
    let n = defs.len();
    let mut j: usize = 0;
    while j < n
        invariant
            j <= n,
            n == defs.len(),
            table.len() == n,
            shown == views(defs@),
            all_agree(shown, table@, j as int),
        decreases n - j,
    {
        let mut h: usize = 0;
        while h < j && !in_same_family(&defs[h], &defs[j])
            invariant
                h <= j < n,
                n == defs.len(),
                shown == views(defs@),
                forall|k: int| 0 <= k < h ==> !same_family(#[trigger] shown[k], shown[j as int]),
            decreases j - h,
        {
            assert(shown[h as int] == defs[h as int]@);
            assert(shown[j as int] == defs[j as int]@);
            h = h + 1;
        }
        assert(shown[h as int] == defs[h as int]@);
        assert(shown[j as int] == defs[j as int]@);
        if h < j {
            assert(is_family_head(shown, h as int, j as int));
            if !same_entry(&table[h], &table[j]) {
                return Some((h, j));
            }
        }
        proof {
            assert forall|i: int| #[trigger]
                is_family_head(shown, i, j as int) implies table@[i] == table@[j as int] by {
                if i < h {
                    assert(!same_family(shown[i], shown[j as int]));
                }
                if h < i {
                    assert(h < j);
                    assert(!same_family(shown[h as int], shown[j as int]));
                }
            }
            assert(agrees(shown, table@, j as int));
        }
        j = j + 1;
    }
    None
}

/// One round: the layout of every definition from the layouts of the round
/// before.
fn next_round(defs: &Vec<TypeDef>, table: &Vec<Option<LayoutInfo>>) -> (next: Vec<
    Option<LayoutInfo>,
>)
    requires
        table_ok(table@),
    ensures
        next.len() == defs.len(),
        forall|i: int|
            0 <= i < defs.len() ==> #[trigger] next[i] == def_layout(defs[i]@, table@),
        table_ok(next@),
{
    let mut next: Vec<Option<LayoutInfo>> = Vec::new();
    let mut i: usize = 0;
    while i < defs.len()
        invariant
            i <= defs.len(),
            next.len() == i,
            table_ok(table@),
            table_ok(next@),
            forall|k: int| 0 <= k < i ==> #[trigger] next[k] == def_layout(defs[k]@, table@),
        decreases defs.len() - i,
    {
        let layout = layout_of_def(&defs[i], table);
        next.push(layout);
        i = i + 1;
    }
    next
}

/// The layouts of a table of definitions.
pub fn compute_layouts(defs: &Vec<TypeDef>) -> (table: Vec<Option<LayoutInfo>>)
    ensures
        table@ == layouts(views(defs@)),
        table.len() == defs.len(),
        table_ok(table@),
{
    let ghost shown = views(defs@);
    let mut table: Vec<Option<LayoutInfo>> = Vec::new();
    let mut i: usize = 0;
    while i < defs.len()
        invariant
            i <= defs.len(),
            table.len() == i,
            forall|k: int| 0 <= k < i ==> (#[trigger] table[k]) is None,
        decreases defs.len() - i,
    {
        table.push(None);
        i = i + 1;
    }
    assert(table@ =~= layout_round(shown, 0));
    let mut round: usize = 0;
    while round < defs.len()
        invariant
            round <= defs.len(),
            shown == views(defs@),
            table.len() == defs.len(),
            table@ == layout_round(shown, round as nat),
            table_ok(table@),
        decreases defs.len() - round,
    {
        let next = next_round(defs, &table);
        assert(next@ =~= layout_round(shown, (round + 1) as nat));
        table = next;
        round = round + 1;
    }
    table
}

/// Whether the reference of a member is closed in a table of `n`
/// definitions.
pub fn is_closed(member: &Member, n: usize) -> (b: bool)
    ensures
        b == member_closed(member@, n as nat),
{
    match &member.ty {
        Some(reference) => match &reference.target {
            Target::Named(_) => false,
            Target::Leaf(_) => true,
            Target::Resolved(id) => *id < n,
        },
        None => true,
    }
}

/// The first member of the table whose reference is still a name or
/// points outside the table: the place of its definition and its place in
/// it.
pub fn find_open(defs: &Vec<TypeDef>) -> (found: Option<(usize, usize)>)
    ensures
        match found {
            Some((i, j)) => is_first_open(views(defs@), i as int, j as int),
            None => table_closed(views(defs@), defs.len() as int),
        },
{
    let ghost shown = views(defs@);
    let n = defs.len();
    let mut i: usize = 0;
    while i < n
        invariant
            i <= n,
            n == defs.len(),
            shown == views(defs@),
            table_closed(shown, i as int),
        decreases n - i,
    {
        let def = &defs[i];
        assert(shown[i as int] == def@);
        let mut j: usize = 0;
        while j < def.members.len()
            invariant
                j <= def.members.len(),
                i < n,
                n == defs.len(),
                shown == views(defs@),
                shown[i as int] == def@,
                table_closed(shown, i as int),
                members_closed(def@, j as int, n as nat),
            decreases def.members.len() - j,
        {
            assert(def@.members[j as int] == def.members[j as int]@);
            if !is_closed(&def.members[j], n) {
                return Some((i, j));
            }
            j = j + 1;
        }
        i = i + 1;
    }
    None
}

/// The layout pass.
pub struct CalcLayout;

impl CalcLayout {
    /// Computes the layout of every definition and attaches it. The pass
    /// works on a linked table: it fails for the first member whose
    /// reference is still a name or points outside the table, and names
    /// it. Otherwise it fails for the first definition that has no finite
    /// size or whose size reached the limit, and otherwise for the first
    /// definition whose layout differs from that of the first definition of
    /// its family. A pass that fails leaves the table as it was.
    pub fn run(ctx: &mut EarlyCtx) -> (done: Result<(), CodegenError>)
        ensures
            final(ctx).ident_table == old(ctx).ident_table,
            final(ctx).mods == old(ctx).mods,
            old(ctx).wf() ==> final(ctx).wf(),
            match done {
                Ok(()) => {
                    &&& table_closed(old(ctx).defs(), old(ctx).defs().len() as int)
                    &&& all_sized(layouts(old(ctx).defs()), old(ctx).defs().len() as int)
                    &&& all_agree(
                        old(ctx).defs(),
                        layouts(old(ctx).defs()),
                        old(ctx).defs().len() as int,
                    )
                    &&& final(ctx).defs() == with_layouts(
                        old(ctx).defs(),
                        layouts(old(ctx).defs()),
                    )
                },
                Err(error) => {
                    &&& final(ctx).ty_table == old(ctx).ty_table
                    &&& {
                        ||| exists|i: int, j: int|
                            {
                                &&& #[trigger] is_first_open(old(ctx).defs(), i, j)
                                &&& error@ == link_error(
                                    old(ctx).defs()[i],
                                    old(ctx).defs()[i].members[j],
                                )
                            }
                        ||| exists|i: int|
                            {
                                &&& table_closed(old(ctx).defs(), old(ctx).defs().len() as int)
                                &&& #[trigger] is_first_unsized(layouts(old(ctx).defs()), i)
                                &&& error@ == size_error(
                                    old(ctx).defs()[i],
                                    layouts(old(ctx).defs())[i],
                                )
                            }
                        ||| {
                            &&& table_closed(old(ctx).defs(), old(ctx).defs().len() as int)
                            &&& all_sized(
                                layouts(old(ctx).defs()),
                                old(ctx).defs().len() as int,
                            )
                            &&& exists|i: int, j: int|
                                {
                                    &&& #[trigger] is_first_mismatch(
                                        old(ctx).defs(),
                                        layouts(old(ctx).defs()),
                                        i,
                                        j,
                                    )
                                    &&& error@ == mismatch_error(
                                        old(ctx).defs(),
                                        layouts(old(ctx).defs()),
                                        i,
                                        j,
                                    )
                                }
                        }
                    }
                },
            },
    {
        let ghost defs = ctx.defs();
        if let Some((i, j)) = find_open(&ctx.ty_table) {
            let def = &ctx.ty_table[i];
            assert(defs[i as int] == def@);
            assert(def@.members[j as int] == def.members[j as int]@);
            return Err(unlinked(def, &def.members[j]));
        }
        let table = compute_layouts(&ctx.ty_table);
        let n = ctx.ty_table.len();
        let mut i: usize = 0;
        while i < n
            invariant
                i <= n,
                n == ctx.ty_table.len(),
                *ctx == *old(ctx),
                defs == ctx.defs(),
                table_closed(defs, defs.len() as int),
                table@ == layouts(defs),
                table.len() == n,
                table_ok(table@),
                all_sized(table@, i as int),
            decreases n - i,
        {
            assert(defs[i as int] == ctx.ty_table[i as int]@);
            match table[i] {
                None => {
                    assert(is_first_unsized(table@, i as int));
                    return Err(CodegenError::LayoutCycle { owner: ctx.ty_table[i].name.clone() });
                },
                Some(layout) => {
                    if layout.size >= SIZE_LIMIT {
                        assert(is_first_unsized(table@, i as int));
                        return Err(
                            CodegenError::LayoutTooLarge { owner: ctx.ty_table[i].name.clone() },
                        );
                    }
                },
            }
            i = i + 1;
        }
        if let Some((h, j)) = find_mismatch(&ctx.ty_table, &table) {
            assert(defs[h as int] == ctx.ty_table[h as int]@);
            assert(defs[j as int] == ctx.ty_table[j as int]@);
            assert(is_first_mismatch(defs, table@, h as int, j as int));
            assert(is_sized(table@[h as int]) && is_sized(table@[j as int]));
            let first = match table[h] {
                Some(layout) => layout,
                None => LayoutInfo { size: 0, align: 1, tag_offset: None },
            };
            let second = match table[j] {
                Some(layout) => layout,
                None => LayoutInfo { size: 0, align: 1, tag_offset: None },
            };
            return Err(
                CodegenError::LayoutMismatch {
                    first: ctx.ty_table[h].name.clone(),
                    second: ctx.ty_table[j].name.clone(),
                    first_layout: first,
                    second_layout: second,
                },
            );
        }
        let mut laid_out: Vec<TypeDef> = Vec::new();
        let mut k: usize = 0;
        while k < n
            invariant
                k <= n,
                n == ctx.ty_table.len(),
                *ctx == *old(ctx),
                defs == ctx.defs(),
                table_closed(defs, defs.len() as int),
                table.len() == n,
                laid_out.len() == k,
                forall|m: int|
                    0 <= m < k ==> (#[trigger] laid_out[m])@ == (TypeDefView {
                        layout: table@[m],
                        ..defs[m]
                    }),
            decreases n - k,
        {
            assert(defs[k as int] == ctx.ty_table[k as int]@);
            let mut def = ctx.ty_table[k].duplicate();
            def.layout = table[k];
            laid_out.push(def);
            k = k + 1;
        }
        assert(views(laid_out@) =~= with_layouts(defs, table@));
        assert(names_of(with_layouts(defs, table@)) =~= names_of(defs));
        ctx.ty_table = laid_out;
        Ok(())
    }
}

/// Every definition with a family has a first definition of that family.
pub proof fn lemma_family_head_exists(defs: Seq<TypeDefView>, k: int, j: int)
    requires
        0 <= k <= j < defs.len(),
        same_family(defs[k], defs[j]),
    ensures
        exists|i: int| 0 <= i <= k && is_family_head(defs, i, j),
    decreases k,
{
    if exists|e: int| 0 <= e < k && same_family(defs[e], defs[j]) {
        let e = choose|e: int| 0 <= e < k && same_family(defs[e], defs[j]);
        lemma_family_head_exists(defs, e, j);
    } else {
        assert(is_family_head(defs, k, j));
    }
}

/// Layout equality: once the pass has succeeded, any two definitions that
/// are declared layout-interchangeable have the same size, the same
/// alignment and the same tag offset.
pub proof fn lemma_family_layouts_equal(
    defs: Seq<TypeDefView>,
    table: Seq<Option<LayoutInfo>>,
    a: int,
    b: int,
)
    requires
        table.len() == defs.len(),
        all_agree(defs, table, defs.len() as int),
        0 <= a < defs.len(),
        0 <= b < defs.len(),
        same_family(defs[a], defs[b]),
    ensures
        table[a] == table[b],
{
    lemma_family_head_exists(defs, a, a);
    let i = choose|i: int| 0 <= i <= a && is_family_head(defs, i, a);
    assert(agrees(defs, table, a));
    assert(table[i] == table[a]);
    if b < i {
        assert(same_family(defs[b], defs[a]));
        assert(!same_family(defs[b], defs[a]));
    }
    assert(is_family_head(defs, i, b)) by {
        assert forall|k: int| 0 <= k < i implies !same_family(#[trigger] defs[k], defs[b]) by {
            assert(!same_family(defs[k], defs[a]));
        }
    }
    assert(agrees(defs, table, b));
}

} // verus!
