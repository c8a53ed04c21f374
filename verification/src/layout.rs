//! The layout rules: how many bytes a type takes and how it is aligned.
//!
//! Leaf types have fixed extents. A box is one pointer; a sequence is a
//! pointer, a length, a capacity and its arena. An optional pointer costs
//! nothing; any other optional value is preceded by a flag that is padded to
//! its alignment. The fields of a struct follow each other in the order of
//! their declaration, each at the next multiple of its alignment. An enum
//! is one byte for the discriminant at offset zero, followed by room for
//! its largest payload. Sizes saturate at `SIZE_LIMIT`.

use vstd::prelude::*;
use crate::schema::{
    leaf_align, leaf_size, Container, LayoutInfo, Leaf, Member, MemberView, Target, TargetView,
    TypeDef, TypeDefView, TypeKind, TypeRef,
};

verus! {

/// The size at which sizes saturate.
pub const SIZE_LIMIT: u64 = 0x1_0000_0000;

/// The largest alignment of any type.
pub const MAX_ALIGN: u64 = 8;

/// The size of a pointer.
pub const POINTER_SIZE: u64 = 8;

/// The size of a sequence.
pub const SEQUENCE_SIZE: u64 = 32;

/// Size and alignment of a value in bytes.
#[derive(Clone, Copy, Debug, PartialEq, Eq)]
pub struct Extent {
    pub size: u64,
    pub align: u64,
}

/// A size, saturated at `SIZE_LIMIT`.
pub open spec fn clamp(size: int) -> u64 {
    if size >= SIZE_LIMIT {
        SIZE_LIMIT
    } else if size < 0 {
        0
    } else {
        size as u64
    }
}

/// The next multiple of `align` at or after `offset`.
pub open spec fn align_up(offset: int, align: int) -> int {
    if align > 0 && offset % align != 0 {
        offset + align - offset % align
    } else {
        offset
    }
}

/// The larger of two alignments.
pub open spec fn wider(a: u64, b: u64) -> u64 {
    if a >= b {
        a
    } else {
        b
    }
}

/// Whether an extent is within the limits of the rules.
pub open spec fn extent_ok(extent: Extent) -> bool {
    extent.size <= SIZE_LIMIT && 1 <= extent.align <= MAX_ALIGN
}

/// Whether every layout of a table is within the limits of the rules.
pub open spec fn table_ok(table: Seq<Option<LayoutInfo>>) -> bool {
    forall|i: int|
        0 <= i < table.len() ==> match #[trigger] table[i] {
            Some(layout) => layout.size <= SIZE_LIMIT && 1 <= layout.align <= MAX_ALIGN,
            None => true,
        }
}

/// The extent of what a reference points at, given the layouts that are
/// known so far.
pub open spec fn target_extent(target: TargetView, table: Seq<Option<LayoutInfo>>) -> Option<
    Extent,
> {
    match target {
        TargetView::Leaf(leaf) => Some(Extent { size: leaf_size(leaf), align: leaf_align(leaf) }),
        TargetView::Resolved(id) => if id < table.len() {
            match table[id as int] {
                Some(layout) => Some(Extent { size: layout.size, align: layout.align }),
                None => None,
            }
        } else {
            None
        },
        TargetView::Named(_) => None,
    }
}

/// The extent of an optional value around `inner`.
pub open spec fn optional_extent(inner: Extent) -> Extent {
    Extent { size: clamp(inner.size + inner.align), align: inner.align }
}

/// The extent of a reference from its container at `k` inwards.
pub open spec fn wrapped_extent(
    containers: Seq<Container>,
    k: int,
    target: TargetView,
    table: Seq<Option<LayoutInfo>>,
) -> Option<Extent>
    decreases containers.len() - k,
{
    if k < 0 || k >= containers.len() {
        target_extent(target, table)
    } else {
        match containers[k] {
            Container::Boxed => Some(Extent { size: POINTER_SIZE, align: POINTER_SIZE }),
            Container::Sequence => Some(Extent { size: SEQUENCE_SIZE, align: POINTER_SIZE }),
            Container::Optional => {
                let inner = wrapped_extent(containers, k + 1, target, table);
                if k + 1 < containers.len() && containers[k + 1] != Container::Optional {
                    inner
                } else {
                    match inner {
                        Some(inner) => Some(optional_extent(inner)),
                        None => None,
                    }
                }
            },
        }
    }
}

/// The extent of a member: that of its type, or nothing for a variant
/// without a payload.
pub open spec fn member_extent(member: MemberView, table: Seq<Option<LayoutInfo>>) -> Option<
    Extent,
> {
    match member.ty {
        Some(reference) => wrapped_extent(reference.containers, 0, reference.target, table),
        None => Some(Extent { size: 0, align: 1 }),
    }
}

/// The end of the first `n` fields of a struct laid out one after the
/// other, and the widest alignment among them.
pub open spec fn struct_fold(members: Seq<MemberView>, n: nat, table: Seq<Option<LayoutInfo>>)
    -> Option<Extent>
    decreases n,
{
    if n == 0 || n > members.len() {
        Some(Extent { size: 0, align: 1 })
    } else {
        match (struct_fold(members, (n - 1) as nat, table), member_extent(members[n - 1], table)) {
            (Some(before), Some(member)) => Some(
                Extent {
                    size: clamp(align_up(before.size as int, member.align as int) + member.size),
                    align: wider(before.align, member.align),
                },
            ),
            _ => None,
        }
    }
}

/// The largest size and the widest alignment among the payloads of the
/// first `n` variants of an enum.
pub open spec fn enum_fold(members: Seq<MemberView>, n: nat, table: Seq<Option<LayoutInfo>>)
    -> Option<Extent>
    decreases n,
{
    if n == 0 || n > members.len() {
        Some(Extent { size: 0, align: 1 })
    } else {
        match (enum_fold(members, (n - 1) as nat, table), member_extent(members[n - 1], table)) {
            (Some(before), Some(member)) => Some(
                Extent {
                    size: wider(before.size, member.size),
                    align: wider(before.align, member.align),
                },
            ),
            _ => None,
        }
    }
}

/// The layout of a definition, given the layouts that are known so far;
/// `None` while the layout of something that it holds by value is unknown.
pub open spec fn def_layout(def: TypeDefView, table: Seq<Option<LayoutInfo>>) -> Option<
    LayoutInfo,
> {
    match def.kind {
        TypeKind::Struct => match struct_fold(def.members, def.members.len(), table) {
            Some(fields) => Some(
                LayoutInfo {
                    size: clamp(align_up(fields.size as int, fields.align as int)),
                    align: fields.align,
                    tag_offset: None,
                },
            ),
            None => None,
        },
        TypeKind::Enum => match enum_fold(def.members, def.members.len(), table) {
            Some(payload) => Some(
                LayoutInfo {
                    size: clamp(
                        align_up(
                            align_up(1, payload.align as int) + payload.size,
                            payload.align as int,
                        ),
                    ),
                    align: payload.align,
                    tag_offset: Some(0),
                },
            ),
            None => None,
        },
    }
}

/// The layouts that are known after `k` rounds: none to begin with, and in
/// every round the layout of each definition from those of the round
/// before.
pub open spec fn layout_round(defs: Seq<TypeDefView>, k: nat) -> Seq<Option<LayoutInfo>>
    decreases k,
{
    if k == 0 {
        Seq::new(defs.len(), |i: int| None)
    } else {
        Seq::new(defs.len(), |i: int| def_layout(defs[i], layout_round(defs, (k - 1) as nat)))
    }
}

/// The layouts of a table: those that are known after as many rounds as
/// there are definitions. A definition that holds itself by value has none.
pub open spec fn layouts(defs: Seq<TypeDefView>) -> Seq<Option<LayoutInfo>> {
    layout_round(defs, defs.len())
}

/// A size, saturated at `SIZE_LIMIT`.
pub fn clamp_size(size: u64) -> (clamped: u64)
    ensures
        clamped == clamp(size as int),
        clamped <= SIZE_LIMIT,
{
    if size >= SIZE_LIMIT {
        SIZE_LIMIT
    } else {
        size
    }
}

/// The next multiple of `align` at or after `offset`.
pub fn round_up(offset: u64, align: u64) -> (rounded: u64)
    requires
        1 <= align <= MAX_ALIGN,
        offset <= 4 * SIZE_LIMIT,
    ensures
        rounded == align_up(offset as int, align as int),
        offset <= rounded < offset + align,
{
    let rest = offset % align;
    if rest != 0 {
        offset + align - rest
    } else {
        offset
    }
}

/// The larger of two numbers.
pub fn widest(a: u64, b: u64) -> (w: u64)
    ensures
        w == wider(a, b),
{
    if a >= b {
        a
    } else {
        b
    }
}

/// The extent of what a reference points at.
pub fn extent_of_target(target: &Target, table: &Vec<Option<LayoutInfo>>) -> (extent: Option<
    Extent,
>)
    requires
        table_ok(table@),
    ensures
        extent == target_extent(target@, table@),
        extent matches Some(extent) ==> extent_ok(extent),
{
    match target {
        Target::Leaf(leaf) => Some(Extent { size: leaf.size(), align: leaf.align() }),
        Target::Resolved(id) => {
            if *id < table.len() {
                match table[*id] {
                    Some(layout) => Some(Extent { size: layout.size, align: layout.align }),
                    None => None,
                }
            } else {
                None
            }
        },
        Target::Named(_) => None,
    }
}

/// The extent of a reference with all its containers.
pub fn extent_of_ref(reference: &TypeRef, table: &Vec<Option<LayoutInfo>>) -> (extent: Option<
    Extent,
>)
    requires
        table_ok(table@),
    ensures
        extent == wrapped_extent(reference@.containers, 0, reference@.target, table@),
        extent matches Some(extent) ==> extent_ok(extent),
{
    let containers = &reference.containers;
    let mut extent = extent_of_target(&reference.target, table);
    let mut k: usize = containers.len();
    while k > 0
        invariant
            k <= containers.len(),
            containers@ == reference@.containers,
            extent == wrapped_extent(containers@, k as int, reference@.target, table@),
            extent matches Some(extent) ==> extent_ok(extent),
        decreases k,
    {
        k = k - 1;
        extent = match containers[k] {
            Container::Boxed => Some(Extent { size: POINTER_SIZE, align: POINTER_SIZE }),
            Container::Sequence => Some(Extent { size: SEQUENCE_SIZE, align: POINTER_SIZE }),
            Container::Optional => {
                if k + 1 < containers.len() && containers[k + 1] != Container::Optional {
                    extent
                } else {
                    match extent {
                        Some(inner) => Some(
                            Extent {
                                size: clamp_size(inner.size + inner.align),
                                align: inner.align,
                            },
                        ),
                        None => None,
                    }
                }
            },
        };
    }
    extent
}

/// The extent of a member.
pub fn extent_of_member(member: &Member, table: &Vec<Option<LayoutInfo>>) -> (extent: Option<
    Extent,
>)
    requires
        table_ok(table@),
    ensures
        extent == member_extent(member@, table@),
        extent matches Some(extent) ==> extent_ok(extent),
{
    match &member.ty {
        Some(reference) => extent_of_ref(reference, table),
        None => Some(Extent { size: 0, align: 1 }),
    }
}

/// The layout of a definition from the layouts that are known so far.
pub fn layout_of_def(def: &TypeDef, table: &Vec<Option<LayoutInfo>>) -> (layout: Option<
    LayoutInfo,
>)
    requires
        table_ok(table@),
    ensures
        layout == def_layout(def@, table@),
        layout matches Some(layout) ==> layout.size <= SIZE_LIMIT && 1 <= layout.align
            <= MAX_ALIGN,
{
    let ghost members = def@.members;
    let mut fold = Extent { size: 0, align: 1 };
    let mut j: usize = 0;
    while j < def.members.len()
        invariant
            j <= def.members.len(),
            table_ok(table@),
            members == def@.members,
            members.len() == def.members.len(),
            extent_ok(fold),
            def.kind == TypeKind::Struct ==> struct_fold(members, j as nat, table@) == Some(fold),
            def.kind == TypeKind::Enum ==> enum_fold(members, j as nat, table@) == Some(fold),
        decreases def.members.len() - j,
    {
        assert(members[j as int] == def.members[j as int]@);
        let member = match extent_of_member(&def.members[j], table) {
            Some(member) => member,
            None => {
                proof {
                    lemma_fold_fails(members, (j + 1) as nat, members.len(), table@);
                }
                return None;
            },
        };
        fold = match def.kind {
            TypeKind::Struct => Extent {
                size: clamp_size(round_up(fold.size, member.align) + member.size),
                align: widest(fold.align, member.align),
            },
            TypeKind::Enum => Extent {
                size: widest(fold.size, member.size),
                align: widest(fold.align, member.align),
            },
        };
        j = j + 1;
    }
    match def.kind {
        TypeKind::Struct => Some(
            LayoutInfo {
                size: clamp_size(round_up(fold.size, fold.align)),
                align: fold.align,
                tag_offset: None,
            },
        ),
        TypeKind::Enum => {
            let payload = round_up(1, fold.align);
            Some(
                LayoutInfo {
                    size: clamp_size(round_up(payload + fold.size, fold.align)),
                    align: fold.align,
                    tag_offset: Some(0),
                },
            )
        },
    }
}

/// A fold that fails at some member fails for every longer prefix.
proof fn lemma_fold_fails(
    members: Seq<MemberView>,
    n: nat,
    m: nat,
    table: Seq<Option<LayoutInfo>>,
)
    requires
        1 <= n <= m <= members.len(),
        member_extent(members[n - 1], table) is None,
    ensures
        struct_fold(members, m, table) is None,
        enum_fold(members, m, table) is None,
    decreases m,
{
    if n < m {
        lemma_fold_fails(members, n, (m - 1) as nat, table);
    }
}

/// Whether `later` knows every layout that `earlier` knows, and knows it
/// alike.
pub open spec fn extends(later: Seq<Option<LayoutInfo>>, earlier: Seq<Option<LayoutInfo>>)
    -> bool {
    &&& later.len() == earlier.len()
    &&& forall|i: int|
        0 <= i < earlier.len() && (#[trigger] earlier[i]) is Some ==> later[i] == earlier[i]
}

/// An extent that is known from some layouts stays the same when more
/// layouts are known.
proof fn lemma_wrapped_extent_extends(
    containers: Seq<Container>,
    k: int,
    target: TargetView,
    earlier: Seq<Option<LayoutInfo>>,
    later: Seq<Option<LayoutInfo>>,
)
    requires
        extends(later, earlier),
        wrapped_extent(containers, k, target, earlier) is Some,
    ensures
        wrapped_extent(containers, k, target, later) == wrapped_extent(
            containers,
            k,
            target,
            earlier,
        ),
    decreases containers.len() - k,
{
    if 0 <= k < containers.len() {
        if containers[k] == Container::Optional {
            lemma_wrapped_extent_extends(containers, k + 1, target, earlier, later);
        }
    }
}

/// A fold that is known from some layouts stays the same when more layouts
/// are known.
proof fn lemma_fold_extends(
    members: Seq<MemberView>,
    n: nat,
    earlier: Seq<Option<LayoutInfo>>,
    later: Seq<Option<LayoutInfo>>,
)
    requires
        extends(later, earlier),
    ensures
        struct_fold(members, n, earlier) is Some ==> struct_fold(members, n, later)
            == struct_fold(members, n, earlier),
        enum_fold(members, n, earlier) is Some ==> enum_fold(members, n, later) == enum_fold(
            members,
            n,
            earlier,
        ),
    decreases n,
{
    if n > 0 && n <= members.len() {
        lemma_fold_extends(members, (n - 1) as nat, earlier, later);
        let member = members[n - 1];
        if member_extent(member, earlier) is Some {
            if let Some(reference) = member.ty {
                lemma_wrapped_extent_extends(
                    reference.containers,
                    0,
                    reference.target,
                    earlier,
                    later,
                );
            }
        }
    }
}

/// A layout that is known from some layouts stays the same when more
/// layouts are known.
pub proof fn lemma_def_layout_extends(
    def: TypeDefView,
    earlier: Seq<Option<LayoutInfo>>,
    later: Seq<Option<LayoutInfo>>,
)
    requires
        extends(later, earlier),
        def_layout(def, earlier) is Some,
    ensures
        def_layout(def, later) == def_layout(def, earlier),
{
    lemma_fold_extends(def.members, def.members.len(), earlier, later);
}

/// Every round keeps the layouts of the round before.
pub proof fn lemma_rounds_extend(defs: Seq<TypeDefView>, k: nat)
    ensures
        extends(layout_round(defs, k + 1), layout_round(defs, k)),
    decreases k,
{
    let now = layout_round(defs, k);
    let next = layout_round(defs, k + 1);
    if k > 0 {
        let before = layout_round(defs, (k - 1) as nat);
        lemma_rounds_extend(defs, (k - 1) as nat);
        assert forall|i: int| 0 <= i < now.len() && (#[trigger] now[i]) is Some implies next[i]
            == now[i] by {
            lemma_def_layout_extends(defs[i], before, now);
        }
    }
}

/// The layouts of a table satisfy the rules among themselves: the layout
/// of a definition is the one that the rules give from the final layouts
/// of what it holds.
pub proof fn lemma_layouts_settled(defs: Seq<TypeDefView>, i: int)
    requires
        0 <= i < defs.len(),
        layouts(defs)[i] is Some,
    ensures
        def_layout(defs[i], layouts(defs)) == layouts(defs)[i],
{
    lemma_rounds_extend(defs, defs.len());
    let next = layout_round(defs, defs.len() + 1);
    assert(next[i] == def_layout(defs[i], layouts(defs)));
}

/// How many of the first `m` layouts of a table are known.
pub open spec fn known(table: Seq<Option<LayoutInfo>>, m: nat) -> nat
    decreases m,
{
    if m == 0 || m > table.len() {
        0
    } else if table[m - 1] is Some {
        known(table, (m - 1) as nat) + 1
    } else {
        known(table, (m - 1) as nat)
    }
}

/// No more layouts are known than there are, and where as many are known
/// as there are, each one is.
proof fn lemma_known_bound(table: Seq<Option<LayoutInfo>>, m: nat)
    requires
        m <= table.len(),
    ensures
        known(table, m) <= m,
        known(table, m) == m ==> forall|i: int| 0 <= i < m ==> (#[trigger] table[i]) is Some,
    decreases m,
{
    if m > 0 {
        lemma_known_bound(table, (m - 1) as nat);
    }
}

/// A table that extends another knows at least as many layouts, and more
/// if it knows one that the other does not.
proof fn lemma_known_grows(
    earlier: Seq<Option<LayoutInfo>>,
    later: Seq<Option<LayoutInfo>>,
    m: nat,
    i: int,
)
    requires
        extends(later, earlier),
        m <= earlier.len(),
    ensures
        known(later, m) >= known(earlier, m),
        0 <= i < m && earlier[i] is None && later[i] is Some ==> known(later, m) > known(
            earlier,
            m,
        ),
    decreases m,
{
    if m > 0 {
        lemma_known_grows(earlier, later, (m - 1) as nat, i);
    }
}

/// A round that changes nothing is followed by rounds that change nothing.
proof fn lemma_round_stable(defs: Seq<TypeDefView>, k: nat)
    requires
        layout_round(defs, k + 1) == layout_round(defs, k),
    ensures
        layout_round(defs, k + 2) == layout_round(defs, k + 1),
{
    assert(layout_round(defs, k + 2) =~= layout_round(defs, k + 1));
}

/// Every round that changes something adds a layout.
proof fn lemma_progress(defs: Seq<TypeDefView>, k: nat)
    ensures
        layout_round(defs, k + 1) == layout_round(defs, k) || known(
            layout_round(defs, k),
            defs.len(),
        ) >= k,
    decreases k,
{
    if k > 0 {
        let before = layout_round(defs, (k - 1) as nat);
        let now = layout_round(defs, k);
        lemma_progress(defs, (k - 1) as nat);
        if before == now {
            lemma_round_stable(defs, (k - 1) as nat);
        } else {
            lemma_rounds_extend(defs, (k - 1) as nat);
            if forall|i: int| 0 <= i < now.len() ==> now[i] == before[i] {
                assert(now =~= before);
            }
            let i = choose|i: int| 0 <= i < now.len() && now[i] != before[i];
            lemma_known_grows(before, now, defs.len(), i);
        }
    }
}

/// As many rounds as there are definitions suffice: a further round
/// changes nothing. A definition that is then without a layout holds
/// itself by value, directly or through others.
pub proof fn lemma_layouts_final(defs: Seq<TypeDefView>)
    ensures
        layout_round(defs, defs.len() + 1) == layouts(defs),
{
    let now = layouts(defs);
    let next = layout_round(defs, defs.len() + 1);
    lemma_progress(defs, defs.len());
    if next != now {
        lemma_known_bound(now, defs.len());
        lemma_rounds_extend(defs, defs.len());
        assert(next =~= now);
    }
}

/// Definitions of one shape have one layout: two definitions of the same
/// kind with the same members, in the same order, are laid out alike,
/// whatever they are called.
pub proof fn lemma_same_shape_same_layout(defs: Seq<TypeDefView>, a: int, b: int)
    requires
        0 <= a < defs.len(),
        0 <= b < defs.len(),
        defs[a].kind == defs[b].kind,
        defs[a].members == defs[b].members,
    ensures
        layouts(defs)[a] == layouts(defs)[b],
{
    let before = layout_round(defs, (defs.len() - 1) as nat);
    assert(layouts(defs)[a] == def_layout(defs[a], before));
    assert(layouts(defs)[b] == def_layout(defs[b], before));
}

} // verus!
