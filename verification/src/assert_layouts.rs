//! The layout asserter: checks the layouts that are attached to the schema
//! once more and documents them as a table of binary records.

use vstd::prelude::*;
use vstd::string::*;
use crate::calc_layout::{all_agree, find_mismatch, is_first_mismatch};
use crate::context::LateCtx;
use crate::emit::{
    cannot_render, first_flag, generator_error, is_first_flag, lemma_first_flag, lemma_no_flag,
    outcome_view,
};
use crate::error::{CodegenError, CodegenErrorView};
use crate::output::{output, output_path, GeneratorOutput, GeneratorOutputView, AST_CRATE};
use crate::schema::{views, LayoutInfo, TypeDefView};

verus! {

/// The name of the generator.
pub const ASSERT_LAYOUTS: &'static str = "AssertLayouts";

/// The file of the layout table.
pub const LAYOUTS_FILE: &'static str = "layouts.bin";

/// The `n` low bytes of `value`, lowest first.
pub open spec fn le_bytes(value: nat, n: nat) -> Seq<u8>
    decreases n,
{
    if n == 0 {
        Seq::empty()
    } else {
        seq![(value % 256) as u8] + le_bytes(value / 256, (n - 1) as nat)
    }
}

/// The word that records a tag offset: the offset, or all ones where the
/// definition has no tag.
pub open spec fn tag_word(tag: Option<u64>) -> u64 {
    match tag {
        Some(offset) => offset,
        None => u64::MAX,
    }
}

/// The record of one layout: size, alignment and tag word, eight bytes
/// each, lowest byte first.
pub open spec fn layout_record(layout: LayoutInfo) -> Seq<u8> {
    le_bytes(layout.size as nat, 8) + le_bytes(layout.align as nat, 8) + le_bytes(
        tag_word(layout.tag_offset) as nat,
        8,
    )
}

/// The records of the first `n` definitions, by identifier.
pub open spec fn layout_records(defs: Seq<TypeDefView>, n: nat) -> Seq<u8>
    decreases n,
{
    if n == 0 || n > defs.len() {
        Seq::empty()
    } else {
        layout_records(defs, (n - 1) as nat) + layout_record(defs[n - 1].layout->0)
    }
}

/// Which definitions have no layout attached.
pub open spec fn unlaid_flags(defs: Seq<TypeDefView>) -> Seq<bool> {
    Seq::new(defs.len(), |i: int| defs[i].layout is None)
}

/// The layouts that are attached to the definitions.
pub open spec fn attached(defs: Seq<TypeDefView>) -> Seq<Option<LayoutInfo>> {
    Seq::new(defs.len(), |i: int| defs[i].layout)
}

/// The first definition whose layout differs from that of the first
/// definition of its family.
pub open spec fn first_mismatch(defs: Seq<TypeDefView>, table: Seq<Option<LayoutInfo>>) -> Option<
    int,
> {
    if exists|i: int, j: int| is_first_mismatch(defs, table, i, j) {
        Some((choose|i: int, j: int| is_first_mismatch(defs, table, i, j)).1)
    } else {
        None
    }
}

/// What the layout asserter gives for a schema: an error for the first
/// definition without a layout, else for the first definition that differs
/// from its family, else the table of all layouts.
pub open spec fn assert_layouts_result(defs: Seq<TypeDefView>) -> Result<
    GeneratorOutputView,
    CodegenErrorView,
> {
    match first_flag(unlaid_flags(defs)) {
        Some(i) => Err(generator_error(ASSERT_LAYOUTS@, defs[i].name)),
        None => match first_mismatch(defs, attached(defs)) {
            Some(j) => Err(generator_error(ASSERT_LAYOUTS@, defs[j].name)),
            None => Ok(
                GeneratorOutputView::Data(
                    output_path(AST_CRATE@, LAYOUTS_FILE@),
                    layout_records(defs, defs.len()),
                ),
            ),
        },
    }
}

/// Appends the eight bytes of `value`, lowest first.
fn push_word(out: &mut Vec<u8>, value: u64)
    ensures
        final(out)@ == old(out)@ + le_bytes(value as nat, 8),
{
    let ghost start = out@;
    let mut rest = value;
    let mut k: usize = 0;
    while k < 8
        invariant
            k <= 8,
            out@ + le_bytes(rest as nat, (8 - k) as nat) == start + le_bytes(value as nat, 8),
        decreases 8 - k,
    {
        let ghost before = out@;
        out.push((rest % 256) as u8);
        assert(before + le_bytes(rest as nat, (8 - k) as nat) =~= before.push(
            (rest % 256) as u8,
        ) + le_bytes((rest / 256) as nat, (8 - k - 1) as nat));
        rest = rest / 256;
        k = k + 1;
    }
    assert(out@ + le_bytes(rest as nat, 0) =~= out@);
}

/// Appends the record of one layout.
fn push_record(out: &mut Vec<u8>, layout: &LayoutInfo)
    ensures
        final(out)@ == old(out)@ + layout_record(*layout),
{
    push_word(out, layout.size);
    push_word(out, layout.align);
    let tag = match layout.tag_offset {
        Some(offset) => offset,
        None => u64::MAX,
    };
    push_word(out, tag);
    assert(out@ =~= old(out)@ + layout_record(*layout));
}

/// The mismatch that is found first is the one that the result names.
pub proof fn lemma_first_mismatch(
    defs: Seq<TypeDefView>,
    table: Seq<Option<LayoutInfo>>,
    i: int,
    j: int,
)
    requires
        is_first_mismatch(defs, table, i, j),
    ensures
        first_mismatch(defs, table) == Some(j),
{
    let chosen = choose|a: int, b: int| is_first_mismatch(defs, table, a, b);
    assert(is_first_mismatch(defs, table, chosen.0, chosen.1));
    if chosen.1 < j {
        assert(crate::calc_layout::agrees(defs, table, chosen.1));
    }
    if j < chosen.1 {
        assert(crate::calc_layout::agrees(defs, table, j));
    }
}

/// Where all definitions agree with their families, no mismatch is named.
pub proof fn lemma_no_mismatch(defs: Seq<TypeDefView>, table: Seq<Option<LayoutInfo>>)
    requires
        all_agree(defs, table, defs.len() as int),
    ensures
        first_mismatch(defs, table) is None,
{
    if exists|i: int, j: int| is_first_mismatch(defs, table, i, j) {
        let chosen = choose|a: int, b: int| is_first_mismatch(defs, table, a, b);
        assert(is_first_mismatch(defs, table, chosen.0, chosen.1));
        assert(crate::calc_layout::agrees(defs, table, chosen.1));
    }
}

/// The layout asserter.
pub struct AssertLayouts;

impl AssertLayouts {
    /// Checks that every definition has a layout and that the definitions
    /// of one family agree, and hands back the table of all layouts as a
    /// data stream.
    pub fn run(ctx: &LateCtx) -> (outcome: Result<GeneratorOutput, CodegenError>)
        ensures
            outcome_view(outcome) == assert_layouts_result(views(ctx.schema.definitions@)),
    {
        let defs = &ctx.schema.definitions;
        let ghost shown = views(defs@);
        let mut table: Vec<Option<LayoutInfo>> = Vec::new();
        let mut bytes: Vec<u8> = Vec::new();
        let mut i: usize = 0;
        while i < defs.len()
            invariant
                i <= defs.len(),
                shown == views(defs@),
                shown == views(ctx.schema.definitions@),
                table.len() == i,
                forall|k: int| 0 <= k < i ==> #[trigger] table[k] == shown[k].layout,
                forall|k: int| 0 <= k < i ==> !(#[trigger] unlaid_flags(shown)[k]),
                bytes@ == layout_records(shown, i as nat),
            decreases defs.len() - i,
        {
            assert(shown[i as int] == defs[i as int]@);
            match defs[i].layout {
                Some(layout) => {
                    push_record(&mut bytes, &layout);
                    table.push(Some(layout));
                },
                None => {
                    proof {
                        assert(unlaid_flags(shown)[i as int]);
                        assert(is_first_flag(unlaid_flags(shown), i as int));
                        lemma_first_flag(unlaid_flags(shown), i as int);
                    }
                    return Err(cannot_render(ASSERT_LAYOUTS, &defs[i].name));
                },
            }
            i = i + 1;
        }
        proof {
            lemma_no_flag(unlaid_flags(shown));
            assert(table@ =~= attached(shown));
        }
        match find_mismatch(defs, &table) {
            Some((h, j)) => {
                proof {
                    lemma_first_mismatch(shown, table@, h as int, j as int);
                }
                assert(shown[j as int] == defs[j as int]@);
                Err(cannot_render(ASSERT_LAYOUTS, &defs[j].name))
            },
            None => {
                proof {
                    lemma_no_mismatch(shown, table@);
                }
                Ok(GeneratorOutput::Data((output(AST_CRATE, LAYOUTS_FILE), bytes)))
            },
        }
    }
}

} // verus!
