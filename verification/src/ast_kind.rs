//! The kind generator: one tag for every definition that takes part in
//! traversal, and the conversions between tags and type identifiers.

use vstd::prelude::*;
use vstd::string::*;
use crate::context::LateCtx;
use crate::emit::{cannot_render, generator_error, outcome_view};
use crate::error::{CodegenError, CodegenErrorView};
use crate::output::{output, output_path, GeneratorOutput, GeneratorOutputView, AST_CRATE};
use crate::schema::{views, TypeDef, TypeDefView, TypeId};
use crate::text::{decimal, decimal_text};

verus! {

/// The name of the generator.
pub const AST_KIND: &'static str = "AstKind";

/// The file of the generated tags.
pub const AST_KIND_FILE: &'static str = "ast_kind.rs";

/// How many tags a byte can tell apart.
pub const MAX_KINDS: usize = 256;

/// The identifiers of the definitions among the first `n` that take part in
/// traversal, in ascending order. The tag of a definition is its place in
/// this list.
pub open spec fn kinds(defs: Seq<TypeDefView>, n: nat) -> Seq<TypeId>
    decreases n,
{
    if n == 0 || n > defs.len() {
        Seq::empty()
    } else if defs[n - 1].traversable {
        kinds(defs, (n - 1) as nat).push((n - 1) as TypeId)
    } else {
        kinds(defs, (n - 1) as nat)
    }
}

/// Whether a list of identifiers ascends strictly.
pub open spec fn ascending(ids: Seq<TypeId>) -> bool {
    forall|a: int, b: int| 0 <= a < b < ids.len() ==> ids[a] < ids[b]
}

/// The tag of the definition `id`: its place in the list of kinds.
pub open spec fn kind_position(ids: Seq<TypeId>, id: TypeId) -> Option<u8> {
    if exists|k: int| 0 <= k < ids.len() && k < MAX_KINDS && ids[k] == id {
        Some((choose|k: int| 0 <= k < ids.len() && k < MAX_KINDS && ids[k] == id) as u8)
    } else {
        None
    }
}

/// The definition that a tag stands for.
pub open spec fn kind_target(ids: Seq<TypeId>, kind: u8) -> Option<TypeId> {
    if kind < ids.len() {
        Some(ids[kind as int])
    } else {
        None
    }
}

/// The lines of the first `n` variants of the tag enumeration.
pub open spec fn variant_lines(defs: Seq<TypeDefView>, ids: Seq<TypeId>, n: nat) -> Seq<char>
    decreases n,
{
    if n == 0 || n > ids.len() {
        Seq::empty()
    } else {
        variant_lines(defs, ids, (n - 1) as nat) + "    "@ + defs[ids[n - 1] as int].name + " = "@
            + decimal_text((n - 1) as nat) + ",\n"@
    }
}

/// The arms that turn the first `n` tags into type identifiers.
pub open spec fn to_id_lines(defs: Seq<TypeDefView>, ids: Seq<TypeId>, n: nat) -> Seq<char>
    decreases n,
{
    if n == 0 || n > ids.len() {
        Seq::empty()
    } else {
        to_id_lines(defs, ids, (n - 1) as nat) + "            Self::"@ + defs[ids[n
            - 1] as int].name + " => "@ + decimal_text(ids[n - 1] as nat) + ",\n"@
    }
}

/// The arms that turn the type identifiers of the first `n` tags back into
/// tags.
pub open spec fn from_id_lines(defs: Seq<TypeDefView>, ids: Seq<TypeId>, n: nat) -> Seq<char>
    decreases n,
{
    if n == 0 || n > ids.len() {
        Seq::empty()
    } else {
        from_id_lines(defs, ids, (n - 1) as nat) + "            "@ + decimal_text(
            ids[n - 1] as nat,
        ) + " => Some(Self::"@ + defs[ids[n - 1] as int].name + "),\n"@
    }
}

/// The generated source: the enumeration of tags and both conversions.
pub open spec fn ast_kind_text(defs: Seq<TypeDefView>, ids: Seq<TypeId>) -> Seq<char> {
    "#[derive(Debug, Clone, Copy, PartialEq, Eq)]\n#[repr(u8)]\npub enum AstType {\n"@
        + variant_lines(defs, ids, ids.len())
        + "}\n\nimpl AstType {\n    pub fn type_id(self) -> usize {\n        match self {\n"@
        + to_id_lines(defs, ids, ids.len())
        + "        }\n    }\n\n    pub fn from_type_id(id: usize) -> Option<Self> {\n        match id {\n"@
        + from_id_lines(defs, ids, ids.len()) + "            _ => None,\n        }\n    }\n}\n"@
}

/// What the kind generator gives for a schema: the source of the tags, or
/// an error that names the first definition for which no tag is left.
pub open spec fn ast_kind_result(defs: Seq<TypeDefView>) -> Result<
    GeneratorOutputView,
    CodegenErrorView,
> {
    let ids = kinds(defs, defs.len());
    if ids.len() > MAX_KINDS {
        Err(generator_error(AST_KIND@, defs[ids[MAX_KINDS as int] as int].name))
    } else {
        Ok(
            GeneratorOutputView::Stream(
                output_path(AST_CRATE@, AST_KIND_FILE@),
                ast_kind_text(defs, ids),
            ),
        )
    }
}

/// The kinds ascend, and each is the identifier of a definition that takes
/// part in traversal.
pub proof fn lemma_kinds(defs: Seq<TypeDefView>, n: nat)
    requires
        n <= defs.len(),
        n <= usize::MAX,
    ensures
        ascending(kinds(defs, n)),
        forall|k: int|
            0 <= k < kinds(defs, n).len() ==> (#[trigger] kinds(defs, n)[k]) < n && defs[kinds(
                defs,
                n,
            )[k] as int].traversable,
        kinds(defs, n).len() <= n,
    decreases n,
{
    if n > 0 {
        lemma_kinds(defs, (n - 1) as nat);
        let before = kinds(defs, (n - 1) as nat);
        let now = kinds(defs, n);
        assert forall|k: int| 0 <= k < now.len() implies (#[trigger] now[k]) < n
            && defs[now[k] as int].traversable by {
            if k < before.len() {
                assert(now[k] == before[k]);
            }
        }
        assert forall|a: int, b: int| 0 <= a < b < now.len() implies now[a] < now[b] by {
            assert(now[a] == before[a]);
            if b < before.len() {
                assert(now[b] == before[b]);
            }
        }
    }
}

/// Tags and type identifiers convert into each other without loss: the tag
/// of the definition that a tag stands for is that tag, and the definition
/// that the tag of a definition stands for is that definition.
pub proof fn lemma_kind_round_trip(ids: Seq<TypeId>, kind: u8, id: TypeId)
    requires
        ascending(ids),
    ensures
        kind_target(ids, kind) matches Some(target) ==> kind_position(ids, target) == Some(kind),
        kind_position(ids, id) matches Some(tag) ==> kind_target(ids, tag) == Some(id),
{
    if kind < ids.len() {
        let target = ids[kind as int];
        assert(0 <= kind < ids.len() && kind < MAX_KINDS && ids[kind as int] == target);
        let chosen = choose|k: int| 0 <= k < ids.len() && k < MAX_KINDS && ids[k] == target;
        if chosen < kind {
            assert(ids[chosen] < ids[kind as int]);
        }
        if kind < chosen {
            assert(ids[kind as int] < ids[chosen]);
        }
    }
}

/// The identifiers of the definitions that take part in traversal, in
/// ascending order.
pub fn kind_ids(defs: &Vec<TypeDef>) -> (ids: Vec<TypeId>)
    ensures
        ids@ == kinds(views(defs@), defs.len() as nat),
        ascending(ids@),
        forall|k: int| 0 <= k < ids.len() ==> (#[trigger] ids[k]) < defs.len(),
{
    let ghost shown = views(defs@);
    let mut ids: Vec<TypeId> = Vec::new();
    let mut i: usize = 0;
    while i < defs.len()
        invariant
            i <= defs.len(),
            shown == views(defs@),
            ids@ == kinds(shown, i as nat),
        decreases defs.len() - i,
    {
        assert(shown[i as int] == defs[i as int]@);
        if defs[i].traversable {
            ids.push(i);
        }
        i = i + 1;
    }
    proof {
        lemma_kinds(shown, defs.len() as nat);
    }
    ids
}

/// The tag of the definition `id`, if it has one.
pub fn kind_of(ids: &Vec<TypeId>, id: TypeId) -> (kind: Option<u8>)
    requires
        ascending(ids@),
    ensures
        kind == kind_position(ids@, id),
{
    let mut k: usize = 0;
    while k < ids.len() && k < MAX_KINDS
        invariant
            k <= ids.len(),
            k <= MAX_KINDS,
            ascending(ids@),
            forall|m: int| 0 <= m < k ==> ids[m] != id,
        decreases ids.len() - k,
    {
        if ids[k] == id {
            proof {
                let chosen = choose|m: int| 0 <= m < ids.len() && m < MAX_KINDS && ids[m] == id;
                assert(0 <= k < ids.len() && k < MAX_KINDS && ids[k as int] == id);
                if chosen < k {
                    assert(ids[chosen] != id);
                }
                if k < chosen {
                    assert(ids[k as int] < ids[chosen]);
                }
            }
            return Some(k as u8);
        }
        k = k + 1;
    }
    None
}

/// The definition that the tag `kind` stands for, if the tag is in use.
pub fn type_of_kind(ids: &Vec<TypeId>, kind: u8) -> (id: Option<TypeId>)
    ensures
        id == kind_target(ids@, kind),
{
    if (kind as usize) < ids.len() {
        Some(ids[kind as usize])
    } else {
        None
    }
}

/// The generated source for the kinds `ids` of a schema.
fn render_kinds(defs: &Vec<TypeDef>, ids: &Vec<TypeId>) -> (text: String)
    requires
        forall|k: int| 0 <= k < ids.len() ==> (#[trigger] ids[k]) < defs.len(),
    ensures
        text@ == ast_kind_text(views(defs@), ids@),
{
    let ghost shown = views(defs@);
    let mut text = String::from_str(
        "#[derive(Debug, Clone, Copy, PartialEq, Eq)]\n#[repr(u8)]\npub enum AstType {\n",
    );
    let ghost head = text@;
    let mut k: usize = 0;
    while k < ids.len()
        invariant
            k <= ids.len(),
            shown == views(defs@),
            forall|m: int| 0 <= m < ids.len() ==> (#[trigger] ids[m]) < defs.len(),
            text@ == head + variant_lines(shown, ids@, k as nat),
        decreases ids.len() - k,
    {
        let def = &defs[ids[k]];
        assert(shown[ids[k as int] as int] == def@);
        let ghost before = text@;
        text.append("    ");
        text.append(def.name.as_str());
        text.append(" = ");
        text.append(decimal(k).as_str());
        text.append(",\n");
        assert(text@ =~= head + variant_lines(shown, ids@, (k + 1) as nat));
        k = k + 1;
    }
    text.append(
        "}\n\nimpl AstType {\n    pub fn type_id(self) -> usize {\n        match self {\n",
    );
    let ghost head = text@;
    let mut k: usize = 0;
    while k < ids.len()
        invariant
            k <= ids.len(),
            shown == views(defs@),
            forall|m: int| 0 <= m < ids.len() ==> (#[trigger] ids[m]) < defs.len(),
            text@ == head + to_id_lines(shown, ids@, k as nat),
        decreases ids.len() - k,
    {
        let def = &defs[ids[k]];
        assert(shown[ids[k as int] as int] == def@);
        text.append("            Self::");
        text.append(def.name.as_str());
        text.append(" => ");
        text.append(decimal(ids[k]).as_str());
        text.append(",\n");
        assert(text@ =~= head + to_id_lines(shown, ids@, (k + 1) as nat));
        k = k + 1;
    }
    text.append(
        "        }\n    }\n\n    pub fn from_type_id(id: usize) -> Option<Self> {\n        match id {\n",
    );
    let ghost head = text@;
    let mut k: usize = 0;
    while k < ids.len()
        invariant
            k <= ids.len(),
            shown == views(defs@),
            forall|m: int| 0 <= m < ids.len() ==> (#[trigger] ids[m]) < defs.len(),
            text@ == head + from_id_lines(shown, ids@, k as nat),
        decreases ids.len() - k,
    {
        let def = &defs[ids[k]];
        assert(shown[ids[k as int] as int] == def@);
        text.append("            ");
        text.append(decimal(ids[k]).as_str());
        text.append(" => Some(Self::");
        text.append(def.name.as_str());
        text.append("),\n");
        assert(text@ =~= head + from_id_lines(shown, ids@, (k + 1) as nat));
        k = k + 1;
    }
    text.append("            _ => None,\n        }\n    }\n}\n");
    assert(text@ =~= ast_kind_text(shown, ids@));
    text
}

/// The kind generator.
pub struct AstKindGenerator;

impl AstKindGenerator {
    /// Hands back the source of the tag enumeration over every definition
    /// that takes part in traversal. A schema with more such definitions
    /// than a byte can tell apart is refused.
    pub fn run(ctx: &LateCtx) -> (outcome: Result<GeneratorOutput, CodegenError>)
        ensures
            outcome_view(outcome) == ast_kind_result(views(ctx.schema.definitions@)),
    {
        let defs = &ctx.schema.definitions;
        let ids = kind_ids(defs);
        if ids.len() > MAX_KINDS {
            let def = &defs[ids[MAX_KINDS]];
            assert(views(defs@)[ids[MAX_KINDS as int] as int] == def@);
            Err(cannot_render(AST_KIND, &def.name))
        } else {
            let text = render_kinds(defs, &ids);
            Ok(GeneratorOutput::Stream((output(AST_CRATE, AST_KIND_FILE), text)))
        }
    }
}

} // verus!
