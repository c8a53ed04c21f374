//! Loading of definition files: the items of a file as they were written,
//! their expansion into type definitions, and what their shape tells.

use vstd::prelude::*;
use vstd::string::*;
use crate::emit::{first_flag, is_first_flag, lemma_first_flag, lemma_no_flag};
use crate::error::{CodegenError, CodegenErrorView};
use crate::schema::{
    views, Container, Member, MemberView, Target, TargetView, TypeDef, TypeDefView, TypeKind,
    TypeRef, TypeRefView,
};
use crate::syntax::{
    attribute_argument, attribute_count, attribute_name, field_name, field_type, file_view,
    item_at, item_attribute, item_count, item_kind, item_name, item_view,
    member_count, parse_source, source_file, text_of, type_argument, type_argument_count,
    type_head, type_view, variant_field_count, variant_name, variant_type, SourceAttribute,
    SourceField, SourceItem, SourceType, SourceVariant,
};

verus! {

/// An attribute of an item: its name and, where it has one, its argument.
#[derive(Debug)]
pub struct RawMarker {
    pub name: String,
    pub argument: Option<String>,
}

pub struct RawMarkerView {
    pub name: Seq<char>,
    pub argument: Option<Seq<char>>,
}

impl View for RawMarker {
    type V = RawMarkerView;

    open spec fn view(&self) -> RawMarkerView {
        RawMarkerView { name: self.name@, argument: text_of(self.argument) }
    }
}

/// A field or variant as written: its name and the names of its type from
/// the outermost wrapper to the innermost name. A variant without a payload
/// has no such chain.
#[derive(Debug)]
pub struct RawMember {
    pub name: String,
    pub chain: Option<Vec<String>>,
}

pub struct RawMemberView {
    pub name: Seq<char>,
    pub chain: Option<Seq<Seq<char>>>,
}

impl View for RawMember {
    type V = RawMemberView;

    open spec fn view(&self) -> RawMemberView {
        RawMemberView {
            name: self.name@,
            chain: match self.chain {
                Some(chain) => Some(views(chain@)),
                None => None,
            },
        }
    }
}

/// A struct or enum as written.
#[derive(Debug)]
pub struct RawItem {
    pub kind: TypeKind,
    pub name: String,
    pub markers: Vec<RawMarker>,
    pub members: Vec<RawMember>,
}

pub struct RawItemView {
    pub kind: TypeKind,
    pub name: Seq<char>,
    pub markers: Seq<RawMarkerView>,
    pub members: Seq<RawMemberView>,
}

impl View for RawItem {
    type V = RawItemView;

    open spec fn view(&self) -> RawItemView {
        RawItemView {
            kind: self.kind,
            name: self.name@,
            markers: views(self.markers@),
            members: views(self.members@),
        }
    }
}

/// One loaded definition file: its path and its definitions in the order
/// in which they were declared.
#[derive(Debug, PartialEq, Eq)]
pub struct Module {
    pub path: String,
    pub items: Vec<TypeDef>,
}

/// The container that a wrapper's name stands for.
pub open spec fn container_of(name: Seq<char>) -> Option<Container> {
    if name == "Option"@ {
        Some(Container::Optional)
    } else if name == "Box"@ {
        Some(Container::Boxed)
    } else if name == "Vec"@ {
        Some(Container::Sequence)
    } else {
        None
    }
}

/// Whether all names of a chain but the last are containers.
pub open spec fn chain_wraps(chain: Seq<Seq<char>>) -> bool {
    forall|i: int| 0 <= i < chain.len() - 1 ==> container_of(#[trigger] chain[i]) is Some
}

/// The reference that a chain of names denotes: every name but the last
/// must be a container, and the last is the name referred to.
pub open spec fn chain_ref(chain: Seq<Seq<char>>) -> Option<TypeRefView> {
    if chain.len() > 0 && chain_wraps(chain) {
        Some(
            TypeRefView {
                containers: Seq::new(
                    (chain.len() - 1) as nat,
                    |i: int| container_of(chain[i])->0,
                ),
                target: TargetView::Named(chain[chain.len() - 1]),
            },
        )
    } else {
        None
    }
}

/// The member that a written member expands to. A field needs a type; a
/// variant may do without.
pub open spec fn expand_member(raw: RawMemberView, kind: TypeKind) -> Option<MemberView> {
    match raw.chain {
        None => if kind == TypeKind::Enum {
            Some(MemberView { name: raw.name, ty: None })
        } else {
            None
        },
        Some(chain) => match chain_ref(chain) {
            Some(ty) => Some(MemberView { name: raw.name, ty: Some(ty) }),
            None => None,
        },
    }
}

/// Whether one of the first `n` markers is called `name`.
pub open spec fn has_marker(markers: Seq<RawMarkerView>, name: Seq<char>, n: int) -> bool {
    exists|i: int| 0 <= i < n && i < markers.len() && (#[trigger] markers[i]).name == name
}

/// The argument of the first among the first `n` markers that is called
/// `name` and has an argument.
pub open spec fn marker_argument(markers: Seq<RawMarkerView>, name: Seq<char>, n: nat) -> Option<
    Seq<char>,
>
    decreases n,
{
    if n == 0 || n > markers.len() {
        None
    } else {
        match marker_argument(markers, name, (n - 1) as nat) {
            Some(argument) => Some(argument),
            None => match markers[n - 1].argument {
                Some(argument) => if markers[n - 1].name == name {
                    Some(argument)
                } else {
                    None
                },
                None => None,
            },
        }
    }
}

/// Whether every member of an item expands.
pub open spec fn members_expand(raw: RawItemView) -> bool {
    forall|j: int|
        0 <= j < raw.members.len() ==> expand_member(#[trigger] raw.members[j], raw.kind) is Some
}

/// Whether a member is called `span`.
pub open spec fn is_span_member(member: MemberView) -> bool {
    member.name == "span"@
}

/// Whether a shape carries a source span: a struct with a field `span`, or
/// an enum with at least one variant whose variants all carry a payload.
pub open spec fn shape_has_span(kind: TypeKind, members: Seq<MemberView>) -> bool {
    match kind {
        TypeKind::Struct => exists|j: int|
            0 <= j < members.len() && is_span_member(#[trigger] members[j]),
        TypeKind::Enum => members.len() > 0 && forall|j: int|
            0 <= j < members.len() ==> (#[trigger] members[j]).ty is Some,
    }
}

/// The definition that an item expands to, before its shape is analyzed:
/// the `visit` marker asks for traversal, the argument of the `layout`
/// marker names the family of layout-interchangeable types.
pub open spec fn expand_item(raw: RawItemView) -> Option<TypeDefView> {
    if members_expand(raw) {
        Some(
            TypeDefView {
                name: raw.name,
                kind: raw.kind,
                members: Seq::new(
                    raw.members.len(),
                    |j: int| expand_member(raw.members[j], raw.kind)->0,
                ),
                visited: has_marker(raw.markers, "visit"@, raw.markers.len() as int),
                family: marker_argument(raw.markers, "layout"@, raw.markers.len()),
                has_span: false,
                traversable: false,
                layout: None,
            },
        )
    } else {
        None
    }
}

/// A definition with what its own shape tells: whether it carries a span,
/// and whether it takes part in traversal, which it does if it is marked
/// for it and has a member to traverse.
pub open spec fn analyze_def(def: TypeDefView) -> TypeDefView {
    TypeDefView {
        has_span: shape_has_span(def.kind, def.members),
        traversable: def.visited && def.members.len() > 0,
        ..def
    }
}

/// The definitions of the first `n` items, expanded and analyzed.
pub open spec fn expand_items(items: Seq<RawItemView>, n: nat) -> Seq<TypeDefView> {
    Seq::new(n, |i: int| analyze_def(expand_item(items[i])->0))
}

/// Which items do not expand.
pub open spec fn unexpanded_flags(items: Seq<RawItemView>) -> Seq<bool> {
    Seq::new(items.len(), |i: int| expand_item(items[i]) is None)
}

/// The message for an item that does not expand.
pub open spec fn unsupported_text(name: Seq<char>) -> Seq<char> {
    "unsupported definition of "@ + name
}

/// What the items of the file at `path` expand to: their definitions in
/// order, or a parse error that names the path and the first item that
/// does not expand.
pub open spec fn expand_result(path: Seq<char>, items: Seq<RawItemView>) -> Result<
    Seq<TypeDefView>,
    CodegenErrorView,
> {
    match first_flag(unexpanded_flags(items)) {
        Some(i) => Err(
            CodegenErrorView::Parse { path, message: unsupported_text(items[i].name) },
        ),
        None => Ok(expand_items(items, items.len())),
    }
}

/// Whether a load ended as `expected` says: with a module of the given
/// path and definitions, or with the given error.
pub open spec fn loaded(
    module: Result<Module, CodegenError>,
    path: Seq<char>,
    expected: Result<Seq<TypeDefView>, CodegenErrorView>,
) -> bool {
    match (module, expected) {
        (Ok(module), Ok(defs)) => module.path@ == path && views(module.items@) == defs,
        (Err(error), Err(expected)) => error@ == expected,
        _ => false,
    }
}

fn is_text(s: &String, text: &str) -> (b: bool)
    ensures
        b == (s@ == text@),
{
    let other = String::from_str(text);
    *s == other
}

impl Container {
    /// The container that a wrapper's name stands for.
    pub fn from_name(name: &String) -> (container: Option<Container>)
        ensures
            container == container_of(name@),
    {
        if is_text(name, "Option") {
            Some(Container::Optional)
        } else if is_text(name, "Box") {
            Some(Container::Boxed)
        } else if is_text(name, "Vec") {
            Some(Container::Sequence)
        } else {
            None
        }
    }
}

impl TypeRef {
    /// The reference that a chain of names denotes, if all names but the
    /// last are containers.
    pub fn from_chain(chain: &Vec<String>) -> (reference: Option<TypeRef>)
        ensures
            match reference {
                Some(reference) => chain_ref(views(chain@)) == Some(reference@),
                None => chain_ref(views(chain@)) is None,
            },
    {
        let ghost names = views(chain@);
        if chain.len() == 0 {
            return None;
        }
        let last = chain.len() - 1;
        let mut containers: Vec<Container> = Vec::new();
        let mut i: usize = 0;
        while i < last
            invariant
                i <= last,
                last == chain.len() - 1,
                names == views(chain@),
                containers.len() == i,
                forall|k: int| 0 <= k < i ==> container_of(#[trigger] names[k]) is Some,
                forall|k: int| 0 <= k < i ==> containers[k] == container_of(names[k])->0,
            decreases last - i,
        {
            assert(names[i as int] == chain[i as int]@);
            match Container::from_name(&chain[i]) {
                Some(container) => containers.push(container),
                None => {
                    return None;
                },
            }
            i = i + 1;
        }
        assert(names[last as int] == chain[last as int]@);
        let reference = TypeRef { containers, target: Target::Named(chain[last].clone()) };
        assert(reference@.containers =~= chain_ref(names)->0.containers);
        Some(reference)
    }
}

impl RawMember {
    /// The member that this written member expands to in an item of the
    /// given kind.
    pub fn expand(&self, kind: TypeKind) -> (member: Option<Member>)
        ensures
            match member {
                Some(member) => expand_member(self@, kind) == Some(member@),
                None => expand_member(self@, kind) is None,
            },
    {
        match &self.chain {
            None => {
                if kind == TypeKind::Enum {
                    Some(Member { name: self.name.clone(), ty: None })
                } else {
                    None
                }
            },
            Some(chain) => match TypeRef::from_chain(chain) {
                Some(ty) => Some(Member { name: self.name.clone(), ty: Some(ty) }),
                None => None,
            },
        }
    }
}

impl RawItem {
    /// Whether the item has a marker called `name`.
    pub fn is_marked(&self, name: &str) -> (b: bool)
        ensures
            b == has_marker(self@.markers, name@, self@.markers.len() as int),
    {
        let ghost markers = self@.markers;
        let mut i: usize = 0;
        while i < self.markers.len()
            invariant
                i <= self.markers.len(),
                markers == self@.markers,
                markers.len() == self.markers.len(),
                !has_marker(markers, name@, i as int),
            decreases self.markers.len() - i,
        {
            assert(markers[i as int] == self.markers[i as int]@);
            if is_text(&self.markers[i].name, name) {
                return true;
            }
            i = i + 1;
        }
        false
    }

    /// The argument of the first marker that is called `name` and has one.
    pub fn argument_of(&self, name: &str) -> (argument: Option<String>)
        ensures
            text_of(argument) == marker_argument(self@.markers, name@, self@.markers.len()),
    {
        let ghost markers = self@.markers;
        let mut i: usize = 0;
        while i < self.markers.len()
            invariant
                i <= self.markers.len(),
                markers == self@.markers,
                markers.len() == self.markers.len(),
                marker_argument(markers, name@, i as nat) is None,
            decreases self.markers.len() - i,
        {
            let marker = &self.markers[i];
            assert(markers[i as int] == marker@);
            if let Some(argument) = &marker.argument {
                if is_text(&marker.name, name) {
                    proof {
                        assert(marker_argument(markers, name@, (i + 1) as nat) == Some(
                            argument@,
                        ));
                        lemma_marker_argument_stays(
                            markers,
                            name@,
                            (i + 1) as nat,
                            markers.len(),
                        );
                    }
                    return Some(argument.clone());
                }
            }
            i = i + 1;
        }
        None
    }

    /// The definition that the item expands to, with what its shape tells;
    /// `None` where a member has a type that is no chain of containers
    /// around a name, or a field has no type.
    pub fn expand(&self) -> (def: Option<TypeDef>)
        ensures
            match def {
                Some(def) => expand_item(self@) is Some && def@ == analyze_def(
                    expand_item(self@)->0,
                ),
                None => expand_item(self@) is None,
            },
    {
        let ghost raw = self@;
        let mut members: Vec<Member> = Vec::new();
        let mut j: usize = 0;
        while j < self.members.len()
            invariant
                j <= self.members.len(),
                raw == self@,
                raw.members.len() == self.members.len(),
                members.len() == j,
                forall|k: int|
                    0 <= k < j ==> expand_member(#[trigger] raw.members[k], raw.kind) is Some,
                forall|k: int|
                    0 <= k < j ==> (#[trigger] members[k])@ == expand_member(
                        raw.members[k],
                        raw.kind,
                    )->0,
            decreases self.members.len() - j,
        {
            assert(raw.members[j as int] == self.members[j as int]@);
            match self.members[j].expand(self.kind) {
                Some(member) => members.push(member),
                None => {
                    return None;
                },
            }
            j = j + 1;
        }
        let visited = self.is_marked("visit");
        let family = self.argument_of("layout");
        let ghost expanded = expand_item(raw)->0;
        assert(views(members@) =~= expanded.members);
        let has_span = shape_carries_span(self.kind, &members);
        let traversable = visited && members.len() > 0;
        let def = TypeDef {
            name: self.name.clone(),
            kind: self.kind,
            members,
            visited,
            family,
            has_span,
            traversable,
            layout: None,
        };
        Some(def)
    }
}

/// Once an argument is found among the first `n` markers, it stays the
/// answer for every longer prefix.
proof fn lemma_marker_argument_stays(
    markers: Seq<RawMarkerView>,
    name: Seq<char>,
    n: nat,
    m: nat,
)
    requires
        n <= m <= markers.len(),
        marker_argument(markers, name, n) is Some,
    ensures
        marker_argument(markers, name, m) == marker_argument(markers, name, n),
    decreases m,
{
    if n < m {
        lemma_marker_argument_stays(markers, name, n, (m - 1) as nat);
    }
}

/// Whether a shape carries a source span.
pub fn shape_carries_span(kind: TypeKind, members: &Vec<Member>) -> (b: bool)
    ensures
        b == shape_has_span(kind, views(members@)),
{
    let ghost shown = views(members@);
    match kind {
        TypeKind::Struct => {
            let mut j: usize = 0;
            while j < members.len()
                invariant
                    j <= members.len(),
                    kind == TypeKind::Struct,
                    shown == views(members@),
                    forall|k: int| 0 <= k < j ==> !is_span_member(#[trigger] shown[k]),
                decreases members.len() - j,
            {
                if is_text(&members[j].name, "span") {
                    assert(is_span_member(shown[j as int]));
                    return true;
                }
                assert(!is_span_member(shown[j as int]));
                j = j + 1;
            }
            false
        },
        TypeKind::Enum => {
            if members.len() == 0 {
                return false;
            }
            let mut j: usize = 0;
            while j < members.len()
                invariant
                    j <= members.len(),
                    kind == TypeKind::Enum,
                    members.len() > 0,
                    shown == views(members@),
                    forall|k: int| 0 <= k < j ==> (#[trigger] shown[k]).ty is Some,
                decreases members.len() - j,
            {
                if members[j].ty.is_none() {
                    assert(shown[j as int].ty is None);
                    return false;
                }
                assert(shown[j as int].ty is Some);
                j = j + 1;
            }
            true
        },
    }
}

impl Module {
    /// The module of a file from the items that were written in it. The
    /// first item that does not expand fails the file with a parse error
    /// that names the path and the item.
    pub fn expand(path: String, items: &Vec<RawItem>) -> (module: Result<Module, CodegenError>)
        ensures
            loaded(module, path@, expand_result(path@, views(items@))),
    {
        let ghost raw = views(items@);
        let ghost flags = unexpanded_flags(raw);
        let mut defs: Vec<TypeDef> = Vec::new();
        let mut i: usize = 0;
        while i < items.len()
            invariant
                i <= items.len(),
                raw == views(items@),
                flags == unexpanded_flags(raw),
                defs.len() == i,
                forall|k: int| 0 <= k < i ==> !(#[trigger] flags[k]),
                forall|k: int|
                    0 <= k < i ==> (#[trigger] defs[k])@ == analyze_def(expand_item(raw[k])->0),
            decreases items.len() - i,
        {
            assert(raw[i as int] == items[i as int]@);
            match items[i].expand() {
                Some(def) => defs.push(def),
                None => {
                    let mut message = String::from_str("unsupported definition of ");
                    message.append(items[i].name.as_str());
                    proof {
                        assert(flags[i as int]);
                        assert(is_first_flag(flags, i as int));
                        lemma_first_flag(flags, i as int);
                    }
                    return Err(CodegenError::Parse { path, message });
                },
            }
            i = i + 1;
        }
        proof {
            lemma_no_flag(flags);
        }
        assert(views(defs@) =~= expand_items(raw, raw.len()));
        Ok(Module { path, items: defs })
    }
}

/// How many containers may nest around a name.
pub const MAX_NESTING: usize = 16;

/// The first answer among the first `n` that is present.
pub open spec fn first_some<T>(answers: Seq<Option<T>>, n: nat) -> Option<T>
    decreases n,
{
    if n == 0 || n > answers.len() {
        None
    } else {
        match first_some(answers, (n - 1) as nat) {
            Some(found) => Some(found),
            None => answers[n - 1],
        }
    }
}

/// Once an answer is present among the first `n`, it stays the first for
/// every longer prefix.
proof fn lemma_first_some_stays<T>(answers: Seq<Option<T>>, n: nat, m: nat)
    requires
        n <= m <= answers.len(),
        first_some(answers, n) is Some,
    ensures
        first_some(answers, m) == first_some(answers, n),
    decreases m,
{
    if n < m {
        lemma_first_some_stays(answers, n, (m - 1) as nat);
    }
}

/// The type that a written type wraps: the first type among its generic
/// arguments.
pub open spec fn inner_type(ty: SourceType) -> Option<SourceType> {
    first_some(ty.arguments, ty.arguments.len())
}

/// The names of the outermost `fuel` levels of a written type, from the
/// outside inwards, each level being the type that the level before wraps.
pub open spec fn level_names(ty: SourceType, fuel: nat) -> Seq<Option<Seq<char>>>
    decreases fuel,
{
    if fuel == 0 {
        Seq::empty()
    } else {
        match inner_type(ty) {
            Some(inner) => seq![ty.head] + level_names(inner, (fuel - 1) as nat),
            None => seq![ty.head],
        }
    }
}

/// Whether the innermost level of a written type is among its outermost
/// `fuel` levels.
pub open spec fn levels_end(ty: SourceType, fuel: nat) -> bool
    decreases fuel,
{
    if fuel == 0 {
        false
    } else {
        match inner_type(ty) {
            Some(inner) => levels_end(inner, (fuel - 1) as nat),
            None => true,
        }
    }
}

/// The chain that the names of the levels of a written type give, from the
/// outermost level inwards: the names, if the innermost level was reached
/// and every level has a name, and the empty chain otherwise.
pub open spec fn chain_names(heads: Seq<Option<Seq<char>>>, ended: bool) -> Seq<Seq<char>> {
    if ended && forall|i: int| 0 <= i < heads.len() ==> (#[trigger] heads[i]) is Some {
        Seq::new(heads.len(), |i: int| heads[i]->0)
    } else {
        Seq::empty()
    }
}

/// The chain of a written type: the names of its levels from the outermost
/// wrapper to the innermost name. A type that nests more than `MAX_NESTING`
/// containers, or whose form has no name at some level, has the empty
/// chain, which denotes no reference.
pub open spec fn type_chain(ty: SourceType) -> Seq<Seq<char>> {
    chain_names(
        level_names(ty, (MAX_NESTING + 1) as nat),
        levels_end(ty, (MAX_NESTING + 1) as nat),
    )
}

/// The views of optional names.
pub open spec fn name_views(names: Seq<Option<String>>) -> Seq<Option<Seq<char>>> {
    Seq::new(names.len(), |i: int| text_of(names[i]))
}

/// The member that a field of a struct is read as. A field without a name
/// is read with the empty name and the empty chain, which no expansion
/// accepts.
pub open spec fn field_member(field: SourceField) -> RawMemberView {
    match field.name {
        Some(name) => RawMemberView { name, chain: Some(type_chain(field.ty)) },
        None => RawMemberView { name: Seq::empty(), chain: Some(Seq::empty()) },
    }
}

/// The member that a variant of an enum is read as: without a chain if it
/// has no field, with the chain of its field if it has one, and with the
/// empty chain, which no expansion accepts, if it has several.
pub open spec fn variant_member(variant: SourceVariant) -> RawMemberView {
    RawMemberView {
        name: variant.name,
        chain: if variant.fields == 0 {
            None
        } else if variant.fields == 1 {
            match variant.ty {
                Some(ty) => Some(type_chain(ty)),
                None => Some(Seq::empty()),
            }
        } else {
            Some(Seq::empty())
        },
    }
}

/// The members that an item of the given kind is read with, in the order
/// of their declaration.
pub open spec fn members_of(item: SourceItem, kind: TypeKind) -> Seq<RawMemberView> {
    match kind {
        TypeKind::Struct => Seq::new(item.fields.len(), |j: int| field_member(item.fields[j])),
        TypeKind::Enum => Seq::new(
            item.variants.len(),
            |j: int| variant_member(item.variants[j]),
        ),
    }
}

/// The markers that the first `n` attributes are read as, in order: an
/// attribute whose path is no single name is passed over.
pub open spec fn markers_of(attributes: Seq<SourceAttribute>, n: nat) -> Seq<RawMarkerView>
    decreases n,
{
    if n == 0 || n > attributes.len() {
        Seq::empty()
    } else {
        match attributes[n - 1].name {
            Some(name) => markers_of(attributes, (n - 1) as nat).push(
                RawMarkerView { name, argument: attributes[n - 1].argument },
            ),
            None => markers_of(attributes, (n - 1) as nat),
        }
    }
}

/// What an item of a file is read as: a struct or an enum with its
/// markers and members. Any other item is passed over.
pub open spec fn item_of(item: SourceItem) -> Option<RawItemView> {
    match (item.kind, item.name) {
        (Some(kind), Some(name)) => Some(
            RawItemView {
                kind,
                name,
                markers: markers_of(item.attributes, item.attributes.len()),
                members: members_of(item, kind),
            },
        ),
        _ => None,
    }
}

/// What the first `n` items of a file are read as, in order.
pub open spec fn items_of(items: Seq<SourceItem>, n: nat) -> Seq<RawItemView>
    decreases n,
{
    if n == 0 || n > items.len() {
        Seq::empty()
    } else {
        match item_of(items[n - 1]) {
            Some(item) => items_of(items, (n - 1) as nat).push(item),
            None => items_of(items, (n - 1) as nat),
        }
    }
}

/// What loading the text of the file at `path` gives: the definitions of
/// its structs and enums, or a parse error that names the path, with the
/// message of the syntax error or with the first item that does not
/// expand.
pub open spec fn load_result(path: Seq<char>, text: Seq<char>) -> Result<
    Seq<TypeDefView>,
    CodegenErrorView,
> {
    match source_file(text) {
        Ok(items) => expand_result(path, items_of(items, items.len())),
        Err(message) => Err(CodegenErrorView::Parse { path, message }),
    }
}

/// The chain that the names of the levels of a written type give. `ended`
/// says whether the innermost level was reached.
pub fn chain_of(heads: &Vec<Option<String>>, ended: bool) -> (chain: Vec<String>)
    ensures
        views(chain@) == chain_names(name_views(heads@), ended),
{
    let ghost names = name_views(heads@);
    let mut chain: Vec<String> = Vec::new();
    if !ended {
        assert(views(chain@) =~= chain_names(names, ended));
        return chain;
    }
    let mut i: usize = 0;
    while i < heads.len()
        invariant
            i <= heads.len(),
            ended,
            names == name_views(heads@),
            chain.len() == i,
            forall|k: int| 0 <= k < i ==> (#[trigger] names[k]) is Some,
            forall|k: int| 0 <= k < i ==> (#[trigger] chain[k])@ == names[k]->0,
        decreases heads.len() - i,
    {
        assert(names[i as int] == text_of(heads[i as int]));
        match &heads[i] {
            Some(name) => chain.push(name.clone()),
            None => {
                let none: Vec<String> = Vec::new();
                assert(views(none@) =~= chain_names(names, ended));
                return none;
            },
        }
        i = i + 1;
    }
    assert(views(chain@) =~= chain_names(names, ended));
    chain
}

impl RawMarker {
    /// The marker of an attribute from what was asked of it: an attribute
    /// whose path is no single name is no marker.
    pub fn written(name: Option<String>, argument: Option<String>) -> (marker: Option<RawMarker>)
        ensures
            match name {
                Some(name) => marker == Some(RawMarker { name, argument }),
                None => marker is None,
            },
    {
        match name {
            Some(name) => Some(RawMarker { name, argument }),
            None => None,
        }
    }
}

impl RawMember {
    /// The field of a struct from what was asked of it. A field without a
    /// name, or without a type, gets the empty chain, which no expansion
    /// accepts; a field without a name gets the empty name as well.
    pub fn field(name: Option<String>, chain: Option<Vec<String>>) -> (member: RawMember)
        ensures
            member.chain is Some,
            match (name, chain) {
                (Some(name), Some(chain)) => member.name == name && member.chain == Some(chain),
                (Some(name), None) => member.name == name && member.chain->0@.len() == 0,
                (None, _) => member.name@.len() == 0 && member.chain->0@.len() == 0,
            },
    {
        match (name, chain) {
            (Some(name), Some(chain)) => RawMember { name, chain: Some(chain) },
            (Some(name), None) => RawMember { name, chain: Some(Vec::new()) },
            (None, _) => RawMember { name: String::new(), chain: Some(Vec::new()) },
        }
    }

    /// The variant of an enum from what was asked of it: without a chain
    /// if it has no field, with the chain of its field if it has one. A
    /// variant with several fields, or whose field has no type, gets the
    /// empty chain, which no expansion accepts.
    pub fn variant(name: Option<String>, fields: usize, chain: Option<Vec<String>>) -> (member:
        RawMember)
        ensures
            match name {
                Some(name) => member.name == name,
                None => member.name@.len() == 0,
            },
            fields == 0 ==> member.chain is None,
            fields == 1 ==> match chain {
                Some(chain) => member.chain == Some(chain),
                None => member.chain is Some && member.chain->0@.len() == 0,
            },
            fields > 1 ==> member.chain is Some && member.chain->0@.len() == 0,
    {
        let name = match name {
            Some(name) => name,
            None => String::new(),
        };
        if fields == 0 {
            RawMember { name, chain: None }
        } else if fields == 1 {
            match chain {
                Some(chain) => RawMember { name, chain: Some(chain) },
                None => RawMember { name, chain: Some(Vec::new()) },
            }
        } else {
            RawMember { name, chain: Some(Vec::new()) }
        }
    }
}

impl RawItem {
    /// The item from what was asked of it: an item without a name is
    /// passed over.
    pub fn written(
        kind: TypeKind,
        name: Option<String>,
        markers: Vec<RawMarker>,
        members: Vec<RawMember>,
    ) -> (item: Option<RawItem>)
        ensures
            match name {
                Some(name) => item == Some(RawItem { kind, name, markers, members }),
                None => item is None,
            },
    {
        match name {
            Some(name) => Some(RawItem { kind, name, markers, members }),
            None => None,
        }
    }
}

/// The first type among the generic arguments of a written type.
fn first_type_argument(ty: &syn::Type) -> (argument: Option<syn::Type>)
    ensures
        match argument {
            Some(argument) => inner_type(type_view(*ty)) == Some(type_view(argument)),
            None => inner_type(type_view(*ty)) is None,
        },
{
    let ghost arguments = type_view(*ty).arguments;
    let count = type_argument_count(ty);
    let mut k: usize = 0;
    while k < count
        invariant
            k <= count,
            count == arguments.len(),
            arguments == type_view(*ty).arguments,
            first_some(arguments, k as nat) is None,
        decreases count - k,
    {
        if let Some(argument) = type_argument(ty, k) {
            proof {
                assert(first_some(arguments, (k + 1) as nat) == Some(type_view(argument)));
                lemma_first_some_stays(arguments, (k + 1) as nat, arguments.len());
            }
            return Some(argument);
        }
        k = k + 1;
    }
    None
}

/// The chain of a written type.
fn read_chain(ty: syn::Type) -> (chain: Vec<String>)
    ensures
        views(chain@) == type_chain(type_view(ty)),
{
    let ghost start = type_view(ty);
    let ghost limit = (MAX_NESTING + 1) as nat;
    let mut heads: Vec<Option<String>> = Vec::new();
    let mut current = ty;
    let mut ended = false;
    assert(name_views(heads@) + level_names(start, limit) =~= level_names(start, limit));
    while heads.len() <= MAX_NESTING && !ended
        invariant
            heads.len() <= MAX_NESTING + 1,
            limit == MAX_NESTING + 1,
            ended ==> level_names(start, limit) == name_views(heads@) && levels_end(
                start,
                limit,
            ),
            !ended ==> level_names(start, limit) == name_views(heads@) + level_names(
                type_view(current),
                (limit - heads.len()) as nat,
            ) && levels_end(start, limit) == levels_end(
                type_view(current),
                (limit - heads.len()) as nat,
            ),
        decreases MAX_NESTING + 1 - heads.len(),
    {
        let ghost before = name_views(heads@);
        let ghost level = type_view(current);
        let ghost fuel = (limit - heads.len()) as nat;
        let head = type_head(&current);
        let ghost name = text_of(head);
        heads.push(head);
        assert(name_views(heads@) =~= before.push(name));
        match first_type_argument(&current) {
            Some(inner) => {
                assert(before + (seq![level.head] + level_names(
                    type_view(inner),
                    (fuel - 1) as nat,
                )) =~= before.push(name) + level_names(type_view(inner), (fuel - 1) as nat));
                current = inner;
            },
            None => {
                assert(before + seq![level.head] =~= before.push(name));
                ended = true;
            },
        }
    }
    assert(name_views(heads@) + Seq::<Option<Seq<char>>>::empty() =~= name_views(heads@));
    chain_of(&heads, ended)
}

/// The field of a struct at `index` as it was written.
fn read_field(item: &syn::Item, index: usize) -> (member: RawMember)
    requires
        index < item_view(*item).fields.len(),
    ensures
        member@ == field_member(item_view(*item).fields[index as int]),
{
    let name = field_name(item, index);
    let chain = match field_type(item, index) {
        Some(ty) => Some(read_chain(ty)),
        None => None,
    };
    let member = RawMember::field(name, chain);
    assert(member@.name =~= field_member(item_view(*item).fields[index as int]).name);
    assert(member@.chain->0 =~= field_member(item_view(*item).fields[index as int]).chain->0);
    member
}

/// The variant of an enum at `index` as it was written.
fn read_variant(item: &syn::Item, index: usize) -> (member: RawMember)
    requires
        index < item_view(*item).variants.len(),
    ensures
        member@ == variant_member(item_view(*item).variants[index as int]),
{
    let name = variant_name(item, index);
    let fields = variant_field_count(item, index);
    let chain = match variant_type(item, index) {
        Some(ty) => Some(read_chain(ty)),
        None => None,
    };
    let member = RawMember::variant(name, fields, chain);
    let ghost expected = variant_member(item_view(*item).variants[index as int]);
    assert(member@.name == expected.name);
    if fields > 0 {
        assert(member@.chain->0 =~= expected.chain->0);
    }
    member
}

/// The members of an item as they were written, in the order of their
/// declaration: its fields if it is a struct, its variants if it is an
/// enum.
fn read_members(item: &syn::Item, kind: TypeKind) -> (members: Vec<RawMember>)
    requires
        item_view(*item).kind == Some(kind),
    ensures
        views(members@) == members_of(item_view(*item), kind),
{
    let ghost expected = members_of(item_view(*item), kind);
    let count = member_count(item);
    let mut members: Vec<RawMember> = Vec::new();
    let mut j: usize = 0;
    while j < count
        invariant
            j <= count,
            item_view(*item).kind == Some(kind),
            count == expected.len(),
            expected == members_of(item_view(*item), kind),
            members.len() == j,
            forall|k: int| 0 <= k < j ==> (#[trigger] members[k])@ == expected[k],
        decreases count - j,
    {
        let member = match kind {
            TypeKind::Struct => read_field(item, j),
            TypeKind::Enum => read_variant(item, j),
        };
        members.push(member);
        j = j + 1;
    }
    assert(views(members@) =~= expected);
    members
}

/// The markers of an item, in the order of its attributes.
fn read_markers(item: &syn::Item) -> (markers: Vec<RawMarker>)
    ensures
        views(markers@) == markers_of(
            item_view(*item).attributes,
            item_view(*item).attributes.len(),
        ),
{
    let ghost attributes = item_view(*item).attributes;
    let count = attribute_count(item);
    let mut markers: Vec<RawMarker> = Vec::new();
    assert(views(markers@) =~= markers_of(attributes, 0));
    let mut k: usize = 0;
    while k < count
        invariant
            k <= count,
            count == attributes.len(),
            attributes == item_view(*item).attributes,
            views(markers@) == markers_of(attributes, k as nat),
        decreases count - k,
    {
        if let Some(attribute) = item_attribute(item, k) {
            let name = attribute_name(&attribute);
            let argument = attribute_argument(&attribute);
            let ghost before = views(markers@);
            if let Some(marker) = RawMarker::written(name, argument) {
                markers.push(marker);
                assert(views(markers@) =~= before.push(marker@));
            }
        }
        k = k + 1;
    }
    markers
}

/// The structs and enums of a file as they were written, in the order of
/// their declaration. Other items are passed over.
fn read_items(file: &syn::File) -> (items: Vec<RawItem>)
    ensures
        views(items@) == items_of(file_view(*file), file_view(*file).len()),
{
    let ghost source = file_view(*file);
    let count = item_count(file);
    let mut items: Vec<RawItem> = Vec::new();
    assert(views(items@) =~= items_of(source, 0));
    let mut i: usize = 0;
    while i < count
        invariant
            i <= count,
            count == source.len(),
            source == file_view(*file),
            views(items@) == items_of(source, i as nat),
        decreases count - i,
    {
        if let Some(item) = item_at(file, i) {
            if let Some(kind) = item_kind(&item) {
                let name = item_name(&item);
                let markers = read_markers(&item);
                let members = read_members(&item, kind);
                let ghost before = views(items@);
                if let Some(read) = RawItem::written(kind, name, markers, members) {
                    items.push(read);
                    assert(views(items@) =~= before.push(read@));
                }
            }
        }
        i = i + 1;
    }
    items
}

impl Module {
    /// Loads the definitions of one file from its text. The text is parsed
    /// as Rust source; its structs and enums are read, expanded and
    /// analyzed. A text that does not parse, or an item that does not
    /// expand, fails the file with a parse error naming the path.
    pub fn load(path: String, text: &str) -> (module: Result<Module, CodegenError>)
        ensures
            loaded(module, path@, load_result(path@, text@)),
    {
        match parse_source(text) {
            Ok(file) => {
                let items = read_items(&file);
                Module::expand(path, &items)
            },
            Err(message) => Err(CodegenError::Parse { path, message }),
        }
    }
}

/// Whether the reference of a member, if it has one, nests no more
/// containers than the limit allows.
pub open spec fn nesting_within(member: MemberView) -> bool {
    match member.ty {
        Some(reference) => reference.containers.len() <= MAX_NESTING,
        None => true,
    }
}

/// Whether no reference of any definition nests more containers than the
/// limit allows.
pub open spec fn nesting_bounded(defs: Seq<TypeDefView>) -> bool {
    forall|i: int, j: int|
        0 <= i < defs.len() && 0 <= j < defs[i].members.len() ==> nesting_within(
            #[trigger] defs[i].members[j],
        )
}

/// Whether the chain of every member of an item, if it has one, is no
/// longer than the limit of nesting allows.
pub open spec fn chains_within(item: RawItemView) -> bool {
    forall|j: int|
        0 <= j < item.members.len() ==> match (#[trigger] item.members[j]).chain {
            Some(chain) => chain.len() <= MAX_NESTING + 1,
            None => true,
        }
}

/// No more levels are named than are asked for.
proof fn lemma_level_names_len(ty: SourceType, fuel: nat)
    ensures
        level_names(ty, fuel).len() <= fuel,
    decreases fuel,
{
    if fuel > 0 {
        if let Some(inner) = inner_type(ty) {
            lemma_level_names_len(inner, (fuel - 1) as nat);
        }
    }
}

/// Every item that is read has its chains within the limit of nesting.
proof fn lemma_items_within(items: Seq<SourceItem>, n: nat, k: int)
    requires
        n <= items.len(),
        0 <= k < items_of(items, n).len(),
    ensures
        chains_within(items_of(items, n)[k]),
    decreases n,
{
    if n > 0 {
        let before = items_of(items, (n - 1) as nat);
        if k < before.len() {
            lemma_items_within(items, (n - 1) as nat, k);
        } else {
            let source = items[n - 1];
            let item = item_of(source)->0;
            assert forall|j: int| 0 <= j < item.members.len() implies match (
            #[trigger] item.members[j]).chain {
                Some(chain) => chain.len() <= MAX_NESTING + 1,
                None => true,
            } by {
                match item.kind {
                    TypeKind::Struct => {
                        lemma_level_names_len(source.fields[j].ty, (MAX_NESTING + 1) as nat);
                    },
                    TypeKind::Enum => {
                        if let Some(ty) = source.variants[j].ty {
                            lemma_level_names_len(ty, (MAX_NESTING + 1) as nat);
                        }
                    },
                }
            }
        }
    }
}

/// No reference of a loaded definition nests more than `MAX_NESTING`
/// containers.
pub proof fn lemma_loaded_nesting(path: Seq<char>, text: Seq<char>)
    requires
        load_result(path, text) is Ok,
    ensures
        nesting_bounded(load_result(path, text)->Ok_0),
{
    let source = source_file(text)->Ok_0;
    let items = items_of(source, source.len());
    let defs = load_result(path, text)->Ok_0;
    assert forall|i: int, j: int|
        0 <= i < defs.len() && 0 <= j < defs[i].members.len() implies nesting_within(
        #[trigger] defs[i].members[j],
    ) by {
        lemma_items_within(source, source.len(), i);
        if unexpanded_flags(items)[i] {
            crate::emit::lemma_flag_has_first(unexpanded_flags(items), i);
        }
        assert(expand_item(items[i]) is Some);
        let member = items[i].members[j];
        assert(expand_member(member, items[i].kind) is Some);
    }
}

} // verus!
