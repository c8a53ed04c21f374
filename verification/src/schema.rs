//! The data model of the schema compiler: type definitions, the references
//! between them, their layout, and the frozen schema.

use vstd::prelude::*;
use vstd::string::*;

verus! {

/// The dense index of a type definition in the global type table.
pub type TypeId = usize;

/// The views of the items of a sequence.
pub open spec fn views<T: View>(items: Seq<T>) -> Seq<T::V> {
    Seq::new(items.len(), |i: int| items[i]@)
}

/// Whether a definition is shaped like a struct or like an enum.
#[derive(Clone, Copy, Debug, PartialEq, Eq, Structural)]
pub enum TypeKind {
    Struct,
    Enum,
}

/// A marker that wraps a referenced type.
#[derive(Clone, Copy, Debug, PartialEq, Eq, Structural)]
pub enum Container {
    /// `Option<T>`
    Optional,
    /// `Box<T>`
    Boxed,
    /// `Vec<T>`
    Sequence,
}

/// A type whose layout is known without any definition.
#[derive(Clone, Copy, Debug, PartialEq, Eq, Structural)]
pub enum Leaf {
    Bool,
    U8,
    U16,
    U32,
    U64,
    Usize,
    I8,
    I16,
    I32,
    I64,
    Isize,
    Float32,
    Float64,
    Char,
    AtomRef,
}

/// Size and alignment of a type in bytes, and for an enum the offset of
/// its discriminant.
#[derive(Clone, Copy, Debug, PartialEq, Eq)]
pub struct LayoutInfo {
    pub size: u64,
    pub align: u64,
    pub tag_offset: Option<u64>,
}

/// What a reference points at: a name that is still to be looked up, a leaf
/// type, or the identifier of a definition.
#[derive(Debug, PartialEq, Eq)]
pub enum Target {
    Named(String),
    Leaf(Leaf),
    Resolved(TypeId),
}

pub enum TargetView {
    Named(Seq<char>),
    Leaf(Leaf),
    Resolved(TypeId),
}

impl View for Target {
    type V = TargetView;

    open spec fn view(&self) -> TargetView {
        match *self {
            Target::Named(name) => TargetView::Named(name@),
            Target::Leaf(leaf) => TargetView::Leaf(leaf),
            Target::Resolved(id) => TargetView::Resolved(id),
        }
    }
}

/// A reference to a type from a field or a variant: the containers around
/// it, outermost first, and what they wrap.
#[derive(Debug, PartialEq, Eq)]
pub struct TypeRef {
    pub containers: Vec<Container>,
    pub target: Target,
}

pub struct TypeRefView {
    pub containers: Seq<Container>,
    pub target: TargetView,
}

impl View for TypeRef {
    type V = TypeRefView;

    open spec fn view(&self) -> TypeRefView {
        TypeRefView { containers: self.containers@, target: self.target@ }
    }
}

/// A field of a struct or a variant of an enum. A field always has a type;
/// a variant has one if it carries a payload.
#[derive(Debug, PartialEq, Eq)]
pub struct Member {
    pub name: String,
    pub ty: Option<TypeRef>,
}

pub struct MemberView {
    pub name: Seq<char>,
    pub ty: Option<TypeRefView>,
}

impl View for Member {
    type V = MemberView;

    open spec fn view(&self) -> MemberView {
        MemberView {
            name: self.name@,
            ty: match self.ty {
                Some(ty) => Some(ty@),
                None => None,
            },
        }
    }
}

/// A struct- or enum-shaped node definition.
#[derive(Debug, PartialEq, Eq)]
pub struct TypeDef {
    pub name: String,
    pub kind: TypeKind,
    /// The fields of a struct or the variants of an enum, as declared.
    pub members: Vec<Member>,
    /// Whether the definition is marked for traversal.
    pub visited: bool,
    /// The family of layout-interchangeable types that it is declared to
    /// belong to.
    pub family: Option<String>,
    /// Whether its shape carries a source span.
    pub has_span: bool,
    /// Whether it takes part in traversal.
    pub traversable: bool,
    /// Its layout, once computed.
    pub layout: Option<LayoutInfo>,
}

pub struct TypeDefView {
    pub name: Seq<char>,
    pub kind: TypeKind,
    pub members: Seq<MemberView>,
    pub visited: bool,
    pub family: Option<Seq<char>>,
    pub has_span: bool,
    pub traversable: bool,
    pub layout: Option<LayoutInfo>,
}

impl View for TypeDef {
    type V = TypeDefView;

    open spec fn view(&self) -> TypeDefView {
        TypeDefView {
            name: self.name@,
            kind: self.kind,
            members: views(self.members@),
            visited: self.visited,
            family: match self.family {
                Some(family) => Some(family@),
                None => None,
            },
            has_span: self.has_span,
            traversable: self.traversable,
            layout: self.layout,
        }
    }
}

/// The name by which a leaf type is written.
pub open spec fn leaf_name(leaf: Leaf) -> Seq<char> {
    match leaf {
        Leaf::Bool => "bool"@,
        Leaf::U8 => "u8"@,
        Leaf::U16 => "u16"@,
        Leaf::U32 => "u32"@,
        Leaf::U64 => "u64"@,
        Leaf::Usize => "usize"@,
        Leaf::I8 => "i8"@,
        Leaf::I16 => "i16"@,
        Leaf::I32 => "i32"@,
        Leaf::I64 => "i64"@,
        Leaf::Isize => "isize"@,
        Leaf::Float32 => "f32"@,
        Leaf::Float64 => "f64"@,
        Leaf::Char => "char"@,
        Leaf::AtomRef => "Atom"@,
    }
}

/// The leaf type that a name stands for, if any.
pub open spec fn leaf_of(name: Seq<char>) -> Option<Leaf> {
    if name == leaf_name(Leaf::Bool) {
        Some(Leaf::Bool)
    } else if name == leaf_name(Leaf::U8) {
        Some(Leaf::U8)
    } else if name == leaf_name(Leaf::U16) {
        Some(Leaf::U16)
    } else if name == leaf_name(Leaf::U32) {
        Some(Leaf::U32)
    } else if name == leaf_name(Leaf::U64) {
        Some(Leaf::U64)
    } else if name == leaf_name(Leaf::Usize) {
        Some(Leaf::Usize)
    } else if name == leaf_name(Leaf::I8) {
        Some(Leaf::I8)
    } else if name == leaf_name(Leaf::I16) {
        Some(Leaf::I16)
    } else if name == leaf_name(Leaf::I32) {
        Some(Leaf::I32)
    } else if name == leaf_name(Leaf::I64) {
        Some(Leaf::I64)
    } else if name == leaf_name(Leaf::Isize) {
        Some(Leaf::Isize)
    } else if name == leaf_name(Leaf::Float32) {
        Some(Leaf::Float32)
    } else if name == leaf_name(Leaf::Float64) {
        Some(Leaf::Float64)
    } else if name == leaf_name(Leaf::Char) {
        Some(Leaf::Char)
    } else if name == leaf_name(Leaf::AtomRef) {
        Some(Leaf::AtomRef)
    } else {
        None
    }
}

/// The size of a leaf type in bytes.
pub open spec fn leaf_size(leaf: Leaf) -> u64 {
    match leaf {
        Leaf::Bool | Leaf::U8 | Leaf::I8 => 1,
        Leaf::U16 | Leaf::I16 => 2,
        Leaf::U32 | Leaf::I32 | Leaf::Float32 | Leaf::Char => 4,
        Leaf::U64 | Leaf::I64 | Leaf::Float64 | Leaf::Usize | Leaf::Isize => 8,
        Leaf::AtomRef => 16,
    }
}

/// The alignment of a leaf type in bytes.
pub open spec fn leaf_align(leaf: Leaf) -> u64 {
    match leaf {
        Leaf::AtomRef => 8,
        _ => leaf_size(leaf),
    }
}

impl Leaf {
    /// The name by which the leaf type is written.
    pub fn name(self) -> (name: &'static str)
        ensures
            name@ == leaf_name(self),
    {
        match self {
            Leaf::Bool => "bool",
            Leaf::U8 => "u8",
            Leaf::U16 => "u16",
            Leaf::U32 => "u32",
            Leaf::U64 => "u64",
            Leaf::Usize => "usize",
            Leaf::I8 => "i8",
            Leaf::I16 => "i16",
            Leaf::I32 => "i32",
            Leaf::I64 => "i64",
            Leaf::Isize => "isize",
            Leaf::Float32 => "f32",
            Leaf::Float64 => "f64",
            Leaf::Char => "char",
            Leaf::AtomRef => "Atom",
        }
    }

    /// The size of the leaf type in bytes.
    pub fn size(self) -> (size: u64)
        ensures
            size == leaf_size(self),
    {
        match self {
            Leaf::Bool | Leaf::U8 | Leaf::I8 => 1,
            Leaf::U16 | Leaf::I16 => 2,
            Leaf::U32 | Leaf::I32 | Leaf::Float32 | Leaf::Char => 4,
            Leaf::U64 | Leaf::I64 | Leaf::Float64 | Leaf::Usize | Leaf::Isize => 8,
            Leaf::AtomRef => 16,
        }
    }

    /// The alignment of the leaf type in bytes.
    pub fn align(self) -> (align: u64)
        ensures
            align == leaf_align(self),
    {
        match self {
            Leaf::AtomRef => 8,
            other => other.size(),
        }
    }

    /// The leaf type that `name` stands for, if any.
    pub fn from_name(name: &str) -> (leaf: Option<Leaf>)
        ensures
            leaf == leaf_of(name@),
    {
        let all = [
            Leaf::Bool,
            Leaf::U8,
            Leaf::U16,
            Leaf::U32,
            Leaf::U64,
            Leaf::Usize,
            Leaf::I8,
            Leaf::I16,
            Leaf::I32,
            Leaf::I64,
            Leaf::Isize,
            Leaf::Float32,
            Leaf::Float64,
            Leaf::Char,
            Leaf::AtomRef,
        ];
        let wanted = String::from_str(name);
        let mut i: usize = 0;
        while i < 15
            invariant
                i <= 15,
                wanted@ == name@,
                all@ == seq![
                    Leaf::Bool,
                    Leaf::U8,
                    Leaf::U16,
                    Leaf::U32,
                    Leaf::U64,
                    Leaf::Usize,
                    Leaf::I8,
                    Leaf::I16,
                    Leaf::I32,
                    Leaf::I64,
                    Leaf::Isize,
                    Leaf::Float32,
                    Leaf::Float64,
                    Leaf::Char,
                    Leaf::AtomRef,
                ],
                forall|j: int| 0 <= j < i ==> name@ != leaf_name(#[trigger] all@[j]),
            decreases 15 - i,
        {
            let leaf = all[i];
            if String::from_str(leaf.name()) == wanted {
                return Some(leaf);
            }
            i = i + 1;
        }
        None
    }
}

impl Target {
    /// A copy of the target.
    pub fn duplicate(&self) -> (copy: Target)
        ensures
            copy@ == self@,
    {
        match self {
            Target::Named(name) => Target::Named(name.clone()),
            Target::Leaf(leaf) => Target::Leaf(*leaf),
            Target::Resolved(id) => Target::Resolved(*id),
        }
    }
}

impl TypeRef {
    /// A reference to the type called `name`, without containers.
    pub fn named(name: &str) -> (reference: TypeRef)
        ensures
            reference@ == (TypeRefView {
                containers: Seq::empty(),
                target: TargetView::Named(name@),
            }),
    {
        TypeRef { containers: Vec::new(), target: Target::Named(String::from_str(name)) }
    }

    /// The same reference inside one more container.
    pub fn wrapped(self, container: Container) -> (reference: TypeRef)
        ensures
            reference@ == (TypeRefView {
                containers: seq![container] + self@.containers,
                target: self@.target,
            }),
    {
        let mut containers: Vec<Container> = Vec::new();
        containers.push(container);
        let mut i: usize = 0;
        while i < self.containers.len()
            invariant
                i <= self.containers.len(),
                containers@ == seq![container] + self.containers@.take(i as int),
            decreases self.containers.len() - i,
        {
            containers.push(self.containers[i]);
            assert(containers@ =~= seq![container] + self.containers@.take(i + 1));
            i = i + 1;
        }
        assert(self.containers@.take(self.containers.len() as int) =~= self.containers@);
        TypeRef { containers, target: self.target }
    }

    /// A copy of the reference.
    pub fn duplicate(&self) -> (copy: TypeRef)
        ensures
            copy@ == self@,
    {
        let mut containers: Vec<Container> = Vec::new();
        let mut i: usize = 0;
        while i < self.containers.len()
            invariant
                i <= self.containers.len(),
                containers@ == self.containers@.take(i as int),
            decreases self.containers.len() - i,
        {
            containers.push(self.containers[i]);
            assert(containers@ =~= self.containers@.take(i + 1));
            i = i + 1;
        }
        assert(self.containers@.take(self.containers.len() as int) =~= self.containers@);
        TypeRef { containers, target: self.target.duplicate() }
    }
}

impl Member {
    /// A field, or a variant with a payload.
    pub fn new(name: &str, ty: TypeRef) -> (member: Member)
        ensures
            member@ == (MemberView { name: name@, ty: Some(ty@) }),
    {
        Member { name: String::from_str(name), ty: Some(ty) }
    }

    /// A variant without a payload.
    pub fn unit(name: &str) -> (member: Member)
        ensures
            member@ == (MemberView { name: name@, ty: None }),
    {
        Member { name: String::from_str(name), ty: None }
    }

    /// A copy of the member.
    pub fn duplicate(&self) -> (copy: Member)
        ensures
            copy@ == self@,
    {
        let ty = match &self.ty {
            Some(ty) => Some(ty.duplicate()),
            None => None,
        };
        Member { name: self.name.clone(), ty }
    }
}

/// A copy of an optional string.
pub fn duplicate_text(text: &Option<String>) -> (copy: Option<String>)
    ensures
        match (copy, *text) {
            (Some(copy), Some(text)) => copy@ == text@,
            (None, None) => true,
            _ => false,
        },
{
    match text {
        Some(text) => Some(text.clone()),
        None => None,
    }
}

/// A copy of a list of members.
pub fn duplicate_members(members: &Vec<Member>) -> (copy: Vec<Member>)
    ensures
        views(copy@) == views(members@),
{
    let mut copy: Vec<Member> = Vec::new();
    let mut i: usize = 0;
    while i < members.len()
        invariant
            i <= members.len(),
            copy.len() == i,
            forall|k: int| 0 <= k < i ==> (#[trigger] copy[k])@ == members[k]@,
        decreases members.len() - i,
    {
        copy.push(members[i].duplicate());
        i = i + 1;
    }
    assert(views(copy@) =~= views(members@));
    copy
}

impl TypeDef {
    /// A copy of the definition.
    pub fn duplicate(&self) -> (copy: TypeDef)
        ensures
            copy@ == self@,
    {
        TypeDef {
            name: self.name.clone(),
            kind: self.kind,
            members: duplicate_members(&self.members),
            visited: self.visited,
            family: duplicate_text(&self.family),
            has_span: self.has_span,
            traversable: self.traversable,
            layout: self.layout,
        }
    }
}

/// The names of a table of definitions, by identifier.
pub open spec fn names_of(defs: Seq<TypeDefView>) -> Seq<Seq<char>> {
    Seq::new(defs.len(), |i: int| defs[i].name)
}

/// Whether no name occurs twice.
pub open spec fn distinct(names: Seq<Seq<char>>) -> bool {
    forall|i: int, j: int| 0 <= i < j < names.len() ==> names[i] != names[j]
}

/// Whether `i` is the first place at which `key` stands in `names`.
pub open spec fn is_first_match(names: Seq<Seq<char>>, key: Seq<char>, i: int) -> bool {
    &&& 0 <= i < names.len()
    &&& names[i] == key
    &&& forall|j: int| 0 <= j < i ==> names[j] != key
}

/// The first place at which `key` stands in `names`.
pub open spec fn position(names: Seq<Seq<char>>, key: Seq<char>) -> Option<TypeId> {
    if exists|i: int| is_first_match(names, key, i) {
        Some((choose|i: int| is_first_match(names, key, i)) as TypeId)
    } else {
        None
    }
}

/// A first match is the position.
pub proof fn lemma_position_found(names: Seq<Seq<char>>, key: Seq<char>, i: int)
    requires
        is_first_match(names, key, i),
        names.len() <= usize::MAX,
    ensures
        position(names, key) == Some(i as TypeId),
{
    let chosen = choose|k: int| is_first_match(names, key, k);
    assert(is_first_match(names, key, chosen));
    if chosen < i {
        assert(names[chosen] != key);
    }
    if i < chosen {
        assert(names[i] != key);
    }
}

/// A key that stands nowhere has no position.
pub proof fn lemma_position_absent(names: Seq<Seq<char>>, key: Seq<char>)
    requires
        forall|j: int| 0 <= j < names.len() ==> names[j] != key,
    ensures
        position(names, key) is None,
{
}

/// A frozen table of definitions, indexed by identifier.
#[derive(Debug, PartialEq, Eq)]
pub struct Schema {
    pub definitions: Vec<TypeDef>,
}

/// Whether a reference points at a leaf type or at a definition of a table
/// of `n` definitions.
pub open spec fn ref_closed(reference: TypeRefView, n: nat) -> bool {
    match reference.target {
        TargetView::Named(_) => false,
        TargetView::Leaf(_) => true,
        TargetView::Resolved(id) => id < n,
    }
}

/// Whether every reference of a definition is closed.
pub open spec fn def_closed(def: TypeDefView, n: nat) -> bool {
    forall|j: int|
        0 <= j < def.members.len() ==> match (#[trigger] def.members[j]).ty {
            Some(reference) => ref_closed(reference, n),
            None => true,
        }
}

/// Whether every reference of every definition of a table points at a leaf
/// type or into the table.
pub open spec fn closed(defs: Seq<TypeDefView>) -> bool {
    forall|i: int| 0 <= i < defs.len() ==> def_closed(#[trigger] defs[i], defs.len())
}

} // verus!
