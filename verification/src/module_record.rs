//! The record of the imports and exports of an ECMAScript module.
//!
//! Spans are values of `oxc_span`; the lists of a record live in an arena
//! of `oxc_allocator`. They are carried here as they are: nothing in this
//! module looks inside one. A name is the text that it was interned as.

use oxc_allocator::Allocator;
use oxc_span::Span;
use rustc_hash::{FxBuildHasher, FxHashMap};
use vstd::prelude::*;

verus! {

/// `oxc_span::Span`: a range of source text.
#[verifier::external_type_specification]
#[verifier::external_body]
pub struct ExSpan(Span);

/// `oxc_allocator::Allocator`: the arena.
#[verifier::external_type_specification]
#[verifier::external_body]
pub struct ExAllocator(Allocator);

/// `oxc_allocator::Vec`: a list that lives in the arena.
#[verifier::external_type_specification]
#[verifier::external_body]
#[verifier::reject_recursive_types(T)]
pub struct ExArenaVec<'a, T>(oxc_allocator::Vec<'a, T>);

/// `rustc_hash::FxBuildHasher`: the hasher of the maps of a record.
#[verifier::external_type_specification]
#[verifier::external_body]
pub struct ExFxBuildHasher(FxBuildHasher);

/// `Span` derives `Clone` and `Copy`: a clone is the span itself.
pub assume_specification[ <Span as Clone>::clone ](span: &Span) -> (copy: Span)
    ensures
        copy == *span,
;

/// A name and where it stands in the source.
#[derive(Debug, Clone, PartialEq, Eq)]
pub struct NameSpan<'a> {
    pub name: &'a str,
    pub span: Span,
}

impl<'a> NameSpan<'a> {
    pub fn new(name: &'a str, span: Span) -> (name_span: Self)
        ensures
            name_span.name == name,
            name_span.span == span,
    {
        Self { name, span }
    }
}

/// The name under which an import entry asks for a binding.
#[derive(Debug, Clone, PartialEq, Eq)]
pub enum ImportImportName<'a> {
    Name(NameSpan<'a>),
    NamespaceObject,
    Default(Span),
}

impl ImportImportName<'_> {
    pub fn is_default(&self) -> (b: bool)
        ensures
            b == (*self is Default),
    {
        matches!(self, Self::Default(_))
    }

    pub fn is_namespace_object(&self) -> (b: bool)
        ensures
            b == (*self is NamespaceObject),
    {
        matches!(self, Self::NamespaceObject)
    }
}

/// One imported binding of a module.
#[derive(Debug, Clone, PartialEq, Eq)]
pub struct ImportEntry<'a> {
    /// The module specifier of the import declaration.
    pub module_request: NameSpan<'a>,
    /// The name under which the binding is exported by that module.
    pub import_name: ImportImportName<'a>,
    /// The name by which the binding is known in the importing module.
    pub local_name: NameSpan<'a>,
    /// Whether the binding is a type-only import.
    pub is_type: bool,
}

/// The name under which an export entry takes a binding from another
/// module.
#[derive(Debug, Default, Clone, PartialEq, Eq)]
pub enum ExportImportName<'a> {
    Name(NameSpan<'a>),
    /// `export * as ns from "mod"`
    All,
    /// `export * from "mod"`
    AllButDefault,
    /// The export declaration has no module specifier.
    #[default]
    Null,
}

impl ExportImportName<'_> {
    pub fn is_all(&self) -> (b: bool)
        ensures
            b == (*self is All),
    {
        matches!(self, Self::All)
    }

    pub fn is_all_but_default(&self) -> (b: bool)
        ensures
            b == (*self is AllButDefault),
    {
        matches!(self, Self::AllButDefault)
    }
}

/// The name under which a module exports a binding.
#[derive(Debug, Default, Clone, PartialEq, Eq)]
pub enum ExportExportName<'a> {
    Name(NameSpan<'a>),
    Default(Span),
    #[default]
    Null,
}

impl ExportExportName<'_> {
    /// Whether this is the default export.
    pub fn is_default(&self) -> (b: bool)
        ensures
            b == (*self is Default),
    {
        matches!(self, Self::Default(_))
    }

    /// Whether there is no exported name.
    pub fn is_null(&self) -> (b: bool)
        ensures
            b == (*self is Null),
    {
        matches!(self, Self::Null)
    }

    /// The span of the exported name, if there is one.
    pub fn span(&self) -> (span: Option<Span>)
        ensures
            span == match *self {
                ExportExportName::Name(name) => Some(name.span),
                ExportExportName::Default(span) => Some(span),
                ExportExportName::Null => None,
            },
    {
        match self {
            Self::Name(name) => Some(name.span),
            Self::Default(span) => Some(*span),
            Self::Null => None,
        }
    }
}

/// The name by which an exported value is known inside its module.
#[derive(Debug, Default, Clone, PartialEq, Eq)]
pub enum ExportLocalName<'a> {
    Name(NameSpan<'a>),
    /// `export default name`
    Default(NameSpan<'a>),
    #[default]
    Null,
}

impl<'a> ExportLocalName<'a> {
    /// Whether this is the name of a default export.
    pub fn is_default(&self) -> (b: bool)
        ensures
            b == (*self is Default),
    {
        matches!(self, Self::Default(_))
    }

    /// Whether there is no local name.
    pub fn is_null(&self) -> (b: bool)
        ensures
            b == (*self is Null),
    {
        matches!(self, Self::Null)
    }

    /// The bound name of this export, if there is one.
    pub fn name(&self) -> (name: Option<&'a str>)
        ensures
            name == match *self {
                ExportLocalName::Name(name_span) => Some(name_span.name),
                ExportLocalName::Default(name_span) => Some(name_span.name),
                ExportLocalName::Null => None,
            },
    {
        match self {
            Self::Name(name) => Some(name.name),
            Self::Default(name) => Some(name.name),
            Self::Null => None,
        }
    }
}

/// One exported binding of a module.
#[derive(Debug, Default, Clone, PartialEq, Eq)]
pub struct ExportEntry<'a> {
    /// The span of the whole entry.
    pub span: Span,
    /// The module specifier of the export declaration, if it has one.
    pub module_request: Option<NameSpan<'a>>,
    /// The name under which the binding is exported by that module.
    pub import_name: ExportImportName<'a>,
    /// The name under which this module exports the binding.
    pub export_name: ExportExportName<'a>,
    /// The name by which the value is known inside this module.
    pub local_name: ExportLocalName<'a>,
}

/// One request for a module by an import or export statement.
#[derive(Debug, Clone, Copy)]
pub struct RequestedModule {
    span: Span,
    is_type: bool,
    is_import: bool,
}

impl RequestedModule {
    /// The span that the request was made with.
    pub closed spec fn spec_span(self) -> Span {
        self.span
    }

    /// Whether the request was made with a `type` modifier.
    pub closed spec fn spec_is_type(self) -> bool {
        self.is_type
    }

    /// Whether the request comes from an import statement.
    pub closed spec fn spec_is_import(self) -> bool {
        self.is_import
    }

    pub fn new(span: Span, is_type: bool, is_import: bool) -> (request: Self)
        ensures
            request.spec_span() == span,
            request.spec_is_type() == is_type,
            request.spec_is_import() == is_import,
    {
        Self { span, is_type, is_import }
    }

    pub fn span(&self) -> (span: Span)
        ensures
            span == self.spec_span(),
    {
        self.span
    }

    /// Whether a `type` modifier was used on the import statement.
    pub fn is_type(&self) -> (b: bool)
        ensures
            b == self.spec_is_type(),
    {
        self.is_type
    }

    /// Whether the module is requested by an import statement.
    pub fn is_import(&self) -> (b: bool)
        ensures
            b == self.spec_is_import(),
    {
        self.is_import
    }
}

/// The import entries that a list holds, in order.
pub uninterp spec fn import_list(list: oxc_allocator::Vec<'_, ImportEntry<'_>>) -> Seq<
    ImportEntry<'static>,
>;

/// The export entries that a list holds, in order.
pub uninterp spec fn export_list(list: oxc_allocator::Vec<'_, ExportEntry<'_>>) -> Seq<
    ExportEntry<'static>,
>;

/// The names with their spans that a list holds, in order.
pub uninterp spec fn name_list(list: oxc_allocator::Vec<'_, NameSpan<'_>>) -> Seq<
    NameSpan<'static>,
>;

/// The spans that a list holds, in order.
pub uninterp spec fn span_list(list: oxc_allocator::Vec<'_, Span>) -> Seq<Span>;

/// The module specifiers under which a map holds requests.
pub uninterp spec fn requested_keys(
    map: FxHashMap<&str, oxc_allocator::Vec<'_, RequestedModule>>,
) -> Set<Seq<char>>;

/// The bindings that a map holds, each with its span.
pub uninterp spec fn binding_map(map: FxHashMap<&str, Span>) -> Map<Seq<char>, Span>;

/// The paths under which a map holds re-exported bindings.
pub uninterp spec fn star_keys(map: FxHashMap<&str, oxc_allocator::Vec<'_, &str>>) -> Set<
    Seq<char>,
>;

/// Calls `oxc_allocator::Vec::new_in`: a new list in the arena, which
/// holds nothing.
#[verifier::external_body]
fn new_import_list<'a>(allocator: &'a Allocator) -> (list: oxc_allocator::Vec<
    'a,
    ImportEntry<'a>,
>)
    ensures
        import_list(list).len() == 0,
{
    oxc_allocator::Vec::new_in(allocator)
}

/// Calls `oxc_allocator::Vec::new_in`: a new list in the arena, which
/// holds nothing.
#[verifier::external_body]
fn new_export_list<'a>(allocator: &'a Allocator) -> (list: oxc_allocator::Vec<
    'a,
    ExportEntry<'a>,
>)
    ensures
        export_list(list).len() == 0,
{
    oxc_allocator::Vec::new_in(allocator)
}

/// Calls `oxc_allocator::Vec::new_in`: a new list in the arena, which
/// holds nothing.
#[verifier::external_body]
fn new_name_list<'a>(allocator: &'a Allocator) -> (list: oxc_allocator::Vec<'a, NameSpan<'a>>)
    ensures
        name_list(list).len() == 0,
{
    oxc_allocator::Vec::new_in(allocator)
}

/// Calls `oxc_allocator::Vec::new_in`: a new list in the arena, which
/// holds nothing.
#[verifier::external_body]
fn new_span_list<'a>(allocator: &'a Allocator) -> (list: oxc_allocator::Vec<'a, Span>)
    ensures
        span_list(list).len() == 0,
{
    oxc_allocator::Vec::new_in(allocator)
}

/// Calls `FxHashMap::default`: a new map with the Fx hasher, which holds
/// nothing.
#[verifier::external_body]
fn new_requested_map<'a>() -> (requests: FxHashMap<
    &'a str,
    oxc_allocator::Vec<'a, RequestedModule>,
>)
    ensures
        requested_keys(requests) == Set::<Seq<char>>::empty(),
{
    FxHashMap::default()
}

/// Calls `FxHashMap::default`: a new map with the Fx hasher, which holds
/// nothing.
#[verifier::external_body]
fn new_binding_map<'a>() -> (bindings: FxHashMap<&'a str, Span>)
    ensures
        binding_map(bindings).dom() == Set::<Seq<char>>::empty(),
{
    FxHashMap::default()
}

/// Calls `FxHashMap::default`: a new map with the Fx hasher, which holds
/// nothing.
#[verifier::external_body]
fn new_star_map<'a>() -> (paths: FxHashMap<&'a str, oxc_allocator::Vec<'a, &'a str>>)
    ensures
        star_keys(paths) == Set::<Seq<char>>::empty(),
{
    FxHashMap::default()
}

/// The record of an ECMAScript module. All data in it is about ESM.
pub struct ModuleRecord<'a> {
    /// This module has no import or export statements.
    pub not_esm: bool,
    /// Every request for another module, by module specifier.
    pub requested_modules: FxHashMap<&'a str, oxc_allocator::Vec<'a, RequestedModule>>,
    /// The imported bindings.
    pub import_entries: oxc_allocator::Vec<'a, ImportEntry<'a>>,
    /// The exports of declarations of this module.
    pub local_export_entries: oxc_allocator::Vec<'a, ExportEntry<'a>>,
    /// The re-exports of imports, and the exports of `export * as ns`.
    pub indirect_export_entries: oxc_allocator::Vec<'a, ExportEntry<'a>>,
    /// The exports of `export *`.
    pub star_export_entries: oxc_allocator::Vec<'a, ExportEntry<'a>>,
    /// The local exported bindings.
    pub exported_bindings: FxHashMap<&'a str, Span>,
    /// Local exported bindings that were declared twice.
    pub exported_bindings_duplicated: oxc_allocator::Vec<'a, NameSpan<'a>>,
    /// The bindings re-exported by `export * from`, by resolved path.
    pub exported_bindings_from_star_export: FxHashMap<&'a str, oxc_allocator::Vec<'a, &'a str>>,
    /// The span of `default` in `export default`.
    pub export_default: Option<Span>,
    /// The spans of further `export default` statements.
    pub export_default_duplicated: oxc_allocator::Vec<'a, Span>,
}

impl<'a> ModuleRecord<'a> {
    /// Whether every list and every map of the record holds nothing.
    pub open spec fn holds_nothing(self) -> bool {
        &&& requested_keys(self.requested_modules) == Set::<Seq<char>>::empty()
        &&& import_list(self.import_entries).len() == 0
        &&& export_list(self.local_export_entries).len() == 0
        &&& export_list(self.indirect_export_entries).len() == 0
        &&& export_list(self.star_export_entries).len() == 0
        &&& binding_map(self.exported_bindings).dom() == Set::<Seq<char>>::empty()
        &&& name_list(self.exported_bindings_duplicated).len() == 0
        &&& star_keys(self.exported_bindings_from_star_export) == Set::<Seq<char>>::empty()
        &&& span_list(self.export_default_duplicated).len() == 0
    }

    /// The record of a module of which nothing is known yet: it counts as
    /// no ES module, has no default export, and every list and map is new
    /// in the arena and holds nothing.
    pub fn new(allocator: &'a Allocator) -> (record: Self)
        ensures
            record.not_esm,
            record.export_default is None,
            record.holds_nothing(),
    {
        Self {
            not_esm: true,
            requested_modules: new_requested_map(),
            import_entries: new_import_list(allocator),
            local_export_entries: new_export_list(allocator),
            indirect_export_entries: new_export_list(allocator),
            star_export_entries: new_export_list(allocator),
            exported_bindings: new_binding_map(),
            exported_bindings_duplicated: new_name_list(allocator),
            exported_bindings_from_star_export: new_star_map(),
            export_default: None,
            export_default_duplicated: new_span_list(allocator),
        }
    }
}

} // verus!
