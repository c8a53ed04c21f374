//! Reading of Rust source with `syn`: the items of a file, their
//! attributes, their fields or variants, and the names in a type.
//!
//! The syntax tree is opaque here. What the library reads of a node is
//! named by a view of plain values; every function below asks `syn` one
//! question about a node and hands the answer back as that view says.

use vstd::prelude::*;
use crate::schema::TypeKind;

verus! {

/// `syn::File`: the syntax tree of a source file.
#[verifier::external_type_specification]
#[verifier::external_body]
pub struct ExFile(syn::File);

/// `syn::Item`: one item of a source file.
#[verifier::external_type_specification]
#[verifier::external_body]
pub struct ExItem(syn::Item);

/// `syn::Attribute`: one attribute of an item.
#[verifier::external_type_specification]
#[verifier::external_body]
pub struct ExAttribute(syn::Attribute);

/// `syn::Type`: a type as it is written.
#[verifier::external_type_specification]
#[verifier::external_body]
pub struct ExType(syn::Type);

/// What is read of a written type: the identifier of the last segment of
/// its path, if it is a path, and its generic arguments in angle brackets,
/// each of which is a type or something else.
pub struct SourceType {
    pub head: Option<Seq<char>>,
    pub arguments: Seq<Option<SourceType>>,
}

/// What is read of an attribute: its name, if its path is a single
/// identifier, and its argument, if it has the form `#[name(argument)]`
/// with one identifier as the argument.
pub struct SourceAttribute {
    pub name: Option<Seq<char>>,
    pub argument: Option<Seq<char>>,
}

/// What is read of a field of a struct: its name, if it has one, and its
/// type.
pub struct SourceField {
    pub name: Option<Seq<char>>,
    pub ty: SourceType,
}

/// What is read of a variant of an enum: its name, the number of its
/// fields, and the type of its first field.
pub struct SourceVariant {
    pub name: Seq<char>,
    pub fields: nat,
    pub ty: Option<SourceType>,
}

/// What is read of an item: whether it is a struct or an enum, and for
/// those its identifier, its attributes, and its fields or its variants. Of
/// any other item nothing is read.
pub struct SourceItem {
    pub kind: Option<TypeKind>,
    pub name: Option<Seq<char>>,
    pub attributes: Seq<SourceAttribute>,
    pub fields: Seq<SourceField>,
    pub variants: Seq<SourceVariant>,
}

/// What `syn::parse_file` makes of a text: the items of the file, or the
/// message of the syntax error.
pub uninterp spec fn source_file(text: Seq<char>) -> Result<Seq<SourceItem>, Seq<char>>;

/// The items that a file holds.
pub uninterp spec fn file_view(file: syn::File) -> Seq<SourceItem>;

/// What an item holds.
pub uninterp spec fn item_view(item: syn::Item) -> SourceItem;

/// What an attribute holds.
pub uninterp spec fn attribute_view(attribute: syn::Attribute) -> SourceAttribute;

/// What a type holds.
pub uninterp spec fn type_view(ty: syn::Type) -> SourceType;

/// The view of an optional text.
pub open spec fn text_of(text: Option<String>) -> Option<Seq<char>> {
    match text {
        Some(text) => Some(text@),
        None => None,
    }
}

/// The number of members of an item: the fields of a struct, the variants
/// of an enum.
pub open spec fn member_total(item: SourceItem) -> nat {
    match item.kind {
        Some(TypeKind::Struct) => item.fields.len(),
        Some(TypeKind::Enum) => item.variants.len(),
        None => 0,
    }
}

/// Calls `syn::parse_file`: the syntax tree of a source file, or the
/// message of the syntax error. The outcome is a function of the text.
#[verifier::external_body]
pub(crate) fn parse_source(text: &str) -> (file: Result<syn::File, String>)
    ensures
        match file {
            Ok(file) => source_file(text@) == Ok::<Seq<SourceItem>, Seq<char>>(file_view(file)),
            Err(message) => source_file(text@) == Err::<Seq<SourceItem>, Seq<char>>(message@),
        },
{
    match syn::parse_file(text) {
        Ok(file) => Ok(file),
        Err(error) => Err(error.to_string()),
    }
}

/// The number of items of a file: the length of `File::items`.
#[verifier::external_body]
pub(crate) fn item_count(file: &syn::File) -> (n: usize)
    ensures
        n == file_view(*file).len(),
{
    file.items.len()
}

/// A copy of the item at `index` of `File::items`, if there is one.
#[verifier::external_body]
pub(crate) fn item_at(file: &syn::File, index: usize) -> (item: Option<syn::Item>)
    ensures
        match item {
            Some(item) => index < file_view(*file).len() && item_view(item) == file_view(
                *file,
            )[index as int],
            None => index >= file_view(*file).len(),
        },
{
    match file.items.get(index) {
        Some(item) => Some(item.clone()),
        None => None,
    }
}

/// Whether an item is a struct or an enum: the variant of `syn::Item`.
#[verifier::external_body]
pub(crate) fn item_kind(item: &syn::Item) -> (kind: Option<TypeKind>)
    ensures
        kind == item_view(*item).kind,
{
    match item {
        syn::Item::Struct(_) => Some(TypeKind::Struct),
        syn::Item::Enum(_) => Some(TypeKind::Enum),
        _ => None,
    }
}

/// The identifier of a struct or an enum, as `Ident::to_string` gives it.
#[verifier::external_body]
pub(crate) fn item_name(item: &syn::Item) -> (name: Option<String>)
    ensures
        text_of(name) == item_view(*item).name,
{
    match item {
        syn::Item::Struct(item) => Some(item.ident.to_string()),
        syn::Item::Enum(item) => Some(item.ident.to_string()),
        _ => None,
    }
}

/// The number of attributes of a struct or an enum.
#[verifier::external_body]
pub(crate) fn attribute_count(item: &syn::Item) -> (n: usize)
    ensures
        n == item_view(*item).attributes.len(),
{
    match item {
        syn::Item::Struct(item) => item.attrs.len(),
        syn::Item::Enum(item) => item.attrs.len(),
        _ => 0,
    }
}

/// A copy of the attribute at `index` of a struct or an enum.
#[verifier::external_body]
pub(crate) fn item_attribute(item: &syn::Item, index: usize) -> (attribute: Option<
    syn::Attribute,
>)
    ensures
        match attribute {
            Some(attribute) => index < item_view(*item).attributes.len() && attribute_view(
                attribute,
            ) == item_view(*item).attributes[index as int],
            None => index >= item_view(*item).attributes.len(),
        },
{
    let attribute = match item {
        syn::Item::Struct(item) => item.attrs.get(index),
        syn::Item::Enum(item) => item.attrs.get(index),
        _ => None,
    };
    match attribute {
        Some(attribute) => Some(attribute.clone()),
        None => None,
    }
}

/// The name of an attribute whose path is a single identifier
/// (`Path::get_ident`).
#[verifier::external_body]
pub(crate) fn attribute_name(attribute: &syn::Attribute) -> (name: Option<String>)
    ensures
        text_of(name) == attribute_view(*attribute).name,
{
    match attribute.path().get_ident() {
        Some(ident) => Some(ident.to_string()),
        None => None,
    }
}

/// The argument of an attribute of the form `#[name(argument)]`, where the
/// argument parses as one identifier (`Attribute::parse_args`).
#[verifier::external_body]
pub(crate) fn attribute_argument(attribute: &syn::Attribute) -> (argument: Option<String>)
    ensures
        text_of(argument) == attribute_view(*attribute).argument,
{
    match attribute.parse_args::<syn::Ident>() {
        Ok(ident) => Some(ident.to_string()),
        Err(_) => None,
    }
}

/// The number of fields of a struct or of variants of an enum.
#[verifier::external_body]
pub(crate) fn member_count(item: &syn::Item) -> (n: usize)
    ensures
        n == member_total(item_view(*item)),
{
    match item {
        syn::Item::Struct(item) => item.fields.len(),
        syn::Item::Enum(item) => item.variants.len(),
        _ => 0,
    }
}

/// The name of the field at `index` of a struct; a field of a tuple
/// struct has none.
#[verifier::external_body]
pub(crate) fn field_name(item: &syn::Item, index: usize) -> (name: Option<String>)
    ensures
        text_of(name) == (if index < item_view(*item).fields.len() {
            item_view(*item).fields[index as int].name
        } else {
            None
        }),
{
    match item {
        syn::Item::Struct(item) => match item.fields.iter().nth(index) {
            Some(syn::Field { ident: Some(ident), .. }) => Some(ident.to_string()),
            _ => None,
        },
        _ => None,
    }
}

/// A copy of the type of the field at `index` of a struct.
#[verifier::external_body]
pub(crate) fn field_type(item: &syn::Item, index: usize) -> (ty: Option<syn::Type>)
    ensures
        match ty {
            Some(ty) => index < item_view(*item).fields.len() && type_view(ty) == item_view(
                *item,
            ).fields[index as int].ty,
            None => index >= item_view(*item).fields.len(),
        },
{
    match item {
        syn::Item::Struct(item) => match item.fields.iter().nth(index) {
            Some(field) => Some(field.ty.clone()),
            None => None,
        },
        _ => None,
    }
}

/// The name of the variant at `index` of an enum.
#[verifier::external_body]
pub(crate) fn variant_name(item: &syn::Item, index: usize) -> (name: Option<String>)
    ensures
        match name {
            Some(name) => index < item_view(*item).variants.len() && name@ == item_view(
                *item,
            ).variants[index as int].name,
            None => index >= item_view(*item).variants.len(),
        },
{
    match item {
        syn::Item::Enum(item) => match item.variants.iter().nth(index) {
            Some(variant) => Some(variant.ident.to_string()),
            None => None,
        },
        _ => None,
    }
}

/// The number of fields of the variant at `index` of an enum.
#[verifier::external_body]
pub(crate) fn variant_field_count(item: &syn::Item, index: usize) -> (n: usize)
    ensures
        n == (if index < item_view(*item).variants.len() {
            item_view(*item).variants[index as int].fields
        } else {
            0
        }),
{
    match item {
        syn::Item::Enum(item) => match item.variants.iter().nth(index) {
            Some(variant) => variant.fields.len(),
            None => 0,
        },
        _ => 0,
    }
}

/// A copy of the type of the first field of the variant at `index` of an
/// enum.
#[verifier::external_body]
pub(crate) fn variant_type(item: &syn::Item, index: usize) -> (ty: Option<syn::Type>)
    ensures
        match ty {
            Some(ty) => index < item_view(*item).variants.len() && item_view(
                *item,
            ).variants[index as int].ty == Some(type_view(ty)),
            None => index >= item_view(*item).variants.len() || item_view(
                *item,
            ).variants[index as int].ty is None,
        },
{
    match item {
        syn::Item::Enum(item) => match item.variants.iter().nth(index) {
            Some(variant) => match variant.fields.iter().next() {
                Some(field) => Some(field.ty.clone()),
                None => None,
            },
            None => None,
        },
        _ => None,
    }
}

/// The identifier of the last segment of a path type; `None` for any other
/// form of type.
#[verifier::external_body]
pub(crate) fn type_head(ty: &syn::Type) -> (name: Option<String>)
    ensures
        text_of(name) == type_view(*ty).head,
{
    match ty {
        syn::Type::Path(ty) => match ty.path.segments.last() {
            Some(segment) => Some(segment.ident.to_string()),
            None => None,
        },
        _ => None,
    }
}

/// The number of generic arguments in angle brackets of the last segment
/// of a path type.
#[verifier::external_body]
pub(crate) fn type_argument_count(ty: &syn::Type) -> (n: usize)
    ensures
        n == type_view(*ty).arguments.len(),
{
    match ty {
        syn::Type::Path(ty) => match ty.path.segments.last() {
            Some(syn::PathSegment { arguments: syn::PathArguments::AngleBracketed(list), .. }) => {
                list.args.len()
            },
            _ => 0,
        },
        _ => 0,
    }
}

/// A copy of the generic argument at `index` of the last segment of a path
/// type, if that argument is a type.
#[verifier::external_body]
pub(crate) fn type_argument(ty: &syn::Type, index: usize) -> (argument: Option<syn::Type>)
    ensures
        match argument {
            Some(argument) => index < type_view(*ty).arguments.len() && type_view(
                *ty,
            ).arguments[index as int] == Some(type_view(argument)),
            None => index >= type_view(*ty).arguments.len() || type_view(
                *ty,
            ).arguments[index as int] is None,
        },
{
    match ty {
        syn::Type::Path(ty) => match ty.path.segments.last() {
            Some(syn::PathSegment { arguments: syn::PathArguments::AngleBracketed(list), .. }) => {
                match list.args.iter().nth(index) {
                    Some(syn::GenericArgument::Type(ty)) => Some(ty.clone()),
                    _ => None,
                }
            },
            _ => None,
        },
        _ => None,
    }
}

} // verus!
