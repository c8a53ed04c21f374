//! The ways in which a run of the schema compiler fails.

use vstd::prelude::*;
use vstd::string::*;
use crate::schema::{LayoutInfo, TypeId};

verus! {

/// Why a run stopped. Every failure is final: the first one ends the run.
#[derive(Debug, PartialEq, Eq)]
pub enum CodegenError {
    /// A definition file could not be read.
    Io { path: String, message: String },
    /// A definition file is malformed.
    Parse { path: String, message: String },
    /// Two definitions share a name.
    DuplicateName { name: String },
    /// A member refers to a name that no definition and no leaf type has.
    UnresolvedReference { owner: String, member: String, reference: String },
    /// A member refers to an identifier outside the type table.
    DanglingReference { owner: String, member: String, id: TypeId },
    /// A definition holds itself by value, so it has no finite size.
    LayoutCycle { owner: String },
    /// The size of a definition is beyond what a layout can record.
    LayoutTooLarge { owner: String },
    /// Two definitions of one family differ in layout.
    LayoutMismatch {
        first: String,
        second: String,
        first_layout: LayoutInfo,
        second_layout: LayoutInfo,
    },
    /// A generator met a definition that it cannot render.
    Generator { generator: String, owner: String },
}

pub enum CodegenErrorView {
    Io { path: Seq<char>, message: Seq<char> },
    Parse { path: Seq<char>, message: Seq<char> },
    DuplicateName { name: Seq<char> },
    UnresolvedReference { owner: Seq<char>, member: Seq<char>, reference: Seq<char> },
    DanglingReference { owner: Seq<char>, member: Seq<char>, id: TypeId },
    LayoutCycle { owner: Seq<char> },
    LayoutTooLarge { owner: Seq<char> },
    LayoutMismatch {
        first: Seq<char>,
        second: Seq<char>,
        first_layout: LayoutInfo,
        second_layout: LayoutInfo,
    },
    Generator { generator: Seq<char>, owner: Seq<char> },
}

impl View for CodegenError {
    type V = CodegenErrorView;

    open spec fn view(&self) -> CodegenErrorView {
        match *self {
            CodegenError::Io { path, message } => CodegenErrorView::Io { path: path@, message: message@ },
            CodegenError::Parse { path, message } => CodegenErrorView::Parse {
                path: path@,
                message: message@,
            },
            CodegenError::DuplicateName { name } => CodegenErrorView::DuplicateName { name: name@ },
            CodegenError::UnresolvedReference { owner, member, reference } => {
                CodegenErrorView::UnresolvedReference {
                    owner: owner@,
                    member: member@,
                    reference: reference@,
                }
            },
            CodegenError::DanglingReference { owner, member, id } => CodegenErrorView::DanglingReference {
                owner: owner@,
                member: member@,
                id,
            },
            CodegenError::LayoutCycle { owner } => CodegenErrorView::LayoutCycle { owner: owner@ },
            CodegenError::LayoutTooLarge { owner } => CodegenErrorView::LayoutTooLarge {
                owner: owner@,
            },
            CodegenError::LayoutMismatch { first, second, first_layout, second_layout } => {
                CodegenErrorView::LayoutMismatch {
                    first: first@,
                    second: second@,
                    first_layout,
                    second_layout,
                }
            },
            CodegenError::Generator { generator, owner } => CodegenErrorView::Generator {
                generator: generator@,
                owner: owner@,
            },
        }
    }
}

/// The kind of a failure as a word, and the name that it is about.
pub open spec fn error_text(error: CodegenErrorView) -> Seq<char> {
    match error {
        CodegenErrorView::Io { path, message } => "cannot read "@ + path + ": "@ + message,
        CodegenErrorView::Parse { path, message } => "cannot parse "@ + path + ": "@ + message,
        CodegenErrorView::DuplicateName { name } => "duplicate definition of "@ + name,
        CodegenErrorView::UnresolvedReference { owner, member, reference } => "unresolved type "@
            + reference + " in "@ + owner + "::"@ + member,
        CodegenErrorView::DanglingReference { owner, member, .. } => "dangling type id in "@
            + owner + "::"@ + member,
        CodegenErrorView::LayoutCycle { owner } => "infinite size of "@ + owner,
        CodegenErrorView::LayoutTooLarge { owner } => "excessive size of "@ + owner,
        CodegenErrorView::LayoutMismatch { first, second, .. } => "layout mismatch between "@ + first
            + " and "@ + second,
        CodegenErrorView::Generator { generator, owner } => generator + " cannot render "@
            + owner,
    }
}

impl CodegenError {
    /// A one-line description of the failure.
    pub fn message(&self) -> (text: String)
        ensures
            text@ == error_text(self@),
    {
        match self {
            CodegenError::Io { path, message } => {
                let mut text = String::from_str("cannot read ");
                text.append(path.as_str());
                text.append(": ");
                text.append(message.as_str());
                text
            },
            CodegenError::Parse { path, message } => {
                let mut text = String::from_str("cannot parse ");
                text.append(path.as_str());
                text.append(": ");
                text.append(message.as_str());
                text
            },
            CodegenError::DuplicateName { name } => {
                let mut text = String::from_str("duplicate definition of ");
                text.append(name.as_str());
                text
            },
            CodegenError::UnresolvedReference { owner, member, reference } => {
                let mut text = String::from_str("unresolved type ");
                text.append(reference.as_str());
                text.append(" in ");
                text.append(owner.as_str());
                text.append("::");
                text.append(member.as_str());
                text
            },
            CodegenError::DanglingReference { owner, member, .. } => {
                let mut text = String::from_str("dangling type id in ");
                text.append(owner.as_str());
                text.append("::");
                text.append(member.as_str());
                text
            },
            CodegenError::LayoutCycle { owner } => {
                let mut text = String::from_str("infinite size of ");
                text.append(owner.as_str());
                text
            },
            CodegenError::LayoutTooLarge { owner } => {
                let mut text = String::from_str("excessive size of ");
                text.append(owner.as_str());
                text
            },
            CodegenError::LayoutMismatch { first, second, .. } => {
                let mut text = String::from_str("layout mismatch between ");
                text.append(first.as_str());
                text.append(" and ");
                text.append(second.as_str());
                text
            },
            CodegenError::Generator { generator, owner } => {
                let mut text = generator.clone();
                text.append(" cannot render ");
                text.append(owner.as_str());
                text
            },
        }
    }
}

} // verus!
