//! An AST schema compiler together with the small reporting types of the
//! command-line tools around it.
//!
//! The schema compiler loads type definitions, assigns every definition a
//! dense identifier, links the references between definitions, computes
//! their memory layout and runs a fixed set of generators over the frozen
//! schema.

//!
//! The data model is in [`schema`] and [`error`]. Definition files are read
//! by [`syntax`] and loaded by [`rust_ast`]; [`context`] holds the symbol
//! table. The passes are [`linker`] and [`calc_layout`], with the rules of
//! the latter in [`layout`]; [`passes`] lists them. The generators are
//! [`assert_layouts`], [`ast_kind`], [`ast_builder`], [`impl_get_span`] and
//! [`visit`]; [`generators`] lists them, [`emit`] holds what they share and
//! [`output`] what they hand back. [`codegen`] runs everything in order and
//! [`cli`] says what a run writes.
//!
//! Beside the compiler stand the summary of a linter run in [`result`] and
//! [`output_formatter`], the record of a module's imports and exports in
//! [`module_record`], and the rendering of numbers in [`text`].

pub mod schema;
pub mod error;
pub mod syntax;
pub mod rust_ast;
pub mod context;
pub mod linker;
pub mod layout;
pub mod calc_layout;
pub mod passes;
pub mod output;
pub mod emit;
pub mod assert_layouts;
pub mod ast_kind;
pub mod ast_builder;
pub mod impl_get_span;
pub mod visit;
pub mod generators;
pub mod codegen;
pub mod cli;

pub mod text;
pub mod result;
pub mod output_formatter;
pub mod module_record;
