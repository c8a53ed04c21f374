use ast_codegen::ast_kind::{kind_ids, kind_of, type_of_kind};
use ast_codegen::calc_layout::CalcLayout;
use ast_codegen::cli::CliOptions;
use ast_codegen::codegen::{AstCodegen, CodegenResult};
use ast_codegen::context::{EarlyCtx, LateCtx};
use ast_codegen::error::CodegenError;
use ast_codegen::generators::Generator;
use ast_codegen::linker::Linker;
use ast_codegen::output::{
    files, output, push_part, write_data_streams, write_generated_streams, GeneratorOutput,
    WriteAction,
};
use ast_codegen::passes::Pass;
use ast_codegen::rust_ast::{chain_of, Module, RawItem, RawMarker, RawMember, MAX_NESTING};
use ast_codegen::schema::{
    Container, LayoutInfo, Leaf, Member, Schema, Target, TypeDef, TypeKind, TypeRef,
};

const NODES: &str = "
pub struct Span { pub start: u32, pub end: u32 }

#[layout(Node)]
#[visit]
pub struct A { pub span: Span, pub value: u32 }

#[layout(Node)]
pub struct B { pub span: Span, pub value: u32 }
";

fn load(text: &str) -> Module {
    Module::load("nodes.rs".to_string(), text).unwrap()
}

fn table(text: &str) -> EarlyCtx {
    EarlyCtx::new(vec![load(text)]).unwrap()
}

fn laid_out(text: &str) -> EarlyCtx {
    let mut ctx = table(text);
    Linker::run(&mut ctx).unwrap();
    CalcLayout::run(&mut ctx).unwrap();
    ctx
}

fn layout_of(ctx: &EarlyCtx, name: &str) -> LayoutInfo {
    ctx.find(&name.to_string()).unwrap().layout.unwrap()
}

fn plain(size: u64, align: u64) -> LayoutInfo {
    LayoutInfo { size, align, tag_offset: None }
}

fn all_generators(codegen: AstCodegen) -> AstCodegen {
    codegen
        .gen(Generator::AssertLayouts)
        .gen(Generator::AstKind)
        .gen(Generator::AstBuilder)
        .gen(Generator::ImplGetSpan)
        .gen(Generator::Visit)
        .gen(Generator::VisitMut)
}

fn full_run(text: &str) -> Result<CodegenResult, CodegenError> {
    let codegen = all_generators(
        AstCodegen::default().add_file("nodes.rs").pass(Pass::Linker).pass(Pass::CalcLayout),
    );
    codegen.generate(&vec![Ok(text.to_string())])
}

fn stream_text(result: &CodegenResult, generator: &str) -> String {
    let (_, found) = result.outputs.iter().find(|(name, _)| *name == generator).unwrap();
    found.to_stream().1.clone()
}

#[test]
fn load_reads_structs_and_enums_in_order() {
    let module = load(
        "use std::fmt; pub enum Kind { One, Two(Box<Node>) } fn skipped() {} struct Node { kind: Kind, next: Option<Box<Node>>, all: Vec<Node> }",
    );
    assert_eq!(module.path, "nodes.rs");
    assert_eq!(module.items.len(), 2);

    let kind = &module.items[0];
    assert_eq!(kind.name, "Kind");
    assert_eq!(kind.kind, TypeKind::Enum);
    assert_eq!(kind.members.len(), 2);
    assert_eq!(kind.members[0], Member { name: "One".to_string(), ty: None });
    assert_eq!(
        kind.members[1].ty,
        Some(TypeRef {
            containers: vec![Container::Boxed],
            target: Target::Named("Node".to_string())
        })
    );

    let node = &module.items[1];
    assert_eq!(node.name, "Node");
    assert_eq!(node.kind, TypeKind::Struct);
    assert_eq!(node.members[0].name, "kind");
    assert_eq!(
        node.members[1].ty,
        Some(TypeRef {
            containers: vec![Container::Optional, Container::Boxed],
            target: Target::Named("Node".to_string())
        })
    );
    assert_eq!(
        node.members[2].ty,
        Some(TypeRef {
            containers: vec![Container::Sequence],
            target: Target::Named("Node".to_string())
        })
    );
    assert_eq!(node.layout, None);
}

#[test]
fn load_skips_lifetimes_in_type_arguments() {
    let module = load("struct Node<'a> { inner: Box<'a, Leaf<'a>>, name: Atom<'a> }");
    assert_eq!(
        module.items[0].members[0].ty,
        Some(TypeRef {
            containers: vec![Container::Boxed],
            target: Target::Named("Leaf".to_string())
        })
    );
    assert_eq!(module.items[0].members[1].ty, Some(TypeRef::named("Atom")));
}

#[test]
fn load_expands_markers() {
    let module = load(NODES);
    let span = &module.items[0];
    assert!(!span.visited);
    assert_eq!(span.family, None);
    assert!(!span.has_span);
    assert!(!span.traversable);

    let a = &module.items[1];
    assert!(a.visited);
    assert_eq!(a.family, Some("Node".to_string()));
    assert!(a.has_span);
    assert!(a.traversable);

    let b = &module.items[2];
    assert!(!b.visited);
    assert_eq!(b.family, Some("Node".to_string()));
    assert!(b.has_span);
    assert!(!b.traversable);
}

#[test]
fn load_analyzes_shapes() {
    let module = load(
        "#[visit] struct Empty {} #[visit] enum Tags { A, B } enum Wrapped { A(X), B(Y) } enum Mixed { A(X), B } enum Never {}",
    );
    let empty = &module.items[0];
    assert!(empty.visited && !empty.traversable && !empty.has_span);
    let tags = &module.items[1];
    assert!(tags.traversable && !tags.has_span);
    assert!(module.items[2].has_span);
    assert!(!module.items[3].has_span);
    assert!(!module.items[4].has_span);
}

#[test]
fn load_fails_on_malformed_source() {
    let error = Module::load("broken.rs".to_string(), "struct {").unwrap_err();
    assert!(matches!(&error, CodegenError::Parse { path, .. } if path == "broken.rs"));
    assert!(error.message().starts_with("cannot parse broken.rs: "));
}

#[test]
fn load_fails_on_unsupported_shapes() {
    for text in [
        "struct Tuple(u32);",
        "struct Borrowed { text: &'static str }",
        "struct Generic { map: HashMap<u32, Value> }",
        "enum Pair { Both(u32, u32) }",
        "enum Record { Named { x: u32, y: u32 } }",
        "struct Array { xs: [u8; 4] }",
        "struct Deep { x: Option<Option<Option<Option<Option<Option<Option<Option<Option<Option<Option<Option<Option<Option<Option<Option<Option<Option<u8>>>>>>>>>>>>>>>>>> }",
    ] {
        let error = Module::load("odd.rs".to_string(), text).unwrap_err();
        assert!(matches!(&error, CodegenError::Parse { path, .. } if path == "odd.rs"), "{text}");
    }
    assert_eq!(
        Module::load("odd.rs".to_string(), "struct Fine {} struct Tuple(u32);").unwrap_err(),
        CodegenError::Parse {
            path: "odd.rs".to_string(),
            message: "unsupported definition of Tuple".to_string()
        }
    );
}

#[test]
fn expand_takes_written_items() {
    let item = RawItem {
        kind: TypeKind::Struct,
        name: "Node".to_string(),
        markers: vec![
            RawMarker { name: "layout".to_string(), argument: None },
            RawMarker { name: "derive".to_string(), argument: Some("Debug".to_string()) },
            RawMarker { name: "layout".to_string(), argument: Some("First".to_string()) },
            RawMarker { name: "layout".to_string(), argument: Some("Second".to_string()) },
        ],
        members: vec![RawMember {
            name: "span".to_string(),
            chain: Some(vec!["Option".to_string(), "Span".to_string()]),
        }],
    };
    assert!(!item.is_marked("visit"));
    assert!(item.is_marked("derive"));
    assert_eq!(item.argument_of("layout"), Some("First".to_string()));
    assert_eq!(item.argument_of("visit"), None);

    let def = item.expand().unwrap();
    assert_eq!(def.family, Some("First".to_string()));
    assert!(def.has_span);
    assert!(!def.traversable);
    assert_eq!(def.members[0].ty, Some(TypeRef::named("Span").wrapped(Container::Optional)));

    let field_without_type = RawItem {
        kind: TypeKind::Struct,
        name: "Odd".to_string(),
        markers: vec![],
        members: vec![RawMember { name: "x".to_string(), chain: None }],
    };
    assert_eq!(field_without_type.expand(), None);
    let unknown_wrapper = RawMember {
        name: "x".to_string(),
        chain: Some(vec!["Cell".to_string(), "u32".to_string()]),
    };
    assert_eq!(unknown_wrapper.expand(TypeKind::Enum), None);
    assert_eq!(TypeRef::from_chain(&vec![]), None);
}

#[test]
fn type_ids_are_dense_and_in_order() {
    let first = Module::load("a.rs".to_string(), "struct A {} struct B {}").unwrap();
    let second = Module::load("b.rs".to_string(), "enum C {} struct D {}").unwrap();
    let ctx = EarlyCtx::new(vec![first, second]).unwrap();

    assert_eq!(ctx.ty_table.len(), 4);
    assert_eq!(ctx.mods, vec!["a.rs".to_string(), "b.rs".to_string()]);
    for (id, name) in ["A", "B", "C", "D"].iter().enumerate() {
        assert_eq!(ctx.type_id(&name.to_string()), Some(id));
        assert_eq!(ctx.ast_ref(id).name, *name);
        assert_eq!(ctx.find(&name.to_string()).unwrap().name, *name);
    }
    assert_eq!(ctx.type_id(&"E".to_string()), None);
    assert!(ctx.find(&"E".to_string()).is_none());
}

#[test]
fn duplicate_names_are_rejected() {
    let first = Module::load("a.rs".to_string(), "struct A {} struct B {}").unwrap();
    let second = Module::load("b.rs".to_string(), "struct C {} enum B {} struct A {}").unwrap();
    assert_eq!(
        EarlyCtx::new(vec![first, second]).unwrap_err(),
        CodegenError::DuplicateName { name: "B".to_string() }
    );
}

#[test]
fn load_reads_a_variant_with_one_named_field() {
    let module = load("enum Shape { Circle { radius: u32 }, Dot }");
    assert_eq!(module.items[0].members[0].ty, Some(TypeRef::named("u32")));
    assert_eq!(module.items[0].members[1].ty, None);
}

fn nested(containers: usize) -> String {
    format!("struct Deep {{ x: {}u8{} }}", "Option<".repeat(containers), ">".repeat(containers))
}

#[test]
fn load_keeps_references_within_the_nesting_limit() {
    let module = load(&nested(MAX_NESTING));
    let reference = module.items[0].members[0].ty.as_ref().unwrap();
    assert_eq!(reference.containers, vec![Container::Optional; MAX_NESTING]);
    assert_eq!(reference.target, Target::Named("u8".to_string()));

    let error = Module::load("deep.rs".to_string(), &nested(MAX_NESTING + 1)).unwrap_err();
    assert_eq!(
        error,
        CodegenError::Parse {
            path: "deep.rs".to_string(),
            message: "unsupported definition of Deep".to_string()
        }
    );
}

#[test]
fn chain_needs_every_name_and_the_innermost_level() {
    let heads = vec![Some("Option".to_string()), Some("Box".to_string()), Some("A".to_string())];
    assert_eq!(chain_of(&heads, true), vec!["Option", "Box", "A"]);
    assert!(chain_of(&heads, false).is_empty());
    let gap = vec![Some("Option".to_string()), None, Some("A".to_string())];
    assert!(chain_of(&gap, true).is_empty());
    assert!(chain_of(&vec![], true).is_empty());
}

#[test]
fn members_are_made_of_what_was_asked() {
    let chain = || Some(vec!["Box".to_string(), "A".to_string()]);
    let field = RawMember::field(Some("a".to_string()), chain());
    assert_eq!((field.name.as_str(), field.chain), ("a", chain()));
    let untyped = RawMember::field(Some("a".to_string()), None);
    assert_eq!((untyped.name.as_str(), untyped.chain), ("a", Some(vec![])));
    let unnamed = RawMember::field(None, chain());
    assert_eq!((unnamed.name.as_str(), unnamed.chain), ("", Some(vec![])));

    let unit = RawMember::variant(Some("V".to_string()), 0, None);
    assert_eq!((unit.name.as_str(), unit.chain), ("V", None));
    let unit = RawMember::variant(Some("V".to_string()), 0, chain());
    assert_eq!(unit.chain, None);
    let one = RawMember::variant(Some("V".to_string()), 1, chain());
    assert_eq!((one.name.as_str(), one.chain), ("V", chain()));
    let one = RawMember::variant(Some("V".to_string()), 1, None);
    assert_eq!(one.chain, Some(vec![]));
    let two = RawMember::variant(None, 2, chain());
    assert_eq!((two.name.as_str(), two.chain), ("", Some(vec![])));
}

#[test]
fn markers_and_items_need_a_name() {
    let marker = RawMarker::written(Some("layout".to_string()), Some("Node".to_string())).unwrap();
    assert_eq!((marker.name.as_str(), marker.argument.as_deref()), ("layout", Some("Node")));
    let marker = RawMarker::written(Some("visit".to_string()), None).unwrap();
    assert_eq!((marker.name.as_str(), marker.argument.as_deref()), ("visit", None));
    assert!(RawMarker::written(None, Some("Node".to_string())).is_none());

    let item = RawItem::written(TypeKind::Enum, Some("E".to_string()), vec![marker], vec![]).unwrap();
    assert_eq!(item.kind, TypeKind::Enum);
    assert_eq!(item.name, "E");
    assert_eq!(item.markers.len(), 1);
    assert!(item.members.is_empty());
    assert!(RawItem::written(TypeKind::Struct, None, vec![], vec![]).is_none());
}

#[test]
fn load_passes_over_attributes_that_are_no_single_name() {
    let module = load("#[derive(Debug)] #[serde::skip] #[doc = \"text\"] #[layout(Node)] #[visit] struct A { x: u32 }");
    assert!(module.items[0].visited);
    assert_eq!(module.items[0].family, Some("Node".to_string()));
}

#[test]
fn empty_set_of_modules_gives_an_empty_table() {
    let ctx = EarlyCtx::new(vec![]).unwrap();
    assert!(ctx.ty_table.is_empty());
    let late = ctx.into_late_ctx();
    assert!(late.type_def(0).is_none());
}

#[test]
fn linker_resolves_names_and_leaves() {
    let mut ctx = table(NODES);
    assert_eq!(Linker::run(&mut ctx), Ok(()));

    let span = ctx.ast_ref(0);
    assert_eq!(span.members[0].ty.as_ref().unwrap().target, Target::Leaf(Leaf::U32));
    let a = ctx.ast_ref(1);
    assert_eq!(a.members[0].ty.as_ref().unwrap().target, Target::Resolved(0));
    assert_eq!(a.members[1].ty.as_ref().unwrap().target, Target::Leaf(Leaf::U32));

    let again = ctx.ty_table.iter().map(|def| def.duplicate()).collect::<Vec<_>>();
    assert_eq!(Linker::run(&mut ctx), Ok(()));
    assert_eq!(ctx.ty_table, again);
}

#[test]
fn linker_prefers_a_definition_over_a_leaf() {
    let mut ctx = table("struct Atom { id: u32 } struct User { name: Atom }");
    Linker::run(&mut ctx).unwrap();
    assert_eq!(ctx.ast_ref(1).members[0].ty.as_ref().unwrap().target, Target::Resolved(0));
}

#[test]
fn linker_leaves_no_reference_by_name() {
    let mut ctx = table(
        "enum E { X(Box<S>), Y } struct S { e: Option<E>, all: Vec<S>, flag: bool, text: Atom }",
    );
    Linker::run(&mut ctx).unwrap();
    let count = ctx.ty_table.len();
    for def in &ctx.ty_table {
        for member in &def.members {
            match member.ty.as_ref().map(|ty| &ty.target) {
                Some(Target::Named(name)) => panic!("{name} is unresolved"),
                Some(Target::Resolved(id)) => assert!(*id < count),
                Some(Target::Leaf(_)) | None => {}
            }
        }
    }
}

#[test]
fn linker_names_the_first_unresolved_reference() {
    let mut ctx = table("struct A { x: u32, b: Missing, c: Gone } struct B { d: Lost }");
    let before = ctx.ty_table.iter().map(|def| def.duplicate()).collect::<Vec<_>>();
    let error = Linker::run(&mut ctx).unwrap_err();
    assert_eq!(
        error,
        CodegenError::UnresolvedReference {
            owner: "A".to_string(),
            member: "b".to_string(),
            reference: "Missing".to_string()
        }
    );
    assert_eq!(error.message(), "unresolved type Missing in A::b");
    assert_eq!(ctx.ty_table, before);
}

#[test]
fn linker_rejects_an_identifier_outside_the_table() {
    let def = TypeDef {
        name: "A".to_string(),
        kind: TypeKind::Struct,
        members: vec![Member {
            name: "b".to_string(),
            ty: Some(TypeRef { containers: vec![], target: Target::Resolved(3) }),
        }],
        visited: false,
        family: None,
        has_span: false,
        traversable: false,
        layout: None,
    };
    let module = Module { path: "made.rs".to_string(), items: vec![def] };
    let mut ctx = EarlyCtx::new(vec![module]).unwrap();
    assert_eq!(
        Linker::run(&mut ctx),
        Err(CodegenError::DanglingReference {
            owner: "A".to_string(),
            member: "b".to_string(),
            id: 3
        })
    );
}

#[test]
fn interchangeable_structs_have_equal_layouts() {
    let ctx = laid_out(NODES);
    assert_eq!(layout_of(&ctx, "Span"), plain(8, 4));
    assert_eq!(layout_of(&ctx, "A"), plain(12, 4));
    assert_eq!(layout_of(&ctx, "A"), layout_of(&ctx, "B"));
}

#[test]
fn mismatched_family_fails_the_layout_pass() {
    let mut ctx = table(
        "#[layout(Node)] struct A { value: u32 } struct Free { x: u8 } #[layout(Node)] struct B { value: u64 } #[layout(Node)] struct C { value: u16 }",
    );
    Linker::run(&mut ctx).unwrap();
    let before = ctx.ty_table.iter().map(|def| def.duplicate()).collect::<Vec<_>>();
    let error = CalcLayout::run(&mut ctx).unwrap_err();
    assert_eq!(
        error,
        CodegenError::LayoutMismatch {
            first: "A".to_string(),
            second: "B".to_string(),
            first_layout: plain(4, 4),
            second_layout: plain(8, 8),
        }
    );
    assert_eq!(error.message(), "layout mismatch between A and B");
    assert_eq!(ctx.ty_table, before);
}

#[test]
fn mismatched_variant_sizes_fail_the_layout_pass() {
    let mut ctx = table(
        "#[layout(Expr)] enum Small { A(u8), B } #[layout(Expr)] enum Large { A(u64), B }",
    );
    Linker::run(&mut ctx).unwrap();
    assert_eq!(
        CalcLayout::run(&mut ctx),
        Err(CodegenError::LayoutMismatch {
            first: "Small".to_string(),
            second: "Large".to_string(),
            first_layout: LayoutInfo { size: 2, align: 1, tag_offset: Some(0) },
            second_layout: LayoutInfo { size: 16, align: 8, tag_offset: Some(0) },
        })
    );
}

#[test]
fn struct_fields_are_laid_out_in_order() {
    let ctx = laid_out(
        "struct Empty {} struct Padded { a: u8, b: u32, c: u8 } struct Wide { a: u8, b: u64, c: u16, d: Atom, e: char }",
    );
    assert_eq!(layout_of(&ctx, "Empty"), plain(0, 1));
    assert_eq!(layout_of(&ctx, "Padded"), plain(12, 4));
    assert_eq!(layout_of(&ctx, "Wide"), plain(48, 8));
}

#[test]
fn containers_have_their_own_extents() {
    let ctx = laid_out(
        "struct T { a: u8 } struct O { a: Option<u32>, b: Option<Box<T>>, c: Vec<u8>, d: Option<Vec<u8>>, e: bool } struct N { x: Option<Option<u32>> } struct P { x: Option<T> } struct Q { x: Box<Option<u64>> }",
    );
    assert_eq!(layout_of(&ctx, "O"), plain(88, 8));
    assert_eq!(layout_of(&ctx, "N"), plain(12, 4));
    assert_eq!(layout_of(&ctx, "P"), plain(2, 1));
    assert_eq!(layout_of(&ctx, "Q"), plain(8, 8));
}

#[test]
fn enums_hold_a_tag_and_the_largest_payload() {
    let ctx = laid_out(
        "struct A { x: u32 } enum Tags { A, B, C } enum E { X(Box<A>), Y } enum F { X(A), Y(u8), Z(u16) } enum Never {}",
    );
    assert_eq!(layout_of(&ctx, "Tags"), LayoutInfo { size: 1, align: 1, tag_offset: Some(0) });
    assert_eq!(layout_of(&ctx, "E"), LayoutInfo { size: 16, align: 8, tag_offset: Some(0) });
    assert_eq!(layout_of(&ctx, "F"), LayoutInfo { size: 8, align: 4, tag_offset: Some(0) });
    assert_eq!(layout_of(&ctx, "Never"), LayoutInfo { size: 1, align: 1, tag_offset: Some(0) });
}

#[test]
fn layouts_follow_references_in_any_order() {
    let ctx = laid_out(
        "struct Outer { m: Middle, tail: u8 } struct Middle { i: Inner, j: Inner } struct Inner { x: u16 } struct List { next: Option<Box<List>>, value: Outer }",
    );
    assert_eq!(layout_of(&ctx, "Inner"), plain(2, 2));
    assert_eq!(layout_of(&ctx, "Middle"), plain(4, 2));
    assert_eq!(layout_of(&ctx, "Outer"), plain(6, 2));
    assert_eq!(layout_of(&ctx, "List"), plain(16, 8));
}

#[test]
fn a_type_that_holds_itself_has_no_layout() {
    let mut ctx = table("struct Fine { x: u8 } struct R { next: R }");
    Linker::run(&mut ctx).unwrap();
    let error = CalcLayout::run(&mut ctx).unwrap_err();
    assert_eq!(error, CodegenError::LayoutCycle { owner: "R".to_string() });
    assert_eq!(error.message(), "infinite size of R");
    assert_eq!(ctx.ast_ref(0).layout, None);

    let mut ctx = table("struct A { b: Option<B> } enum B { One(A), Two }");
    Linker::run(&mut ctx).unwrap();
    assert_eq!(
        CalcLayout::run(&mut ctx),
        Err(CodegenError::LayoutCycle { owner: "A".to_string() })
    );
}

#[test]
fn layout_before_linking_names_the_unlinked_reference() {
    let mut ctx = table("struct Fine {} struct A { x: u32, y: Missing }");
    let before = ctx.ty_table.iter().map(|def| def.duplicate()).collect::<Vec<_>>();
    assert_eq!(
        CalcLayout::run(&mut ctx),
        Err(CodegenError::UnresolvedReference {
            owner: "A".to_string(),
            member: "x".to_string(),
            reference: "u32".to_string()
        })
    );
    assert_eq!(ctx.ty_table, before);

    let wrong_order = AstCodegen::default()
        .add_file("nodes.rs")
        .pass(Pass::CalcLayout)
        .pass(Pass::Linker)
        .gen(Generator::Visit);
    assert_eq!(
        wrong_order.generate(&vec![Ok("struct A { b: B } struct B {}".to_string())]),
        Err(CodegenError::UnresolvedReference {
            owner: "A".to_string(),
            member: "b".to_string(),
            reference: "B".to_string()
        })
    );
}

#[test]
fn sizes_saturate_at_the_limit() {
    let mut text = String::from("struct T0 { a: u64, b: u64 }");
    for level in 1..40 {
        text.push_str(&format!(" struct T{level} {{ a: T{}, b: T{} }}", level - 1, level - 1));
    }
    let mut ctx = table(&text);
    Linker::run(&mut ctx).unwrap();
    assert_eq!(
        CalcLayout::run(&mut ctx),
        Err(CodegenError::LayoutTooLarge { owner: "T28".to_string() })
    );
}

#[test]
fn passes_run_by_name() {
    assert_eq!(Pass::Linker.name(), "Linker");
    assert_eq!(Pass::CalcLayout.name(), "CalcLayout");
    let mut ctx = table(NODES);
    assert_eq!(Pass::Linker.run(&mut ctx), Ok(()));
    assert_eq!(Pass::CalcLayout.run(&mut ctx), Ok(()));
    assert_eq!(layout_of(&ctx, "B"), plain(12, 4));
}

#[test]
fn schema_is_the_table_as_it_stands() {
    let ctx = laid_out(NODES);
    let defs = ctx.ty_table.iter().map(|def| def.duplicate()).collect::<Vec<_>>();
    let late = ctx.into_late_ctx();
    assert_eq!(late.schema.definitions, defs);
    assert_eq!(late.type_def(2).unwrap().name, "B");
    assert!(late.type_def(3).is_none());
}

#[test]
fn three_kinds_get_three_tags() {
    let result = full_run(
        "enum Kind { A(A), B(B), C(C) } #[visit] struct A { x: u32 } #[visit] struct B { x: u32 } struct Plain { x: u32 } #[visit] struct C { x: u32 }",
    )
    .unwrap();
    let ids = kind_ids(&result.schema.definitions);
    assert_eq!(ids, vec![1, 2, 4]);
    for tag in 0..3u8 {
        let id = type_of_kind(&ids, tag).unwrap();
        assert_eq!(kind_of(&ids, id), Some(tag));
    }
    for id in [1usize, 2, 4] {
        let tag = kind_of(&ids, id).unwrap();
        assert_eq!(type_of_kind(&ids, tag), Some(id));
    }
    assert_eq!(type_of_kind(&ids, 3), None);
    assert_eq!(kind_of(&ids, 0), None);
    assert_eq!(kind_of(&ids, 3), None);

    assert_eq!(
        stream_text(&result, "AstKind"),
        "#[derive(Debug, Clone, Copy, PartialEq, Eq)]\n#[repr(u8)]\npub enum AstType {\n    A = 0,\n    B = 1,\n    C = 2,\n}\n\nimpl AstType {\n    pub fn type_id(self) -> usize {\n        match self {\n            Self::A => 1,\n            Self::B => 2,\n            Self::C => 4,\n        }\n    }\n\n    pub fn from_type_id(id: usize) -> Option<Self> {\n        match id {\n            1 => Some(Self::A),\n            2 => Some(Self::B),\n            4 => Some(Self::C),\n            _ => None,\n        }\n    }\n}\n"
    );
}

#[test]
fn more_kinds_than_a_byte_holds_are_refused() {
    let mut text = String::new();
    for i in 0..257 {
        text.push_str(&format!("#[visit] struct T{i} {{ x: u32 }}\n"));
    }
    assert_eq!(
        full_run(&text),
        Err(CodegenError::Generator {
            generator: "AstKind".to_string(),
            owner: "T256".to_string()
        })
    );

    let mut text = String::new();
    for i in 0..256 {
        text.push_str(&format!("#[visit] struct T{i} {{ x: u32 }}\n"));
    }
    let result = full_run(&text).unwrap();
    let ids = kind_ids(&result.schema.definitions);
    assert_eq!(kind_of(&ids, 255), Some(255));
    assert_eq!(type_of_kind(&ids, 255), Some(255));
}

#[test]
fn generators_render_the_schema() {
    let result = full_run(NODES).unwrap();
    let names = result.outputs.iter().map(|(name, _)| *name).collect::<Vec<_>>();
    assert_eq!(
        names,
        vec!["AssertLayouts", "AstKind", "AstBuilder", "ImplGetSpan", "Visit", "VisitMut"]
    );

    let mut records = Vec::new();
    for (size, align) in [(8u64, 4u64), (12, 4), (12, 4)] {
        records.extend_from_slice(&size.to_le_bytes());
        records.extend_from_slice(&align.to_le_bytes());
        records.extend_from_slice(&[0xff; 8]);
    }
    assert_eq!(
        result.outputs[0].1,
        GeneratorOutput::Data(("crates/oxc_ast/src/generated/layouts.bin".to_string(), records))
    );
    assert_eq!(
        result.outputs[2].1,
        GeneratorOutput::Stream((
            "crates/oxc_ast/src/generated/ast_builder.rs".to_string(),
            "impl AstBuilder {\n    pub fn build_Span(self, start: u32, end: u32) -> Span {\n        Span { start, end, }\n    }\n\n    pub fn build_A(self, span: Span, value: u32) -> A {\n        A { span, value, }\n    }\n\n    pub fn build_B(self, span: Span, value: u32) -> B {\n        B { span, value, }\n    }\n\n}\n".to_string()
        ))
    );
    assert_eq!(
        result.outputs[3].1,
        GeneratorOutput::Stream((
            "crates/oxc_ast/src/generated/span.rs".to_string(),
            "use oxc_span::{GetSpan, Span};\n\nimpl GetSpan for A {\n    fn span(&self) -> Span {\n        self.span\n    }\n}\n\nimpl GetSpan for B {\n    fn span(&self) -> Span {\n        self.span\n    }\n}\n\n".to_string()
        ))
    );
    assert_eq!(
        result.outputs[4].1,
        GeneratorOutput::Stream((
            "crates/oxc_ast/src/generated/visit.rs".to_string(),
            "use crate::ast::*;\n\npub fn walk_A<V: Visit>(visitor: &mut V, it: &A) {\n    visitor.visit(&it.span);\n    visitor.visit(&it.value);\n}\n\n".to_string()
        ))
    );
    assert_eq!(
        result.outputs[5].1,
        GeneratorOutput::Stream((
            "crates/oxc_ast/src/generated/visit_mut.rs".to_string(),
            "use crate::ast::*;\n\npub fn walk_A_mut<V: VisitMut>(visitor: &mut V, it: &mut A) {\n    visitor.visit(&mut it.span);\n    visitor.visit(&mut it.value);\n}\n\n".to_string()
        ))
    );
}

#[test]
fn generators_render_enums() {
    let result = full_run(
        "struct A { span: Span } struct Span { start: u32 } #[visit] enum E { X(Box<A>), List(Option<Vec<A>>), Y } #[visit] enum W { X(A), Z(A) }",
    )
    .unwrap();
    assert_eq!(
        stream_text(&result, "AstBuilder"),
        "impl AstBuilder {\n    pub fn build_A(self, span: Span) -> A {\n        A { span, }\n    }\n\n    pub fn build_Span(self, start: u32) -> Span {\n        Span { start, }\n    }\n\n    pub fn build_E_X(self, it: Box<A>) -> E {\n        E::X(it)\n    }\n\n    pub fn build_E_List(self, it: Option<Vec<A>>) -> E {\n        E::List(it)\n    }\n\n    pub fn build_E_Y(self) -> E {\n        E::Y\n    }\n\n    pub fn build_W_X(self, it: A) -> W {\n        W::X(it)\n    }\n\n    pub fn build_W_Z(self, it: A) -> W {\n        W::Z(it)\n    }\n\n}\n"
    );
    assert_eq!(
        stream_text(&result, "ImplGetSpan"),
        "use oxc_span::{GetSpan, Span};\n\nimpl GetSpan for A {\n    fn span(&self) -> Span {\n        self.span\n    }\n}\n\nimpl GetSpan for W {\n    fn span(&self) -> Span {\n        match self {\n            Self::X(it) => it.span(),\n            Self::Z(it) => it.span(),\n        }\n    }\n}\n\n"
    );
    assert_eq!(
        stream_text(&result, "Visit"),
        "use crate::ast::*;\n\npub fn walk_E<V: Visit>(visitor: &mut V, it: &E) {\n    match it {\n        E::X(it) => visitor.visit(it),\n        E::List(it) => visitor.visit(it),\n        E::Y => {}\n    }\n}\n\npub fn walk_W<V: Visit>(visitor: &mut V, it: &W) {\n    match it {\n        W::X(it) => visitor.visit(it),\n        W::Z(it) => visitor.visit(it),\n    }\n}\n\n"
    );
}

#[test]
fn a_struct_answers_with_the_span_of_its_only_span_child() {
    let result = full_run(
        "struct A { span: Span } struct Span { start: u32 } struct Wrapper { count: u32, inner: Box<A> } struct Two { a: A, b: A } struct Listed { all: Vec<A> } struct Plain { x: u32 }",
    )
    .unwrap();
    assert_eq!(
        stream_text(&result, "ImplGetSpan"),
        "use oxc_span::{GetSpan, Span};\n\nimpl GetSpan for A {\n    fn span(&self) -> Span {\n        self.span\n    }\n}\n\nimpl GetSpan for Wrapper {\n    fn span(&self) -> Span {\n        self.inner.span()\n    }\n}\n\n"
    );
}

#[test]
fn generators_refuse_what_they_cannot_render() {
    let unlinked = AstCodegen::default().add_file("nodes.rs").gen(Generator::AssertLayouts);
    assert_eq!(
        unlinked.generate(&vec![Ok(NODES.to_string())]),
        Err(CodegenError::Generator {
            generator: "AssertLayouts".to_string(),
            owner: "Span".to_string()
        })
    );

    let def = |name: &str, layout: LayoutInfo, has_span: bool, target: Target| TypeDef {
        name: name.to_string(),
        kind: TypeKind::Struct,
        members: vec![Member {
            name: "x".to_string(),
            ty: Some(TypeRef { containers: vec![], target }),
        }],
        visited: false,
        family: Some("Node".to_string()),
        has_span,
        traversable: false,
        layout: Some(layout),
    };
    let late = LateCtx {
        schema: Schema {
            definitions: vec![
                def("A", plain(4, 4), false, Target::Leaf(Leaf::U32)),
                def("B", plain(8, 8), true, Target::Resolved(7)),
            ],
        },
    };
    for (generator, owner) in [
        (Generator::AssertLayouts, "B"),
        (Generator::AstBuilder, "B"),
        (Generator::ImplGetSpan, "B"),
    ] {
        let error = generator.run(&late).unwrap_err();
        assert_eq!(
            error,
            CodegenError::Generator {
                generator: generator.name().to_string(),
                owner: owner.to_string()
            }
        );
    }
    assert_eq!(
        Generator::AstBuilder.run(&late).unwrap_err().message(),
        "AstBuilder cannot render B"
    );
    assert!(Generator::Visit.run(&late).is_ok());
    assert!(Generator::AstKind.run(&late).is_ok());
}

#[test]
fn running_twice_gives_identical_outputs() {
    let first = full_run(NODES).unwrap();
    let second = full_run(NODES).unwrap();
    assert_eq!(first, second);
    let options = CliOptions { dry_run: false, no_fmt: false, schema: None };
    assert_eq!(options.plan(&first), options.plan(&second));
}

#[test]
fn unresolved_name_fails_the_run_without_output() {
    assert_eq!(
        full_run("struct A { b: Undeclared }"),
        Err(CodegenError::UnresolvedReference {
            owner: "A".to_string(),
            member: "b".to_string(),
            reference: "Undeclared".to_string()
        })
    );
}

#[test]
fn the_first_failure_ends_the_run() {
    let codegen = all_generators(
        AstCodegen::default()
            .add_file("first.rs")
            .add_file("second.rs")
            .add_file("third.rs")
            .pass(Pass::Linker)
            .pass(Pass::CalcLayout),
    );
    assert_eq!(
        codegen.generate(&vec![
            Ok("struct A {}".to_string()),
            Err("permission denied".to_string()),
            Ok("struct {".to_string()),
        ]),
        Err(CodegenError::Io {
            path: "second.rs".to_string(),
            message: "permission denied".to_string()
        })
    );
    let error = codegen
        .generate(&vec![Ok("struct A {}".to_string()), Ok("struct {".to_string())])
        .unwrap_err();
    assert!(matches!(&error, CodegenError::Parse { path, .. } if path == "second.rs"));
    assert_eq!(
        codegen.generate(&vec![Ok("struct A {}".to_string()), Ok("struct B {}".to_string())]),
        Err(CodegenError::Io { path: "third.rs".to_string(), message: "no content".to_string() })
    );
    assert_eq!(
        codegen.generate(&vec![
            Ok("struct A {}".to_string()),
            Ok("struct B {}".to_string()),
            Ok("struct A {}".to_string()),
        ]),
        Err(CodegenError::DuplicateName { name: "A".to_string() })
    );
    assert_eq!(
        CodegenError::Io { path: "a.rs".to_string(), message: "gone".to_string() }.message(),
        "cannot read a.rs: gone"
    );
    assert_eq!(
        CodegenError::DuplicateName { name: "A".to_string() }.message(),
        "duplicate definition of A"
    );
}

#[test]
fn generate_from_runs_on_loaded_modules() {
    let codegen = AstCodegen::default().pass(Pass::Linker).pass(Pass::CalcLayout).gen(Generator::Visit);
    let result = codegen.generate_from(vec![load(NODES)]).unwrap();
    assert_eq!(result.schema.definitions.len(), 3);
    assert_eq!(result.schema.definitions[1].layout, Some(plain(12, 4)));
    assert_eq!(result.outputs.len(), 1);
    assert_eq!(result.outputs[0].0, "Visit");

    let nothing = AstCodegen::default().generate_from(vec![]).unwrap();
    assert!(nothing.schema.definitions.is_empty());
    assert!(nothing.outputs.is_empty());
}

#[test]
fn dry_run_writes_nothing() {
    let result = full_run(NODES).unwrap();
    let plan = CliOptions { dry_run: true, no_fmt: false, schema: Some("schema.json".to_string()) }
        .plan(&result);
    assert!(plan.writes.is_empty());
    assert!(!plan.format);
    assert_eq!(plan.schema, None);
}

#[test]
fn real_run_writes_streams_then_data() {
    let result = full_run(NODES).unwrap();
    let plan = CliOptions { dry_run: false, no_fmt: false, schema: Some("schema.json".to_string()) }
        .plan(&result);
    let paths = plan.writes.iter().map(|action| action.path.as_str()).collect::<Vec<_>>();
    assert_eq!(
        paths,
        vec![
            "crates/oxc_ast/src/generated/ast_kind.rs",
            "crates/oxc_ast/src/generated/ast_builder.rs",
            "crates/oxc_ast/src/generated/span.rs",
            "crates/oxc_ast/src/generated/visit.rs",
            "crates/oxc_ast/src/generated/visit_mut.rs",
            "crates/oxc_ast/src/generated/layouts.bin",
        ]
    );
    assert_eq!(plan.writes[3].content, stream_text(&result, "Visit").into_bytes());
    assert_eq!(plan.writes[5].content.len(), 72);
    assert!(plan.format);
    assert_eq!(plan.schema, Some("schema.json".to_string()));

    let quiet = CliOptions { dry_run: false, no_fmt: true, schema: None }.plan(&result);
    assert_eq!(quiet.writes, plan.writes);
    assert!(!quiet.format);
    assert_eq!(quiet.schema, None);
}

#[test]
fn streams_become_write_actions() {
    let text = vec![("a.rs".to_string(), "fn a() {} // \u{e9}".to_string())];
    assert_eq!(
        write_generated_streams(&text),
        vec![WriteAction {
            path: "a.rs".to_string(),
            content: "fn a() {} // \u{e9}".as_bytes().to_vec()
        }]
    );
    let data = vec![("a.bin".to_string(), vec![1u8, 2, 3]), ("b.bin".to_string(), vec![])];
    assert_eq!(
        write_data_streams(&data),
        vec![
            WriteAction { path: "a.bin".to_string(), content: vec![1, 2, 3] },
            WriteAction { path: "b.bin".to_string(), content: vec![] },
        ]
    );
    assert!(write_data_streams(&vec![]).is_empty());
}

#[test]
fn generator_output_accessors() {
    let nothing = GeneratorOutput::Nothing;
    assert!(nothing.is_none());
    nothing.expect_none();

    let info = GeneratorOutput::Info(vec![1, 2]);
    assert!(!info.is_none());
    assert_eq!(info.to_info(), &[1, 2]);
    assert_eq!(info.into_info(), vec![1, 2]);

    let data = GeneratorOutput::Data(("a.bin".to_string(), vec![3]));
    assert_eq!(data.to_data(), &("a.bin".to_string(), vec![3]));
    assert_eq!(data.into_data(), ("a.bin".to_string(), vec![3]));

    let stream = GeneratorOutput::Stream(("a.rs".to_string(), "fn a() {}".to_string()));
    assert_eq!(stream.to_stream(), &("a.rs".to_string(), "fn a() {}".to_string()));
    assert_eq!(stream.into_stream(), ("a.rs".to_string(), "fn a() {}".to_string()));
}

#[test]
fn output_paths_lie_under_generated() {
    assert_eq!(output("crates/oxc_ast", "visit.rs"), "crates/oxc_ast/src/generated/visit.rs");
    assert_eq!(output("crates/oxc_ast/", "visit.rs"), "crates/oxc_ast/src/generated/visit.rs");
    assert_eq!(output("/", "visit.rs"), "/src/generated/visit.rs");
    assert_eq!(output("", "visit.rs"), "src/generated/visit.rs");
    assert_eq!(output("", ""), "src/generated/");
    assert_eq!(output("crates/oxc_ast", "/tmp/visit.rs"), "/tmp/visit.rs");
}

#[test]
fn output_paths_are_those_of_pushed_parts() {
    for (krate, path) in [
        ("crates/oxc_ast", "visit.rs"),
        ("crates/oxc_ast/", "visit.rs"),
        ("", "visit.rs"),
        ("", ""),
        ("/", "a/b.rs"),
        ("crates/oxc_ast", "/tmp/visit.rs"),
        ("crates/\u{e9}", "\u{fc}.rs"),
    ] {
        let parts = std::path::PathBuf::from_iter(vec![krate, "src", "generated", path]);
        assert_eq!(Some(output(krate, path).as_str()), parts.to_str());
    }

    let mut base = String::from("a");
    push_part(&mut base, "b");
    assert_eq!(base, "a/b");
    push_part(&mut base, "");
    assert_eq!(base, "a/b/");
    push_part(&mut base, "c");
    assert_eq!(base, "a/b/c");
    push_part(&mut base, "/d");
    assert_eq!(base, "/d");
}

#[test]
fn definition_files_lie_under_crates() {
    assert_eq!(
        files(),
        vec![
            "crates/oxc_ast/src/ast/literal.rs",
            "crates/oxc_ast/src/ast/js.rs",
            "crates/oxc_ast/src/ast/ts.rs",
            "crates/oxc_ast/src/ast/jsx.rs",
            "crates/oxc_syntax/src/number.rs",
            "crates/oxc_syntax/src/operator.rs",
            "crates/oxc_span/src/span/types.rs",
            "crates/oxc_span/src/source_type/types.rs",
        ]
    );
}

#[test]
fn builder_keeps_files_passes_and_generators_in_order() {
    let codegen = files()
        .iter()
        .fold(AstCodegen::default(), |codegen, path| codegen.add_file(path))
        .pass(Pass::Linker)
        .pass(Pass::CalcLayout)
        .gen(Generator::AstKind)
        .gen(Generator::Visit);
    assert_eq!(codegen.files, files());
    assert_eq!(codegen.passes, vec![Pass::Linker, Pass::CalcLayout]);
    assert_eq!(codegen.builders, vec![Generator::AstKind, Generator::Visit]);
}

#[test]
fn leaves_have_fixed_extents() {
    for (name, leaf, size, align) in [
        ("bool", Leaf::Bool, 1, 1),
        ("u8", Leaf::U8, 1, 1),
        ("u16", Leaf::U16, 2, 2),
        ("u32", Leaf::U32, 4, 4),
        ("u64", Leaf::U64, 8, 8),
        ("usize", Leaf::Usize, 8, 8),
        ("i8", Leaf::I8, 1, 1),
        ("i16", Leaf::I16, 2, 2),
        ("i32", Leaf::I32, 4, 4),
        ("i64", Leaf::I64, 8, 8),
        ("isize", Leaf::Isize, 8, 8),
        ("f32", Leaf::Float32, 4, 4),
        ("f64", Leaf::Float64, 8, 8),
        ("char", Leaf::Char, 4, 4),
        ("Atom", Leaf::AtomRef, 16, 8),
    ] {
        assert_eq!(Leaf::from_name(name), Some(leaf));
        assert_eq!(leaf.name(), name);
        assert_eq!(leaf.size(), size);
        assert_eq!(leaf.align(), align);
    }
    assert_eq!(Leaf::from_name("u128"), None);
    assert_eq!(Leaf::from_name(""), None);
    assert_eq!(Container::from_name(&"Option".to_string()), Some(Container::Optional));
    assert_eq!(Container::from_name(&"Box".to_string()), Some(Container::Boxed));
    assert_eq!(Container::from_name(&"Vec".to_string()), Some(Container::Sequence));
    assert_eq!(Container::from_name(&"Rc".to_string()), None);
}
