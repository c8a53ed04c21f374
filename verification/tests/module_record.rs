use ast_codegen::module_record::{
    ExportEntry, ExportExportName, ExportImportName, ExportLocalName, ImportImportName,
    ModuleRecord, NameSpan, RequestedModule,
};
use oxc_allocator::Allocator;
use oxc_span::Span;

#[test]
fn import_import_name() {
    let name = NameSpan::new("name".into(), Span::new(0, 0));
    assert!(!ImportImportName::Name(name.clone()).is_default());
    assert!(!ImportImportName::NamespaceObject.is_default());
    assert!(ImportImportName::Default(Span::new(0, 0)).is_default());

    assert!(!ImportImportName::Name(name.clone()).is_namespace_object());
    assert!(ImportImportName::NamespaceObject.is_namespace_object());
    assert!(!ImportImportName::Default(Span::new(0, 0)).is_namespace_object());
}

#[test]
fn export_import_name() {
    let name = NameSpan::new("name".into(), Span::new(0, 0));
    assert!(!ExportExportName::Name(name.clone()).is_default());
    assert!(ExportExportName::Default(Span::new(0, 0)).is_default());
    assert!(!ExportExportName::Null.is_default());

    assert!(!ExportExportName::Name(name).is_null());
    assert!(!ExportExportName::Default(Span::new(0, 0)).is_null());
    assert!(ExportExportName::Null.is_null());
}

#[test]
fn export_local_name() {
    let name = NameSpan::new("name".into(), Span::new(0, 0));
    assert!(!ExportLocalName::Name(name.clone()).is_default());
    assert!(ExportLocalName::Default(name.clone()).is_default());
    assert!(!ExportLocalName::Null.is_default());

    assert!(!ExportLocalName::Name(name.clone()).is_null());
    assert!(!ExportLocalName::Default(name.clone()).is_null());
    assert!(ExportLocalName::Null.is_null());
}

#[test]
fn export_import_name_kinds() {
    let name = NameSpan::new("name".into(), Span::new(1, 5));
    assert!(ExportImportName::All.is_all());
    assert!(!ExportImportName::AllButDefault.is_all());
    assert!(!ExportImportName::Null.is_all());
    assert!(!ExportImportName::Name(name.clone()).is_all());

    assert!(ExportImportName::AllButDefault.is_all_but_default());
    assert!(!ExportImportName::All.is_all_but_default());
    assert!(!ExportImportName::Name(name).is_all_but_default());
    assert!(!ExportImportName::default().is_all_but_default());
}

#[test]
fn export_export_name_span() {
    let name = NameSpan::new("name".into(), Span::new(3, 7));
    assert_eq!(ExportExportName::Name(name).span(), Some(Span::new(3, 7)));
    assert_eq!(ExportExportName::Default(Span::new(9, 16)).span(), Some(Span::new(9, 16)));
    assert_eq!(ExportExportName::Null.span(), None);
}

#[test]
fn export_local_name_name() {
    let name = NameSpan::new("local".into(), Span::new(0, 5));
    assert_eq!(ExportLocalName::Name(name.clone()).name(), Some("local"));
    assert_eq!(ExportLocalName::Default(name).name(), Some("local"));
    assert_eq!(ExportLocalName::Null.name(), None);
}

#[test]
fn requested_module_keeps_what_it_was_made_with() {
    let request = RequestedModule::new(Span::new(2, 9), true, false);
    assert_eq!(request.span(), Span::new(2, 9));
    assert!(request.is_type());
    assert!(!request.is_import());

    let request = RequestedModule::new(Span::new(0, 0), false, true);
    assert!(!request.is_type());
    assert!(request.is_import());
}

#[test]
fn new_module_record_is_empty() {
    let allocator = Allocator::default();
    let record = ModuleRecord::new(&allocator);
    assert!(record.not_esm);
    assert!(record.requested_modules.is_empty());
    assert!(record.import_entries.is_empty());
    assert!(record.local_export_entries.is_empty());
    assert!(record.indirect_export_entries.is_empty());
    assert!(record.star_export_entries.is_empty());
    assert!(record.exported_bindings.is_empty());
    assert!(record.exported_bindings_duplicated.is_empty());
    assert!(record.exported_bindings_from_star_export.is_empty());
    assert_eq!(record.export_default, None);
    assert!(record.export_default_duplicated.is_empty());
}

#[test]
fn module_record_holds_entries() {
    let allocator = Allocator::default();
    let mut record = ModuleRecord::new(&allocator);
    let entry = ExportEntry {
        span: Span::new(0, 10),
        export_name: ExportExportName::Default(Span::new(7, 14)),
        ..ExportEntry::default()
    };
    record.local_export_entries.push(entry.clone());
    record.exported_bindings.insert("default", Span::new(7, 14));
    assert_eq!(record.local_export_entries.len(), 1);
    assert_eq!(record.local_export_entries[0], entry);
    assert_eq!(record.exported_bindings.get("default"), Some(&Span::new(7, 14)));
}
