use module_map::project::analyze_source;
use module_map::records::ModuleSpecifier;

fn analysis_of(text: &str, path: &str) -> module_map::records::FileAnalysis {
    analyze_source(text, path).expect("parser should build a tree")
}

#[test]
fn named_import_bindings_and_resolution() {
    let a = analysis_of("import { a, b } from \"./x\";\n", "/p/f.js");
    assert_eq!(a.imports.len(), 1);
    assert_eq!(a.imports[0].bindings, vec!["a".to_string(), "b".to_string()]);
    assert_eq!(
        a.imports[0].specifier,
        ModuleSpecifier::Resolved("/p/x".to_string())
    );
}

#[test]
fn default_import_binding() {
    let a = analysis_of("import x from \"./y\";\n", "/p/f.js");
    assert_eq!(a.imports.len(), 1);
    assert_eq!(a.imports[0].bindings, vec!["default".to_string()]);
    assert_eq!(
        a.imports[0].specifier,
        ModuleSpecifier::Resolved("/p/y".to_string())
    );
}

#[test]
fn side_effect_import_binds_nothing() {
    let a = analysis_of("import \"./z\";\n", "/p/f.js");
    assert_eq!(a.imports.len(), 1);
    assert_eq!(a.imports[0].bindings, Vec::<String>::new());
    assert_eq!(
        a.imports[0].specifier,
        ModuleSpecifier::Resolved("/p/z".to_string())
    );
}

#[test]
fn package_specifier_left_unresolved() {
    let a = analysis_of("import { a } from \"lib\";\n", "/p/f.js");
    assert_eq!(a.imports.len(), 1);
    assert_eq!(a.imports[0].bindings, vec!["a".to_string()]);
    assert_eq!(
        a.imports[0].specifier,
        ModuleSpecifier::External("lib".to_string())
    );
}

#[test]
fn single_quoted_specifier() {
    let a = analysis_of("import { a } from './x';\n", "/p/f.js");
    assert_eq!(
        a.imports[0].specifier,
        ModuleSpecifier::Resolved("/p/x".to_string())
    );
}

#[test]
fn export_clause_names() {
    let a = analysis_of("export { a, b };\n", "/p/f.js");
    assert_eq!(a.exports, vec!["a".to_string(), "b".to_string()]);
}

#[test]
fn export_function_name() {
    let a = analysis_of("export function f() {}\n", "/p/f.js");
    assert_eq!(a.exports, vec!["f".to_string()]);
}

#[test]
fn export_const_name() {
    let a = analysis_of("export const x = 1;\n", "/p/f.js");
    assert_eq!(a.exports, vec!["x".to_string()]);
}

#[test]
fn export_default_sentinel() {
    let a = analysis_of("export default 42;\n", "/p/f.js");
    assert_eq!(a.exports, vec!["default".to_string()]);
}

#[test]
fn export_type_alias_name() {
    let a = analysis_of("export type T = {};\n", "/p/f.js");
    assert_eq!(a.exports, vec!["T".to_string()]);
}

#[test]
fn all_export_forms_in_order() {
    let text = "export { a, b };\nexport function f() {}\nexport const x = 1;\nexport default 42;\nexport type T = {};\n";
    let a = analysis_of(text, "/p/f.js");
    assert_eq!(
        a.exports,
        vec![
            "a".to_string(),
            "b".to_string(),
            "f".to_string(),
            "x".to_string(),
            "default".to_string(),
            "T".to_string()
        ]
    );
}

#[test]
fn extraction_is_idempotent() {
    let text = "import { a } from \"./x\";\nexport function f() {}\nexport default 1;\n";
    let a1 = analysis_of(text, "/p/f.js");
    let a2 = analysis_of(text, "/p/f.js");
    assert_eq!(a1, a2);
}

#[test]
fn invalid_statement_does_not_abort_extraction() {
    let text = "import { a } from \"./x\";\n%%%@@@;;;\nexport function f() {}\n";
    let a = analysis_of(text, "/p/f.js");
    assert_eq!(a.imports.len(), 1);
    assert_eq!(a.imports[0].bindings, vec!["a".to_string()]);
    assert_eq!(
        a.imports[0].specifier,
        ModuleSpecifier::Resolved("/p/x".to_string())
    );
    assert_eq!(a.exports, vec!["f".to_string()]);
}

#[test]
fn relative_path_is_normalized_lexically() {
    let a = analysis_of("import { a } from \"./a/../b\";\n", "/p/q/f.js");
    assert_eq!(
        a.imports[0].specifier,
        ModuleSpecifier::Resolved("/p/q/b".to_string())
    );
}

#[test]
fn parent_directory_specifier() {
    let a = analysis_of("import { a } from \"../up\";\n", "/p/q/f.js");
    assert_eq!(
        a.imports[0].specifier,
        ModuleSpecifier::Resolved("/p/up".to_string())
    );
}

#[test]
fn several_imports_keep_source_order() {
    let text = "import { a } from \"./x\";\nimport y from \"./y\";\nimport \"./z\";\n";
    let a = analysis_of(text, "/p/f.js");
    assert_eq!(a.imports.len(), 3);
    assert_eq!(a.imports[0].bindings, vec!["a".to_string()]);
    assert_eq!(a.imports[1].bindings, vec!["default".to_string()]);
    assert_eq!(a.imports[2].bindings, Vec::<String>::new());
}

#[test]
fn file_without_modules_yields_empty_analysis() {
    let a = analysis_of("const local = 1;\nfunction g() { return local; }\n", "/p/f.js");
    assert_eq!(a.imports.len(), 0);
    assert_eq!(a.exports.len(), 0);
}
