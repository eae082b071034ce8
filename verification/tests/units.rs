use module_map::extract::{analyze_tree, extract_import};
use module_map::records::ModuleSpecifier;
use module_map::text::{dir_of, slice_text, str_eq, strip_quotes};
use module_map::tree::{classify, StatementClass, SyntaxNode};

fn node(kind: &str, start: usize, end: usize, children: Vec<SyntaxNode>) -> SyntaxNode {
    SyntaxNode {
        kind: kind.to_string(),
        start,
        end,
        children,
    }
}

#[test]
fn slice_respects_byte_ranges() {
    assert_eq!(slice_text("hello", 1, 4), Some("ell"));
    assert_eq!(slice_text("hello", 0, 0), Some(""));
    assert_eq!(slice_text("hello", 3, 2), None);
    assert_eq!(slice_text("hello", 2, 9), None);
}

#[test]
fn slice_refuses_to_cut_a_character() {
    // 'é' occupies bytes 1..3.
    assert_eq!(slice_text("héllo", 1, 3), Some("é"));
    assert_eq!(slice_text("héllo", 1, 2), None);
    assert_eq!(slice_text("héllo", 2, 3), None);
}

#[test]
fn string_equality_by_contents() {
    assert!(str_eq("import_statement", "import_statement"));
    assert!(!str_eq("import_statement", "export_statement"));
    assert!(!str_eq("abc", "ab"));
    assert!(str_eq("", ""));
}

#[test]
fn quotes_are_stripped_everywhere() {
    assert_eq!(strip_quotes("\"./x\""), "./x".to_string());
    assert_eq!(strip_quotes("'./x'"), "./x".to_string());
    assert_eq!(strip_quotes("no quotes"), "no quotes".to_string());
    assert_eq!(strip_quotes("\"\"''"), "".to_string());
}

#[test]
fn directory_of_a_path() {
    assert_eq!(dir_of("/p/q/f.js"), "/p/q/".to_string());
    assert_eq!(dir_of("f.js"), "".to_string());
    assert_eq!(dir_of("/f.js"), "/".to_string());
}

#[test]
fn import_from_a_hand_built_tree() {
    // import { a } from "./x"  over the text below, with exact byte ranges.
    let text = "import { a } from \"./x\";";
    let spec_a = node("import_specifier", 9, 10, vec![]);
    let named = node("named_imports", 7, 12, vec![spec_a]);
    let clause = node("import_clause", 7, 12, vec![named]);
    let string = node("string", 18, 23, vec![]);
    let stmt = node("import_statement", 0, 24, vec![clause, string]);
    let rec = extract_import(&stmt, text, "/p/").expect("statement holds a specifier");
    assert_eq!(rec.bindings, vec!["a".to_string()]);
    assert_eq!(rec.specifier, ModuleSpecifier::Resolved("/p/x".to_string()));
}

#[test]
fn import_without_specifier_string_is_skipped() {
    let clause = node("import_clause", 7, 12, vec![node("identifier", 7, 8, vec![])]);
    let stmt = node("import_statement", 0, 24, vec![clause]);
    assert!(extract_import(&stmt, "import x from nothing", "/p/").is_none());
}

#[test]
fn node_with_invalid_range_is_omitted() {
    // An export whose name node points past the end of the text contributes
    // nothing; its well-formed sibling is still extracted.
    let text = "export function f() {}";
    let bad_name = node("identifier", 90, 95, vec![]);
    let bad_decl = node("function_declaration", 7, 22, vec![node("function", 7, 15, vec![]), bad_name]);
    let bad_stmt = node("export_statement", 0, 22, vec![bad_decl]);
    let good_name = node("identifier", 16, 17, vec![]);
    let good_decl = node("function_declaration", 7, 22, vec![node("function", 7, 15, vec![]), good_name]);
    let good_stmt = node("export_statement", 0, 22, vec![good_decl]);
    let root = node("program", 0, 22, vec![bad_stmt, good_stmt]);
    let a = analyze_tree(&root, text, "/p/f.js");
    assert_eq!(a.exports, vec!["f".to_string()]);
}

#[test]
fn statements_are_classified_by_kind() {
    let imp = node("import_statement", 0, 0, vec![]);
    let exp = node("export_statement", 0, 0, vec![]);
    let other = node("expression_statement", 0, 0, vec![]);
    assert_eq!(classify(&imp), StatementClass::Import);
    assert_eq!(classify(&exp), StatementClass::Export);
    assert_eq!(classify(&other), StatementClass::Other);
}
