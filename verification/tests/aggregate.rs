use module_map::project::{build_project_map, FileInput};
use module_map::records::ModuleSpecifier;

fn input(path: &str, content: Option<&str>) -> FileInput {
    FileInput {
        path: path.to_string(),
        content: content.map(|c| c.to_string()),
    }
}

#[test]
fn unreadable_files_never_appear_in_the_map() {
    let inputs = vec![
        input("/p/good.js", Some("export const x = 1;\n")),
        input("/p/bad.js", None),
    ];
    let pm = build_project_map(&inputs);
    assert_eq!(pm.entries.len(), 1);
    assert_eq!(pm.entries[0].0, "/p/good.js".to_string());
    assert_eq!(pm.entries[0].1.exports, vec!["x".to_string()]);
}

#[test]
fn every_analyzed_file_contributes_one_entry() {
    let inputs = vec![
        input("/p/a.js", Some("import { f } from \"./b\";\n")),
        input("/p/b.js", Some("export function f() {}\n")),
    ];
    let pm = build_project_map(&inputs);
    assert_eq!(pm.entries.len(), 2);
    assert_eq!(pm.entries[0].0, "/p/a.js".to_string());
    assert_eq!(
        pm.entries[0].1.imports[0].specifier,
        ModuleSpecifier::Resolved("/p/b".to_string())
    );
    assert_eq!(pm.entries[1].0, "/p/b.js".to_string());
    assert_eq!(pm.entries[1].1.exports, vec!["f".to_string()]);
}

#[test]
fn empty_input_yields_empty_map() {
    let pm = build_project_map(&Vec::new());
    assert_eq!(pm.entries.len(), 0);
}

#[test]
fn garbage_content_still_contributes_an_entry() {
    let inputs = vec![input("/p/odd.js", Some("%%% not a module @@@"))];
    let pm = build_project_map(&inputs);
    assert_eq!(pm.entries.len(), 1);
    assert_eq!(pm.entries[0].1.imports.len(), 0);
    assert_eq!(pm.entries[0].1.exports.len(), 0);
}

#[test]
fn lookup_finds_exactly_the_analyzed_files() {
    let inputs = vec![
        input("/p/a.js", Some("export const x = 1;\n")),
        input("/p/bad.js", None),
    ];
    let pm = build_project_map(&inputs);
    assert_eq!(pm.get("/p/a.js").unwrap().exports, vec!["x".to_string()]);
    assert!(pm.get("/p/bad.js").is_none());
    assert!(pm.get("/p/other.js").is_none());
}
