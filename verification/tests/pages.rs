use include_dir::{Dir, DirEntry, File};
use js::pages::{discover_pages, page_bundle, page_fallback, page_invoker, page_name, page_names};

fn strings(texts: &[&str]) -> Vec<String> {
    texts.iter().map(|t| t.to_string()).collect()
}

#[test]
fn page_name_is_the_stem_of_a_jsx_file() {
    assert_eq!(page_name("pages/items.jsx"), Some("items".to_string()));
    assert_eq!(page_name("items.jsx"), Some("items".to_string()));
    assert_eq!(page_name("pages/server/root.jsx"), Some("root".to_string()));
    assert_eq!(page_name("pages/a.b.jsx"), Some("a.b".to_string()));
}

#[test]
fn other_files_are_no_pages() {
    assert_eq!(page_name("pages/items.js"), None);
    assert_eq!(page_name("pages/items.tsx"), None);
    assert_eq!(page_name("pages/items"), None);
    assert_eq!(page_name("pages/.jsx"), None);
    assert_eq!(page_name("pages/jsx"), None);
    assert_eq!(page_name("pages/items.jsx.bak"), None);
    assert_eq!(page_name("pages/items.JSX"), None);
    assert_eq!(page_name(""), None);
    assert_eq!(page_name("/"), None);
}

#[test]
fn page_names_keep_file_order() {
    let paths = strings(&["pages/root.jsx", "pages/readme.md", "pages/items.jsx", "pages/lib.js"]);
    assert_eq!(page_names(&paths), strings(&["root", "items"]));
    assert_eq!(page_names(&Vec::new()), Vec::<String>::new());
}

#[test]
fn bundle_imports_every_page_and_binds_the_registry() {
    let names = strings(&["root", "items"]);
    assert_eq!(
        page_bundle("pages", &names),
        "import root from 'pages/root.jsx'\nimport items from 'pages/items.jsx'\nglobalThis.__pages = { root, items };"
    );
}

#[test]
fn bundle_of_one_page() {
    assert_eq!(
        page_bundle("pages/server", &strings(&["items"])),
        "import items from 'pages/server/items.jsx'\nglobalThis.__pages = { items };"
    );
}

#[test]
fn bundle_without_pages_binds_an_empty_registry() {
    assert_eq!(page_bundle("pages", &Vec::new()), "\nglobalThis.__pages = {  };");
}

#[test]
fn invoker_calls_the_page_with_the_arguments() {
    assert_eq!(page_invoker("items"), "globalThis.__pages.items(args);");
}

#[test]
fn fallback_renders_or_reports() {
    assert_eq!(
        page_fallback("items"),
        "globalThis.__pages.items ? globalThis.__pages.items(args) : 'Page \"items\" not found'"
    );
}

#[test]
fn pages_are_discovered_in_the_pages_directory() {
    let nested = [DirEntry::File(File::new("pages/parts/row.jsx", b"export default () => null"))];
    let pages = [
        DirEntry::File(File::new("pages/root.jsx", b"export default () => null")),
        DirEntry::Dir(Dir::new("pages/parts", &nested)),
        DirEntry::File(File::new("pages/notes.txt", b"notes")),
        DirEntry::File(File::new("pages/items.jsx", b"export default () => null")),
    ];
    let entries = [
        DirEntry::File(File::new("lib.jsx", b"export default 1")),
        DirEntry::Dir(Dir::new("pages", &pages)),
    ];
    let tree = Dir::new("", &entries);
    assert_eq!(discover_pages(Some(&tree), "pages"), strings(&["root", "items"]));
    assert_eq!(discover_pages(Some(&tree), "pages/parts"), strings(&["row"]));
}

#[test]
fn no_pages_without_tree_or_directory() {
    let entries = [DirEntry::File(File::new("pages", b"a file, not a directory"))];
    let tree = Dir::new("", &entries);
    assert_eq!(discover_pages(None, "pages"), Vec::<String>::new());
    assert_eq!(discover_pages(Some(&tree), "pages"), Vec::<String>::new());
    assert_eq!(discover_pages(Some(&tree), "views"), Vec::<String>::new());
}
