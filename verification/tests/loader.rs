use include_dir::{Dir, DirEntry, File};
use js::loader::{
    media_kind, module_loader, prepare_module, stored_text, LoadError, JSX_RUNTIME,
    JSX_RUNTIME_SOURCE,
};
use js::transpiler::MediaKind;
use js::Error;

fn with_tree<R>(run: impl FnOnce(&Dir<'_>) -> R) -> R {
    let lib = [
        DirEntry::File(File::new("lib/index.js", b"export const answer = 42;")),
        DirEntry::File(File::new("lib/util.ts", b"export const twice = (n: number): number => n * 2;")),
    ];
    let empty = [DirEntry::File(File::new("empty/readme.md", b"nothing to import"))];
    let pages = [DirEntry::File(File::new(
        "pages/items.jsx",
        b"export default (props) => <ul>{props.items.map((i) => <li>{i}</li>)}</ul>;",
    ))];
    let entries = [
        DirEntry::File(File::new("lib.js", b"globalThis.hello = 'hello';")),
        DirEntry::File(File::new("broken.js", b"let a = '\xff\xfe';")),
        DirEntry::File(File::new("broken.ts", b"let a: = ;")),
        DirEntry::Dir(Dir::new("lib", &lib)),
        DirEntry::Dir(Dir::new("empty", &empty)),
        DirEntry::Dir(Dir::new("pages", &pages)),
    ];
    let tree = Dir::new("", &entries);
    run(&tree)
}

#[test]
fn plain_module_is_loaded_as_stored() {
    with_tree(|tree| {
        assert_eq!(module_loader("lib.js", Some(tree)), Ok("globalThis.hello = 'hello';".to_string()));
    });
}

#[test]
fn runtime_module_needs_no_tree() {
    assert_eq!(JSX_RUNTIME, "/jsx-runtime");
    assert_eq!(module_loader("/jsx-runtime", None), Ok(JSX_RUNTIME_SOURCE.to_string()));
    with_tree(|tree| {
        assert_eq!(module_loader("/jsx-runtime", Some(tree)), Ok(JSX_RUNTIME_SOURCE.to_string()));
    });
    assert!(JSX_RUNTIME_SOURCE.contains("export function jsx("));
    assert!(JSX_RUNTIME_SOURCE.contains("export const jsxs"));
    assert!(JSX_RUNTIME_SOURCE.contains("export function Fragment("));
}

#[test]
fn directory_stands_for_its_index() {
    with_tree(|tree| {
        assert_eq!(module_loader("lib", Some(tree)), Ok("export const answer = 42;".to_string()));
        assert_eq!(stored_text(Some(tree), "lib"), Ok("export const answer = 42;"));
    });
}

#[test]
fn missing_module_is_not_found() {
    with_tree(|tree| {
        assert_eq!(
            module_loader("nowhere.js", Some(tree)),
            Err(LoadError::ModuleNotFound("nowhere.js".to_string()))
        );
        assert_eq!(
            module_loader("empty", Some(tree)),
            Err(LoadError::ModuleNotFound("empty".to_string()))
        );
    });
    assert_eq!(
        module_loader("lib.js", None),
        Err(LoadError::ModuleNotFound("lib.js".to_string()))
    );
}

#[test]
fn bytes_that_are_no_text_are_an_encoding_error() {
    with_tree(|tree| {
        assert_eq!(
            module_loader("broken.js", Some(tree)),
            Err(LoadError::EncodingError("broken.js".to_string()))
        );
    });
}

#[test]
fn modules_are_transpiled_by_their_ending() {
    with_tree(|tree| {
        let page = module_loader("pages/items.jsx", Some(tree)).unwrap();
        assert!(page.contains("from \"/jsx-runtime\""), "{page}");
        assert!(!page.contains("<ul>"), "{page}");
        let util = module_loader("lib/util.ts", Some(tree)).unwrap();
        assert_eq!(util, "export const twice = (n)=>n * 2;\n");
        assert_eq!(
            stored_text(Some(tree), "lib/util.ts"),
            Ok("export const twice = (n: number): number => n * 2;")
        );
    });
}

#[test]
fn transpiler_refusal_is_passed_on() {
    with_tree(|tree| match module_loader("broken.ts", Some(tree)) {
        Err(LoadError::Transpile(Error::Parse(text))) => assert!(!text.is_empty()),
        other => panic!("{other:?}"),
    });
}

#[test]
fn kind_follows_the_ending_of_the_name() {
    assert_eq!(media_kind("pages/items.jsx"), Some(MediaKind::Jsx));
    assert_eq!(media_kind("a.tsx"), Some(MediaKind::Tsx));
    assert_eq!(media_kind("a.ts"), Some(MediaKind::TypeScript));
    assert_eq!(media_kind("a.d.ts"), Some(MediaKind::TypeScript));
    assert_eq!(media_kind("a.js"), None);
    assert_eq!(media_kind("a.ts.js"), None);
    assert_eq!(media_kind("ts"), None);
    assert_eq!(media_kind(""), None);
    assert_eq!(media_kind("/jsx-runtime"), None);
}

#[test]
fn plain_text_is_prepared_unchanged() {
    assert_eq!(prepare_module("a.js", "let a = 1"), Ok("let a = 1".to_string()));
    assert_eq!(prepare_module("a.html", "<p>"), Ok("<p>".to_string()));
    assert_eq!(prepare_module("a.ts", "let a: number = 1"), Ok("let a = 1;\n".to_string()));
}

#[test]
fn failures_say_which_module() {
    assert_eq!(LoadError::ModuleNotFound("a/b.js".to_string()).message(), "Module a/b.js not found");
    assert_eq!(
        LoadError::EncodingError("a/b.js".to_string()).message(),
        "Module a/b.js is not valid UTF-8"
    );
    assert_eq!(LoadError::Transpile(Error::Parse("at 1:1".to_string())).message(), "at 1:1");
    assert_eq!(Error::FunctionNotFound("sum.ts".to_string()).message(), "sum.ts");
    assert_eq!(Error::Execution("boom".to_string()).message(), "boom");
}
