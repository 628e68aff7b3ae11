use js::resolver::module_normalize;
use std::path::{Component, Path, PathBuf};

/// The same resolution written with the path type of the standard library,
/// whose components on this platform are separated by `/`.
fn with_std_path(base: &str, specifier: &str) -> String {
    if !(specifier.starts_with("./") || specifier.starts_with("../")) {
        return specifier.to_string();
    }
    let joined = Path::new(base)
        .parent()
        .unwrap_or_else(|| Path::new(""))
        .join(specifier);
    let mut parts: Vec<&str> = Vec::new();
    for component in joined.components() {
        match component {
            Component::ParentDir => {
                if let Some(last) = parts.last() {
                    if *last != ".." {
                        parts.pop();
                        continue;
                    }
                }
                parts.push("..");
            }
            Component::CurDir => {}
            Component::Normal(p) => parts.push(p.to_str().unwrap()),
            Component::RootDir => parts.clear(),
            _ => {}
        }
    }
    parts
        .iter()
        .collect::<PathBuf>()
        .to_string_lossy()
        .into_owned()
}

#[test]
fn bare_specifier_is_unchanged() {
    assert_eq!(module_normalize("pages/index.jsx", "lib.js"), "lib.js");
    assert_eq!(module_normalize("pages/index.jsx", "/jsx-runtime"), "/jsx-runtime");
    assert_eq!(module_normalize("a/b.js", "x/../../y"), "x/../../y");
    assert_eq!(module_normalize("a/b.js", ""), "");
    assert_eq!(module_normalize("a/b.js", "."), ".");
    assert_eq!(module_normalize("a/b.js", ".."), "..");
    assert_eq!(module_normalize("a/b.js", ".hidden"), ".hidden");
}

#[test]
fn sibling_of_the_importing_module() {
    assert_eq!(module_normalize("a/b.js", "./c.js"), "a/c.js");
    assert_eq!(module_normalize("b.js", "./c.js"), "c.js");
    assert_eq!(module_normalize("", "./lib.js"), "lib.js");
    assert_eq!(module_normalize("pages/items.jsx", "./parts/row.jsx"), "pages/parts/row.jsx");
}

#[test]
fn parent_steps_take_back_components() {
    assert_eq!(module_normalize("a/b/c.js", "../d.js"), "a/d.js");
    assert_eq!(module_normalize("a/b/c.js", "../../d.js"), "d.js");
    assert_eq!(module_normalize("a/b/c.js", "./x/../y.js"), "a/b/y.js");
    assert_eq!(module_normalize("a/b/c.js", "./x/./y.js"), "a/b/x/y.js");
}

#[test]
fn parent_steps_beyond_the_top_stay_in_front() {
    assert_eq!(module_normalize("a.js", "../b.js"), "../b.js");
    assert_eq!(module_normalize("a/b.js", "../../../c.js"), "../../c.js");
    assert_eq!(module_normalize("a.js", "../../b/../c.js"), "../../c.js");
    assert_eq!(module_normalize("../a.js", "../b.js"), "../../b.js");
}

#[test]
fn root_and_repeated_separators_name_nothing() {
    assert_eq!(module_normalize("/a/b.js", "./c.js"), "a/c.js");
    assert_eq!(module_normalize("/a.js", "./c.js"), "c.js");
    assert_eq!(module_normalize("/", "./c.js"), "c.js");
    assert_eq!(module_normalize("a//b.js", ".//c.js"), "a/c.js");
    assert_eq!(module_normalize("a/b/", "./c.js"), "a/c.js");
    assert_eq!(module_normalize("a/b.js", "./"), "a");
    assert_eq!(module_normalize("a.js", "./"), "");
    assert_eq!(module_normalize("a.js", "../"), "..");
}

#[test]
fn names_that_look_like_dots_are_names() {
    assert_eq!(module_normalize("a/b.js", "./.../c"), "a/.../c");
    assert_eq!(module_normalize("a/b.js", "./..x/c"), "a/..x/c");
    assert_eq!(module_normalize("a/b.js", "./.x/../c"), "a/c");
}

#[test]
fn characters_outside_ascii_pass_through() {
    assert_eq!(module_normalize("säule/b.js", "./ü/../日本.js"), "säule/日本.js");
}

#[test]
fn non_relative_result_is_a_fixed_point() {
    let bases = ["", "a.js", "a/b.js", "/a/b/c.js", "../x.js"];
    let specifiers = ["./c.js", "../c.js", "./a/../b", "lib.js", "/jsx-runtime", "./x/y/z", "../../../q"];
    for base in bases {
        for specifier in specifiers {
            let once = module_normalize(base, specifier);
            if !(once.starts_with("./") || once.starts_with("../")) {
                assert_eq!(module_normalize(base, &once), once);
            }
        }
    }
}

#[test]
fn parent_steps_only_lead_a_resolved_name() {
    let bases = ["", "a.js", "a/b.js", "/a/b/c.js", "../x.js", "a/../../b.js"];
    let specifiers = ["./c.js", "../c.js", "./a/../b", "./x/../../../y", "../../../q", "./a/b/../../../../c/.."];
    for base in bases {
        for specifier in specifiers {
            let name = module_normalize(base, specifier);
            let mut seen_name = false;
            for part in name.split('/') {
                if name.is_empty() {
                    break;
                }
                assert!(!part.is_empty());
                assert_ne!(part, ".");
                if part == ".." {
                    assert!(!seen_name, "{base} + {specifier} -> {name}");
                } else {
                    seen_name = true;
                }
            }
        }
    }
}

#[test]
fn agrees_with_the_standard_path_type() {
    let bases = [
        "", "a", "a.js", "a/b.js", "a/b/c.js", "/", "/a", "/a/b.js", "a//b.js", "a/b/", "./a/b.js",
        "../a.js", "a/./b.js", "a/../b.js", ".", "..", "a/.", "a/..", "//a//b//", "säule/b.js",
    ];
    let specifiers = [
        "./c.js", "../c.js", "./", "../", "./.", "./..", "./a/../b", "./a/./b", ".//c", "./c/",
        "../../c", "../../../c", "./../c", "./x/../../y/../z", "c.js", "", "/abs", "./.../c",
        "./..x", "../..", "./ü/日本.js",
    ];
    for base in bases {
        for specifier in specifiers {
            assert_eq!(
                module_normalize(base, specifier),
                with_std_path(base, specifier),
                "base {base:?}, specifier {specifier:?}"
            );
        }
    }
}
