use js::transpiler::{transpile_jsx, transpile_module, transpile_ts, MediaKind};
use js::Error;

#[test]
fn test_transpile_ts() {
    let source = "export type A = {args; any}; function a(args: A): {res: any} {};";
    assert_eq!(js::transpiler::transpile(source, None).unwrap(), "function a(args) {}\n");
}

#[test]
fn transpile() {
    let source = "export type A = {args; any}; function a(args: A): {res: any} {};";
    assert_eq!(transpile_ts(source).unwrap(), "function a(args) {}\n");
}

#[test]
fn plain_script_comes_back_but_for_trailing_space() {
    let sources = [
        "const a = 1;\nconsole.log(a + 1);\n",
        "function f(x) {\n  return x * 2;\n}\nf(21);\n",
        "args.a + args.b;",
        "let s = \"text\";   \n\n",
    ];
    for source in sources {
        let out = js::transpiler::transpile(source, None).unwrap();
        assert_eq!(out.trim_end(), source.trim_end());
    }
}

#[test]
fn jsx_becomes_calls_of_the_runtime_factory() {
    let out = transpile_jsx("export default (props) => <div>{props.name}</div>;").unwrap();
    assert!(out.contains("from \"/jsx-runtime\""), "{out}");
    assert!(out.contains("_jsx(\"div\""), "{out}");
    assert!(!out.contains("<div>"), "{out}");
}

#[test]
fn tsx_loses_types_and_jsx() {
    let out = transpile_module(
        "export default (props: {name: string}) => <b>{props.name}</b>;",
        MediaKind::Tsx,
    )
    .unwrap();
    assert!(out.contains("from \"/jsx-runtime\""), "{out}");
    assert!(!out.contains("string"), "{out}");
}

#[test]
fn typescript_function_source_keeps_its_last_expression() {
    let source = "declare var args: { a: number; b: number };\nfunction sum(a: number, b: number): number {\n  const res = a + b;\n  return res;\n}\nsum(args.a, args.b);";
    let out = js::transpiler::transpile(source, Some(MediaKind::TypeScript)).unwrap();
    assert!(out.contains("function sum(a, b)"), "{out}");
    assert!(out.trim_end().ends_with("sum(args.a, args.b);"), "{out}");
}

#[test]
fn byte_order_marks_are_dropped() {
    let with = js::transpiler::transpile("\u{feff}\u{feff}let a: number = 1;", None).unwrap();
    let without = js::transpiler::transpile("let a: number = 1;", None).unwrap();
    assert_eq!(with, without);
    assert_eq!(without, "let a = 1;\n");
}

#[test]
fn malformed_source_is_a_parse_error() {
    match js::transpiler::transpile("function (", None) {
        Err(Error::Parse(text)) => assert!(!text.is_empty()),
        other => panic!("{other:?}"),
    }
    match transpile_jsx("export default () => <div>;") {
        Err(Error::Parse(text)) => assert!(!text.is_empty()),
        other => panic!("{other:?}"),
    }
}

#[test]
fn equal_sources_give_equal_text() {
    let source = "enum E { A, B }\nconst x: E = E.A;";
    assert_eq!(js::transpiler::transpile(source, None).unwrap(), js::transpiler::transpile(source, None).unwrap());
}
