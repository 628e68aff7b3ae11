use js::Console;

fn values(texts: &[&str]) -> Vec<String> {
    texts.iter().map(|t| t.to_string()).collect()
}

#[test]
fn new_sink_is_empty() {
    assert_eq!(Console::new().output, "");
}

#[test]
fn one_value_is_one_line() {
    let mut console = Console::new();
    console.log(&values(&["test"]));
    assert_eq!(console.output, "test\n");
}

#[test]
fn values_are_joined_by_comma_and_space() {
    let mut console = Console::new();
    console.log(&values(&["hello", "world"]));
    assert_eq!(console.output, "hello, world\n");
    console.log(&values(&["a", "", "b"]));
    assert_eq!(console.output, "hello, world\na, , b\n");
}

#[test]
fn call_without_values_is_an_empty_line() {
    let mut console = Console::new();
    console.log(&values(&[]));
    assert_eq!(console.output, "\n");
}

#[test]
fn lines_keep_call_order() {
    let mut console = Console::new();
    console.log(&values(&["hello", "world"]));
    console.log(&values(&["!"]));
    console.log(&values(&["a + b = 2"]));
    assert_eq!(console.output, "hello, world\n!\na + b = 2\n");
}

#[test]
fn sinks_do_not_share_lines() {
    let mut first = Console::new();
    let mut second = Console::new();
    first.log(&values(&["hello from first worker, loop forever"]));
    second.log(&values(&["hello from second worker"]));
    first.log(&values(&["again"]));
    assert_eq!(first.output, "hello from first worker, loop forever\nagain\n");
    assert_eq!(second.output, "hello from second worker\n");
    assert_eq!(Console::new().output, "");
}
