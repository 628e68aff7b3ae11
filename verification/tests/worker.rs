use js::transpiler::MediaKind;
use js::worker::{function_source, start, step, Action, Event, Phase, Stage};
use js::{ContextConfig, Error, RuntimeConfig};

fn run(events: &[Event]) -> (Phase, Vec<Action>) {
    let (mut phase, first) = start();
    let mut actions = vec![first];
    for event in events {
        let (next, action) = step(phase, *event);
        phase = next;
        actions.push(action);
    }
    (phase, actions)
}

#[test]
fn worker_starts_with_the_context() {
    assert_eq!(start(), (Phase::Starting(Stage::Context), Action::Run(Stage::Context)));
}

#[test]
fn stages_run_in_order() {
    let (phase, actions) = run(&[Event::StageDone, Event::StageDone, Event::StageDone]);
    assert_eq!(phase, Phase::Ready);
    assert_eq!(
        actions,
        vec![
            Action::Run(Stage::Context),
            Action::Run(Stage::Functions),
            Action::Run(Stage::Pages),
            Action::Receive
        ]
    );
}

#[test]
fn failed_context_or_functions_end_the_worker() {
    assert_eq!(step(Phase::Starting(Stage::Context), Event::StageFailed), (Phase::Stopped, Action::Exit));
    assert_eq!(step(Phase::Starting(Stage::Functions), Event::StageFailed), (Phase::Stopped, Action::Exit));
}

#[test]
fn failed_pages_do_not_end_the_worker() {
    assert_eq!(step(Phase::Starting(Stage::Pages), Event::StageFailed), (Phase::Ready, Action::Receive));
}

#[test]
fn each_request_is_served_once() {
    let (phase, actions) = run(&[
        Event::StageDone,
        Event::StageDone,
        Event::StageDone,
        Event::Request,
        Event::Replied,
        Event::Request,
        Event::Replied,
        Event::Closed,
    ]);
    assert_eq!(phase, Phase::Stopped);
    let serves = actions.iter().filter(|a| **a == Action::Serve).count();
    assert_eq!(serves, 2);
    assert_eq!(actions.last(), Some(&Action::Exit));
    assert_eq!(step(Phase::Ready, Event::Request), (Phase::Busy, Action::Serve));
    assert_eq!(step(Phase::Busy, Event::Replied), (Phase::Ready, Action::Receive));
    assert_eq!(step(Phase::Ready, Event::Closed), (Phase::Stopped, Action::Exit));
}

#[test]
fn events_out_of_place_change_nothing() {
    assert_eq!(step(Phase::Busy, Event::Request), (Phase::Busy, Action::Serve));
    assert_eq!(step(Phase::Busy, Event::Closed), (Phase::Busy, Action::Serve));
    assert_eq!(step(Phase::Ready, Event::Replied), (Phase::Ready, Action::Receive));
    assert_eq!(step(Phase::Ready, Event::StageFailed), (Phase::Ready, Action::Receive));
    assert_eq!(step(Phase::Stopped, Event::Request), (Phase::Stopped, Action::Exit));
    assert_eq!(
        step(Phase::Starting(Stage::Functions), Event::Request),
        (Phase::Starting(Stage::Functions), Action::Run(Stage::Functions))
    );
}

#[test]
fn plain_function_source_is_compiled_as_it_is() {
    assert_eq!(function_source("sum.js", "args.a+args.b".to_string()), Ok("args.a+args.b".to_string()));
    assert_eq!(function_source("sum", "let a: number".to_string()), Ok("let a: number".to_string()));
    assert_eq!(function_source("view.jsx", "<a/>".to_string()), Ok("<a/>".to_string()));
}

#[test]
fn typescript_function_source_is_transpiled_first() {
    assert_eq!(
        function_source("sum.ts", "const a: number = 1; a".to_string()),
        Ok("const a = 1;\na;\n".to_string())
    );
    let view = function_source("view.tsx", "const v = (n: number) => <b>{n}</b>; v(1)".to_string()).unwrap();
    assert!(view.contains("_jsx(\"b\""), "{view}");
    match function_source("sum.ts", "const = ;".to_string()) {
        Err(Error::Parse(text)) => assert!(!text.is_empty()),
        other => panic!("{other:?}"),
    }
    assert_eq!(
        js::transpiler::transpile("const a: number = 1; a", Some(MediaKind::TypeScript)),
        function_source("sum.ts", "const a: number = 1; a".to_string())
    );
}

#[test]
fn default_settings() {
    let config = RuntimeConfig::default();
    assert_eq!(config.workers, 5);
    assert_eq!(config.functions, Some(std::collections::HashMap::new()));
    assert!(config.js_src.is_none());
    assert_eq!(config.pages_dir, "pages");
    assert!(ContextConfig::default().js_src.is_none());
}
