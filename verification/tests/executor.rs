//! The container command executor's decisions, driven the way the runtime
//! loop drives them, against a fake runtime.

use calibre_bot::chunks::{accumulate_chunks, OutputAccumulator};
use calibre_bot::errors::ExecError;
use calibre_bot::exec::{channel_open, resolve_container_id, ExecRequest, StartOutcome};

/// A fake container runtime: it answers inspect with a fixed answer, counts
/// execution-context creations, and echoes each command element back as one
/// output chunk.
struct FakeRuntime {
    inspect_answer: Result<Option<String>, String>,
    create_calls: usize,
    start_outcome: StartOutcome,
}

impl FakeRuntime {
    fn inspect(&self) -> Result<Option<String>, String> {
        self.inspect_answer.clone()
    }

    fn create_exec(&mut self, _req: &ExecRequest) -> String {
        self.create_calls += 1;
        String::from("exec-1")
    }

    fn start_exec(&self) -> StartOutcome {
        self.start_outcome
    }

    fn stream(&self, req: &ExecRequest) -> Vec<String> {
        req.command.clone()
    }
}

/// Drives one execution the way the surrounding process does.
fn run_execute(
    rt: &mut FakeRuntime,
    container_name: &str,
    command: Vec<String>,
) -> Result<String, ExecError> {
    assert!(!command.is_empty());
    let id = resolve_container_id(container_name, rt.inspect())?;
    let req = ExecRequest::new(id, command);
    let _exec_id = rt.create_exec(&req);
    let outcome = rt.start_exec();
    if !channel_open(outcome) {
        panic!("Couldn't attach to container");
    }
    let mut acc = OutputAccumulator::new();
    for chunk in rt.stream(&req) {
        acc.push_chunk(chunk.as_str());
    }
    Ok(acc.into_output())
}

fn echo_runtime() -> FakeRuntime {
    FakeRuntime {
        inspect_answer: Ok(Some(String::from("abc123"))),
        create_calls: 0,
        start_outcome: StartOutcome::Attached,
    }
}

#[test]
fn echoed_chunks_concatenate_in_order() {
    let mut rt = echo_runtime();
    let out = run_execute(
        &mut rt,
        "calibre-web",
        vec![String::from("echo"), String::from("hello "), String::from("world")],
    )
    .unwrap();
    assert_eq!(out, "echohello world");
    assert_eq!(rt.create_calls, 1);
}

#[test]
fn chunk_boundaries_do_not_change_the_output() {
    let one = accumulate_chunks(&vec![String::from("one logical line\n")]);
    let split = accumulate_chunks(&vec![String::from("one logi"), String::from("cal line\n")]);
    assert_eq!(one, split);
    assert_eq!(one, "one logical line\n");
}

#[test]
fn accumulate_of_nothing_is_empty() {
    assert_eq!(accumulate_chunks(&Vec::new()), "");
}

#[test]
fn missing_id_is_container_not_found_and_creates_nothing() {
    let mut rt = echo_runtime();
    rt.inspect_answer = Ok(None);
    let r = run_execute(&mut rt, "calibre-web", vec![String::from("true")]);
    match r {
        Err(ExecError::ContainerNotFound { container_name }) => {
            assert_eq!(container_name, "calibre-web");
        }
        other => panic!("expected ContainerNotFound, got {:?}", other),
    }
    assert_eq!(rt.create_calls, 0);
}

#[test]
fn transport_failure_is_runtime_error() {
    let mut rt = echo_runtime();
    rt.inspect_answer = Err(String::from("socket closed"));
    let r = run_execute(&mut rt, "calibre-web", vec![String::from("true")]);
    match r {
        Err(ExecError::RuntimeError { message }) => assert_eq!(message, "socket closed"),
        other => panic!("expected RuntimeError, got {:?}", other),
    }
    assert_eq!(rt.create_calls, 0);
}

#[test]
fn requests_attach_both_streams() {
    let req = ExecRequest::new(String::from("abc123"), vec![String::from("true")]);
    assert!(req.attach_stdout);
    assert!(req.attach_stderr);
    assert_eq!(req.container_id, "abc123");
    assert_eq!(req.command, vec![String::from("true")]);
}

#[test]
fn detached_start_has_no_channel() {
    assert!(channel_open(StartOutcome::Attached));
    assert!(!channel_open(StartOutcome::Detached));
}
