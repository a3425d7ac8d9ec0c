use openlinear_desktop::sidecar::{
    kill_failed, observe, Multiplexer, OutputStream, ProcessEvent, ProcessSlot, SidecarEvent,
    SidecarExit, SidecarOutput, SpawnFailure, EXIT_EVENT, OUTPUT_EVENT,
};
use serde_json::{Number, Value};

fn optional_number(value: Option<i32>) -> Value {
    match value {
        Some(number) => Value::Number(Number::from(number)),
        None => Value::Null,
    }
}

fn output_json(output: &SidecarOutput) -> String {
    let mut fields = serde_json::Map::new();
    fields.insert("stream".to_string(), Value::String(output.stream.name().to_string()));
    fields.insert("data".to_string(), Value::String(output.data.clone()));
    serde_json::to_string(&Value::Object(fields)).expect("Should serialize")
}

fn exit_json(exit: &SidecarExit) -> String {
    let mut fields = serde_json::Map::new();
    fields.insert("code".to_string(), optional_number(exit.code));
    fields.insert("signal".to_string(), optional_number(exit.signal));
    serde_json::to_string(&Value::Object(fields)).expect("Should serialize")
}

fn published_output(event: &ProcessEvent) -> SidecarOutput {
    let step = observe(event);
    assert!(!step.finished);
    match step.publish {
        Some(SidecarEvent::Output(output)) => output,
        _ => panic!("a line of output was expected"),
    }
}

#[test]
fn test_sidecar_output_serialization() {
    let output = SidecarOutput {
        stream: OutputStream::Stdout,
        data: "Server started on port 3001".to_string(),
    };

    let json = output_json(&output);
    assert!(json.contains("\"stream\":\"stdout\""));
    assert!(json.contains("Server started on port 3001"));
}

#[test]
fn test_sidecar_exit_serialization() {
    let exit = SidecarExit { code: Some(0), signal: None };

    let json = exit_json(&exit);
    assert!(json.contains("\"code\":0"));
    assert!(json.contains("\"signal\":null"));
}

#[test]
fn test_sidecar_exit_with_signal() {
    let exit = SidecarExit { code: None, signal: Some(9) };

    let json = exit_json(&exit);
    assert!(json.contains("\"code\":null"));
    assert!(json.contains("\"signal\":9"));
}

#[test]
fn stream_names() {
    assert_eq!(OutputStream::Stdout.name(), "stdout");
    assert_eq!(OutputStream::Stderr.name(), "stderr");
}

#[test]
fn stdout_line_is_published_as_output() {
    let output = published_output(&ProcessEvent::Stdout(b"Server started on port 3001".to_vec()));
    assert_eq!(output.stream, OutputStream::Stdout);
    assert_eq!(output.data, "Server started on port 3001");
}

#[test]
fn stderr_line_is_published_as_output() {
    let output = published_output(&ProcessEvent::Stderr("caf\u{e9}\n".as_bytes().to_vec()));
    assert_eq!(output.stream, OutputStream::Stderr);
    assert_eq!(output.data, "caf\u{e9}\n");
}

#[test]
fn empty_line_is_published() {
    let output = published_output(&ProcessEvent::Stdout(Vec::new()));
    assert_eq!(output.stream, OutputStream::Stdout);
    assert_eq!(output.data, "");
}

#[test]
fn invalid_bytes_are_replaced_not_fatal() {
    let output = published_output(&ProcessEvent::Stdout(vec![b'f', b'o', 0xff, b'o']));
    assert_eq!(output.stream, OutputStream::Stdout);
    assert_eq!(output.data, "fo\u{fffd}o");
    let output = published_output(&ProcessEvent::Stderr(vec![0xc3]));
    assert_eq!(output.stream, OutputStream::Stderr);
    assert_eq!(output.data, "\u{fffd}");
}

#[test]
fn read_error_is_published_on_stderr_and_goes_on() {
    let output = published_output(&ProcessEvent::Error("broken pipe".to_string()));
    assert_eq!(output.stream, OutputStream::Stderr);
    assert_eq!(output.data, "Error: broken pipe");
}

#[test]
fn termination_is_published_once_and_ends_the_run() {
    let step = observe(&ProcessEvent::Terminated { code: Some(0), signal: None });
    assert!(step.finished);
    match step.publish {
        Some(SidecarEvent::Exit(exit)) => {
            assert_eq!(exit, SidecarExit { code: Some(0), signal: None });
        }
        _ => panic!("an exit was expected"),
    }
    let step = observe(&ProcessEvent::Terminated { code: None, signal: Some(9) });
    assert!(step.finished);
    match step.publish {
        Some(SidecarEvent::Exit(exit)) => {
            assert_eq!(exit.code, None);
            assert_eq!(exit.signal, Some(9));
        }
        _ => panic!("an exit was expected"),
    }
}

#[test]
fn other_notifications_are_ignored() {
    let step = observe(&ProcessEvent::Other);
    assert!(!step.finished);
    assert!(step.publish.is_none());
}

#[test]
fn events_are_published_under_their_names() {
    let output = SidecarEvent::Output(SidecarOutput {
        stream: OutputStream::Stdout,
        data: String::new(),
    });
    let exit = SidecarEvent::Exit(SidecarExit { code: Some(1), signal: None });
    assert_eq!(output.name(), "sidecar:output");
    assert_eq!(exit.name(), "sidecar:exit");
    assert_eq!(OUTPUT_EVENT, "sidecar:output");
    assert_eq!(EXIT_EVENT, "sidecar:exit");
}

#[test]
fn start_asks_for_the_api_server() {
    let mut slot: ProcessSlot<u32> = ProcessSlot::new();
    assert!(!slot.is_running());
    let request = slot.request_start("postgres://localhost/app".to_string()).unwrap();
    assert_eq!(request.program, "openlinear-api");
    assert_eq!(
        request.env,
        vec![("DATABASE_URL".to_string(), "postgres://localhost/app".to_string())]
    );
    assert!(matches!(slot, ProcessSlot::Starting));
    slot.spawn_succeeded(7);
    assert!(slot.is_running());
    assert!(matches!(slot, ProcessSlot::Running(7)));
}

#[test]
fn second_start_is_refused() {
    let mut slot: ProcessSlot<u32> = ProcessSlot::new();
    assert!(slot.request_start("db".to_string()).is_ok());
    assert_eq!(
        slot.request_start("db".to_string()).unwrap_err(),
        "API server is already running"
    );
    assert!(matches!(slot, ProcessSlot::Starting));
    slot.spawn_succeeded(1);
    assert_eq!(
        slot.request_start("other".to_string()).unwrap_err(),
        "API server is already running"
    );
    assert!(matches!(slot, ProcessSlot::Running(1)));
}

#[test]
fn stop_without_a_process_is_refused() {
    let mut slot: ProcessSlot<u32> = ProcessSlot::new();
    assert_eq!(slot.request_stop().unwrap_err(), "API server is not running");
    assert!(matches!(slot, ProcessSlot::Idle));
    assert!(slot.request_start("db".to_string()).is_ok());
    assert_eq!(slot.request_stop().unwrap_err(), "API server is not running");
    assert!(matches!(slot, ProcessSlot::Starting));
}

#[test]
fn stop_hands_over_the_handle_and_clears() {
    let mut slot: ProcessSlot<u32> = ProcessSlot::new();
    assert!(slot.request_start("db".to_string()).is_ok());
    slot.spawn_succeeded(42);
    assert_eq!(slot.request_stop(), Ok(42));
    assert!(matches!(slot, ProcessSlot::Idle));
    assert_eq!(slot.request_stop().unwrap_err(), "API server is not running");
    assert!(slot.request_start("db".to_string()).is_ok());
}

#[test]
fn start_succeeds_again_after_exit() {
    let mut slot: ProcessSlot<u32> = ProcessSlot::new();
    assert!(slot.request_start("db".to_string()).is_ok());
    slot.spawn_succeeded(1);
    let step = observe(&ProcessEvent::Terminated { code: Some(0), signal: None });
    assert!(step.finished);
    slot.process_exited();
    assert!(matches!(slot, ProcessSlot::Idle));
    slot.process_exited();
    assert!(matches!(slot, ProcessSlot::Idle));
    assert!(slot.request_start("db".to_string()).is_ok());
}

#[test]
fn exit_seen_while_starting_keeps_the_reservation() {
    let mut slot: ProcessSlot<u32> = ProcessSlot::new();
    assert!(slot.request_start("db".to_string()).is_ok());
    slot.process_exited();
    assert!(matches!(slot, ProcessSlot::Starting));
}

#[test]
fn failed_spawn_frees_the_slot() {
    let mut slot: ProcessSlot<u32> = ProcessSlot::new();
    assert!(slot.request_start("db".to_string()).is_ok());
    assert_eq!(
        slot.spawn_failed(&SpawnFailure::Spawn("No such file or directory".to_string())),
        "Failed to spawn API server: No such file or directory"
    );
    assert!(matches!(slot, ProcessSlot::Idle));
    assert!(slot.request_start("db".to_string()).is_ok());
    assert_eq!(
        slot.spawn_failed(&SpawnFailure::Command("sidecar not configured".to_string())),
        "Failed to create sidecar command: sidecar not configured"
    );
    assert!(matches!(slot, ProcessSlot::Idle));
}

#[test]
fn failed_spawn_leaves_a_running_process_alone() {
    let mut slot: ProcessSlot<u32> = ProcessSlot::new();
    assert!(slot.request_start("db".to_string()).is_ok());
    slot.spawn_succeeded(3);
    assert_eq!(
        slot.spawn_failed(&SpawnFailure::Spawn("late".to_string())),
        "Failed to spawn API server: late"
    );
    assert!(matches!(slot, ProcessSlot::Running(3)));
}

#[test]
fn kill_failure_names_the_cause() {
    assert_eq!(kill_failed("No such process"), "Failed to kill API server: No such process");
}

fn forwarded(events: Vec<ProcessEvent>) -> Vec<String> {
    let mut run = Multiplexer::new();
    let mut seen = Vec::new();
    for event in events {
        match run.forward(&event) {
            Some(SidecarEvent::Output(output)) => {
                seen.push(format!("{}:{}", output.stream.name(), output.data))
            }
            Some(SidecarEvent::Exit(exit)) => {
                seen.push(format!("exit:{:?}:{:?}", exit.code, exit.signal))
            }
            None => {}
        }
    }
    seen
}

#[test]
fn run_is_forwarded_in_order_and_ends_with_the_exit() {
    let seen = forwarded(vec![
        ProcessEvent::Stdout(b"one".to_vec()),
        ProcessEvent::Stderr(b"two".to_vec()),
        ProcessEvent::Other,
        ProcessEvent::Error("three".to_string()),
        ProcessEvent::Stdout(b"four".to_vec()),
        ProcessEvent::Terminated { code: Some(0), signal: None },
    ]);
    assert_eq!(
        seen,
        vec![
            "stdout:one".to_string(),
            "stderr:two".to_string(),
            "stderr:Error: three".to_string(),
            "stdout:four".to_string(),
            "exit:Some(0):None".to_string(),
        ]
    );
}

#[test]
fn nothing_is_forwarded_after_the_exit() {
    let seen = forwarded(vec![
        ProcessEvent::Terminated { code: None, signal: Some(15) },
        ProcessEvent::Stdout(b"late".to_vec()),
        ProcessEvent::Terminated { code: Some(1), signal: None },
        ProcessEvent::Error("late".to_string()),
    ]);
    assert_eq!(seen, vec!["exit:None:Some(15)".to_string()]);
}

#[test]
fn multiplexer_closes_only_on_termination() {
    let mut run = Multiplexer::new();
    assert!(!run.is_closed());
    assert!(run.forward(&ProcessEvent::Error("x".to_string())).is_some());
    assert!(!run.is_closed());
    assert!(run.forward(&ProcessEvent::Other).is_none());
    assert!(!run.is_closed());
    assert!(run.forward(&ProcessEvent::Terminated { code: Some(0), signal: None }).is_some());
    assert!(run.is_closed());
    assert!(run.forward(&ProcessEvent::Stdout(b"x".to_vec())).is_none());
    assert!(run.is_closed());
}

#[test]
fn clean_exit_is_published_once_and_frees_the_slot() {
    let mut slot: ProcessSlot<u32> = ProcessSlot::new();
    assert!(slot.request_start("db".to_string()).is_ok());
    slot.spawn_succeeded(11);

    let mut run = Multiplexer::new();
    let mut exits = Vec::new();
    let notifications = vec![
        ProcessEvent::Stdout(b"listening".to_vec()),
        ProcessEvent::Terminated { code: Some(0), signal: None },
        ProcessEvent::Terminated { code: Some(0), signal: None },
    ];
    for notification in notifications {
        if let Some(SidecarEvent::Exit(exit)) = run.forward(&notification) {
            exits.push(exit);
        }
        if run.is_closed() {
            slot.process_exited();
        }
    }

    assert_eq!(exits, vec![SidecarExit { code: Some(0), signal: None }]);
    assert!(!slot.is_running());
    assert!(slot.request_start("db".to_string()).is_ok());
}

fn variable(name: &str, value: &str) -> (String, String) {
    (name.to_string(), value.to_string())
}

#[test]
fn start_hands_over_every_variable_in_order() {
    let mut slot: ProcessSlot<u32> = ProcessSlot::new();
    let env = vec![
        variable("DATABASE_URL", "postgres://localhost/app"),
        variable("PORT", "3001"),
        variable("LOG_LEVEL", "debug"),
    ];
    let request = slot.request_start_with_env(env.clone()).unwrap();
    assert_eq!(request.program, "openlinear-api");
    assert_eq!(request.env, env);
    assert!(matches!(slot, ProcessSlot::Starting));
}

#[test]
fn start_without_variables_adds_none() {
    let mut slot: ProcessSlot<u32> = ProcessSlot::new();
    let request = slot.request_start_with_env(Vec::new()).unwrap();
    assert_eq!(request.program, "openlinear-api");
    assert!(request.env.is_empty());
}

#[test]
fn start_with_variables_is_refused_while_occupied() {
    let mut slot: ProcessSlot<u32> = ProcessSlot::new();
    assert!(slot.request_start_with_env(vec![variable("A", "1")]).is_ok());
    assert_eq!(
        slot.request_start_with_env(vec![variable("A", "1")]).unwrap_err(),
        "API server is already running"
    );
    slot.spawn_succeeded(2);
    assert_eq!(
        slot.request_start_with_env(Vec::new()).unwrap_err(),
        "API server is already running"
    );
    assert!(matches!(slot, ProcessSlot::Running(2)));
}
