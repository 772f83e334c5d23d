use rocker::remote::{
    exec, exec_after_read, exec_report, handle_remote_command, ls, plan_exec, read_file_notice,
    render_execution_result, ExecutionResult, RemoteAction, RemoteCommand, RemoteExecStep,
};

#[test]
fn exec_builds_url_and_body() {
    let req = exec("rust", "fn main() {}".to_string());
    assert_eq!(req.url, "https://cpprunner.aiursoft.cn/runner/run?lang=rust");
    assert_eq!(req.body, "fn main() {}");
}

#[test]
fn exec_inline_command_sends_directly() {
    let cmd = RemoteCommand::Exec {
        container: "python".to_string(),
        command: Some("print(1)".to_string()),
        file_path: None,
    };
    match handle_remote_command(cmd) {
        RemoteAction::Exec(RemoteExecStep::Send(req)) => {
            assert_eq!(req.url, "https://cpprunner.aiursoft.cn/runner/run?lang=python");
            assert_eq!(req.body, "print(1)");
        }
        _ => panic!("inline source must go straight to the send step"),
    }
}

#[test]
fn exec_file_path_wins_over_inline_command() {
    let cmd = RemoteCommand::Exec {
        container: "rust".to_string(),
        command: Some("ignored".to_string()),
        file_path: Some("main.rs".to_string()),
    };
    match handle_remote_command(cmd) {
        RemoteAction::Exec(RemoteExecStep::ReadFile { container, path }) => {
            assert_eq!(container, "rust");
            assert_eq!(path, "main.rs");
        }
        _ => panic!("a file path must dispatch to the read step first"),
    }
}

#[test]
fn exec_without_source_reports_missing_input() {
    let cmd = RemoteCommand::Exec {
        container: "rust".to_string(),
        command: None,
        file_path: None,
    };
    match handle_remote_command(cmd) {
        RemoteAction::Exec(RemoteExecStep::MissingInput(msg)) => {
            assert_eq!(msg, "command or code needed!");
        }
        _ => panic!("missing source must dispatch to the missing-input report"),
    }
}

#[test]
fn failed_read_reports_and_sends_nothing() {
    let step = exec_after_read(
        "rust".to_string(),
        Err("no such file: missing.txt".to_string()),
    );
    match step {
        RemoteExecStep::ReadFailed(msg) => assert_eq!(msg, "no such file: missing.txt"),
        _ => panic!("a failed read must end in the read-failure report"),
    }
}

#[test]
fn successful_read_becomes_request_body() {
    let step = exec_after_read("go".to_string(), Ok("package main".to_string()));
    match step {
        RemoteExecStep::Send(req) => {
            assert_eq!(req.url, "https://cpprunner.aiursoft.cn/runner/run?lang=go");
            assert_eq!(req.body, "package main");
        }
        _ => panic!("read content must become the send step's body"),
    }
}

#[test]
fn ls_lists_the_language_table() {
    let table = ls();
    assert_eq!(table.len(), 20);
    assert_eq!(table[0], "C (gcc 9.5.0)");
    assert_eq!(table[3], "C# (.NET 7.0)");
    assert_eq!(table[5], "Rust (1.74.1)");
    assert_eq!(table[8], "Python (CPython 3.11)");
    assert_eq!(table[19], "Lisp (rigetti/lisp)");
}

#[test]
fn remote_ls_dispatches_to_the_table() {
    match handle_remote_command(RemoteCommand::Ls) {
        RemoteAction::ListLanguages(t) => assert_eq!(t, ls()),
        _ => panic!("remote ls must dispatch to the language listing"),
    }
}

#[test]
fn remote_create_reports_image() {
    let cmd = RemoteCommand::Create {
        image: "alpine".to_string(),
        command: None,
        arguments: None,
        options: rocker::remote::RunArgOptions::default(),
    };
    match handle_remote_command(cmd) {
        RemoteAction::ReportCreate { notice, image } => {
            assert_eq!(notice, "Running container with image: alpine");
            assert_eq!(image, "alpine");
        }
        _ => panic!("remote create must dispatch to its report"),
    }
}

#[test]
fn unimplemented_remote_command_reports_notice() {
    match handle_remote_command(RemoteCommand::Wait { container: "c1".to_string() }) {
        RemoteAction::NotImplemented(msg) => assert_eq!(msg, "Command not implemented yet."),
        _ => panic!("an unimplemented subcommand must dispatch to the notice"),
    }
}

#[test]
fn execution_result_renders_three_lines_in_order() {
    let result = ExecutionResult {
        result_code: -3,
        output: "hello".to_string(),
        error: "warning".to_string(),
    };
    let lines = render_execution_result(&result);
    assert_eq!(lines, vec!["-3".to_string(), "hello".to_string(), "warning".to_string()]);
}

#[test]
fn plan_exec_matches_handler_decision() {
    match plan_exec("c".to_string(), None, Some("f.c".to_string())) {
        RemoteExecStep::ReadFile { container, path } => {
            assert_eq!(container, "c");
            assert_eq!(path, "f.c");
        }
        _ => panic!("a file path must dispatch to the read step first"),
    }
}

#[test]
fn decoded_answer_reports_result_lines_then_confirmation() {
    let outcome = Ok(ExecutionResult {
        result_code: 0,
        output: "hello".to_string(),
        error: String::new(),
    });
    let report = exec_report(outcome);
    assert_eq!(
        report.lines,
        vec!["0".to_string(), "hello".to_string(), String::new(), "ok".to_string()]
    );
    assert!(report.failure.is_none());
}

#[test]
fn failed_send_reports_the_error_alone() {
    let report = exec_report(Err("connection refused".to_string()));
    assert!(report.lines.is_empty());
    assert_eq!(report.failure, Some("connection refused".to_string()));
}

#[test]
fn read_notice_names_the_file() {
    assert_eq!(read_file_notice("main.rs"), "executing main.rs in container");
}
