//! The remote subcommand group: code execution against the remote runner
//! service.  `exec` sends source text to the service and renders its
//! structured result; `ls` is the static table of supported languages.
//!
//! The group's handlers alternate outside work (a file read, one HTTP
//! request) with decisions.  Each decision is a step value produced here;
//! the surrounding program performs the step's outside work and feeds the
//! outcome back into the next decision.

pub use crate::container::RunArgOptions;

use crate::digits::{dec_str_int, i32_dec};
use vstd::prelude::*;

verus! {

/// Remote subcommands, one variant per member of the group.
#[derive(Debug)]
pub enum RemoteCommand {
    /// Attach local standard input, output, and error streams to a running container
    Attach { container: String, detach_keys: Option<String>, no_stdin: bool, sig_proxy: bool },
    /// Create a new image from a container's changes
    Commit { container: String, repository: Option<String>, message: Option<String> },
    /// Copy files/folders between a container and the local filesystem
    Cp { src: String, dest: String },
    /// Create a new container
    Create {
        image: String,
        command: Option<String>,
        arguments: Option<Vec<String>>,
        options: RunArgOptions,
    },
    /// Inspect changes to files or directories on a container's filesystem
    Diff { container: String },
    /// Run source text in the selected language runtime
    Exec { container: String, command: Option<String>, file_path: Option<String> },
    /// Export a container's filesystem as a tar archive
    Export { container: String },
    /// Display detailed information on one or more containers
    Inspect { container: String },
    /// Kill one or more running containers
    Kill { container: String },
    /// Fetch the logs of a container
    Logs { container: String },
    /// List the supported language runtimes
    Ls,
    /// Pause all processes within one or more containers
    Pause { container: String },
    /// List port mappings or a specific mapping for the container
    Port { container: String },
    /// Remove all stopped containers
    Prune,
    /// Rename a container
    Rename { container: String, new_name: String },
    /// Restart one or more containers
    Restart { container: String },
    /// Remove one or more containers
    Rm { container: String },
    /// Run a command in a new container
    Run {
        image: String,
        command: Option<String>,
        arguments: Option<Vec<String>>,
        options: RunArgOptions,
    },
    /// Start one or more stopped containers
    Start { container: String },
    /// Display a live stream of container(s) resource usage statistics
    Stats { container: String },
    /// Stop one or more running containers
    Stop { container: String },
    /// Display the running processes of a container
    Top { container: String },
    /// Unpause all processes within one or more containers
    Unpause { container: String },
    /// Update configuration of one or more containers
    Update { container: String },
    /// Block until one or more containers stop, then print their exit codes
    Wait { container: String },
}

/// One request to the execution service: the endpoint with the selected
/// language runtime, and the source text sent as the raw request body.
#[derive(Debug)]
pub struct ExecutionRequest {
    /// The full request address, language selector included
    pub url: String,
    /// The source text, sent verbatim as plain text
    pub body: String,
}

/// The structured result the execution service answers with.
#[derive(Debug)]
pub struct ExecutionResult {
    /// Numeric result code of the run
    pub result_code: i32,
    /// Captured standard output of the run
    pub output: String,
    /// Captured standard error of the run
    pub error: String,
}

/// The execution service endpoint; the selected runtime is appended.
pub open spec fn exec_endpoint() -> Seq<char> {
    "https://cpprunner.aiursoft.cn/runner/run?lang="@
}

/// The relation between an `exec` invocation's inputs and the one request
/// sent for it: the address selects the given runtime, the body is the
/// source text unchanged.
pub open spec fn exec_request_ok(container: Seq<char>, code: String, r: ExecutionRequest) -> bool {
    &&& r.url@ == exec_endpoint() + container
    &&& r.body == code
}

/// Builds the one request of an `exec` invocation from the selected
/// runtime and the source text.
pub fn exec(container: &str, code: String) -> (r: ExecutionRequest)
    ensures
        exec_request_ok(container@, code, r),
{
    let url = String::from_str("https://cpprunner.aiursoft.cn/runner/run?lang=").concat(container);
    ExecutionRequest { url, body: code }
}

/// One decision of the `exec` handler.  The surrounding program performs
/// the outside work a step names and feeds the outcome back; the steps
/// that carry a message end the handler with a report and no request.
#[derive(Debug)]
pub enum RemoteExecStep {
    /// Read this file; its content becomes the source text
    ReadFile { container: String, path: String },
    /// Issue this one request to the execution service
    Send(ExecutionRequest),
    /// Neither inline source nor a file was given: report, send nothing
    MissingInput(String),
    /// The file could not be read: report its error, send nothing
    ReadFailed(String),
}

/// How many requests to the execution service a step issues: one for a
/// send, none for anything else.
pub open spec fn step_requests(s: RemoteExecStep) -> nat {
    match s {
        RemoteExecStep::Send(_) => 1,
        _ => 0,
    }
}

/// The first decision of the `exec` handler: a given file path wins over
/// inline source; inline source alone is sent directly; with neither, the
/// handler reports that source is needed and issues no request.
pub open spec fn exec_step_ok(
    container: String,
    command: Option<String>,
    file_path: Option<String>,
    r: RemoteExecStep,
) -> bool {
    match file_path {
        Some(p) => {
            r matches RemoteExecStep::ReadFile { container: c, path } && c == container && path
                == p
        },
        None => match command {
            Some(code) => {
                r matches RemoteExecStep::Send(req) && exec_request_ok(container@, code, req)
            },
            None => {
                r matches RemoteExecStep::MissingInput(msg) && msg@ == "command or code needed!"@
            },
        },
    }
}

/// Decides how an `exec` invocation starts.
pub fn plan_exec(container: String, command: Option<String>, file_path: Option<String>) -> (r:
    RemoteExecStep)
    ensures
        exec_step_ok(container, command, file_path, r),
{
    match file_path {
        Some(path) => RemoteExecStep::ReadFile { container, path },
        None => match command {
            Some(code) => RemoteExecStep::Send(exec(container.as_str(), code)),
            None => RemoteExecStep::MissingInput(String::from_str("command or code needed!")),
        },
    }
}

/// How the `exec` handler goes on once the file read came back: content
/// that was read becomes the one request's body; a failed read becomes a
/// report carrying the read error, and no request is issued.
pub open spec fn exec_after_read_ok(
    container: String,
    read: Result<String, String>,
    r: RemoteExecStep,
) -> bool {
    match read {
        Ok(code) => {
            r matches RemoteExecStep::Send(req) && exec_request_ok(container@, code, req)
        },
        Err(e) => r matches RemoteExecStep::ReadFailed(msg) && msg == e,
    }
}

/// Decides how the `exec` handler goes on once the file read came back.
pub fn exec_after_read(container: String, read: Result<String, String>) -> (r: RemoteExecStep)
    ensures
        exec_after_read_ok(container, read, r),
{
    match read {
        Ok(code) => RemoteExecStep::Send(exec(container.as_str(), code)),
        Err(e) => RemoteExecStep::ReadFailed(e),
    }
}

/// What is printed for one execution service answer: the result code in
/// decimal, then the captured output, then the captured error, each on a
/// line of its own and in this order.
pub open spec fn execution_result_lines(result: ExecutionResult) -> Seq<Seq<char>> {
    seq![dec_str_int(result.result_code as int), result.output@, result.error@]
}

/// Renders one execution service answer into its three report lines.
pub fn render_execution_result(result: &ExecutionResult) -> (lines: Vec<String>)
    ensures
        lines.deep_view() == execution_result_lines(*result),
{
    let mut lines: Vec<String> = Vec::new();
    lines.push(i32_dec(result.result_code));
    lines.push(result.output.clone());
    lines.push(result.error.clone());
    proof {
        assert(lines.deep_view() =~= execution_result_lines(*result));
    }
    lines
}

/// The handler's report once the send came back: what lands on the output
/// stream, and what lands on the error stream.
#[derive(Debug)]
pub struct ExecReport {
    /// Lines printed on the output stream, in order
    pub lines: Vec<String>,
    /// The failure printed on the error stream, when the send or the
    /// decoding of the answer failed
    pub failure: Option<String>,
}

/// The reporting relation of one send outcome: a decoded answer becomes
/// its three result lines followed by the confirmation line, and nothing
/// on the error stream; a failed send or undecodable answer becomes the
/// error alone, with nothing on the output stream.
pub open spec fn exec_report_ok(outcome: Result<ExecutionResult, String>, r: ExecReport) -> bool {
    match outcome {
        Ok(result) => {
            &&& r.lines.deep_view() == execution_result_lines(result).push("ok"@)
            &&& r.failure is None
        },
        Err(e) => {
            &&& r.lines@.len() == 0
            &&& r.failure == Some(e)
        },
    }
}

/// Renders the handler's report for one send outcome.
pub fn exec_report(outcome: Result<ExecutionResult, String>) -> (r: ExecReport)
    ensures
        exec_report_ok(outcome, r),
{
    match outcome {
        Ok(result) => {
            let mut lines = render_execution_result(&result);
            lines.push(String::from_str("ok"));
            proof {
                assert(lines.deep_view() =~= execution_result_lines(result).push("ok"@));
            }
            ExecReport { lines, failure: None }
        },
        Err(e) => ExecReport { lines: Vec::new(), failure: Some(e) },
    }
}

/// The status line printed once the file named by an `exec` invocation was
/// read, before its content is sent.
pub fn read_file_notice(path: &str) -> (r: String)
    ensures
        r@ == "executing "@ + path@ + " in container"@,
{
    String::from_str("executing ").concat(path).concat(" in container")
}

/// The static table of language runtimes the execution service offers.
/// It is a fixed compile-time table, not a live catalog query.
pub open spec fn language_table() -> Seq<Seq<char>> {
    seq![
        "C (gcc 9.5.0)"@,
        "C++ (GNU G++, stdc++20)"@,
        "CUDA 11.6 (on Ubuntu 20.04)"@,
        "C# (.NET 7.0)"@,
        "Go (Golang 1.21.5)"@,
        "Rust (1.74.1)"@,
        "Javascript (Node.js v21)"@,
        "TypeScript (4.9.3, node 16.8.1)"@,
        "Python (CPython 3.11)"@,
        "Python with PyTorch (Pytorch 2.3.0; cuda 11.8; cudnn 8)"@,
        "Bash (on Ubuntu 24.04)"@,
        "PowerShell Core (Ubuntu 22.04)"@,
        "Swift (5.8.1)"@,
        "Java (OpenJDK 23)"@,
        "Ruby (3.2.2)"@,
        "PHP (8.3.0)"@,
        "Perl (5.39.5)"@,
        "Lua (5.4)"@,
        "Haskell (GHC 9.8.1)"@,
        "Lisp (rigetti/lisp)"@,
    ]
}

/// The `ls` listing: one line per supported language runtime, in table
/// order.
pub fn ls() -> (r: Vec<String>)
    ensures
        r.deep_view() == language_table(),
{
    let mut v: Vec<String> = Vec::new();
    v.push(String::from_str("C (gcc 9.5.0)"));
    v.push(String::from_str("C++ (GNU G++, stdc++20)"));
    v.push(String::from_str("CUDA 11.6 (on Ubuntu 20.04)"));
    v.push(String::from_str("C# (.NET 7.0)"));
    v.push(String::from_str("Go (Golang 1.21.5)"));
    v.push(String::from_str("Rust (1.74.1)"));
    v.push(String::from_str("Javascript (Node.js v21)"));
    v.push(String::from_str("TypeScript (4.9.3, node 16.8.1)"));
    v.push(String::from_str("Python (CPython 3.11)"));
    v.push(String::from_str("Python with PyTorch (Pytorch 2.3.0; cuda 11.8; cudnn 8)"));
    v.push(String::from_str("Bash (on Ubuntu 24.04)"));
    v.push(String::from_str("PowerShell Core (Ubuntu 22.04)"));
    v.push(String::from_str("Swift (5.8.1)"));
    v.push(String::from_str("Java (OpenJDK 23)"));
    v.push(String::from_str("Ruby (3.2.2)"));
    v.push(String::from_str("PHP (8.3.0)"));
    v.push(String::from_str("Perl (5.39.5)"));
    v.push(String::from_str("Lua (5.4)"));
    v.push(String::from_str("Haskell (GHC 9.8.1)"));
    v.push(String::from_str("Lisp (rigetti/lisp)"));
    proof {
        assert(v.deep_view() =~= language_table());
    }
    v
}

/// What dispatching one remote subcommand amounts to: the first step of
/// the `exec` handler, the static language listing, a report printed
/// without any outside work, or the not-implemented notice.
#[derive(Debug)]
pub enum RemoteAction {
    /// Report an attach placeholder; no external call
    ReportAttach { container: String, detach_keys: Option<String>, no_stdin: bool, sig_proxy: bool },
    /// Report a commit placeholder; no external call
    ReportCommit { container: String, repository: Option<String>, message: Option<String> },
    /// Report a copy placeholder; no external call
    ReportCopy { src: String, dest: String },
    /// Report a create placeholder by its announcement; no external call
    ReportCreate { notice: String, image: String },
    /// Report a diff placeholder; no external call
    ReportDiff { container: String },
    /// Run the `exec` handler, starting with this step
    Exec(RemoteExecStep),
    /// Print this language listing; no external call
    ListLanguages(Vec<String>),
    /// Report the fixed not-implemented notice; no external call
    NotImplemented(String),
}

/// How many requests to the execution service an action issues at once:
/// only an immediate send counts; every other action issues none before
/// the next decision.
pub open spec fn remote_action_requests(r: RemoteAction) -> nat {
    match r {
        RemoteAction::Exec(step) => step_requests(step),
        _ => 0,
    }
}

/// The dispatch relation of the remote group: each subcommand is paired
/// with the one action that handles it, fields carried over unchanged; a
/// subcommand with no handler is paired with the not-implemented notice.
pub open spec fn remote_action_ok(cmd: RemoteCommand, r: RemoteAction) -> bool {
    match cmd {
        RemoteCommand::Attach { container, detach_keys, no_stdin, sig_proxy } => {
            r matches RemoteAction::ReportAttach {
                container: c,
                detach_keys: d,
                no_stdin: n,
                sig_proxy: s,
            } && c == container && d == detach_keys && n == no_stdin && s == sig_proxy
        },
        RemoteCommand::Commit { container, repository, message } => {
            r matches RemoteAction::ReportCommit { container: c, repository: p, message: m }
                && c == container && p == repository && m == message
        },
        RemoteCommand::Cp { src, dest } => {
            r matches RemoteAction::ReportCopy { src: s, dest: d } && s == src && d == dest
        },
        RemoteCommand::Create { image, command, arguments, options } => {
            r matches RemoteAction::ReportCreate { notice, image: i } && notice@
                == "Running container with image: "@ + image@ && i == image
        },
        RemoteCommand::Diff { container } => {
            r matches RemoteAction::ReportDiff { container: c } && c == container
        },
        RemoteCommand::Exec { container, command, file_path } => {
            r matches RemoteAction::Exec(step) && exec_step_ok(container, command, file_path, step)
        },
        RemoteCommand::Ls => {
            r matches RemoteAction::ListLanguages(t) && t.deep_view() == language_table()
        },
        _ => {
            r matches RemoteAction::NotImplemented(msg) && msg@
                == "Command not implemented yet."@
        },
    }
}

/// Whether a remote subcommand has a handler of its own; the others
/// dispatch to the not-implemented notice.
pub open spec fn remote_implemented(cmd: RemoteCommand) -> bool {
    match cmd {
        RemoteCommand::Attach { .. } => true,
        RemoteCommand::Commit { .. } => true,
        RemoteCommand::Cp { .. } => true,
        RemoteCommand::Create { .. } => true,
        RemoteCommand::Diff { .. } => true,
        RemoteCommand::Exec { .. } => true,
        RemoteCommand::Ls => true,
        _ => false,
    }
}

/// Pairs one remote subcommand with the one action that handles it.
pub fn handle_remote_command(command: RemoteCommand) -> (r: RemoteAction)
    ensures
        remote_action_ok(command, r),
{
    match command {
        RemoteCommand::Attach { container, detach_keys, no_stdin, sig_proxy } => {
            RemoteAction::ReportAttach { container, detach_keys, no_stdin, sig_proxy }
        },
        RemoteCommand::Commit { container, repository, message } => {
            RemoteAction::ReportCommit { container, repository, message }
        },
        RemoteCommand::Cp { src, dest } => RemoteAction::ReportCopy { src, dest },
        RemoteCommand::Create { image, command: _, arguments: _, options: _ } => {
            let notice = String::from_str("Running container with image: ").concat(
                image.as_str(),
            );
            RemoteAction::ReportCreate { notice, image }
        },
        RemoteCommand::Diff { container } => RemoteAction::ReportDiff { container },
        RemoteCommand::Exec { container, command, file_path } => {
            RemoteAction::Exec(plan_exec(container, command, file_path))
        },
        RemoteCommand::Ls => RemoteAction::ListLanguages(ls()),
        _ => RemoteAction::NotImplemented(crate::not_implemented_notice()),
    }
}

/// An `exec` invocation with neither inline source nor a file path is
/// dispatched to the missing-input report and issues no request.
pub proof fn lemma_exec_needs_input(container: String, r: RemoteAction)
    requires
        remote_action_ok(
            RemoteCommand::Exec { container, command: None, file_path: None },
            r,
        ),
    ensures
        r matches RemoteAction::Exec(step) && step matches RemoteExecStep::MissingInput(msg)
            && msg@ == "command or code needed!"@,
        remote_action_requests(r) == 0,
{
}

/// An `exec` invocation with a file path first asks for the file alone --
/// that step issues no request -- and a failed read then ends the handler
/// with a report of the read error: no request ever reaches the execution
/// service on that path.
pub proof fn lemma_exec_read_failure_sends_nothing(
    container: String,
    command: Option<String>,
    path: String,
    e: String,
    first: RemoteExecStep,
    then: RemoteExecStep,
)
    requires
        exec_step_ok(container, command, Some(path), first),
        exec_after_read_ok(container, Err(e), then),
    ensures
        step_requests(first) == 0,
        then matches RemoteExecStep::ReadFailed(msg) && msg == e,
        step_requests(then) == 0,
{
}

} // verus!
