//! The container subcommand group: its command surface, the flat flag bag
//! of `run`/`create`, and the dispatcher that pairs each subcommand with
//! the single engine call (or notice) it stands for.

use vstd::prelude::*;

verus! {

/// The flag bag of `run` and `create`.  Every field is optional, is filled
/// by the flag-parsing layer, and is not semantically validated here; the
/// `cpus` count is kept as the decimal text supplied on the command line.
#[derive(Debug)]
pub struct RunArgOptions {
    /// Add a custom host-to-IP mapping (host:ip)
    pub add_host: Option<Vec<String>>,
    /// Attach to STDIN, STDOUT or STDERR
    pub attach: Option<Vec<String>>,
    /// Block IO weight between 10 and 1000, or 0 to disable
    pub blkio_weight: Option<u16>,
    /// Block IO weight for a device
    pub blkio_weight_device: Option<Vec<String>>,
    /// Add Linux capabilities
    pub cap_add: Option<Vec<String>>,
    /// Drop Linux capabilities
    pub cap_drop: Option<Vec<String>>,
    /// Optional parent cgroup for the container
    pub cgroup_parent: Option<String>,
    /// Cgroup namespace to use (host|private)
    pub cgroupns: Option<String>,
    /// Write the container ID to the file
    pub cidfile: Option<String>,
    /// Limit CPU CFS (Completely Fair Scheduler) period
    pub cpu_period: Option<i64>,
    /// Limit CPU CFS quota
    pub cpu_quota: Option<i64>,
    /// Limit CPU real-time period in microseconds
    pub cpu_rt_period: Option<i64>,
    /// Limit CPU real-time runtime in microseconds
    pub cpu_rt_runtime: Option<i64>,
    /// CPU shares (relative weight)
    pub cpu_shares: Option<i64>,
    /// Number of CPUs, as the decimal text supplied on the command line
    pub cpus: Option<String>,
    /// CPUs in which to allow execution (0-3, 0,1)
    pub cpuset_cpus: Option<String>,
    /// MEMs in which to allow execution (0-3, 0,1)
    pub cpuset_mems: Option<String>,
    /// Run container in background and print container ID
    pub detach: bool,
    /// Override the key sequence for detaching a container
    pub detach_keys: Option<String>,
    /// Add a host device to the container
    pub device: Option<Vec<String>>,
    /// Add a rule to the cgroup allowed devices list
    pub device_cgroup_rule: Option<Vec<String>>,
    /// Limit read rate (bytes per second) from a device
    pub device_read_bps: Option<Vec<String>>,
    /// Limit read rate (IO per second) from a device
    pub device_read_iops: Option<Vec<String>>,
    /// Limit write rate (bytes per second) to a device
    pub device_write_bps: Option<Vec<String>>,
    /// Limit write rate (IO per second) to a device
    pub device_write_iops: Option<Vec<String>>,
    /// Skip image verification
    pub disable_content_trust: bool,
    /// Set custom DNS servers
    pub dns: Option<Vec<String>>,
    /// Set DNS options
    pub dns_option: Option<Vec<String>>,
    /// Set custom DNS search domains
    pub dns_search: Option<Vec<String>>,
    /// Container NIS domain name
    pub domainname: Option<String>,
    /// Overwrite the default ENTRYPOINT of the image
    pub entrypoint: Option<String>,
    /// Set environment variables
    pub env: Option<Vec<String>>,
    /// Read in a file of environment variables
    pub env_file: Option<Vec<String>>,
    /// Expose a port or a range of ports
    pub expose: Option<Vec<String>>,
    /// GPU devices to add to the container ('all' to pass all GPUs)
    pub gpus: Option<String>,
    /// Add additional groups to join
    pub group_add: Option<Vec<String>>,
    /// Command to run to check health
    pub health_cmd: Option<String>,
    /// Time between running the check (ms|s|m|h)
    pub health_interval: Option<String>,
    /// Consecutive failures needed to report unhealthy
    pub health_retries: Option<u32>,
    /// Start period for the container to initialize
    pub health_start_period: Option<String>,
    /// Maximum time to allow one check to run (ms|s|m|h)
    pub health_timeout: Option<String>,
    /// Container host name
    pub hostname: Option<String>,
    /// Run an init inside the container
    pub init: bool,
    /// Keep STDIN open even if not attached
    pub interactive: bool,
    /// IPv4 address
    pub ip: Option<String>,
    /// IPv6 address
    pub ip6: Option<String>,
    /// IPC mode to use
    pub ipc: Option<String>,
    /// Container isolation technology
    pub isolation: Option<String>,
    /// Kernel memory limit
    pub kernel_memory: Option<String>,
    /// Set meta data on a container
    pub label: Option<Vec<String>>,
    /// Read in a line delimited file of labels
    pub label_file: Option<Vec<String>>,
    /// Add link to another container
    pub link: Option<Vec<String>>,
    /// Container IPv4/IPv6 link-local addresses
    pub link_local_ip: Option<Vec<String>>,
    /// Logging driver for the container
    pub log_driver: Option<String>,
    /// Log driver options
    pub log_opt: Option<Vec<String>>,
    /// Container MAC address
    pub mac_address: Option<String>,
    /// Memory limit
    pub memory: Option<String>,
    /// Memory soft limit
    pub memory_reservation: Option<String>,
    /// Swap limit equal to memory plus swap: '-1' to enable unlimited swap
    pub memory_swap: Option<String>,
    /// Tune container memory swappiness (0 to 100)
    pub memory_swappiness: Option<i32>,
    /// Attach a filesystem mount to the container
    pub mount: Option<String>,
    /// Assign a name to the container
    pub name: Option<String>,
    /// Connect a container to a network
    pub network: Option<String>,
    /// Add network-scoped alias for the container
    pub network_alias: Option<Vec<String>>,
    /// Disable any container-specified HEALTHCHECK
    pub no_healthcheck: bool,
    /// Disable OOM Killer
    pub oom_kill_disable: bool,
    /// Tune host's OOM preferences (-1000 to 1000)
    pub oom_score_adj: Option<i32>,
    /// PID namespace to use
    pub pid: Option<String>,
    /// Tune container pids limit (-1 for unlimited)
    pub pids_limit: Option<i32>,
    /// Set platform if server is multi-platform capable
    pub platform: Option<String>,
    /// Give extended privileges to this container
    pub privileged: bool,
    /// Publish a container's port(s) to the host
    pub publish: Option<Vec<String>>,
    /// Publish all exposed ports to random ports
    pub publish_all: bool,
    /// Pull image before running
    pub pull: Option<String>,
    /// Mount the container's root filesystem as read only
    pub read_only: bool,
    /// Restart policy to apply when a container exits
    pub restart: Option<String>,
    /// Automatically remove the container when it exits
    pub rm: bool,
    /// Security options
    pub security_opt: Option<Vec<String>>,
    /// Set the container's storage driver options per-mount
    pub storage_opt: Option<Vec<String>>,
    /// Stop signal to use
    pub stop_signal: Option<String>,
    /// Timeout (in seconds) to stop the container
    pub stop_timeout: Option<i32>,
    /// Kernel parameters to set in the container
    pub sysctl: Option<Vec<String>>,
    /// Bind mount a volume
    pub volume: Option<Vec<String>>,
    /// Working directory inside the container
    pub workdir: Option<String>,
}

impl RunArgOptions {
    /// The flag bag of an invocation that supplied no flag at all.
    pub open spec fn spec_unset() -> RunArgOptions {
        RunArgOptions {
            add_host: None,
            attach: None,
            blkio_weight: None,
            blkio_weight_device: None,
            cap_add: None,
            cap_drop: None,
            cgroup_parent: None,
            cgroupns: None,
            cidfile: None,
            cpu_period: None,
            cpu_quota: None,
            cpu_rt_period: None,
            cpu_rt_runtime: None,
            cpu_shares: None,
            cpus: None,
            cpuset_cpus: None,
            cpuset_mems: None,
            detach: false,
            detach_keys: None,
            device: None,
            device_cgroup_rule: None,
            device_read_bps: None,
            device_read_iops: None,
            device_write_bps: None,
            device_write_iops: None,
            disable_content_trust: false,
            dns: None,
            dns_option: None,
            dns_search: None,
            domainname: None,
            entrypoint: None,
            env: None,
            env_file: None,
            expose: None,
            gpus: None,
            group_add: None,
            health_cmd: None,
            health_interval: None,
            health_retries: None,
            health_start_period: None,
            health_timeout: None,
            hostname: None,
            init: false,
            interactive: false,
            ip: None,
            ip6: None,
            ipc: None,
            isolation: None,
            kernel_memory: None,
            label: None,
            label_file: None,
            link: None,
            link_local_ip: None,
            log_driver: None,
            log_opt: None,
            mac_address: None,
            memory: None,
            memory_reservation: None,
            memory_swap: None,
            memory_swappiness: None,
            mount: None,
            name: None,
            network: None,
            network_alias: None,
            no_healthcheck: false,
            oom_kill_disable: false,
            oom_score_adj: None,
            pid: None,
            pids_limit: None,
            platform: None,
            privileged: false,
            publish: None,
            publish_all: false,
            pull: None,
            read_only: false,
            restart: None,
            rm: false,
            security_opt: None,
            storage_opt: None,
            stop_signal: None,
            stop_timeout: None,
            sysctl: None,
            volume: None,
            workdir: None,
        }
    }
}

impl Default for RunArgOptions {
    /// The flag bag before any flag is read: every field unset.
    fn default() -> (r: Self)
        ensures
            r == RunArgOptions::spec_unset(),
    {
        RunArgOptions {
            add_host: None,
            attach: None,
            blkio_weight: None,
            blkio_weight_device: None,
            cap_add: None,
            cap_drop: None,
            cgroup_parent: None,
            cgroupns: None,
            cidfile: None,
            cpu_period: None,
            cpu_quota: None,
            cpu_rt_period: None,
            cpu_rt_runtime: None,
            cpu_shares: None,
            cpus: None,
            cpuset_cpus: None,
            cpuset_mems: None,
            detach: false,
            detach_keys: None,
            device: None,
            device_cgroup_rule: None,
            device_read_bps: None,
            device_read_iops: None,
            device_write_bps: None,
            device_write_iops: None,
            disable_content_trust: false,
            dns: None,
            dns_option: None,
            dns_search: None,
            domainname: None,
            entrypoint: None,
            env: None,
            env_file: None,
            expose: None,
            gpus: None,
            group_add: None,
            health_cmd: None,
            health_interval: None,
            health_retries: None,
            health_start_period: None,
            health_timeout: None,
            hostname: None,
            init: false,
            interactive: false,
            ip: None,
            ip6: None,
            ipc: None,
            isolation: None,
            kernel_memory: None,
            label: None,
            label_file: None,
            link: None,
            link_local_ip: None,
            log_driver: None,
            log_opt: None,
            mac_address: None,
            memory: None,
            memory_reservation: None,
            memory_swap: None,
            memory_swappiness: None,
            mount: None,
            name: None,
            network: None,
            network_alias: None,
            no_healthcheck: false,
            oom_kill_disable: false,
            oom_score_adj: None,
            pid: None,
            pids_limit: None,
            platform: None,
            privileged: false,
            publish: None,
            publish_all: false,
            pull: None,
            read_only: false,
            restart: None,
            rm: false,
            security_opt: None,
            storage_opt: None,
            stop_signal: None,
            stop_timeout: None,
            sysctl: None,
            volume: None,
            workdir: None,
        }
    }
}

/// Container management subcommands, one variant per member of the group,
/// each carrying only the fields relevant to it.
#[derive(Debug)]
pub enum ContainerCommand {
    /// Attach local standard input, output, and error streams to a running container
    Attach { container: String, detach_keys: Option<String>, no_stdin: bool, sig_proxy: bool },
    /// Create a new image from a container's changes
    Commit { container: String, repository: Option<String>, message: Option<String> },
    /// Copy files/folders between a container and the local filesystem
    Cp { src: String, dest: String },
    /// Create a new container
    Create {
        image: String,
        command: Option<String>,
        arguments: Option<Vec<String>>,
        options: RunArgOptions,
    },
    /// Inspect changes to files or directories on a container's filesystem
    Diff { container: String },
    /// Run a command in a running container
    Exec { container: String, command: String },
    /// Export a container's filesystem as a tar archive
    Export { container: String },
    /// Display detailed information on one or more containers
    Inspect { container: String },
    /// Kill one or more running containers
    Kill { container: String },
    /// Fetch the logs of a container
    Logs { container: String },
    /// List containers
    Ls,
    /// Pause all processes within one or more containers
    Pause { container: String },
    /// List port mappings or a specific mapping for the container
    Port { container: String },
    /// Remove all stopped containers
    Prune,
    /// Rename a container
    Rename { container: String, new_name: String },
    /// Restart one or more containers
    Restart { container: String },
    /// Remove one or more containers
    Rm { container: String },
    /// Run a command in a new container
    Run {
        image: String,
        command: Option<String>,
        arguments: Option<Vec<String>>,
        options: RunArgOptions,
    },
    /// Start one or more stopped containers
    Start { container: String },
    /// Display a live stream of container(s) resource usage statistics
    Stats { container: String },
    /// Stop one or more running containers
    Stop { container: String },
    /// Display the running processes of a container
    Top { container: String },
    /// Unpause all processes within one or more containers
    Unpause { container: String },
    /// Update configuration of one or more containers
    Update { container: String },
    /// Block until one or more containers stop, then print their exit codes
    Wait { container: String },
}

/// One container creation request: the image, the command line handed to
/// it, and the option-bag fields the single engine call is made from.
#[derive(Debug)]
pub struct CreateRequest {
    /// Image to run
    pub image: String,
    /// Command to run in the container
    pub command: Option<String>,
    /// Arguments of the command; empty when none were supplied
    pub arguments: Vec<String>,
    /// Name assigned to the container
    pub name: Option<String>,
    /// Working directory inside the container
    pub workdir: Option<String>,
    /// Bind-mounted volumes; empty when none were supplied
    pub volumes: Vec<String>,
    /// Published ports; empty when none were supplied
    pub publish: Vec<String>,
    /// Publish all exposed ports to random ports
    pub publish_all: bool,
}

/// One log-streaming request: which container's logs are asked for, and
/// which capture directions the stream is opened with.
#[derive(Debug)]
pub struct LogsRequest {
    /// Container name or ID whose logs are streamed
    pub container: String,
    /// Capture the container's standard output
    pub stdout: bool,
    /// Capture the container's standard error
    pub stderr: bool,
}

/// One export request: the streamed export of this image's filesystem is
/// written to the named file in the working directory, replacing any
/// pre-existing file of that name.
#[derive(Debug)]
pub struct ExportRequest {
    /// Image ID or name whose filesystem is exported
    pub id: String,
    /// Target file: the ID with the fixed archive suffix appended
    pub file_name: String,
}

/// The relation between the inputs of a `run`/`create` invocation and the
/// request built from them: every request field carries the corresponding
/// flag unchanged, with an absent list flag turning into an empty list.
pub open spec fn create_request_ok(
    image: String,
    command: Option<String>,
    arguments: Option<Vec<String>>,
    options: RunArgOptions,
    r: CreateRequest,
) -> bool {
    &&& r.image == image
    &&& r.command == command
    &&& r.arguments@ == (match arguments {
        Some(a) => a@,
        None => Seq::<String>::empty(),
    })
    &&& r.name == options.name
    &&& r.workdir == options.workdir
    &&& r.volumes@ == (match options.volume {
        Some(v) => v@,
        None => Seq::<String>::empty(),
    })
    &&& r.publish@ == (match options.publish {
        Some(p) => p@,
        None => Seq::<String>::empty(),
    })
    &&& r.publish_all == options.publish_all
}

/// Builds the one creation request of a `run`/`create` invocation from the
/// parsed positionals and the flag bag.
pub fn create(
    image: String,
    command: Option<String>,
    arguments: Option<Vec<String>>,
    options: RunArgOptions,
) -> (r: CreateRequest)
    ensures
        create_request_ok(image, command, arguments, options, r),
{
    let arguments = match arguments {
        Some(a) => a,
        None => Vec::new(),
    };
    let volumes = match options.volume {
        Some(v) => v,
        None => Vec::new(),
    };
    let publish = match options.publish {
        Some(p) => p,
        None => Vec::new(),
    };
    CreateRequest {
        image,
        command,
        arguments,
        name: options.name,
        workdir: options.workdir,
        volumes,
        publish,
        publish_all: options.publish_all,
    }
}

/// Builds the one export request of an `export` invocation: the target
/// file is named after the exported ID with the archive suffix appended.
pub fn export(id: String) -> (r: ExportRequest)
    ensures
        r.id == id,
        r.file_name@ == id@ + ".tar"@,
{
    let file_name = id.clone().concat(".tar");
    ExportRequest { id, file_name }
}

/// Renders a container listing, one line per returned record, in the
/// order the records were returned.
pub fn ps(records: &Vec<String>) -> (lines: Vec<String>)
    ensures
        lines@.len() == records@.len(),
        forall|i: int|
            0 <= i < records@.len() ==> #[trigger] lines@[i]@ == "container -> "@ + records@[i]@,
{
    let mut lines: Vec<String> = Vec::new();
    let mut k: usize = 0;
    while k < records.len()
        invariant
            k <= records@.len(),
            lines@.len() == k,
            forall|i: int| 0 <= i < k ==> #[trigger] lines@[i]@ == "container -> "@ + records@[i]@,
        decreases records@.len() - k,
    {
        let line = String::from_str("container -> ").concat(records[k].as_str());
        lines.push(line);
        k = k + 1;
    }
    lines
}

/// What dispatching one container subcommand amounts to: either one call
/// (or one streamed sequence of calls) against the engine client, or a
/// report printed without any external call.
#[derive(Debug)]
pub enum ContainerAction {
    /// Report an attach placeholder; no external call
    ReportAttach { container: String, detach_keys: Option<String>, no_stdin: bool, sig_proxy: bool },
    /// Report a commit placeholder; no external call
    ReportCommit { container: String, repository: Option<String>, message: Option<String> },
    /// Report a copy placeholder; no external call
    ReportCopy { src: String, dest: String },
    /// Announce, then make the one engine call that creates a container
    CreateContainer { notice: String, request: CreateRequest },
    /// Report a diff placeholder; no external call
    ReportDiff { container: String },
    /// Report an exec placeholder; no external call
    ReportExec { container: String, command: String },
    /// Announce, then stream these logs, rendering chunks as they arrive
    StreamLogs { notice: String, request: LogsRequest },
    /// Stream this export into its target file
    ExportImage(ExportRequest),
    /// Report the fixed not-implemented notice; no external call
    NotImplemented(String),
}

/// How many external calls (single calls or streamed call sequences) an
/// action stands for: exactly one for the engine-backed handlers, none
/// for the reports.
pub open spec fn container_action_calls(r: ContainerAction) -> nat {
    match r {
        ContainerAction::CreateContainer { .. } => 1,
        ContainerAction::StreamLogs { .. } => 1,
        ContainerAction::ExportImage(_) => 1,
        _ => 0,
    }
}

/// The dispatch relation of the container group: each subcommand is paired
/// with the one action that handles it, fields carried over unchanged; a
/// subcommand with no handler is paired with the not-implemented notice.
pub open spec fn container_action_ok(cmd: ContainerCommand, r: ContainerAction) -> bool {
    match cmd {
        ContainerCommand::Attach { container, detach_keys, no_stdin, sig_proxy } => {
            r matches ContainerAction::ReportAttach {
                container: c,
                detach_keys: d,
                no_stdin: n,
                sig_proxy: s,
            } && c == container && d == detach_keys && n == no_stdin && s == sig_proxy
        },
        ContainerCommand::Commit { container, repository, message } => {
            r matches ContainerAction::ReportCommit { container: c, repository: p, message: m }
                && c == container && p == repository && m == message
        },
        ContainerCommand::Cp { src, dest } => {
            r matches ContainerAction::ReportCopy { src: s, dest: d } && s == src && d == dest
        },
        ContainerCommand::Create { image, command, arguments, options } => {
            r matches ContainerAction::CreateContainer { notice, request } && notice@
                == "Running container with image: "@ + image@ && create_request_ok(
                image,
                command,
                arguments,
                options,
                request,
            )
        },
        ContainerCommand::Diff { container } => {
            r matches ContainerAction::ReportDiff { container: c } && c == container
        },
        ContainerCommand::Exec { container, command } => {
            r matches ContainerAction::ReportExec { container: c, command: x } && c == container
                && x == command
        },
        ContainerCommand::Logs { container } => {
            r matches ContainerAction::StreamLogs { notice, request } && notice@
                == "Get logs of container: "@ + container@ && request.container == container
                && request.stdout && request.stderr
        },
        ContainerCommand::Export { container } => {
            r matches ContainerAction::ExportImage(req) && req.id == container && req.file_name@
                == container@ + ".tar"@
        },
        _ => {
            r matches ContainerAction::NotImplemented(msg) && msg@
                == "Command not implemented yet."@
        },
    }
}

/// Whether a container subcommand has a handler of its own; the others
/// dispatch to the not-implemented notice.
pub open spec fn container_implemented(cmd: ContainerCommand) -> bool {
    match cmd {
        ContainerCommand::Attach { .. } => true,
        ContainerCommand::Commit { .. } => true,
        ContainerCommand::Cp { .. } => true,
        ContainerCommand::Create { .. } => true,
        ContainerCommand::Diff { .. } => true,
        ContainerCommand::Exec { .. } => true,
        ContainerCommand::Logs { .. } => true,
        ContainerCommand::Export { .. } => true,
        _ => false,
    }
}

/// Pairs one container subcommand with the one action that handles it.
pub fn handle_container_command(command: ContainerCommand) -> (r: ContainerAction)
    ensures
        container_action_ok(command, r),
{
    match command {
        ContainerCommand::Attach { container, detach_keys, no_stdin, sig_proxy } => {
            ContainerAction::ReportAttach { container, detach_keys, no_stdin, sig_proxy }
        },
        ContainerCommand::Commit { container, repository, message } => {
            ContainerAction::ReportCommit { container, repository, message }
        },
        ContainerCommand::Cp { src, dest } => ContainerAction::ReportCopy { src, dest },
        ContainerCommand::Create { image, command, arguments, options } => {
            let notice = String::from_str("Running container with image: ").concat(
                image.as_str(),
            );
            ContainerAction::CreateContainer {
                notice,
                request: create(image, command, arguments, options),
            }
        },
        ContainerCommand::Diff { container } => ContainerAction::ReportDiff { container },
        ContainerCommand::Exec { container, command } => {
            ContainerAction::ReportExec { container, command }
        },
        ContainerCommand::Logs { container } => {
            let notice = String::from_str("Get logs of container: ").concat(container.as_str());
            ContainerAction::StreamLogs {
                notice,
                request: LogsRequest { container, stdout: true, stderr: true },
            }
        },
        ContainerCommand::Export { container } => ContainerAction::ExportImage(export(container)),
        _ => ContainerAction::NotImplemented(crate::not_implemented_notice()),
    }
}

} // verus!
