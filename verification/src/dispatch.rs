//! The top-level command surface and its dispatcher: every parsed command
//! is paired with exactly one action -- one external call (or streamed
//! call sequence) at most, plus the status lines its flags call for.

use crate::container::{
    create, create_request_ok, ContainerAction, ContainerCommand, CreateRequest,
    container_action_calls, container_action_ok, container_implemented,
};
use crate::image::{
    build, handle_image_command, image_action_ok, pull, rmi, BuildArgOptions, BuildRequest,
    ImageAction, ImageCommand, PullRequest, RemoveImageRequest,
};
use crate::remote::{
    remote_action_ok, remote_action_requests, remote_implemented, RemoteAction, RemoteCommand,
};
use vstd::prelude::*;

verus! {

/// The whole command surface: every subcommand the tool accepts, each
/// variant carrying only the fields relevant to it.
#[derive(Debug)]
pub enum DockerCommand {
    /// Run a command in a new container
    Run {
        image: String,
        command: Option<String>,
        arguments: Option<Vec<String>>,
        options: crate::container::RunArgOptions,
    },
    /// List containers
    Ps { all: bool },
    /// List images
    Images { all: bool },
    /// Remove one or more containers
    Rm { container: String, force: bool, link: Option<String>, volumes: Option<String> },
    /// Pull an image or a repository from a registry
    Pull {
        name: String,
        all_tags: bool,
        disable_content_trust: bool,
        platform: Option<String>,
        quiet: bool,
    },
    /// Attach local standard input, output, and error streams to a running container
    Attach { container: String, detach_keys: Option<String>, no_stdin: bool, sig_proxy: bool },
    /// Display system-wide information
    Info,
    /// Manage containers
    Container(ContainerCommand),
    /// Manage images
    Image(ImageCommand),
    /// Build an image from a Dockerfile
    Build { path_or_url: String, options: BuildArgOptions },
    /// Remove one or more images
    Rmi { image: String, force: bool, no_prune: bool },
    /// Run a remote command
    Remote(RemoteCommand),
}

/// The status lines the `rm` flags call for, in print order: the removal
/// announcement, then one line per flag that was supplied.
pub open spec fn rm_notices_spec(
    container: String,
    force: bool,
    link: Option<String>,
    volumes: Option<String>,
) -> Seq<Seq<char>> {
    seq!["Removing container: "@ + container@] + (if force {
        seq!["Forcing container removal"@]
    } else {
        Seq::<Seq<char>>::empty()
    }) + (match volumes {
        Some(v) => seq!["volumes:"@ + v@],
        None => Seq::<Seq<char>>::empty(),
    }) + (match link {
        Some(l) => seq!["link:"@ + l@],
        None => Seq::<Seq<char>>::empty(),
    })
}

/// Builds the `rm` status lines.
pub fn rm_notices(
    container: String,
    force: bool,
    link: Option<String>,
    volumes: Option<String>,
) -> (r: Vec<String>)
    ensures
        r.deep_view() == rm_notices_spec(container, force, link, volumes),
{
    let mut r: Vec<String> = Vec::new();
    r.push(String::from_str("Removing container: ").concat(container.as_str()));
    if force {
        r.push(String::from_str("Forcing container removal"));
    }
    if let Some(v) = &volumes {
        r.push(String::from_str("volumes:").concat(v.as_str()));
    }
    if let Some(l) = &link {
        r.push(String::from_str("link:").concat(l.as_str()));
    }
    proof {
        assert(r.deep_view() =~= rm_notices_spec(container, force, link, volumes));
    }
    r
}

/// The status lines the `pull` flags call for, in print order, one line
/// per flag that asks for one.
pub open spec fn pull_notices_spec(
    all_tags: bool,
    disable_content_trust: bool,
    platform: Option<String>,
    quiet: bool,
) -> Seq<Seq<char>> {
    (if all_tags {
        seq!["Downloading all tags..."@]
    } else {
        Seq::<Seq<char>>::empty()
    }) + (if !disable_content_trust {
        seq!["Image verification enabled..."@]
    } else {
        Seq::<Seq<char>>::empty()
    }) + (match platform {
        Some(p) => seq!["Platform: "@ + p@],
        None => Seq::<Seq<char>>::empty(),
    }) + (if quiet {
        seq!["Running in quiet mode..."@]
    } else {
        Seq::<Seq<char>>::empty()
    })
}

/// Builds the `pull` status lines.
pub fn pull_notices(
    all_tags: bool,
    disable_content_trust: bool,
    platform: Option<String>,
    quiet: bool,
) -> (r: Vec<String>)
    ensures
        r.deep_view() == pull_notices_spec(all_tags, disable_content_trust, platform, quiet),
{
    let mut r: Vec<String> = Vec::new();
    if all_tags {
        r.push(String::from_str("Downloading all tags..."));
    }
    if !disable_content_trust {
        r.push(String::from_str("Image verification enabled..."));
    }
    if let Some(p) = &platform {
        r.push(String::from_str("Platform: ").concat(p.as_str()));
    }
    if quiet {
        r.push(String::from_str("Running in quiet mode..."));
    }
    proof {
        assert(r.deep_view() =~= pull_notices_spec(
            all_tags,
            disable_content_trust,
            platform,
            quiet,
        ));
    }
    r
}

/// The status lines the `attach` flags call for, in print order.  Signal
/// proxying is on by default, so only switching it off is worth a line.
pub open spec fn attach_notices_spec(
    detach_keys: Option<String>,
    no_stdin: bool,
    sig_proxy: bool,
) -> Seq<Seq<char>> {
    (match detach_keys {
        Some(k) => seq!["Detach keys override: "@ + k@],
        None => Seq::<Seq<char>>::empty(),
    }) + (if no_stdin {
        seq!["STDIN will not be attached."@]
    } else {
        Seq::<Seq<char>>::empty()
    }) + (if !sig_proxy {
        seq!["Signal proxying is disabled."@]
    } else {
        Seq::<Seq<char>>::empty()
    })
}

/// Builds the `attach` status lines.
pub fn attach_notices(detach_keys: Option<String>, no_stdin: bool, sig_proxy: bool) -> (r: Vec<String>)
    ensures
        r.deep_view() == attach_notices_spec(detach_keys, no_stdin, sig_proxy),
{
    let mut r: Vec<String> = Vec::new();
    if let Some(k) = &detach_keys {
        r.push(String::from_str("Detach keys override: ").concat(k.as_str()));
    }
    if no_stdin {
        r.push(String::from_str("STDIN will not be attached."));
    }
    if !sig_proxy {
        r.push(String::from_str("Signal proxying is disabled."));
    }
    proof {
        assert(r.deep_view() =~= attach_notices_spec(detach_keys, no_stdin, sig_proxy));
    }
    r
}

/// The status lines the `rmi` flags call for, in print order.
pub open spec fn rmi_notices_spec(force: bool, no_prune: bool) -> Seq<Seq<char>> {
    (if force {
        seq!["Force removal of the image."@]
    } else {
        Seq::<Seq<char>>::empty()
    }) + (if no_prune {
        seq!["Do not delete untagged parents."@]
    } else {
        Seq::<Seq<char>>::empty()
    })
}

/// Builds the `rmi` status lines.
pub fn rmi_notices(force: bool, no_prune: bool) -> (r: Vec<String>)
    ensures
        r.deep_view() == rmi_notices_spec(force, no_prune),
{
    let mut r: Vec<String> = Vec::new();
    if force {
        r.push(String::from_str("Force removal of the image."));
    }
    if no_prune {
        r.push(String::from_str("Do not delete untagged parents."));
    }
    proof {
        assert(r.deep_view() =~= rmi_notices_spec(force, no_prune));
    }
    r
}

/// What dispatching one top-level command amounts to: the announcement it
/// prints, the one external call it makes (if any), and the status lines
/// its flags call for.
#[derive(Debug)]
pub enum Action {
    /// `run`: announce, then make the one engine create call
    RunContainer { notice: String, request: CreateRequest },
    /// `ps`: announce, then make the one engine list call, showing all
    /// containers when the flag asks for it
    ListContainers { notice: String, all: bool },
    /// `images`: announce, then make the one engine list call
    ListImages { notice: String },
    /// `images --all`: the announcement alone; no engine call is made
    ListImagesNotice { notice: String },
    /// `rm`: the status lines alone; no engine call is made
    RemoveContainer { notices: Vec<String> },
    /// `pull`: announce, stream the one pull, then print the flag notices
    PullImage { notice: String, request: PullRequest, notices: Vec<String> },
    /// `attach`: announce, stream the one attach, then print the flag notices
    AttachContainer { notice: String, container: String, notices: Vec<String> },
    /// `info`: the one engine info call
    FetchInfo,
    /// `build`: announce, then stream the one engine build
    BuildImage { notice: String, request: BuildRequest },
    /// `rmi`: the one engine delete call, then the flag notices
    RemoveImage { request: RemoveImageRequest, notices: Vec<String> },
    /// The container group's own dispatch
    Container(ContainerAction),
    /// The image group's own dispatch
    Image(ImageAction),
    /// The remote group's own dispatch
    Remote(RemoteAction),
}

/// How many external calls (single calls or streamed call sequences) an
/// action makes at once: at most one, and none for the pure reports.
pub open spec fn action_calls(a: Action) -> nat {
    match a {
        Action::RunContainer { .. } => 1,
        Action::ListContainers { .. } => 1,
        Action::ListImages { .. } => 1,
        Action::ListImagesNotice { .. } => 0,
        Action::RemoveContainer { .. } => 0,
        Action::PullImage { .. } => 1,
        Action::AttachContainer { .. } => 1,
        Action::FetchInfo => 1,
        Action::BuildImage { .. } => 1,
        Action::RemoveImage { .. } => 1,
        Action::Container(c) => container_action_calls(c),
        Action::Image(_) => 0,
        Action::Remote(r) => remote_action_requests(r),
    }
}

/// The top-level dispatch relation: each command is paired with the one
/// action that handles it, every request field carrying the matching flag.
pub open spec fn dispatch_ok(cmd: DockerCommand, r: Action) -> bool {
    match cmd {
        DockerCommand::Run { image, command, arguments, options } => {
            r matches Action::RunContainer { notice, request } && notice@
                == "Running container with image: "@ + image@ && create_request_ok(
                image,
                command,
                arguments,
                options,
                request,
            )
        },
        DockerCommand::Ps { all } => {
            r matches Action::ListContainers { notice, all: a } && notice@
                == "Listing containers"@ && a == all
        },
        DockerCommand::Images { all } => {
            if all {
                r matches Action::ListImagesNotice { notice } && notice@ == "Listing all images"@
            } else {
                r matches Action::ListImages { notice } && notice@ == "docker images in stock"@
            }
        },
        DockerCommand::Rm { container, force, link, volumes } => {
            r matches Action::RemoveContainer { notices } && notices.deep_view()
                == rm_notices_spec(container, force, link, volumes)
        },
        DockerCommand::Pull { name, all_tags, disable_content_trust, platform, quiet } => {
            r matches Action::PullImage { notice, request, notices } && notice@
                == "Pulling image: "@ + name@ && request.image@ == name@
                && notices.deep_view() == pull_notices_spec(
                all_tags,
                disable_content_trust,
                platform,
                quiet,
            )
        },
        DockerCommand::Attach { container, detach_keys, no_stdin, sig_proxy } => {
            r matches Action::AttachContainer { notice, container: c, notices } && notice@
                == "Attaching to container: "@ + container@ && c == container
                && notices.deep_view() == attach_notices_spec(detach_keys, no_stdin, sig_proxy)
        },
        DockerCommand::Info => r is FetchInfo,
        DockerCommand::Container(c) => {
            r matches Action::Container(a) && container_action_ok(c, a)
        },
        DockerCommand::Image(c) => r matches Action::Image(a) && image_action_ok(c, a),
        DockerCommand::Build { path_or_url, options } => {
            r matches Action::BuildImage { notice, request } && notice@
                == "Building image from path or URL: "@ + path_or_url@ && request.path@
                == path_or_url@ && request.tag == options.tag
        },
        DockerCommand::Rmi { image, force, no_prune } => {
            r matches Action::RemoveImage { request, notices } && request.image == image
                && notices.deep_view() == rmi_notices_spec(force, no_prune)
        },
        DockerCommand::Remote(c) => r matches Action::Remote(a) && remote_action_ok(c, a),
    }
}

/// Pairs one parsed command with the one action that handles it.
pub fn dispatch(cmd: DockerCommand) -> (r: Action)
    ensures
        dispatch_ok(cmd, r),
{
    match cmd {
        DockerCommand::Run { image, command, arguments, options } => {
            let notice = String::from_str("Running container with image: ").concat(
                image.as_str(),
            );
            Action::RunContainer { notice, request: create(image, command, arguments, options) }
        },
        DockerCommand::Ps { all } => {
            Action::ListContainers { notice: String::from_str("Listing containers"), all }
        },
        DockerCommand::Images { all } => {
            if all {
                Action::ListImagesNotice { notice: String::from_str("Listing all images") }
            } else {
                Action::ListImages { notice: String::from_str("docker images in stock") }
            }
        },
        DockerCommand::Rm { container, force, link, volumes } => {
            Action::RemoveContainer { notices: rm_notices(container, force, link, volumes) }
        },
        DockerCommand::Pull { name, all_tags, disable_content_trust, platform, quiet } => {
            let notice = String::from_str("Pulling image: ").concat(name.as_str());
            let request = pull(name.as_str());
            let notices = pull_notices(all_tags, disable_content_trust, platform, quiet);
            Action::PullImage { notice, request, notices }
        },
        DockerCommand::Attach { container, detach_keys, no_stdin, sig_proxy } => {
            let notice = String::from_str("Attaching to container: ").concat(container.as_str());
            let notices = attach_notices(detach_keys, no_stdin, sig_proxy);
            Action::AttachContainer { notice, container, notices }
        },
        DockerCommand::Info => Action::FetchInfo,
        DockerCommand::Container(c) => {
            Action::Container(crate::container::handle_container_command(c))
        },
        DockerCommand::Image(c) => Action::Image(handle_image_command(c)),
        DockerCommand::Build { path_or_url, options } => {
            let notice = String::from_str("Building image from path or URL: ").concat(
                path_or_url.as_str(),
            );
            Action::BuildImage { notice, request: build(path_or_url.as_str(), options) }
        },
        DockerCommand::Rmi { image, force, no_prune } => {
            Action::RemoveImage { request: rmi(image), notices: rmi_notices(force, no_prune) }
        },
        DockerCommand::Remote(c) => Action::Remote(crate::remote::handle_remote_command(c)),
    }
}

/// Whether a command reaches a handler of its own; the others dispatch to
/// the not-implemented notice of their group.
pub open spec fn command_implemented(cmd: DockerCommand) -> bool {
    match cmd {
        DockerCommand::Container(c) => container_implemented(c),
        DockerCommand::Image(_) => false,
        DockerCommand::Remote(c) => remote_implemented(c),
        _ => true,
    }
}

/// Whether an action is a group's not-implemented report, carrying the
/// fixed notice.
pub open spec fn shows_not_implemented(r: Action) -> bool {
    match r {
        Action::Container(ContainerAction::NotImplemented(msg)) => msg@
            == "Command not implemented yet."@,
        Action::Image(ImageAction::NotImplemented(msg)) => msg@
            == "Command not implemented yet."@,
        Action::Remote(RemoteAction::NotImplemented(msg)) => msg@
            == "Command not implemented yet."@,
        _ => false,
    }
}

/// The fixed set of handlers the dispatcher can invoke.  All commands
/// without a handler of their own share the not-implemented report.
pub enum Handler {
    /// The `run` handler
    Run,
    /// The `ps` handler
    Ps,
    /// The `images` listing handler
    Images,
    /// The `images --all` announcement
    ImagesNotice,
    /// The `rm` handler
    Rm,
    /// The `pull` handler
    Pull,
    /// The `attach` handler
    Attach,
    /// The `info` handler
    Info,
    /// The `build` handler
    Build,
    /// The `rmi` handler
    Rmi,
    /// The container group's attach report
    ContainerAttach,
    /// The container group's commit report
    ContainerCommit,
    /// The container group's copy report
    ContainerCopy,
    /// The container group's create handler
    ContainerCreate,
    /// The container group's diff report
    ContainerDiff,
    /// The container group's exec report
    ContainerExec,
    /// The container group's log streaming handler
    ContainerLogs,
    /// The container group's export handler
    ContainerExport,
    /// The remote group's attach report
    RemoteAttach,
    /// The remote group's commit report
    RemoteCommit,
    /// The remote group's copy report
    RemoteCopy,
    /// The remote group's create report
    RemoteCreate,
    /// The remote group's diff report
    RemoteDiff,
    /// The remote group's code execution handler
    RemoteExec,
    /// The remote group's language listing
    RemoteLs,
    /// The shared not-implemented report
    NotImplementedNotice,
}

/// The handler an action is handled by.
pub open spec fn action_handler(a: Action) -> Handler {
    match a {
        Action::RunContainer { .. } => Handler::Run,
        Action::ListContainers { .. } => Handler::Ps,
        Action::ListImages { .. } => Handler::Images,
        Action::ListImagesNotice { .. } => Handler::ImagesNotice,
        Action::RemoveContainer { .. } => Handler::Rm,
        Action::PullImage { .. } => Handler::Pull,
        Action::AttachContainer { .. } => Handler::Attach,
        Action::FetchInfo => Handler::Info,
        Action::BuildImage { .. } => Handler::Build,
        Action::RemoveImage { .. } => Handler::Rmi,
        Action::Container(c) => match c {
            ContainerAction::ReportAttach { .. } => Handler::ContainerAttach,
            ContainerAction::ReportCommit { .. } => Handler::ContainerCommit,
            ContainerAction::ReportCopy { .. } => Handler::ContainerCopy,
            ContainerAction::CreateContainer { .. } => Handler::ContainerCreate,
            ContainerAction::ReportDiff { .. } => Handler::ContainerDiff,
            ContainerAction::ReportExec { .. } => Handler::ContainerExec,
            ContainerAction::StreamLogs { .. } => Handler::ContainerLogs,
            ContainerAction::ExportImage(_) => Handler::ContainerExport,
            ContainerAction::NotImplemented(_) => Handler::NotImplementedNotice,
        },
        Action::Image(_) => Handler::NotImplementedNotice,
        Action::Remote(a) => match a {
            RemoteAction::ReportAttach { .. } => Handler::RemoteAttach,
            RemoteAction::ReportCommit { .. } => Handler::RemoteCommit,
            RemoteAction::ReportCopy { .. } => Handler::RemoteCopy,
            RemoteAction::ReportCreate { .. } => Handler::RemoteCreate,
            RemoteAction::ReportDiff { .. } => Handler::RemoteDiff,
            RemoteAction::Exec(_) => Handler::RemoteExec,
            RemoteAction::ListLanguages(_) => Handler::RemoteLs,
            RemoteAction::NotImplemented(_) => Handler::NotImplementedNotice,
        },
    }
}

/// The handler a command is owed: determined by the command alone.
pub open spec fn command_handler(cmd: DockerCommand) -> Handler {
    match cmd {
        DockerCommand::Run { .. } => Handler::Run,
        DockerCommand::Ps { .. } => Handler::Ps,
        DockerCommand::Images { all } => if all {
            Handler::ImagesNotice
        } else {
            Handler::Images
        },
        DockerCommand::Rm { .. } => Handler::Rm,
        DockerCommand::Pull { .. } => Handler::Pull,
        DockerCommand::Attach { .. } => Handler::Attach,
        DockerCommand::Info => Handler::Info,
        DockerCommand::Build { .. } => Handler::Build,
        DockerCommand::Rmi { .. } => Handler::Rmi,
        DockerCommand::Container(c) => match c {
            ContainerCommand::Attach { .. } => Handler::ContainerAttach,
            ContainerCommand::Commit { .. } => Handler::ContainerCommit,
            ContainerCommand::Cp { .. } => Handler::ContainerCopy,
            ContainerCommand::Create { .. } => Handler::ContainerCreate,
            ContainerCommand::Diff { .. } => Handler::ContainerDiff,
            ContainerCommand::Exec { .. } => Handler::ContainerExec,
            ContainerCommand::Logs { .. } => Handler::ContainerLogs,
            ContainerCommand::Export { .. } => Handler::ContainerExport,
            _ => Handler::NotImplementedNotice,
        },
        DockerCommand::Image(_) => Handler::NotImplementedNotice,
        DockerCommand::Remote(c) => match c {
            RemoteCommand::Attach { .. } => Handler::RemoteAttach,
            RemoteCommand::Commit { .. } => Handler::RemoteCommit,
            RemoteCommand::Cp { .. } => Handler::RemoteCopy,
            RemoteCommand::Create { .. } => Handler::RemoteCreate,
            RemoteCommand::Diff { .. } => Handler::RemoteDiff,
            RemoteCommand::Exec { .. } => Handler::RemoteExec,
            RemoteCommand::Ls => Handler::RemoteLs,
            _ => Handler::NotImplementedNotice,
        },
    }
}

/// Dispatch invokes exactly one handler per command: every action the
/// dispatch relation admits for a command is handled by the one handler
/// the command alone determines.
pub proof fn lemma_dispatch_exactly_one_handler(cmd: DockerCommand, r: Action)
    requires
        dispatch_ok(cmd, r),
    ensures
        action_handler(r) == command_handler(cmd),
{
}

/// A command without a handler of its own dispatches to its group's
/// not-implemented report: the notice is printed and no external call is
/// made.
pub proof fn lemma_not_implemented_quiet(cmd: DockerCommand, r: Action)
    requires
        dispatch_ok(cmd, r),
        !command_implemented(cmd),
    ensures
        shows_not_implemented(r),
        action_calls(r) == 0,
{
}

} // verus!
