use rocker::container::{ContainerAction, ContainerCommand, RunArgOptions};
use rocker::dispatch::{dispatch, Action, DockerCommand};
use rocker::image::{ImageAction, ImageCommand};
use rocker::not_implemented_notice;

#[test]
fn run_maps_flags_onto_request() {
    let mut options = RunArgOptions::default();
    options.name = Some("foo".to_string());
    options.publish = Some(vec!["80:80".to_string()]);
    let cmd = DockerCommand::Run {
        image: "alpine".to_string(),
        command: Some("echo".to_string()),
        arguments: Some(vec!["hi".to_string()]),
        options,
    };
    match dispatch(cmd) {
        Action::RunContainer { notice, request } => {
            assert_eq!(notice, "Running container with image: alpine");
            assert_eq!(request.image, "alpine");
            assert_eq!(request.command, Some("echo".to_string()));
            assert_eq!(request.arguments, vec!["hi".to_string()]);
            assert_eq!(request.name, Some("foo".to_string()));
            assert_eq!(request.publish, vec!["80:80".to_string()]);
            assert_eq!(request.workdir, None);
            assert!(request.volumes.is_empty());
            assert!(!request.publish_all);
        }
        _ => panic!("run must dispatch to the create handler"),
    }
}

#[test]
fn run_defaults_absent_lists_to_empty() {
    let cmd = DockerCommand::Run {
        image: "alpine".to_string(),
        command: None,
        arguments: None,
        options: RunArgOptions::default(),
    };
    match dispatch(cmd) {
        Action::RunContainer { request, .. } => {
            assert_eq!(request.command, None);
            assert!(request.arguments.is_empty());
            assert!(request.volumes.is_empty());
            assert!(request.publish.is_empty());
        }
        _ => panic!("run must dispatch to the create handler"),
    }
}

#[test]
fn ps_lists_containers_and_carries_the_all_flag() {
    match dispatch(DockerCommand::Ps { all: true }) {
        Action::ListContainers { notice, all } => {
            assert_eq!(notice, "Listing containers");
            assert!(all);
        }
        _ => panic!("ps must dispatch to the listing handler"),
    }
    match dispatch(DockerCommand::Ps { all: false }) {
        Action::ListContainers { all, .. } => assert!(!all),
        _ => panic!("ps must dispatch to the listing handler"),
    }
}

#[test]
fn images_all_prints_notice_only() {
    match dispatch(DockerCommand::Images { all: true }) {
        Action::ListImagesNotice { notice } => assert_eq!(notice, "Listing all images"),
        _ => panic!("images --all must dispatch to the announcement alone"),
    }
    match dispatch(DockerCommand::Images { all: false }) {
        Action::ListImages { notice } => assert_eq!(notice, "docker images in stock"),
        _ => panic!("images must dispatch to the listing handler"),
    }
}

#[test]
fn rm_collects_flag_notices() {
    let cmd = DockerCommand::Rm {
        container: "c1".to_string(),
        force: true,
        link: Some("l1".to_string()),
        volumes: None,
    };
    match dispatch(cmd) {
        Action::RemoveContainer { notices } => {
            assert_eq!(
                notices,
                vec![
                    "Removing container: c1".to_string(),
                    "Forcing container removal".to_string(),
                    "link:l1".to_string(),
                ]
            );
        }
        _ => panic!("rm must dispatch to its notices"),
    }
}

#[test]
fn pull_forwards_name_and_collects_notices() {
    let cmd = DockerCommand::Pull {
        name: "alpine".to_string(),
        all_tags: true,
        disable_content_trust: false,
        platform: Some("linux/arm64".to_string()),
        quiet: true,
    };
    match dispatch(cmd) {
        Action::PullImage { notice, request, notices } => {
            assert_eq!(notice, "Pulling image: alpine");
            assert_eq!(request.image, "alpine");
            assert_eq!(
                notices,
                vec![
                    "Downloading all tags...".to_string(),
                    "Image verification enabled...".to_string(),
                    "Platform: linux/arm64".to_string(),
                    "Running in quiet mode...".to_string(),
                ]
            );
        }
        _ => panic!("pull must dispatch to the pull handler"),
    }
}

#[test]
fn pull_with_defaults_has_no_flag_notices() {
    let cmd = DockerCommand::Pull {
        name: "busybox".to_string(),
        all_tags: false,
        disable_content_trust: true,
        platform: None,
        quiet: false,
    };
    match dispatch(cmd) {
        Action::PullImage { request, notices, .. } => {
            assert_eq!(request.image, "busybox");
            assert!(notices.is_empty());
        }
        _ => panic!("pull must dispatch to the pull handler"),
    }
}

#[test]
fn attach_carries_container_and_notices() {
    let cmd = DockerCommand::Attach {
        container: "c9".to_string(),
        detach_keys: Some("ctrl-x".to_string()),
        no_stdin: true,
        sig_proxy: false,
    };
    match dispatch(cmd) {
        Action::AttachContainer { notice, container, notices } => {
            assert_eq!(notice, "Attaching to container: c9");
            assert_eq!(container, "c9");
            assert_eq!(
                notices,
                vec![
                    "Detach keys override: ctrl-x".to_string(),
                    "STDIN will not be attached.".to_string(),
                    "Signal proxying is disabled.".to_string(),
                ]
            );
        }
        _ => panic!("attach must dispatch to the attach handler"),
    }
}

#[test]
fn attach_with_defaults_has_no_flag_notices() {
    let cmd = DockerCommand::Attach {
        container: "c9".to_string(),
        detach_keys: None,
        no_stdin: false,
        sig_proxy: true,
    };
    match dispatch(cmd) {
        Action::AttachContainer { notices, .. } => assert!(notices.is_empty()),
        _ => panic!("attach must dispatch to the attach handler"),
    }
}

#[test]
fn info_fetches_info() {
    assert!(matches!(dispatch(DockerCommand::Info), Action::FetchInfo));
}

#[test]
fn build_carries_path_and_tag() {
    let cmd = DockerCommand::Build {
        path_or_url: "./ctx".to_string(),
        options: rocker::image::BuildArgOptions { tag: Some("app:1".to_string()) },
    };
    match dispatch(cmd) {
        Action::BuildImage { notice, request } => {
            assert_eq!(notice, "Building image from path or URL: ./ctx");
            assert_eq!(request.path, "./ctx");
            assert_eq!(request.tag, Some("app:1".to_string()));
        }
        _ => panic!("build must dispatch to the build handler"),
    }
}

#[test]
fn rmi_carries_image_and_notices() {
    let cmd = DockerCommand::Rmi { image: "img1".to_string(), force: true, no_prune: true };
    match dispatch(cmd) {
        Action::RemoveImage { request, notices } => {
            assert_eq!(request.image, "img1");
            assert_eq!(
                notices,
                vec![
                    "Force removal of the image.".to_string(),
                    "Do not delete untagged parents.".to_string(),
                ]
            );
        }
        _ => panic!("rmi must dispatch to the delete handler"),
    }
}

#[test]
fn container_group_dispatches_to_its_handler() {
    let cmd = DockerCommand::Container(ContainerCommand::Logs { container: "c2".to_string() });
    match dispatch(cmd) {
        Action::Container(ContainerAction::StreamLogs { notice, request }) => {
            assert_eq!(notice, "Get logs of container: c2");
            assert_eq!(request.container, "c2");
            assert!(request.stdout);
            assert!(request.stderr);
        }
        _ => panic!("container logs must dispatch to the log streaming handler"),
    }
}

#[test]
fn unimplemented_container_command_reports_notice() {
    let cmd = DockerCommand::Container(ContainerCommand::Kill { container: "c3".to_string() });
    match dispatch(cmd) {
        Action::Container(ContainerAction::NotImplemented(msg)) => {
            assert_eq!(msg, "Command not implemented yet.");
        }
        _ => panic!("an unimplemented subcommand must dispatch to the notice"),
    }
}

#[test]
fn every_image_command_reports_notice() {
    let commands = vec![
        ImageCommand::Build,
        ImageCommand::History,
        ImageCommand::Import,
        ImageCommand::Inspect,
        ImageCommand::Load,
        ImageCommand::Ls,
        ImageCommand::Prune,
        ImageCommand::Pull,
        ImageCommand::Push,
        ImageCommand::Rm,
        ImageCommand::Save,
        ImageCommand::Tag,
    ];
    for cmd in commands {
        match dispatch(DockerCommand::Image(cmd)) {
            Action::Image(ImageAction::NotImplemented(msg)) => {
                assert_eq!(msg, "Command not implemented yet.");
            }
            _ => panic!("every image subcommand must dispatch to the notice"),
        }
    }
}

#[test]
fn notice_text_is_fixed() {
    assert_eq!(not_implemented_notice(), "Command not implemented yet.");
}

#[test]
fn container_create_maps_all_forwarded_fields() {
    let mut options = RunArgOptions::default();
    options.workdir = Some("/srv".to_string());
    options.volume = Some(vec!["/a:/b".to_string(), "/c:/d".to_string()]);
    options.publish_all = true;
    let cmd = DockerCommand::Container(ContainerCommand::Create {
        image: "nginx".to_string(),
        command: None,
        arguments: None,
        options,
    });
    match dispatch(cmd) {
        Action::Container(ContainerAction::CreateContainer { notice, request }) => {
            assert_eq!(notice, "Running container with image: nginx");
            assert_eq!(request.image, "nginx");
            assert_eq!(request.workdir, Some("/srv".to_string()));
            assert_eq!(request.volumes, vec!["/a:/b".to_string(), "/c:/d".to_string()]);
            assert!(request.publish_all);
            assert_eq!(request.name, None);
        }
        _ => panic!("container create must dispatch to the create handler"),
    }
}

#[test]
fn container_reports_carry_their_fields() {
    let cmd = DockerCommand::Container(ContainerCommand::Exec {
        container: "c7".to_string(),
        command: "ls -l".to_string(),
    });
    match dispatch(cmd) {
        Action::Container(ContainerAction::ReportExec { container, command }) => {
            assert_eq!(container, "c7");
            assert_eq!(command, "ls -l");
        }
        _ => panic!("container exec must dispatch to its report"),
    }
}
