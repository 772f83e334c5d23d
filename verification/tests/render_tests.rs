use rocker::container::{export, handle_container_command, ps, ContainerAction, ContainerCommand};
use rocker::digits::{i32_dec, u32_dec};
use rocker::image::{images, pull, ImageRecord};
use rocker::stream::{export_content, export_progress_line, print_chunk, render_chunks, ChunkLine, TtyChunk};

#[test]
fn export_names_file_after_id() {
    let req = export("abc123".to_string());
    assert_eq!(req.id, "abc123");
    assert_eq!(req.file_name, "abc123.tar");
}

#[test]
fn container_export_dispatch_carries_file_name() {
    match handle_container_command(ContainerCommand::Export { container: "deadbeef".to_string() })
    {
        ContainerAction::ExportImage(req) => {
            assert_eq!(req.id, "deadbeef");
            assert_eq!(req.file_name, "deadbeef.tar");
        }
        _ => panic!("export must dispatch to the export handler"),
    }
}

#[test]
fn three_chunks_render_three_lines_in_delivery_order() {
    let chunks = vec![
        TtyChunk::StdOut(b"one".to_vec()),
        TtyChunk::StdErr(b"two".to_vec()),
        TtyChunk::StdOut(b"three".to_vec()),
    ];
    let lines = render_chunks(&chunks);
    assert_eq!(lines.len(), 3);
    match &lines[0] {
        ChunkLine::Out(s) => assert_eq!(s, "Stdout: one"),
        _ => panic!("the first chunk must render first"),
    }
    match &lines[1] {
        ChunkLine::ErrLine(s) => assert_eq!(s, "Stdout: two"),
        _ => panic!("the second chunk must render second, on the error stream"),
    }
    match &lines[2] {
        ChunkLine::Out(s) => assert_eq!(s, "Stdout: three"),
        _ => panic!("the third chunk must render third"),
    }
}

#[test]
fn chunk_that_is_not_text_is_reported() {
    let chunk = TtyChunk::StdOut(vec![0xff, 0xfe]);
    assert!(matches!(print_chunk(&chunk), ChunkLine::NotText));
}

#[test]
fn inbound_chunk_is_not_rendered() {
    let chunk = TtyChunk::StdIn(b"keys".to_vec());
    assert!(matches!(print_chunk(&chunk), ChunkLine::Inbound));
}

#[test]
fn ps_renders_one_line_per_record() {
    let records = vec!["alpha".to_string(), "beta".to_string()];
    let lines = ps(&records);
    assert_eq!(
        lines,
        vec!["container -> alpha".to_string(), "container -> beta".to_string()]
    );
}

#[test]
fn images_defaults_missing_tags() {
    let records = vec![
        ImageRecord {
            id: "sha256:1".to_string(),
            created: 100,
            repo_tags: Some(vec!["app:1".to_string(), "app:latest".to_string()]),
        },
        ImageRecord { id: "sha256:2".to_string(), created: 200, repo_tags: None },
    ];
    let lines = images(records);
    assert_eq!(lines.len(), 2);
    assert_eq!(lines[0].id, "sha256:1");
    assert_eq!(lines[0].created, 100);
    assert_eq!(lines[0].tags, vec!["app:1".to_string(), "app:latest".to_string()]);
    assert_eq!(lines[1].id, "sha256:2");
    assert_eq!(lines[1].created, 200);
    assert_eq!(lines[1].tags, vec!["none".to_string()]);
}

#[test]
fn pull_target_is_the_supplied_name() {
    assert_eq!(pull("alpine").image, "alpine");
    assert_eq!(pull("alpine:3.19").image, "alpine:3.19");
}

#[test]
fn decimal_rendering_is_exact() {
    assert_eq!(u32_dec(0), "0");
    assert_eq!(u32_dec(7), "7");
    assert_eq!(u32_dec(10), "10");
    assert_eq!(u32_dec(4294967295), "4294967295");
    assert_eq!(i32_dec(0), "0");
    assert_eq!(i32_dec(42), "42");
    assert_eq!(i32_dec(-1), "-1");
    assert_eq!(i32_dec(2147483647), "2147483647");
    assert_eq!(i32_dec(-2147483648), "-2147483648");
}

#[test]
fn decimal_rendering_keeps_inner_zeros() {
    assert_eq!(u32_dec(100), "100");
    assert_eq!(u32_dec(1005), "1005");
    assert_eq!(i32_dec(-10), "-10");
    assert_eq!(i32_dec(-100000), "-100000");
}

#[test]
fn empty_chunk_renders_prefix_alone() {
    match print_chunk(&TtyChunk::StdOut(Vec::new())) {
        ChunkLine::Out(s) => assert_eq!(s, "Stdout: "),
        _ => panic!("an empty chunk is still text"),
    }
}

#[test]
fn ps_renders_nothing_for_no_records() {
    assert!(ps(&Vec::new()).is_empty());
}

#[test]
fn export_joins_chunks_in_delivery_order() {
    let chunks = vec![b"tar ".to_vec(), Vec::new(), b"bytes".to_vec()];
    assert_eq!(export_content(&chunks), b"tar bytes".to_vec());
    assert!(export_content(&Vec::new()).is_empty());
}

#[test]
fn export_progress_line_is_fixed() {
    assert_eq!(export_progress_line(), "copied bytes");
}
