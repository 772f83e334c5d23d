//! Streamed terminal chunks and their rendering.  A chunk is one unit of
//! streamed output, a byte buffer tagged with its origin; the streaming
//! handlers render each chunk as it arrives, in arrival order, without
//! buffering the stream.

use vstd::prelude::*;
use vstd::utf8::{decode_utf8, valid_utf8};

verus! {

/// One unit of streamed terminal output: a byte buffer tagged with the
/// stream it came from.
#[derive(Debug)]
pub enum TtyChunk {
    /// Bytes of the container's standard output
    StdOut(Vec<u8>),
    /// Bytes of the container's standard error
    StdErr(Vec<u8>),
    /// Bytes bound for the container's standard input; never rendered
    StdIn(Vec<u8>),
}

/// How one chunk is rendered: a prefixed text line on the output or the
/// error stream (the error stream keeps the same prefix the output stream
/// has), a report that the bytes are not text, or nothing for an inbound
/// chunk.
#[derive(Debug)]
pub enum ChunkLine {
    /// Print this line on the output stream
    Out(String),
    /// Print this line on the error stream
    ErrLine(String),
    /// The chunk's bytes are not valid text: report, render nothing
    NotText,
    /// An inbound chunk carries no output: render nothing
    Inbound,
}

/// The rendering relation of one chunk: the decoded bytes behind the fixed
/// prefix, on the stream the chunk came from; undecodable bytes become the
/// not-text report, and inbound chunks are not rendered.
pub open spec fn chunk_line_ok(c: TtyChunk, r: ChunkLine) -> bool {
    match c {
        TtyChunk::StdOut(bytes) => {
            if valid_utf8(bytes@) {
                r matches ChunkLine::Out(s) && s@ == "Stdout: "@ + decode_utf8(bytes@)
            } else {
                r is NotText
            }
        },
        TtyChunk::StdErr(bytes) => {
            if valid_utf8(bytes@) {
                r matches ChunkLine::ErrLine(s) && s@ == "Stdout: "@ + decode_utf8(bytes@)
            } else {
                r is NotText
            }
        },
        TtyChunk::StdIn(_) => r is Inbound,
    }
}

/// Relies on `String::from_utf8`: it succeeds exactly on input that is
/// valid UTF-8, and then returns the input's decoding.
#[verifier::external_body]
fn utf8_to_string(bytes: &Vec<u8>) -> (r: Option<String>)
    ensures
        r is Some <==> valid_utf8(bytes@),
        r matches Some(s) ==> s@ == decode_utf8(bytes@),
{
    String::from_utf8(bytes.clone()).ok()
}

/// Renders one chunk.
pub fn print_chunk(chunk: &TtyChunk) -> (r: ChunkLine)
    ensures
        chunk_line_ok(*chunk, r),
{
    match chunk {
        TtyChunk::StdOut(bytes) => match utf8_to_string(bytes) {
            Some(s) => ChunkLine::Out(String::from_str("Stdout: ").concat(s.as_str())),
            None => ChunkLine::NotText,
        },
        TtyChunk::StdErr(bytes) => match utf8_to_string(bytes) {
            Some(s) => ChunkLine::ErrLine(String::from_str("Stdout: ").concat(s.as_str())),
            None => ChunkLine::NotText,
        },
        TtyChunk::StdIn(_) => ChunkLine::Inbound,
    }
}

/// The bytes of a delivered sequence of byte chunks, joined in delivery
/// order.
pub open spec fn flat_bytes(chunks: Seq<Seq<u8>>) -> Seq<u8>
    decreases chunks.len(),
{
    if chunks.len() == 0 {
        Seq::empty()
    } else {
        flat_bytes(chunks.drop_last()) + chunks.last()
    }
}

/// The fixed progress line printed for each chunk an export stream
/// delivers.
pub fn export_progress_line() -> (r: String)
    ensures
        r@ == "copied bytes"@,
{
    String::from_str("copied bytes")
}

/// What draining an export stream persists: appending each delivered
/// chunk, in delivery order, yields exactly the chunks' bytes joined in
/// that order -- nothing reordered, dropped or batched away.
pub fn export_content(chunks: &Vec<Vec<u8>>) -> (content: Vec<u8>)
    ensures
        content@ == flat_bytes(chunks.deep_view()),
{
    let ghost dv = chunks.deep_view();
    let mut content: Vec<u8> = Vec::new();
    let mut k: usize = 0;
    while k < chunks.len()
        invariant
            k <= chunks@.len(),
            dv == chunks.deep_view(),
            dv.len() == chunks@.len(),
            content@ == flat_bytes(dv.subrange(0, k as int)),
        decreases chunks@.len() - k,
    {
        let chunk = &chunks[k];
        proof {
            assert(chunk@ == dv[k as int]);
        }
        let mut j: usize = 0;
        while j < chunk.len()
            invariant
                j <= chunk@.len(),
                k < chunks@.len(),
                dv == chunks.deep_view(),
                dv.len() == chunks@.len(),
                chunk@ == dv[k as int],
                content@ == flat_bytes(dv.subrange(0, k as int)) + chunk@.subrange(0, j as int),
            decreases chunk@.len() - j,
        {
            content.push(chunk[j]);
            proof {
                assert(chunk@.subrange(0, j + 1 as int) =~= chunk@.subrange(0, j as int).push(
                    chunk@[j as int],
                ));
            }
            j = j + 1;
        }
        proof {
            assert(chunk@.subrange(0, chunk@.len() as int) =~= chunk@);
            assert(dv.subrange(0, k + 1 as int).drop_last() =~= dv.subrange(0, k as int));
            assert(content@ == flat_bytes(dv.subrange(0, k + 1 as int)));
        }
        k = k + 1;
    }
    proof {
        assert(dv.subrange(0, dv.len() as int) =~= dv);
    }
    content
}

/// Renders a whole delivered sequence of chunks: one rendering per chunk,
/// in exactly the delivery order -- the rendering at each position is the
/// rendering of the chunk at that position.
pub fn render_chunks(chunks: &Vec<TtyChunk>) -> (lines: Vec<ChunkLine>)
    ensures
        lines@.len() == chunks@.len(),
        forall|i: int| 0 <= i < chunks@.len() ==> chunk_line_ok(chunks@[i], #[trigger] lines@[i]),
{
    let mut lines: Vec<ChunkLine> = Vec::new();
    let mut k: usize = 0;
    while k < chunks.len()
        invariant
            k <= chunks@.len(),
            lines@.len() == k,
            forall|i: int| 0 <= i < k ==> chunk_line_ok(chunks@[i], #[trigger] lines@[i]),
        decreases chunks@.len() - k,
    {
        let line = print_chunk(&chunks[k]);
        lines.push(line);
        k = k + 1;
    }
    lines
}

} // verus!
