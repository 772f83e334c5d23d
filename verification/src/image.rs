//! The image subcommand group: its command surface and the normalization
//! of image flags into the requests handed to the engine client.

use vstd::prelude::*;

verus! {

/// Image management subcommands.  The group is recognized by the top-level
/// parser, but none of its members has a handler yet: dispatching any of
/// them yields the not-implemented notice and no external call.
#[derive(Debug)]
pub enum ImageCommand {
    /// Build an image from a Dockerfile
    Build,
    /// Show the history of an image
    History,
    /// Import the contents from a tarball to create a filesystem image
    Import,
    /// Display detailed information on one or more images
    Inspect,
    /// Load an image from a tar archive or STDIN
    Load,
    /// List images
    Ls,
    /// Remove unused images
    Prune,
    /// Pull an image or a repository from a registry
    Pull,
    /// Push an image or a repository to a registry
    Push,
    /// Remove one or more images
    Rm,
    /// Save one or more images to a tar archive
    Save,
    /// Create a tag that refers to a source image
    Tag,
}

/// The flag bag of the `build` command.  Every field is optional and is
/// carried into the build request untouched.
#[derive(Debug, Clone)]
pub struct BuildArgOptions {
    /// Name and optionally a tag in the `name:tag` format
    pub tag: Option<String>,
}

/// One image build request: exactly what a single streamed build call
/// against the engine client is made from.
#[derive(Debug)]
pub struct BuildRequest {
    /// Path to the context directory or URL for the build
    pub path: String,
    /// Name and optionally a tag for the built image
    pub tag: Option<String>,
}

/// One image pull request for a single streamed pull call.
#[derive(Debug)]
pub struct PullRequest {
    /// The image reference handed to the engine: the supplied name, verbatim
    pub image: String,
}

/// One image removal request for a single delete call.
#[derive(Debug)]
pub struct RemoveImageRequest {
    /// The image to delete
    pub image: String,
}

/// Normalizes the `build` flags into the one request the streamed build
/// call is made from: the context path and the optional tag, unchanged.
pub fn build(path: &str, build_options: BuildArgOptions) -> (r: BuildRequest)
    ensures
        r.path@ == path@,
        r.tag == build_options.tag,
{
    BuildRequest { path: String::from_str(path), tag: build_options.tag }
}

/// Normalizes a `pull` target: the image reference sent to the engine is
/// the supplied name, verbatim.
pub fn pull(name: &str) -> (r: PullRequest)
    ensures
        r.image@ == name@,
{
    PullRequest { image: String::from_str(name) }
}

/// Normalizes an `rmi` target into the one delete request.
pub fn rmi(image: String) -> (r: RemoveImageRequest)
    ensures
        r.image == image,
{
    RemoveImageRequest { image }
}

/// One record of the engine's image listing, as the listing handler
/// reads it: the ID, the creation time, and the tags if the engine
/// reported any.
#[derive(Debug)]
pub struct ImageRecord {
    /// Image ID
    pub id: String,
    /// Creation time, in seconds since the epoch
    pub created: u64,
    /// The image's repository tags, absent for an untagged image
    pub repo_tags: Option<Vec<String>>,
}

/// One rendered line of the image listing.
#[derive(Debug)]
pub struct ImageLine {
    /// Image ID, carried over unchanged
    pub id: String,
    /// Creation time, carried over unchanged
    pub created: u64,
    /// The reported tags, or the one placeholder tag for an untagged image
    pub tags: Vec<String>,
}

/// The rendering relation of one listing record: ID and creation time
/// unchanged, and the tags defaulted to the single placeholder when the
/// engine reported none.
pub open spec fn image_line_ok(rec: ImageRecord, line: ImageLine) -> bool {
    &&& line.id == rec.id
    &&& line.created == rec.created
    &&& (match rec.repo_tags {
        Some(t) => line.tags@ == t@,
        None => line.tags@.len() == 1 && line.tags@[0]@ == "none"@,
    })
}

/// Renders the image listing, one line per returned record, in the order
/// the records were returned.
pub fn images(records: Vec<ImageRecord>) -> (lines: Vec<ImageLine>)
    ensures
        lines@.len() == records@.len(),
        forall|i: int| 0 <= i < records@.len() ==> image_line_ok(records@[i], #[trigger] lines@[i]),
{
    let ghost all = records@;
    let mut rest = records;
    let mut lines: Vec<ImageLine> = Vec::new();
    while rest.len() > 0
        invariant
            lines@.len() + rest@.len() == all.len(),
            rest@ == all.subrange(lines@.len() as int, all.len() as int),
            forall|i: int| 0 <= i < lines@.len() ==> image_line_ok(all[i], #[trigger] lines@[i]),
        decreases rest@.len(),
    {
        let rec = rest.remove(0);
        let tags = match rec.repo_tags {
            Some(t) => t,
            None => {
                let mut t: Vec<String> = Vec::new();
                t.push(String::from_str("none"));
                t
            },
        };
        lines.push(ImageLine { id: rec.id, created: rec.created, tags });
        proof {
            assert(rest@ =~= all.subrange(lines@.len() as int, all.len() as int));
        }
    }
    lines
}

/// What dispatching one image subcommand amounts to.  The group is
/// recognized, but none of its members has a handler yet: every
/// subcommand pairs with the not-implemented notice and no external call.
#[derive(Debug)]
pub enum ImageAction {
    /// Report the fixed not-implemented notice; no external call
    NotImplemented(String),
}

/// The dispatch relation of the image group: every subcommand is paired
/// with the not-implemented notice.
pub open spec fn image_action_ok(cmd: ImageCommand, r: ImageAction) -> bool {
    r matches ImageAction::NotImplemented(msg) && msg@ == "Command not implemented yet."@
}

/// Pairs one image subcommand with the one action that handles it.
pub fn handle_image_command(command: ImageCommand) -> (r: ImageAction)
    ensures
        image_action_ok(command, r),
{
    ImageAction::NotImplemented(crate::not_implemented_notice())
}

} // verus!
