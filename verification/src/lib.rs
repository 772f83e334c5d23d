//! Command dispatch and argument normalization for a Docker-style CLI.
//!
//! The library models the closed set of subcommands the tool accepts,
//! normalizes the parsed flags of each into a request value whose fields
//! are pinned by contract, and decides, for every command, which single
//! external call (if any) the surrounding program must make.  All I/O --
//! talking to the container engine, the remote code runner, the terminal
//! and the file system -- lives outside the library and is driven by the
//! action values produced here.

pub mod container;
pub mod digits;
pub mod dispatch;
pub mod image;
pub mod remote;
pub mod stream;

use vstd::prelude::*;

verus! {

/// The exact notice printed for a recognized subcommand that has no
/// handler yet.  Dispatch pairs such commands with no external call.
pub fn not_implemented_notice() -> (r: String)
    ensures
        r@ == "Command not implemented yet."@,
{
    let s = String::from_str("Command not implemented yet.");
    s
}

} // verus!
