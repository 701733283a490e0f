//! Ignis: a project scaffolding and build front end for the external `prex`
//! compiler.
//!
//! The crate holds the decision logic of the tool: the manifest model, the
//! toolchain-resolution strategy, the build orchestration, and the scaffold
//! content. All file reads, process spawns and prompts are performed by the
//! surrounding binary, which drives the state machines in [`resolver`] and
//! [`orchestrator`] and hands their answers back as plain values.

use vstd::prelude::*;
use vstd::string::*;

pub mod orchestrator;
pub mod manifest;
pub mod resolver;
pub mod scaffold;
pub mod toml_data;

verus! {

/// A file name that the source scanner accepts: it ends in `.prx` with at
/// least one character before the dot. This matches how a path's extension
/// is read: a bare `.prx` has an empty stem and no extension, so it is
/// skipped, while any longer name ending in `.prx` (including `..prx`) has
/// extension `prx`.
pub open spec fn is_source_name(s: Seq<char>) -> bool {
    s.len() >= 5 && s.subrange(s.len() - 4, s.len() as int) == ".prx"@
}

/// The path handed to the compiler for a source file: the name under the
/// fixed `src` subdirectory.
pub open spec fn source_path_of(name: Seq<char>) -> Seq<char> {
    "src/"@ + name
}

/// The character sequences of a sequence of strings.
pub open spec fn views_of(ss: Seq<String>) -> Seq<Seq<char>> {
    ss.map_values(|s: String| s@)
}

/// Decides whether a file name ends in the fixed source extension.
pub fn has_source_ext(name: &str) -> (r: bool)
    ensures
        r == is_source_name(name@),
{
    let len = name.unicode_len();
    if len < 5 {
        return false;
    }
    let tail = name.substring_char(len - 4, len);
    let t: String = tail.to_owned();
    let ext: String = String::from_str(".prx");
    t.eq(&ext)
}

} // verus!
