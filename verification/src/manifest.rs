//! The project manifest: the per-project descriptor naming the package and
//! the desired output file for the build artifact.

use vstd::prelude::*;
use crate::toml_data::{manifest_fields_of, read_manifest_fields};

verus! {

/// The in-memory manifest. A `dependencies` entry in the document is
/// accepted but carries no meaning, so it has no field here.
pub struct Manifest {
    /// `package.name` of the document.
    pub name: String,
    /// `package.version` of the document.
    pub version: String,
    /// `build.output` of the document: the file name the final artifact is
    /// renamed to.
    pub output: String,
}

impl Manifest {
    /// Reads a manifest from the text of its document. Returns `None`
    /// exactly when the text is not a well-formed manifest: not TOML, or
    /// missing one of the three required string fields.
    pub fn parse(text: &str) -> (r: Option<Manifest>)
        ensures
            match r {
                Some(m) => manifest_fields_of(text@) == Some((m.name@, m.version@, m.output@)),
                None => manifest_fields_of(text@) is None,
            },
    {
        match read_manifest_fields(text) {
            Some(f) => Some(Manifest { name: f.0, version: f.1, output: f.2 }),
            None => None,
        }
    }
}

} // verus!
