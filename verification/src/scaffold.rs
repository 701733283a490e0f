//! Scaffolding for a fresh project: the directories to create and the files
//! to write, with their exact contents.

use vstd::prelude::*;
use vstd::string::*;

verus! {

/// The manifest document written for a fresh project named `name`: the name
/// is inserted verbatim, the version is fixed at `0.1.0`, the dependency
/// table is empty, and the build output is the fixed `output.elf`.
pub open spec fn starter_manifest_text(name: Seq<char>) -> Seq<char> {
    "[package]\nname = \""@ + name
        + "\"\nversion = \"0.1.0\"\n[dependencies]\n[build]\noutput = \"output.elf\"\n"@
}

/// The placeholder source file written for a fresh project.
pub open spec fn starter_source_text() -> Seq<char> {
    "defun main() > i32 {\n    // Hello from Rust Ignis!\n    ret 0;\n}\n"@
}

/// Everything the `new` operation writes for a project named `name`: two
/// directories to create, in order, and two files with their contents.
pub struct ScaffoldPlan {
    /// The project root directory: the name itself.
    pub root_dir: String,
    /// The source directory under the root.
    pub src_dir: String,
    /// Where the manifest document goes.
    pub manifest_path: String,
    /// The manifest document.
    pub manifest_text: String,
    /// Where the placeholder source file goes.
    pub source_path: String,
    /// The placeholder source file.
    pub source_text: String,
}

/// Lays out a fresh project named `name`.
pub fn scaffold_plan(name: &str) -> (p: ScaffoldPlan)
    ensures
        p.root_dir@ == name@,
        p.src_dir@ == name@ + "/src"@,
        p.manifest_path@ == name@ + "/prex.toml"@,
        p.manifest_text@ == starter_manifest_text(name@),
        p.source_path@ == name@ + "/src/main.prx"@,
        p.source_text@ == starter_source_text(),
{
    ScaffoldPlan {
        root_dir: name.to_owned(),
        src_dir: String::from_str(name).concat("/src"),
        manifest_path: String::from_str(name).concat("/prex.toml"),
        manifest_text: String::from_str("[package]\nname = \"").concat(name).concat(
            "\"\nversion = \"0.1.0\"\n[dependencies]\n[build]\noutput = \"output.elf\"\n",
        ),
        source_path: String::from_str(name).concat("/src/main.prx"),
        source_text: String::from_str(
            "defun main() > i32 {\n    // Hello from Rust Ignis!\n    ret 0;\n}\n",
        ),
    }
}

} // verus!
