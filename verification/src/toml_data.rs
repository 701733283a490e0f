//! Trusted boundary to the `toml` crate.
//!
//! The tool's two persisted file formats are TOML documents: the project
//! manifest and the local toolchain config. Parsing and rendering are done
//! by the `toml` crate; what a given document parses to is named by
//! uninterpreted spec functions, since TOML's grammar is far too large to
//! restate here. Everything downstream of these names is verified.

use vstd::prelude::*;

verus! {

/// The fields a manifest document carries, if it is one: the package name,
/// the package version, and the configured build output name. `None` when
/// the text is not valid TOML or lacks any of `package.name`,
/// `package.version` or `build.output` as strings. A `dependencies` entry
/// may be present with any value; it is not read.
pub uninterp spec fn manifest_fields_of(text: Seq<char>) -> Option<(Seq<char>, Seq<char>, Seq<char>)>;

/// The compiler path a local-config document carries, if any: `None` when
/// the text is not valid TOML or has no `prex_path` string entry.
pub uninterp spec fn config_path_of(text: Seq<char>) -> Option<Seq<char>>;

/// The local-config document that records a compiler path.
pub uninterp spec fn config_text_of(path: Seq<char>) -> Seq<char>;

/// Relies on `toml::from_str::<toml::Value>` to parse the manifest; the
/// `toml::Value::get` / `as_str` accessors only convert the parsed document
/// back to plain strings. The result is a function of the text alone.
#[verifier::external_body]
pub(crate) fn read_manifest_fields(text: &str) -> (r: Option<(String, String, String)>)
    ensures
        match r {
            Some(f) => manifest_fields_of(text@) == Some((f.0@, f.1@, f.2@)),
            None => manifest_fields_of(text@) is None,
        },
{
    let v: toml::Value = match toml::from_str(text) {
        Ok(v) => v,
        Err(_) => return None,
    };
    let name = v.get("package").and_then(|p| p.get("name")).and_then(|n| n.as_str());
    let version = v.get("package").and_then(|p| p.get("version")).and_then(|n| n.as_str());
    let output = v.get("build").and_then(|b| b.get("output")).and_then(|o| o.as_str());
    match (name, version, output) {
        (Some(n), Some(ve), Some(o)) => Some((n.to_string(), ve.to_string(), o.to_string())),
        _ => None,
    }
}

/// Relies on `toml::from_str::<toml::Value>` to parse the local config; the
/// `toml::Value::get` / `as_str` accessors only convert the parsed document
/// back to a plain string. The result is a function of the text alone.
#[verifier::external_body]
pub(crate) fn read_config_path(text: &str) -> (r: Option<String>)
    ensures
        match r {
            Some(p) => config_path_of(text@) == Some(p@),
            None => config_path_of(text@) is None,
        },
{
    let v: toml::Value = match toml::from_str(text) {
        Ok(v) => v,
        Err(_) => return None,
    };
    v.get("prex_path").and_then(|p| p.as_str()).map(|s| s.to_string())
}

/// Relies on `toml::to_string` to render a one-entry table; `toml::Table`
/// and `toml::Value::String` only convert the plain path into the value it
/// serialises. The result is a function of the path alone. Serialising a
/// table of one string cannot fail; the error arm is unreachable.
#[verifier::external_body]
pub(crate) fn render_config(path: &str) -> (r: String)
    ensures
        r@ == config_text_of(path@),
{
    let mut table = toml::Table::new();
    table.insert("prex_path".to_string(), toml::Value::String(path.to_string()));
    match toml::to_string(&table) {
        Ok(s) => s,
        Err(_) => String::new(),
    }
}

} // verus!
