//! Manifest validation for `load`.
//!
//! The archive a `load` consumes holds a `package` directory with a manifest
//! declaring `name`, `version` and an optional `main` entry path. The
//! declared name and version must exactly equal the requested ones or the
//! load fails without installing anything; the entry path defaults to
//! `index.js` when no `main` is declared.

use vstd::prelude::*;
use vstd::string::StringExecFns;

use crate::BridgeError;

verus! {

/// The string a JSON document holds at a top-level key, as the JSON parser
/// resolves it: nothing when the text is not a JSON document, or the key is
/// absent, or its value is not a string.
pub uninterp spec fn json_string_field_of(text: Seq<char>, key: Seq<char>) -> Option<Seq<char>>;

/// Relies on serde_json::from_str, serde_json::Value::get and
/// serde_json::Value::as_str: the top-level string field of a JSON document,
/// a function of the text and the key alone.
#[verifier::external_body]
fn json_string_field(text: &str, key: &str) -> (r: Option<String>)
    ensures
        match r {
            Some(s) => json_string_field_of(text@, key@) == Some(s@),
            None => json_string_field_of(text@, key@) is None,
        },
{
    let doc: serde_json::Value = match serde_json::from_str(text) {
        Ok(v) => v,
        Err(_) => return None,
    };
    match doc.get(key) {
        Some(field) => match field.as_str() {
            Some(s) => Some(s.to_string()),
            None => None,
        },
        None => None,
    }
}

/// The name a manifest text declares.
pub open spec fn manifest_name_of(text: Seq<char>) -> Option<Seq<char>> {
    json_string_field_of(text, "name"@)
}

/// The version a manifest text declares.
pub open spec fn manifest_version_of(text: Seq<char>) -> Option<Seq<char>> {
    json_string_field_of(text, "version"@)
}

/// The entry path a manifest text declares, if any.
pub open spec fn manifest_main_of(text: Seq<char>) -> Option<Seq<char>> {
    json_string_field_of(text, "main"@)
}

/// The declared identity and entry path of a package, read from its
/// manifest.
#[derive(Debug)]
pub struct PackageManifest {
    pub name: String,
    pub version: String,
    pub main: Option<String>,
}

/// The declared entry path of a manifest's `main` field, in the mathematical
/// model.
pub open spec fn manifest_main_view(m: PackageManifest) -> Option<Seq<char>> {
    match m.main {
        Some(p) => Some(p@),
        None => None,
    }
}

/// The entry path a package resolves to: the declared main, or the default.
pub open spec fn entry_path_of(main: Option<Seq<char>>) -> Seq<char> {
    match main {
        Some(p) => p,
        None => "index.js"@,
    }
}

/// Read a package manifest: present exactly when the text is a JSON
/// document declaring string `name` and `version` fields, with `main`
/// carried over when declared as a string.
pub fn parse_manifest(text: &str) -> (r: Option<PackageManifest>)
    ensures
        match r {
            Some(m) => {
                &&& manifest_name_of(text@) == Some(m.name@)
                &&& manifest_version_of(text@) == Some(m.version@)
                &&& manifest_main_of(text@) == manifest_main_view(m)
            },
            None => manifest_name_of(text@) is None || manifest_version_of(text@) is None,
        },
{
    let name = match json_string_field(text, "name") {
        Some(s) => s,
        None => return None,
    };
    let version = match json_string_field(text, "version") {
        Some(s) => s,
        None => return None,
    };
    let main = json_string_field(text, "main");
    Some(PackageManifest { name, version, main })
}

/// The declared entry path of a validated package, defaulting to
/// `index.js`.
pub fn resolve_entry(m: &PackageManifest) -> (r: String)
    ensures
        r@ == entry_path_of(manifest_main_view(*m)),
{
    match &m.main {
        Some(p) => p.clone(),
        None => "index.js".to_owned(),
    }
}

/// Validate a package against the requested name and version: succeeds with
/// the package's entry path exactly when both match; any mismatch is an
/// archive error and nothing is installed.
pub fn validate_package(name: &String, version: &String, m: &PackageManifest) -> (r: Result<
    String,
    BridgeError,
>)
    ensures
        r is Ok <==> m.name@ == name@ && m.version@ == version@,
        match r {
            Ok(entry) => entry@ == entry_path_of(manifest_main_view(*m)),
            Err(e) => e == BridgeError::Archive,
        },
{
    if m.name == *name && m.version == *version {
        Ok(resolve_entry(m))
    } else {
        Err(BridgeError::Archive)
    }
}

} // verus!
