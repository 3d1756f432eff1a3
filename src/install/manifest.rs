//! The content of a host manifest, and the checks that a found manifest must
//! pass to count as installed.
use serde_json::Value;
use vstd::prelude::*;

use crate::install::paths::{InstallError, Os};
use crate::text::{starts_with_char, text_eq};

verus! {

/// `serde_json::Value`, read only through the accessors below.
#[verifier::external_type_specification]
#[verifier::external_body]
pub struct ExJsonValue(serde_json::Value);

/// `serde_json::Map`, the entries of a JSON object.
#[verifier::external_type_specification]
#[verifier::external_body]
#[verifier::reject_recursive_types(K)]
#[verifier::reject_recursive_types(V)]
pub struct ExJsonMap<K, V>(serde_json::Map<K, V>);

/// What a manifest check can see of a member of a JSON object.
pub enum MemberKind {
    /// A string, with its characters.
    Str(Seq<char>),
    /// An array.
    Array,
    /// Anything else.
    Other,
}

/// What a manifest check can see of a JSON value.
pub enum JsonKind {
    /// An object, with what can be seen of each member.
    Object(Map<Seq<char>, MemberKind>),
    /// A string, with its characters.
    Str(Seq<char>),
    /// An array.
    Array,
    /// Anything else.
    Other,
}

/// What can be seen of a value when it stands as a member of an object.
pub open spec fn member_kind(k: JsonKind) -> MemberKind {
    match k {
        JsonKind::Str(s) => MemberKind::Str(s),
        JsonKind::Array => MemberKind::Array,
        _ => MemberKind::Other,
    }
}

/// The value that `serde_json` parses from the text `s`, if it parses.
pub uninterp spec fn parsed_json(s: Seq<char>) -> Option<JsonKind>;

/// What a parsed JSON value holds.
pub uninterp spec fn json_kind(v: Value) -> JsonKind;

/// What the members of a JSON object hold, by key.
pub uninterp spec fn json_members(m: serde_json::Map<String, Value>) -> Map<Seq<char>, MemberKind>;

/// Relies on `serde_json::from_str::<Value>`: it parses exactly the texts that
/// are JSON, and the same text always gives the same value.
#[verifier::external_body]
fn parse_json_value(s: &str) -> (r: Result<Value, serde_json::Error>)
    ensures
        r is Ok <==> parsed_json(s@) is Some,
        r is Ok ==> parsed_json(s@) == Some(json_kind(r->Ok_0)),
{
    serde_json::from_str::<Value>(s)
}

/// Relies on `serde_json::Value::as_object`: the object's entries, if the value
/// is an object, else `None`.
#[verifier::external_body]
fn json_as_object(v: &Value) -> (r: Option<&serde_json::Map<String, Value>>)
    ensures
        r is Some <==> json_kind(*v) is Object,
        r is Some ==> json_kind(*v) == JsonKind::Object(json_members(*r->0)),
{
    v.as_object()
}

/// Relies on `serde_json::Map::get`: the value under `key`, if any.
#[verifier::external_body]
fn json_get<'a>(m: &'a serde_json::Map<String, Value>, key: &str) -> (r: Option<&'a Value>)
    ensures
        r is Some <==> json_members(*m).contains_key(key@),
        r is Some ==> json_members(*m)[key@] == member_kind(json_kind(*r->0)),
{
    m.get(key)
}

/// Relies on `serde_json::Map::contains_key`: whether `key` has a value.
#[verifier::external_body]
fn json_contains_key(m: &serde_json::Map<String, Value>, key: &str) -> (r: bool)
    ensures
        r == json_members(*m).contains_key(key@),
{
    m.contains_key(key)
}

/// Relies on `serde_json::Value::as_str`: the text, if the value is a string,
/// else `None`.
#[verifier::external_body]
fn json_as_str(v: &Value) -> (r: Option<&str>)
    ensures
        r is Some <==> json_kind(*v) is Str,
        r is Some ==> json_kind(*v) == JsonKind::Str(r->0@),
{
    v.as_str()
}

/// Relies on `serde_json::Value::is_array`: whether the value is an array.
#[verifier::external_body]
fn json_is_array(v: &Value) -> (r: bool)
    ensures
        r == json_kind(*v) is Array,
{
    v.is_array()
}

/// The two families of browsers, which differ in the shape of the allow-list.
#[derive(Debug, Clone, Copy, PartialEq, Eq, Structural)]
pub enum Family {
    /// Allows callers by `allowed_origins` (`chrome-extension://<id>/`).
    Chromium,
    /// Allows callers by `allowed_extensions` (add-on identities).
    Firefox,
}

/// The family that a configuration names.
pub open spec fn family_spec(name: Seq<char>) -> Option<Family> {
    if name == "chromium"@ {
        Some(Family::Chromium)
    } else if name == "firefox"@ {
        Some(Family::Firefox)
    } else {
        None
    }
}

/// The family named `name`, if it is one of the two.
pub fn family_of(name: &str) -> (r: Option<Family>)
    ensures
        r == family_spec(name@),
{
    if text_eq(name, "chromium") {
        Some(Family::Chromium)
    } else if text_eq(name, "firefox") {
        Some(Family::Firefox)
    } else {
        None
    }
}

/// A path is absolute on macOS and Linux when it starts with `/`.
pub open spec fn is_absolute_spec(path: Seq<char>) -> bool {
    path.len() > 0 && path[0] == '/'
}

/// Whether `os` requires the manifest's `path` to be absolute.
pub open spec fn requires_absolute(os: Os) -> bool {
    os == Os::MacOs || os == Os::Linux
}

/// Refuses a relative host executable path where the browsers require an
/// absolute one (macOS and Linux).
pub fn ensure_absolute_path(exe_path: &str, os: Os) -> (r: Result<(), InstallError>)
    ensures
        r is Err <==> requires_absolute(os) && !is_absolute_spec(exe_path@),
        r is Err ==> r == Err::<(), InstallError>(InstallError::RelativeExePath),
{
    if (os == Os::MacOs || os == Os::Linux) && !starts_with_char(exe_path, '/') {
        return Err(InstallError::RelativeExePath);
    }
    Ok(())
}

/// Who may call the host: the allow-list of the browser's family.
#[derive(Debug)]
pub enum AllowList {
    Origins(Vec<String>),
    Extensions(Vec<String>),
}

/// The manifest that tells a browser where a host is and who may call it.
#[derive(Debug)]
pub struct HostManifest {
    pub name: String,
    pub description: String,
    pub path: String,
    /// Always `stdio`.
    pub ty: String,
    pub allowed: AllowList,
}

/// A copy of a list of texts.
fn copy_texts(items: &[String]) -> (r: Vec<String>)
    ensures
        r@ == items@,
{
    let mut out: Vec<String> = Vec::new();
    let mut i: usize = 0;
    while i < items.len()
        invariant
            i <= items@.len(),
            out@ == items@.take(i as int),
        decreases items@.len() - i,
    {
        out.push(items[i].clone());
        i = i + 1;
        assert(out@ =~= items@.take(i as int));
    }
    assert(items@.take(items@.len() as int) =~= items@);
    out
}

/// The manifest for a browser of the family named `family`: Chromium-family
/// browsers get the origins, Firefox-family browsers the extension identities.
/// An unknown family is refused.
pub fn host_manifest(
    family: &str,
    host_name: &str,
    description: &str,
    exe_path: &str,
    allowed_origins: &[String],
    allowed_extensions: &[String],
) -> (r: Result<HostManifest, InstallError>)
    ensures
        match r {
            Ok(m) => m.name@ == host_name@ && m.description@ == description@ && m.path@
                == exe_path@ && m.ty@ == "stdio"@ && match family_spec(family@) {
                Some(Family::Chromium) => m.allowed matches AllowList::Origins(v) && v@
                    == allowed_origins@,
                Some(Family::Firefox) => m.allowed matches AllowList::Extensions(v) && v@
                    == allowed_extensions@,
                None => false,
            },
            Err(e) => family_spec(family@) is None && e == InstallError::UnknownFamily,
        },
{
    let allowed = match family_of(family) {
        Some(Family::Chromium) => AllowList::Origins(copy_texts(allowed_origins)),
        Some(Family::Firefox) => AllowList::Extensions(copy_texts(allowed_extensions)),
        None => {
            return Err(InstallError::UnknownFamily);
        },
    };
    Ok(
        HostManifest {
            name: host_name.to_owned(),
            description: description.to_owned(),
            path: exe_path.to_owned(),
            ty: "stdio".to_owned(),
            allowed,
        },
    )
}

/// What the checks read of a manifest's JSON.
#[derive(Debug)]
pub struct ManifestShape {
    /// The manifest is a JSON object; the other fields are empty otherwise.
    pub is_object: bool,
    /// `name`, if it is a string.
    pub name: Option<String>,
    /// `type`, if it is a string.
    pub ty: Option<String>,
    /// `path`, if it is a string.
    pub path: Option<String>,
    /// `allowed_origins` is present.
    pub has_origins: bool,
    /// `allowed_origins` is an array.
    pub origins_is_array: bool,
    /// `allowed_extensions` is present.
    pub has_extensions: bool,
    /// `allowed_extensions` is an array.
    pub extensions_is_array: bool,
}

/// A manifest fit for a browser of the family named `family`: an object with
/// the expected `name`, `type` "stdio", a string `path` (absolute on macOS and
/// Linux), and the family's allow-list as an array without the other family's.
pub open spec fn manifest_valid(shape: ManifestShape, family: Seq<char>, expected_name: Seq<char>, os: Os) -> bool {
    &&& shape.is_object
    &&& shape.name matches Some(n) && n@ == expected_name
    &&& shape.ty matches Some(t) && t@ == "stdio"@
    &&& shape.path is Some
    &&& match family_spec(family) {
        Some(Family::Chromium) => shape.origins_is_array && !shape.has_extensions,
        Some(Family::Firefox) => shape.extensions_is_array && !shape.has_origins,
        None => false,
    }
    &&& requires_absolute(os) ==> is_absolute_spec(shape.path->0@)
}

/// Whether a found manifest is fit for a browser of the family named `family`
/// and for the host `expected_name`.
pub fn validate_manifest(shape: &ManifestShape, family: &str, expected_name: &str, os: Os) -> (r: bool)
    ensures
        r == manifest_valid(*shape, family@, expected_name@, os),
{
    if !shape.is_object {
        return false;
    }
    match &shape.name {
        Some(n) => {
            if !text_eq(n.as_str(), expected_name) {
                return false;
            }
        },
        None => {
            return false;
        },
    }
    match &shape.ty {
        Some(t) => {
            if !text_eq(t.as_str(), "stdio") {
                return false;
            }
        },
        None => {
            return false;
        },
    }
    let path = match &shape.path {
        Some(p) => p,
        None => {
            return false;
        },
    };
    match family_of(family) {
        Some(Family::Chromium) => {
            if !shape.origins_is_array || shape.has_extensions {
                return false;
            }
        },
        Some(Family::Firefox) => {
            if !shape.extensions_is_array || shape.has_origins {
                return false;
            }
        },
        None => {
            return false;
        },
    }
    if (os == Os::MacOs || os == Os::Linux) && !starts_with_char(path.as_str(), '/') {
        return false;
    }
    true
}

/// The text of the member `key`, if it is a string.
pub open spec fn str_member(m: Map<Seq<char>, MemberKind>, key: Seq<char>) -> Option<Seq<char>> {
    if m.contains_key(key) {
        match m[key] {
            MemberKind::Str(t) => Some(t),
            _ => None,
        }
    } else {
        None
    }
}

/// The member `key` is an array.
pub open spec fn array_member(m: Map<Seq<char>, MemberKind>, key: Seq<char>) -> bool {
    m.contains_key(key) && m[key] == MemberKind::Array
}

/// The view of an optional text.
pub open spec fn opt_text(o: Option<String>) -> Option<Seq<char>> {
    match o {
        Some(s) => Some(s@),
        None => None,
    }
}

/// `shape` is what the checks read of the JSON value `k`.
pub open spec fn shape_of(shape: ManifestShape, k: JsonKind) -> bool {
    match k {
        JsonKind::Object(m) => {
            &&& shape.is_object
            &&& opt_text(shape.name) == str_member(m, "name"@)
            &&& opt_text(shape.ty) == str_member(m, "type"@)
            &&& opt_text(shape.path) == str_member(m, "path"@)
            &&& shape.has_origins == m.contains_key("allowed_origins"@)
            &&& shape.origins_is_array == array_member(m, "allowed_origins"@)
            &&& shape.has_extensions == m.contains_key("allowed_extensions"@)
            &&& shape.extensions_is_array == array_member(m, "allowed_extensions"@)
        },
        _ => {
            &&& !shape.is_object
            &&& shape.name is None && shape.ty is None && shape.path is None
            &&& !shape.has_origins && !shape.origins_is_array
            &&& !shape.has_extensions && !shape.extensions_is_array
        },
    }
}

/// A parsed manifest fit for a browser of the family named `family`, stated
/// over the JSON value itself (see `manifest_valid`).
pub open spec fn json_manifest_valid(k: JsonKind, family: Seq<char>, expected_name: Seq<char>, os: Os) -> bool {
    match k {
        JsonKind::Object(m) => {
            &&& str_member(m, "name"@) == Some(expected_name)
            &&& str_member(m, "type"@) == Some("stdio"@)
            &&& str_member(m, "path"@) is Some
            &&& match family_spec(family) {
                Some(Family::Chromium) => array_member(m, "allowed_origins"@) && !m.contains_key(
                    "allowed_extensions"@,
                ),
                Some(Family::Firefox) => array_member(m, "allowed_extensions"@) && !m.contains_key(
                    "allowed_origins"@,
                ),
                None => false,
            }
            &&& requires_absolute(os) ==> is_absolute_spec(str_member(m, "path"@)->0)
        },
        _ => false,
    }
}

/// A string member of a JSON object.
fn str_field(m: &serde_json::Map<String, Value>, key: &str) -> (r: Option<String>)
    ensures
        opt_text(r) == str_member(json_members(*m), key@),
{
    match json_get(m, key) {
        Some(v) => match json_as_str(v) {
            Some(s) => Some(s.to_owned()),
            None => None,
        },
        None => None,
    }
}

/// Whether the member `key` of a JSON object is an array.
fn array_field(m: &serde_json::Map<String, Value>, key: &str) -> (r: bool)
    ensures
        r == array_member(json_members(*m), key@),
{
    match json_get(m, key) {
        Some(x) => json_is_array(x),
        None => false,
    }
}

/// Reads what the checks need of a parsed manifest.
fn manifest_shape(v: &Value) -> (r: ManifestShape)
    ensures
        shape_of(r, json_kind(*v)),
{
    let m = match json_as_object(v) {
        Some(m) => m,
        None => {
            return ManifestShape {
                is_object: false,
                name: None,
                ty: None,
                path: None,
                has_origins: false,
                origins_is_array: false,
                has_extensions: false,
                extensions_is_array: false,
            };
        },
    };
    ManifestShape {
        is_object: true,
        name: str_field(m, "name"),
        ty: str_field(m, "type"),
        path: str_field(m, "path"),
        has_origins: json_contains_key(m, "allowed_origins"),
        origins_is_array: array_field(m, "allowed_origins"),
        has_extensions: json_contains_key(m, "allowed_extensions"),
        extensions_is_array: array_field(m, "allowed_extensions"),
    }
}

/// Checks the text of a found manifest: text that does not parse as JSON is an
/// error; a parsed manifest is judged by `json_manifest_valid`, the rule of
/// `validate_manifest` applied to what was parsed.
pub fn check_manifest_text(data: &str, family: &str, expected_name: &str, os: Os) -> (r: Result<bool, InstallError>)
    ensures
        r is Err <==> parsed_json(data@) is None,
        r is Err ==> r == Err::<bool, InstallError>(InstallError::InvalidManifestJson),
        r is Ok ==> r->Ok_0 == json_manifest_valid(parsed_json(data@)->0, family@, expected_name@, os),
{
    let v: Value = match parse_json_value(data) {
        Ok(v) => v,
        Err(_) => {
            return Err(InstallError::InvalidManifestJson);
        },
    };
    let shape = manifest_shape(&v);
    Ok(validate_manifest(&shape, family, expected_name, os))
}

} // verus!
