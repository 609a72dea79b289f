use serde_json::Value;
use vstd::prelude::*;

use crate::error::Error;

verus! {

/// serde_json's JSON document type, carried through the library as it is.
#[verifier::external_type_specification]
#[verifier::external_body]
pub struct ExJsonValue(Value);

/// `Clone` of `serde_json::Value`, which serde_json derives: the clone is a
/// value equal to the original.
pub assume_specification[ <Value as Clone>::clone ](value: &Value) -> (r: Value)
    ensures
        r == *value,
;

/// The text of the string field `key` of the JSON document `document`, as
/// serde_json reads it; `None` when the document is not an object, has no
/// field `key`, or that field is not a JSON string.
pub uninterp spec fn json_str_field(document: Value, key: Seq<char>) -> Option<Seq<char>>;

/// `serde_json::Value::get` followed by `Value::as_str`: the text of the
/// string field `key` of `document`, as an owned string. The result is named
/// by `json_str_field`, since it depends on the document and the key alone.
#[verifier::external_body]
fn json_get_str(document: &Value, key: &str) -> (r: Option<String>)
    ensures
        match r {
            Some(s) => json_str_field(*document, key@) == Some(s@),
            None => json_str_field(*document, key@) is None,
        },
{
    match document.get(key) {
        Some(field) => match field.as_str() {
            Some(s) => Some(s.to_string()),
            None => None,
        },
        None => None,
    }
}

/// The format that manifests are upgraded to.
pub const LATEST_MANIFEST_FORMAT: &'static str = "0.2.0";

/// A polywrap manifest of format `0.1.0`, held as its JSON document.
pub struct PolywrapManifest010 {
    pub document: Value,
}

/// A polywrap manifest of format `0.2.0`, held as its JSON document.
pub struct PolywrapManifest020 {
    pub document: Value,
}

/// The manifest of the latest format.
pub type PolywrapManifest = PolywrapManifest020;

impl Clone for PolywrapManifest010 {
    fn clone(&self) -> (r: Self)
        ensures
            r == *self,
    {
        PolywrapManifest010 { document: self.document.clone() }
    }
}

impl Clone for PolywrapManifest020 {
    fn clone(&self) -> (r: Self)
        ensures
            r == *self,
    {
        PolywrapManifest020 { document: self.document.clone() }
    }
}

/// A manifest of any known format.
pub enum AnyManifest {
    PolywrapManifest010(PolywrapManifest010),
    PolywrapManifest020(PolywrapManifest020),
}

impl Clone for AnyManifest {
    fn clone(&self) -> (r: Self)
        ensures
            r == *self,
    {
        match self {
            AnyManifest::PolywrapManifest010(m) => AnyManifest::PolywrapManifest010(m.clone()),
            AnyManifest::PolywrapManifest020(m) => AnyManifest::PolywrapManifest020(m.clone()),
        }
    }
}

/// The text of format `0.1.0`.
pub open spec fn format_010() -> Seq<char> {
    "0.1.0"@
}

/// The text of format `0.2.0`, the latest.
pub open spec fn format_020() -> Seq<char> {
    "0.2.0"@
}

/// Whether `format` names a known manifest format.
pub open spec fn is_known_format(format: Seq<char>) -> bool {
    format == format_010() || format == format_020()
}

/// The manifest of format `format` that holds `document`, if `format` is known.
pub open spec fn spec_from_format(format: Seq<char>, document: Value) -> Option<AnyManifest> {
    if format == format_010() {
        Some(AnyManifest::PolywrapManifest010(PolywrapManifest010 { document }))
    } else if format == format_020() {
        Some(AnyManifest::PolywrapManifest020(PolywrapManifest020 { document }))
    } else {
        None
    }
}

/// The manifest held by the JSON document `value`, read under the format its
/// `format` field names, if that field is a string naming a known format.
pub open spec fn spec_from_json_value(value: Value) -> Option<AnyManifest> {
    match json_str_field(value, "format"@) {
        Some(format) => spec_from_format(format, value),
        None => None,
    }
}

impl AnyManifest {
    /// The format this manifest is in.
    pub open spec fn spec_format(self) -> Seq<char> {
        match self {
            AnyManifest::PolywrapManifest010(_) => format_010(),
            AnyManifest::PolywrapManifest020(_) => format_020(),
        }
    }

    /// The JSON document this manifest holds.
    pub open spec fn spec_document(self) -> Value {
        match self {
            AnyManifest::PolywrapManifest010(m) => m.document,
            AnyManifest::PolywrapManifest020(m) => m.document,
        }
    }

    /// The format of the manifest: `"0.1.0"` or `"0.2.0"`.
    pub fn format(&self) -> (r: String)
        ensures
            r@ == self.spec_format(),
            is_known_format(r@),
    {
        match self {
            AnyManifest::PolywrapManifest010(_) => String::from_str("0.1.0"),
            AnyManifest::PolywrapManifest020(_) => String::from_str("0.2.0"),
        }
    }

    /// The manifest in the latest format. Only a manifest that is already in
    /// the latest format is returned; any other gives a manifest error.
    pub fn get_latest(&self) -> (r: Result<PolywrapManifest, Error>)
        ensures
            r is Ok <==> self is PolywrapManifest020,
            *self matches AnyManifest::PolywrapManifest020(m) ==> r == Ok::<PolywrapManifest, Error>(m),
            r matches Err(e) ==> (e matches Error::ManifestError(msg) && msg@ == "Invalid manifest format"@),
    {
        match self {
            AnyManifest::PolywrapManifest020(m) => Ok(m.clone()),
            _ => Err(Error::ManifestError(String::from_str("Invalid manifest format"))),
        }
    }

    /// The manifest of format `format` that holds `document`, or `None` when
    /// `format` is not a known format.
    pub fn from_format(format: &str, document: Value) -> (r: Option<AnyManifest>)
        ensures
            r == spec_from_format(format@, document),
            r is Some <==> is_known_format(format@),
    {
        let format = String::from_str(format);
        if format == String::from_str("0.1.0") {
            Some(AnyManifest::PolywrapManifest010(PolywrapManifest010 { document }))
        } else if format == String::from_str("0.2.0") {
            Some(AnyManifest::PolywrapManifest020(PolywrapManifest020 { document }))
        } else {
            None
        }
    }

    /// Reads the manifest held by a JSON document: the manifest of the format
    /// that the document's `format` field names, holding the document. The
    /// field must be a string that names a known format.
    pub fn from_json_value(value: Value) -> (r: AnyManifest)
        requires
            json_str_field(value, "format"@) matches Some(f) && is_known_format(f),
        ensures
            Some(r) == spec_from_json_value(value),
    {
        let format = json_get_str(&value, "format").unwrap();
        AnyManifest::from_format(format.as_str(), value).unwrap()
    }

    /// Reads the manifest held by a JSON document, when its `format` field is
    /// a string that names a known format; `None` otherwise.
    pub fn try_from_json_value(value: Value) -> (r: Option<AnyManifest>)
        ensures
            r == spec_from_json_value(value),
            r is Some <==> (json_str_field(value, "format"@) matches Some(f) && is_known_format(f)),
    {
        match json_get_str(&value, "format") {
            Some(format) => {
                if AnyManifest::is_known_format(format.as_str()) {
                    Some(AnyManifest::from_json_value(value))
                } else {
                    None
                }
            },
            None => None,
        }
    }

    /// Whether `format` names a known manifest format.
    pub fn is_known_format(format: &str) -> (r: bool)
        ensures
            r == is_known_format(format@),
    {
        let format = String::from_str(format);
        format == String::from_str("0.1.0") || format == String::from_str("0.2.0")
    }

    /// The JSON document of the manifest.
    pub fn to_json_value(&self) -> (r: Value)
        ensures
            r == self.spec_document(),
    {
        match self {
            AnyManifest::PolywrapManifest010(m) => m.document.clone(),
            AnyManifest::PolywrapManifest020(m) => m.document.clone(),
        }
    }
}

/// A manifest read from a document under a known format reports that
/// format, and turning it back into JSON gives the same document.
pub proof fn lemma_manifest_round_trip(format: Seq<char>, document: Value)
    requires
        is_known_format(format),
    ensures
        spec_from_format(format, document) matches Some(m) && m.spec_format() == format
            && m.spec_document() == document,
{
}

/// A manifest read from a JSON document reports the format that the
/// document's `format` field names, and turning it back into JSON gives the
/// same document; it is read exactly when that field names a known format.
pub proof fn lemma_json_round_trip(value: Value)
    ensures
        spec_from_json_value(value) is Some <==> (json_str_field(value, "format"@) matches Some(f)
            && is_known_format(f)),
        spec_from_json_value(value) matches Some(m) ==> json_str_field(value, "format"@) == Some(
            m.spec_format(),
        ) && m.spec_document() == value,
{
}

/// A manifest has a latest-format version exactly when its format is the
/// latest one.
pub proof fn lemma_latest_iff_latest_format(m: AnyManifest)
    ensures
        (m is PolywrapManifest020) <==> m.spec_format() == format_020(),
{
    reveal_strlit("0.1.0");
    reveal_strlit("0.2.0");
    assert(format_010() != format_020()) by {
        assert(format_010()[2] != format_020()[2]);
    }
}

} // verus!
