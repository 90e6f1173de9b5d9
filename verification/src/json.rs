//! JSON documents, held as their text and checked by serde_json.

use vstd::prelude::*;
use vstd::string::StringExecFns;

verus! {

/// What serde_json makes of `text`: `Ok` with the compact serialization of the
/// JSON value it reads (`serde_json::to_string` of the parsed `Value`), or `Err`
/// with the text of the error when `text` is not one JSON value.
pub uninterp spec fn json_compact(text: Seq<char>) -> Result<Seq<char>, Seq<char>>;

/// Reads `text` with `serde_json::from_str` into a `serde_json::Value` and
/// writes it back with `serde_json::to_string`. Claims: the outcome is the one
/// named by `json_compact` for `text`, the error taken by its `Display` text.
#[verifier::external_body]
fn serde_json_compact(text: &str) -> (r: Result<String, String>)
    ensures
        r is Ok <==> json_compact(text@) is Ok,
        r matches Ok(c) ==> (json_compact(text@) matches Ok(t) && t == c@),
        r matches Err(e) ==> (json_compact(text@) matches Err(t) && t == e@),
{
    let value: serde_json::Value = serde_json::from_str(text).map_err(|e| e.to_string())?;
    serde_json::to_string(&value).map_err(|e| e.to_string())
}

/// The text `serde_json::to_string_pretty` writes for the JSON value in `text`
/// (empty when `text` is not JSON).
pub uninterp spec fn json_pretty(text: Seq<char>) -> Seq<char>;

/// Reads `text` with `serde_json::from_str` and writes the value with
/// `serde_json::to_string_pretty`, or gives the empty string when either fails.
/// Claims: the result is the one named by `json_pretty` for `text`.
#[verifier::external_body]
fn serde_json_pretty(text: &str) -> (r: String)
    ensures
        r@ == json_pretty(text@),
{
    serde_json::from_str::<serde_json::Value>(text)
        .and_then(|v| serde_json::to_string_pretty(&v))
        .unwrap_or_default()
}

/// A JSON document, kept as the compact text serde_json writes for it.
#[derive(Debug, Clone)]
pub struct Json {
    text: String,
}

impl View for Json {
    type V = Seq<char>;

    open spec fn view(&self) -> Seq<char> {
        self.text_view()
    }
}

impl Json {
    /// The text of the document.
    pub closed spec fn text_view(&self) -> Seq<char> {
        self.text@
    }

    /// Reads `text` as a JSON document, kept in compact form; serde_json's
    /// error message when `text` is not JSON.
    pub fn parse(text: &str) -> (r: Result<Json, String>)
        ensures
            r is Ok <==> json_compact(text@) is Ok,
            r matches Ok(j) ==> (json_compact(text@) matches Ok(c) && j@ == c),
            r matches Err(e) ==> (json_compact(text@) matches Err(m) && e@ == m),
    {
        match serde_json_compact(text) {
            Ok(c) => Ok(Json { text: c }),
            Err(e) => Err(e),
        }
    }

    /// The JSON `null` value.
    pub fn null() -> (j: Json)
        ensures
            j@ == "null"@,
    {
        Json { text: String::from_str("null") }
    }

    /// The document, pretty-printed.
    pub fn to_pretty_string(&self) -> (s: String)
        ensures
            s@ == json_pretty(self@),
    {
        serde_json_pretty(self.text.as_str())
    }

    /// The text of the document.
    pub fn as_str(&self) -> (s: &str)
        ensures
            s@ == self@,
    {
        self.text.as_str()
    }
}

/// Reads the input given for an invocation as a JSON document, kept in
/// compact form; when it is not JSON, serde_json's message after
/// `invalid JSON input: `.
pub fn parse_input(text: &str) -> (r: Result<Json, String>)
    ensures
        r is Ok <==> json_compact(text@) is Ok,
        r matches Ok(j) ==> (json_compact(text@) matches Ok(c) && j@ == c),
        r matches Err(e) ==> (json_compact(text@) matches Err(m) && e@ == "invalid JSON input: "@ + m),
{
    match serde_json_compact(text) {
        Ok(c) => Ok(Json { text: c }),
        Err(e) => {
            let mut m = String::from_str("invalid JSON input: ");
            m.append(e.as_str());
            Err(m)
        },
    }
}

} // verus!
