//! Checking JSON instances against JSON schemas, by the `jsonschema` crate.

use vstd::prelude::*;

use crate::error::SchemaError;
use crate::json::Json;
use crate::text::texts;

verus! {

/// What the `jsonschema` crate reports for `instance` against `schema`, both
/// given as JSON text: `Err` with the message when the schema (or a text that
/// is not JSON) cannot be used, else the messages of every violation, in the
/// order the crate lists them (none when the instance is valid).
pub uninterp spec fn schema_report(schema: Seq<char>, instance: Seq<char>) -> Result<Seq<Seq<char>>, Seq<char>>;

/// Reads both texts with `serde_json::from_str`, compiles the schema with
/// `jsonschema::options().build` and collects the `Display` texts of
/// `Validator::iter_errors` on the instance. Claims: the outcome is the one
/// named by `schema_report` for the two texts. A failure to read either text,
/// or to build the validator, comes back as `Err` with the error's text.
#[verifier::external_body]
fn jsonschema_report(schema: &str, instance: &str) -> (r: Result<Vec<String>, String>)
    ensures
        r is Ok <==> schema_report(schema@, instance@) is Ok,
        r matches Ok(v) ==> (schema_report(schema@, instance@) matches Ok(errs) && errs == texts(v@)),
        r matches Err(e) ==> (schema_report(schema@, instance@) matches Err(m) && m == e@),
{
    let schema: serde_json::Value = serde_json::from_str(schema).map_err(|e| e.to_string())?;
    let instance: serde_json::Value = serde_json::from_str(instance).map_err(|e| e.to_string())?;
    let validator = jsonschema::options().build(&schema).map_err(|e| e.to_string())?;
    Ok(validator.iter_errors(&instance).map(|e| e.to_string()).collect())
}

/// The verdict for a schema report: `Ok` when it lists no violation.
pub open spec fn verdict(report: Result<Seq<Seq<char>>, Seq<char>>) -> Option<SchemaErrorView> {
    match report {
        Err(m) => Some(SchemaErrorView::InvalidSchema(m)),
        Ok(errs) => if errs.len() == 0 {
            None
        } else {
            Some(SchemaErrorView::ValidationFailed(errs))
        },
    }
}

/// The content of a `SchemaError`, as text.
pub enum SchemaErrorView {
    InvalidSchema(Seq<char>),
    ValidationFailed(Seq<Seq<char>>),
}

impl View for SchemaError {
    type V = SchemaErrorView;

    open spec fn view(&self) -> SchemaErrorView {
        match self {
            SchemaError::InvalidSchema(m) => SchemaErrorView::InvalidSchema(m@),
            SchemaError::ValidationFailed(errs) => SchemaErrorView::ValidationFailed(texts(errs@)),
        }
    }
}

/// The outcome of `validate` for a schema and an instance.
pub open spec fn schema_outcome(schema: Seq<char>, instance: Seq<char>) -> Option<SchemaErrorView> {
    verdict(schema_report(schema, instance))
}

/// Turns a report of the `jsonschema` crate into the result of a validation.
pub fn judge(report: Result<Vec<String>, String>) -> (r: Result<(), SchemaError>)
    ensures
        match report {
            Ok(v) => match r {
                Ok(()) => v@.len() == 0,
                Err(e) => v@.len() > 0 && e@ == SchemaErrorView::ValidationFailed(texts(v@)),
            },
            Err(m) => r matches Err(e) && e@ == SchemaErrorView::InvalidSchema(m@),
        },
{
    match report {
        Err(m) => Err(SchemaError::InvalidSchema(m)),
        Ok(errors) => {
            if errors.len() == 0 {
                Ok(())
            } else {
                Err(SchemaError::ValidationFailed(errors))
            }
        },
    }
}

/// Checks `instance` against `schema`: `Ok` when the schema compiles and
/// reports no violation; `InvalidSchema` when it does not compile;
/// `ValidationFailed` with every violation otherwise.
pub fn validate(schema: &Json, instance: &Json) -> (r: Result<(), SchemaError>)
    ensures
        match schema_outcome(schema@, instance@) {
            None => r is Ok,
            Some(e) => r matches Err(err) && err@ == e,
        },
{
    let report = jsonschema_report(schema.as_str(), instance.as_str());
    let r = judge(report);
    proof {
        match schema_report(schema@, instance@) {
            Ok(errs) => {
                assert(errs.len() == 0 ==> r is Ok);
            },
            Err(_) => {},
        }
    }
    r
}

} // verus!
