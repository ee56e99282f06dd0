//! The controller's closed set of errors, and the text that a status shows
//! for each.
use vstd::prelude::*;
use vstd::string::StringExecFns;

verus! {

/// Why one reconciliation attempt failed.
pub enum ControllerError {
    /// A required identity field (first) of a resource of some kind (second)
    /// is absent.
    MissingProperty(String, String),
    /// A configuration value that the renderer needs is not set.
    MissingTemplateParameter(String),
    /// A rendered manifest could not be read; the text says why.
    ManifestParse(String),
    /// A call to the cluster API failed; the text is the API's own.
    Upstream(String),
}

/// What `{:?}` writes for a string: the text in double quotes, with escapes.
pub uninterp spec fn debug_quoted(s: Seq<char>) -> Seq<char>;

/// Relies on std's `Debug` for `str` through `format!("{:?}")`: the quoted
/// form depends on the characters alone.
#[verifier::external_body]
fn quoted(s: &str) -> (r: String)
    ensures
        r@ == debug_quoted(s@),
{
    format!("{:?}", s)
}

pub open spec fn missing_property_text(property: Seq<char>, kind: Seq<char>) -> Seq<char> {
    "Property "@ + debug_quoted(property) + " for "@ + kind + " resource is missing"@
}

pub open spec fn missing_parameter_text(parameter: Seq<char>) -> Seq<char> {
    "Template parameter "@ + debug_quoted(parameter)
        + " is not specified in the resource nor in Kubefi-deployment controller config"@
}

impl ControllerError {
    /// The text that a status shows for this error.
    pub open spec fn text(&self) -> Seq<char> {
        match self {
            ControllerError::MissingProperty(p, k) => missing_property_text(p@, k@),
            ControllerError::MissingTemplateParameter(p) => missing_parameter_text(p@),
            ControllerError::ManifestParse(m) => m@,
            ControllerError::Upstream(m) => m@,
        }
    }

    pub fn message(&self) -> (r: String)
        ensures
            r@ == self.text(),
    {
        match self {
            ControllerError::MissingProperty(p, k) => {
                let mut s = "Property ".to_owned();
                s.append(quoted(p.as_str()).as_str());
                s.append(" for ");
                s.append(k.as_str());
                s.append(" resource is missing");
                s
            },
            ControllerError::MissingTemplateParameter(p) => {
                let mut s = "Template parameter ".to_owned();
                s.append(quoted(p.as_str()).as_str());
                s.append(
                    " is not specified in the resource nor in Kubefi-deployment controller config",
                );
                s
            },
            ControllerError::ManifestParse(m) => m.clone(),
            ControllerError::Upstream(m) => m.clone(),
        }
    }

    pub fn clone_error(&self) -> (r: ControllerError)
        ensures
            r == *self,
    {
        match self {
            ControllerError::MissingProperty(p, k) => ControllerError::MissingProperty(
                p.clone(),
                k.clone(),
            ),
            ControllerError::MissingTemplateParameter(p) => ControllerError::MissingTemplateParameter(
                p.clone(),
            ),
            ControllerError::ManifestParse(m) => ControllerError::ManifestParse(m.clone()),
            ControllerError::Upstream(m) => ControllerError::Upstream(m.clone()),
        }
    }
}

/// How a cluster API call failed: the HTTP status where the API answered
/// with one, and the API's text.
pub struct ApiFailure {
    pub status: Option<u16>,
    pub message: String,
}

pub const CONFLICT: u16 = 409;

pub const NOT_FOUND: u16 = 404;

/// The result of a call whose failure with status `tolerated` counts as
/// success; any other failure is an `Upstream` error with the API's text.
pub open spec fn call_result(r: Result<(), ApiFailure>, tolerated: u16) -> Result<(), ControllerError> {
    match r {
        Ok(()) => Ok(()),
        Err(f) => if f.status == Some(tolerated) {
            Ok(())
        } else {
            Err(ControllerError::Upstream(f.message))
        },
    }
}

/// The result of a create call: a resource that is there already counts as
/// created.
pub fn create_result(r: Result<(), ApiFailure>) -> (out: Result<(), ControllerError>)
    ensures
        out == call_result(r, CONFLICT),
{
    match r {
        Ok(()) => Ok(()),
        Err(f) => if f.status == Some(CONFLICT) {
            Ok(())
        } else {
            Err(ControllerError::Upstream(f.message))
        },
    }
}

/// The result of a delete call: a resource that is gone already counts as
/// deleted, so that deletion can be repeated.
pub fn delete_result(r: Result<(), ApiFailure>) -> (out: Result<(), ControllerError>)
    ensures
        out == call_result(r, NOT_FOUND),
{
    match r {
        Ok(()) => Ok(()),
        Err(f) => if f.status == Some(NOT_FOUND) {
            Ok(())
        } else {
            Err(ControllerError::Upstream(f.message))
        },
    }
}

} // verus!
