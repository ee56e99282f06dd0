//! The deployment's identity and the resources that it owns.
use vstd::prelude::*;

use crate::error::ControllerError;

verus! {

/// The identity fields of a deployment resource, as the controller reads
/// them. Everything else in the resource goes to the renderer unread.
pub struct Deployment {
    pub name: Option<String>,
    pub namespace: Option<String>,
    /// The resource's kind, as named in error messages.
    pub kind: String,
}

/// The cluster resource kinds that a deployment owns.
#[derive(Clone, Copy, Debug, PartialEq, Eq, Structural)]
pub enum ResourceKind {
    ConfigMap,
    StatefulSet,
    Service,
    Ingress,
}

/// What the renderer is asked for.
#[derive(Clone, Copy, Debug, PartialEq, Eq, Structural)]
pub enum TemplateKind {
    ZkConfigMap,
    NiFiConfigMap,
    NiFiStatefulSet,
    ZkStatefulSet,
    NiFiService,
    NiFiHeadlessService,
    ZkService,
    ZkHeadlessService,
    Ingress,
}

pub open spec fn is_missing(e: ControllerError, property: Seq<char>, d: Deployment) -> bool {
    match e {
        ControllerError::MissingProperty(p, k) => p@ == property && k@ == d.kind@,
        _ => false,
    }
}

/// The deployment's name, or `MissingProperty("name", kind)`.
pub fn read_name(d: &Deployment) -> (r: Result<String, ControllerError>)
    ensures
        d.name is Some ==> r == Ok::<String, ControllerError>(d.name->0),
        d.name is None ==> (r matches Err(e) && is_missing(e, "name"@, *d)),
{
    match &d.name {
        Some(n) => Ok(n.clone()),
        None => Err(ControllerError::MissingProperty("name".to_owned(), d.kind.clone())),
    }
}

/// The deployment's namespace, or `MissingProperty("namespace", kind)`.
pub fn read_namespace(d: &Deployment) -> (r: Result<String, ControllerError>)
    ensures
        d.namespace is Some ==> r == Ok::<String, ControllerError>(d.namespace->0),
        d.namespace is None ==> (r matches Err(e) && is_missing(e, "namespace"@, *d)),
{
    match &d.namespace {
        Some(n) => Ok(n.clone()),
        None => Err(ControllerError::MissingProperty("namespace".to_owned(), d.kind.clone())),
    }
}

} // verus!
