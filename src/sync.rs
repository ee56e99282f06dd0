//! Create-if-absent for one resource: the decisions between the cluster calls
//! of a lookup, a render and a create.
use vstd::prelude::*;

use crate::error::ControllerError;
use crate::plan::EnsureOp;
use crate::resource::TemplateKind;

verus! {

/// How an ensure ended when it did not fail.
#[derive(Clone, Copy, Debug, PartialEq, Eq, Structural)]
pub enum EnsureOutcome {
    /// The resource was there already and is left as it is.
    Existing,
    /// The renderer gave no manifest: the feature is switched off.
    Disabled,
    /// The resource was created.
    Created,
}

/// What to do next in an ensure.
pub enum EnsureNext {
    /// Ask the renderer for this template's manifest for the owning
    /// deployment of this name.
    Render(TemplateKind, String),
    /// Read this manifest and create the resource from it.
    Create(String),
    /// The ensure is over.
    Done(Result<EnsureOutcome, ControllerError>),
}

/// After looking the resource of `op` up by name. Any failed lookup counts
/// as absent.
pub fn after_lookup(found: bool, op: &EnsureOp) -> (r: EnsureNext)
    ensures
        r == after_lookup_spec(found, *op),
{
    if found {
        EnsureNext::Done(Ok(EnsureOutcome::Existing))
    } else {
        EnsureNext::Render(op.template, op.owner.clone())
    }
}

/// After the renderer answered.
pub fn after_render(rendered: Result<Option<String>, ControllerError>) -> (r: EnsureNext)
    ensures
        r == after_render_spec(rendered),
{
    match rendered {
        Ok(Some(m)) => EnsureNext::Create(m),
        Ok(None) => EnsureNext::Done(Ok(EnsureOutcome::Disabled)),
        Err(e) => EnsureNext::Done(Err(e)),
    }
}

/// After reading the manifest and creating the resource; a create that
/// finds the resource already there counts as success.
pub fn after_create(created: Result<(), ControllerError>) -> (r: Result<EnsureOutcome, ControllerError>)
    ensures
        match created {
            Ok(()) => r == Ok::<EnsureOutcome, ControllerError>(EnsureOutcome::Created),
            Err(e) => r == Err::<EnsureOutcome, ControllerError>(e),
        },
{
    match created {
        Ok(()) => Ok(EnsureOutcome::Created),
        Err(e) => Err(e),
    }
}

/// Whether an ensure issues a create call: after a lookup that found or did
/// not find the resource, and a render with this answer.
pub open spec fn issues_create(
    found: bool,
    op: EnsureOp,
    rendered: Result<Option<String>, ControllerError>,
) -> bool {
    after_lookup_spec(found, op) is Render && after_render_spec(rendered) is Create
}

/// A resource that was found is kept; an absent one is rendered from the
/// op's template for the op's owner.
pub open spec fn after_lookup_spec(found: bool, op: EnsureOp) -> EnsureNext {
    if found {
        EnsureNext::Done(Ok(EnsureOutcome::Existing))
    } else {
        EnsureNext::Render(op.template, op.owner)
    }
}

pub open spec fn after_render_spec(rendered: Result<Option<String>, ControllerError>) -> EnsureNext {
    match rendered {
        Ok(Some(m)) => EnsureNext::Create(m),
        Ok(None) => EnsureNext::Done(Ok(EnsureOutcome::Disabled)),
        Err(e) => EnsureNext::Done(Err(e)),
    }
}

/// Ensuring one resource twice with the same renderer answer issues at most
/// one create: once the first run has created it, the second finds it. It
/// issues exactly one where the resource was absent and a manifest came.
pub proof fn lemma_ensure_twice_creates_once(
    found: bool,
    op: EnsureOp,
    rendered: Result<Option<String>, ControllerError>,
)
    ensures
        ({
            let first = issues_create(found, op, rendered);
            let second = issues_create(found || first, op, rendered);
            &&& !(first && second)
            &&& (first || second) <==> (!found && rendered matches Ok(Some(_)))
        }),
{
}

} // verus!
