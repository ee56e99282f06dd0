//! The tiers of a reconciliation, and how the results of one tier combine.
use vstd::prelude::*;

use crate::error::ControllerError;
use crate::naming::{
    config_suffix, headless_service_name, headless_suffix, ingress_name, ingress_suffix,
    nifi_configmap_name, nifi_set_name, zk_configmap_name, zk_headless_service_name,
    zk_headless_suffix, zk_service_name, zk_set_name, zk_suffix,
};
use crate::resource::{ResourceKind, TemplateKind};

verus! {

/// One create-if-absent: the resource's kind and name, and what to render
/// for it, for which owning deployment, when it is absent.
pub struct EnsureOp {
    pub kind: ResourceKind,
    pub name: String,
    pub template: TemplateKind,
    pub owner: String,
}

impl View for EnsureOp {
    type V = (ResourceKind, Seq<char>, TemplateKind, Seq<char>);

    open spec fn view(&self) -> Self::V {
        (self.kind, self.name@, self.template, self.owner@)
    }
}

pub const LAST_TIER: u8 = 3;

/// The operations of a tier for the deployment `name`: ConfigMaps first,
/// then StatefulSets, then Services and the Ingress.
pub open spec fn tier_plan(tier: int, name: Seq<char>) -> Seq<(ResourceKind, Seq<char>, TemplateKind, Seq<char>)> {
    if tier == 1 {
        seq![
            (ResourceKind::ConfigMap, name + zk_suffix(), TemplateKind::ZkConfigMap, name),
            (ResourceKind::ConfigMap, name + config_suffix(), TemplateKind::NiFiConfigMap, name),
        ]
    } else if tier == 2 {
        seq![
            (ResourceKind::StatefulSet, name, TemplateKind::NiFiStatefulSet, name),
            (ResourceKind::StatefulSet, name + zk_suffix(), TemplateKind::ZkStatefulSet, name),
        ]
    } else {
        seq![
            (ResourceKind::Service, name, TemplateKind::NiFiService, name),
            (ResourceKind::Service, name + headless_suffix(), TemplateKind::NiFiHeadlessService, name),
            (ResourceKind::Service, name + zk_suffix(), TemplateKind::ZkService, name),
            (ResourceKind::Service, name + zk_headless_suffix(), TemplateKind::ZkHeadlessService, name),
            (ResourceKind::Ingress, name + ingress_suffix(), TemplateKind::Ingress, name),
        ]
    }
}

pub open spec fn ops_view(ops: Seq<EnsureOp>) -> Seq<(ResourceKind, Seq<char>, TemplateKind, Seq<char>)> {
    ops.map_values(|o: EnsureOp| o@)
}

fn op(kind: ResourceKind, name: String, template: TemplateKind, owner: &str) -> (r: EnsureOp)
    ensures
        r@ == (kind, name@, template, owner@),
{
    EnsureOp { kind, name, template, owner: owner.to_owned() }
}

/// The operations of tier `tier` for the deployment `name`.
pub fn tier_ops(tier: u8, name: &str) -> (r: Vec<EnsureOp>)
    requires
        1 <= tier <= LAST_TIER,
    ensures
        ops_view(r@) == tier_plan(tier as int, name@),
{
    let mut v: Vec<EnsureOp> = Vec::new();
    if tier == 1 {
        v.push(op(ResourceKind::ConfigMap, zk_configmap_name(name), TemplateKind::ZkConfigMap, name));
        v.push(op(ResourceKind::ConfigMap, nifi_configmap_name(name), TemplateKind::NiFiConfigMap, name));
    } else if tier == 2 {
        v.push(op(ResourceKind::StatefulSet, nifi_set_name(name), TemplateKind::NiFiStatefulSet, name));
        v.push(op(ResourceKind::StatefulSet, zk_set_name(name), TemplateKind::ZkStatefulSet, name));
    } else {
        v.push(op(ResourceKind::Service, nifi_set_name(name), TemplateKind::NiFiService, name));
        v.push(op(ResourceKind::Service, headless_service_name(name), TemplateKind::NiFiHeadlessService, name));
        v.push(op(ResourceKind::Service, zk_service_name(name), TemplateKind::ZkService, name));
        v.push(op(ResourceKind::Service, zk_headless_service_name(name), TemplateKind::ZkHeadlessService, name));
        v.push(op(ResourceKind::Ingress, ingress_name(name), TemplateKind::Ingress, name));
    }
    assert(ops_view(v@) =~= tier_plan(tier as int, name@));
    v
}

/// The combined result of a set of operations that all ran to completion:
/// success where every one succeeded, else the first failure in order.
pub open spec fn joined(rs: Seq<Result<(), ControllerError>>) -> Result<(), ControllerError>
    decreases rs.len(),
{
    if rs.len() == 0 {
        Ok(())
    } else {
        match rs[0] {
            Err(e) => Err(e),
            Ok(()) => joined(rs.drop_first()),
        }
    }
}

pub open spec fn all_ok(rs: Seq<Result<(), ControllerError>>) -> bool {
    forall|i: int| 0 <= i < rs.len() ==> rs[i] is Ok
}

/// The combined result succeeds exactly where every result does.
pub proof fn lemma_joined_ok(rs: Seq<Result<(), ControllerError>>)
    ensures
        joined(rs) is Ok <==> all_ok(rs),
        joined(rs) is Ok ==> joined(rs) == Ok::<(), ControllerError>(()),
    decreases rs.len(),
{
    if rs.len() > 0 {
        lemma_joined_ok(rs.drop_first());
        if rs[0] is Ok {
            assert forall|i: int| 0 <= i < rs.len() && all_ok(rs.drop_first()) implies rs[i] is Ok by {
                if i > 0 {
                    assert(rs[i] == rs.drop_first()[i - 1]);
                }
            }
            assert forall|i: int| 0 <= i < rs.len() - 1 && all_ok(rs) implies rs.drop_first()[i] is Ok by {
                assert(rs.drop_first()[i] == rs[i + 1]);
            }
        }
    }
}

proof fn lemma_joined_step(rs: Seq<Result<(), ControllerError>>, i: int)
    requires
        0 <= i < rs.len(),
        joined(rs.take(i)) is Ok,
    ensures
        joined(rs.take(i + 1)) == (match rs[i] {
            Ok(()) => Ok::<(), ControllerError>(()),
            Err(e) => Err(e),
        }),
    decreases i,
{
    assert(rs.take(i + 1)[0] == rs[0]);
    if i > 0 {
        assert(rs.take(i)[0] == rs[0]);
        assert(rs.take(i).drop_first() =~= rs.drop_first().take(i - 1));
        assert(rs.take(i + 1).drop_first() =~= rs.drop_first().take(i));
        assert(rs.drop_first()[i - 1] == rs[i]);
        lemma_joined_step(rs.drop_first(), i - 1);
    } else {
        assert(rs.take(1).drop_first() =~= Seq::<Result<(), ControllerError>>::empty());
        reveal_with_fuel(joined, 2);
    }
}

/// Combines the results of a set of operations that all ran: success where
/// every one succeeded, else the first failure.
pub fn join_results(rs: &Vec<Result<(), ControllerError>>) -> (r: Result<(), ControllerError>)
    ensures
        r == joined(rs@),
        r is Ok <==> all_ok(rs@),
{
    proof {
        lemma_joined_ok(rs@);
    }
    let mut i: usize = 0;
    while i < rs.len()
        invariant
            0 <= i <= rs.len(),
            joined(rs@.take(i as int)) == Ok::<(), ControllerError>(()),
        decreases rs.len() - i,
    {
        proof {
            lemma_joined_step(rs@, i as int);
        }
        match &rs[i] {
            Ok(()) => {},
            Err(e) => {
                proof {
                    lemma_joined_prefix(rs@, i as int);
                }
                return Err(e.clone_error());
            },
        }
        i = i + 1;
    }
    assert(rs@.take(i as int) =~= rs@);
    Ok(())
}

proof fn lemma_joined_prefix(rs: Seq<Result<(), ControllerError>>, i: int)
    requires
        0 <= i < rs.len(),
        joined(rs.take(i)) is Ok,
        rs[i] is Err,
    ensures
        joined(rs) == rs[i],
    decreases i,
{
    if i > 0 {
        assert(rs.take(i)[0] == rs[0]);
        assert(rs.take(i).drop_first() =~= rs.drop_first().take(i - 1));
        lemma_joined_prefix(rs.drop_first(), i - 1);
    }
}

} // verus!
