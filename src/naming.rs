//! Names of the resources that belong to a deployment. Drift checks and
//! deletion by name both rely on these exact forms.
use vstd::prelude::*;
use vstd::string::StringExecFns;

verus! {

pub open spec fn zk_suffix() -> Seq<char> {
    "-zookeeper"@
}

pub open spec fn config_suffix() -> Seq<char> {
    "-config"@
}

pub open spec fn headless_suffix() -> Seq<char> {
    "-headless"@
}

pub open spec fn zk_headless_suffix() -> Seq<char> {
    "-zookeeper-headless"@
}

pub open spec fn ingress_suffix() -> Seq<char> {
    "-ingress"@
}

/// `name` followed by `suffix`.
pub fn with_suffix(name: &str, suffix: &str) -> (r: String)
    ensures
        r@ == name@ + suffix@,
{
    name.to_owned().concat(suffix)
}

/// The ZooKeeper ConfigMap, `{name}-zookeeper`.
pub fn zk_configmap_name(name: &str) -> (r: String)
    ensures
        r@ == name@ + zk_suffix(),
{
    with_suffix(name, "-zookeeper")
}

/// The NiFi ConfigMap, `{name}-config`.
pub fn nifi_configmap_name(name: &str) -> (r: String)
    ensures
        r@ == name@ + config_suffix(),
{
    with_suffix(name, "-config")
}

/// The NiFi StatefulSet and the NiFi Service carry the deployment's own name.
pub fn nifi_set_name(name: &str) -> (r: String)
    ensures
        r@ == name@,
{
    name.to_owned()
}

/// The ZooKeeper StatefulSet, `{name}-zookeeper`.
pub fn zk_set_name(name: &str) -> (r: String)
    ensures
        r@ == name@ + zk_suffix(),
{
    with_suffix(name, "-zookeeper")
}

/// The NiFi headless Service, `{name}-headless`.
pub fn headless_service_name(name: &str) -> (r: String)
    ensures
        r@ == name@ + headless_suffix(),
{
    with_suffix(name, "-headless")
}

/// The ZooKeeper Service, `{name}-zookeeper`.
pub fn zk_service_name(name: &str) -> (r: String)
    ensures
        r@ == name@ + zk_suffix(),
{
    with_suffix(name, "-zookeeper")
}

/// The ZooKeeper headless Service, `{name}-zookeeper-headless`.
pub fn zk_headless_service_name(name: &str) -> (r: String)
    ensures
        r@ == name@ + zk_headless_suffix(),
{
    with_suffix(name, "-zookeeper-headless")
}

/// The Ingress, `{name}-ingress`.
pub fn ingress_name(name: &str) -> (r: String)
    ensures
        r@ == name@ + ingress_suffix(),
{
    with_suffix(name, "-ingress")
}

/// The label query that finds every Service, ConfigMap and Ingress that the
/// controller created for a deployment.
pub fn cascade_label_query() -> (r: String)
    ensures
        r@ == "app.kubernetes.io/managed-by=Kubefi,release=nifi"@,
{
    "app.kubernetes.io/managed-by=Kubefi,release=nifi".to_owned()
}

} // verus!
