//! Cascading deletion: both StatefulSets by name, then every Service,
//! ConfigMap and Ingress that carries the controller's labels. Every delete
//! is attempted whatever its siblings did.
use vstd::prelude::*;

use crate::error::ControllerError;
use crate::naming::{nifi_set_name, zk_set_name, zk_suffix};
use crate::plan::{all_ok, join_results, joined, lemma_joined_ok};
use crate::resource::{is_missing, read_name, read_namespace, Deployment, ResourceKind};

verus! {

/// The kinds found by the label query, in the order they are listed.
pub open spec fn labelled_kinds() -> Seq<ResourceKind> {
    seq![ResourceKind::Service, ResourceKind::ConfigMap, ResourceKind::Ingress]
}

/// The kinds that the label query covers, in order.
pub fn cascade_kinds() -> (r: Vec<ResourceKind>)
    ensures
        r@ == labelled_kinds(),
{
    let r = vec![ResourceKind::Service, ResourceKind::ConfigMap, ResourceKind::Ingress];
    assert(r@ =~= labelled_kinds());
    r
}

/// Where a deletion starts: the namespace, then the names of both
/// StatefulSets. The namespace is read before the name.
pub fn begin_delete(d: &Deployment) -> (r: Result<(String, Vec<String>), ControllerError>)
    ensures
        d.namespace is None ==> (r matches Err(e) && is_missing(e, "namespace"@, *d)),
        d.namespace is Some && d.name is None ==> (r matches Err(e) && is_missing(e, "name"@, *d)),
        d.namespace is Some && d.name is Some ==> (r matches Ok((ns, sets)) && ns == d.namespace->0
            && sets@.len() == 2 && sets@[0]@ == (d.name->0)@ && sets@[1]@ == (d.name->0)@
            + zk_suffix()),
{
    let ns = match read_namespace(d) {
        Ok(ns) => ns,
        Err(e) => return Err(e),
    };
    let name = match read_name(d) {
        Ok(n) => n,
        Err(e) => return Err(e),
    };
    let mut sets: Vec<String> = Vec::new();
    sets.push(nifi_set_name(name.as_str()));
    sets.push(zk_set_name(name.as_str()));
    Ok((ns, sets))
}

/// The names that a listing of one kind gave, paired with the kind; none for
/// a listing that failed.
pub open spec fn listed_of(entry: (ResourceKind, Result<Vec<String>, ControllerError>)) -> Seq<(ResourceKind, Seq<char>)> {
    match entry.1 {
        Ok(v) => v@.map_values(|s: String| (entry.0, s@)),
        Err(_) => Seq::empty(),
    }
}

/// Every resource that the listings found, kind by kind in listing order.
pub open spec fn listed_targets(lists: Seq<(ResourceKind, Result<Vec<String>, ControllerError>)>) -> Seq<(ResourceKind, Seq<char>)>
    decreases lists.len(),
{
    if lists.len() == 0 {
        Seq::empty()
    } else {
        listed_targets(lists.drop_last()) + listed_of(lists.last())
    }
}

pub open spec fn targets_view(t: Seq<(ResourceKind, String)>) -> Seq<(ResourceKind, Seq<char>)> {
    t.map_values(|e: (ResourceKind, String)| (e.0, e.1@))
}

/// One delete for each resource that a listing found.
pub fn labelled_targets(lists: &Vec<(ResourceKind, Result<Vec<String>, ControllerError>)>) -> (r: Vec<(ResourceKind, String)>)
    ensures
        targets_view(r@) == listed_targets(lists@),
{
    let mut out: Vec<(ResourceKind, String)> = Vec::new();
    let mut i: usize = 0;
    while i < lists.len()
        invariant
            0 <= i <= lists.len(),
            targets_view(out@) == listed_targets(lists@.take(i as int)),
        decreases lists.len() - i,
    {
        let kind = lists[i].0;
        let ghost before = out@;
        match &lists[i].1 {
            Ok(names) => {
                let mut j: usize = 0;
                while j < names.len()
                    invariant
                        0 <= j <= names.len(),
                        out@.len() == before.len() + j,
                        out@.take(before.len() as int) == before,
                        forall|k: int| 0 <= k < j ==> #[trigger] out@[before.len() + k] == (kind, names@[k]),
                    decreases names.len() - j,
                {
                    out.push((kind, names[j].clone()));
                    proof {
                        assert(out@.take(before.len() as int) =~= before);
                    }
                    j = j + 1;
                }
                proof {
                    assert(lists@.take(i + 1).drop_last() =~= lists@.take(i as int));
                    assert(lists@.take(i + 1).last() == lists@[i as int]);
                    assert(targets_view(out@) =~= targets_view(before) + listed_of(lists@[i as int])) by {
                        assert forall|k: int| 0 <= k < out@.len() implies targets_view(out@)[k] == (targets_view(before) + listed_of(lists@[i as int]))[k] by {
                            if k >= before.len() {
                                assert(out@[before.len() + (k - before.len())] == (kind, names@[k - before.len()]));
                            } else {
                                assert(out@[k] == out@.take(before.len() as int)[k]);
                            }
                        }
                    }
                }
            },
            Err(_) => {
                proof {
                    assert(lists@.take(i + 1).drop_last() =~= lists@.take(i as int));
                    assert(lists@.take(i + 1).last() == lists@[i as int]);
                    assert(listed_of(lists@[i as int]) =~= Seq::<(ResourceKind, Seq<char>)>::empty());
                }
            },
        }
        i = i + 1;
    }
    assert(lists@.take(i as int) =~= lists@);
    out
}

/// What a listing contributes to the outcome: its failure, if it failed.
pub open spec fn listing_result(entry: (ResourceKind, Result<Vec<String>, ControllerError>)) -> Result<(), ControllerError> {
    match entry.1 {
        Ok(_) => Ok(()),
        Err(e) => Err(e),
    }
}

pub open spec fn listing_results(lists: Seq<(ResourceKind, Result<Vec<String>, ControllerError>)>) -> Seq<Result<(), ControllerError>> {
    lists.map_values(|e: (ResourceKind, Result<Vec<String>, ControllerError>)| listing_result(e))
}

/// The outcome of a whole deletion, from the results of the two StatefulSet
/// deletes, of the listings, and of one delete for each resource that the
/// listings found, in the order of `labelled_targets`:
/// success where every call succeeded, else the first failure in that order.
pub fn cascade_result(
    sets: &Vec<Result<(), ControllerError>>,
    lists: &Vec<(ResourceKind, Result<Vec<String>, ControllerError>)>,
    deletes: &Vec<Result<(), ControllerError>>,
) -> (r: Result<(), ControllerError>)
    requires
        sets@.len() == 2,
        deletes@.len() == listed_targets(lists@).len(),
    ensures
        r == joined(sets@ + listing_results(lists@) + deletes@),
        r is Ok <==> (all_ok(sets@) && all_ok(listing_results(lists@)) && all_ok(deletes@)),
{
    let mut all: Vec<Result<(), ControllerError>> = Vec::new();
    let mut i: usize = 0;
    while i < sets.len()
        invariant
            0 <= i <= sets.len(),
            all@ == sets@.take(i as int),
        decreases sets.len() - i,
    {
        all.push(unit_result(&sets[i]));
        proof {
            assert(all@ =~= sets@.take(i + 1));
        }
        i = i + 1;
    }
    let mut i: usize = 0;
    while i < lists.len()
        invariant
            0 <= i <= lists.len(),
            all@ == sets@ + listing_results(lists@).take(i as int),
        decreases lists.len() - i,
    {
        let res: Result<(), ControllerError> = match &lists[i].1 {
            Ok(_) => Ok(()),
            Err(e) => Err(e.clone_error()),
        };
        all.push(res);
        proof {
            assert(all@ =~= sets@ + listing_results(lists@).take(i + 1));
        }
        i = i + 1;
    }
    let mut i: usize = 0;
    while i < deletes.len()
        invariant
            0 <= i <= deletes.len(),
            all@ == sets@ + listing_results(lists@) + deletes@.take(i as int),
        decreases deletes.len() - i,
    {
        all.push(unit_result(&deletes[i]));
        proof {
            assert(all@ =~= sets@ + listing_results(lists@) + deletes@.take(i + 1));
        }
        i = i + 1;
    }
    proof {
        assert(listing_results(lists@).take(lists@.len() as int) =~= listing_results(lists@));
        assert(deletes@.take(deletes@.len() as int) =~= deletes@);
        assert(sets@.take(sets@.len() as int) =~= sets@);
        lemma_all_ok_concat(sets@, listing_results(lists@), deletes@);
    }
    join_results(&all)
}

fn unit_result(r: &Result<(), ControllerError>) -> (out: Result<(), ControllerError>)
    ensures
        out == *r,
{
    match r {
        Ok(u) => Ok(*u),
        Err(e) => Err(e.clone_error()),
    }
}

proof fn lemma_all_ok_concat(
    s: Seq<Result<(), ControllerError>>,
    l: Seq<Result<(), ControllerError>>,
    d: Seq<Result<(), ControllerError>>,
)
    ensures
        all_ok(s + l + d) <==> (all_ok(s) && all_ok(l) && all_ok(d)),
{
    let a = s + l + d;
    if all_ok(a) {
        assert forall|k: int| 0 <= k < s.len() implies s[k] is Ok by {
            assert(a[k] == s[k]);
        }
        assert forall|k: int| 0 <= k < l.len() implies l[k] is Ok by {
            assert(a[s.len() + k] == l[k]);
        }
        assert forall|k: int| 0 <= k < d.len() implies d[k] is Ok by {
            assert(a[s.len() + l.len() + k] == d[k]);
        }
    }
}

/// How many resources the listings found.
pub open spec fn listed_count(lists: Seq<(ResourceKind, Result<Vec<String>, ControllerError>)>) -> nat
    decreases lists.len(),
{
    if lists.len() == 0 {
        0
    } else {
        listed_count(lists.drop_last()) + match lists.last().1 {
            Ok(v) => v@.len(),
            Err(_) => 0,
        }
    }
}

/// A deletion issues one delete for each StatefulSet and one for each
/// resource that a listing found, whatever any other call returned; and it
/// fails exactly where one of its calls failed.
pub proof fn lemma_cascade_attempts_all(
    sets: Seq<Result<(), ControllerError>>,
    lists: Seq<(ResourceKind, Result<Vec<String>, ControllerError>)>,
    deletes: Seq<Result<(), ControllerError>>,
)
    ensures
        listed_targets(lists).len() == listed_count(lists),
        joined(sets + listing_results(lists) + deletes) is Ok <==> (all_ok(sets) && all_ok(
            listing_results(lists),
        ) && all_ok(deletes)),
    decreases lists.len(),
{
    lemma_joined_ok(sets + listing_results(lists) + deletes);
    lemma_all_ok_concat(sets, listing_results(lists), deletes);
    if lists.len() > 0 {
        lemma_cascade_attempts_all(sets, lists.drop_last(), deletes);
    }
}

} // verus!
