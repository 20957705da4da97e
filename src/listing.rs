use vstd::prelude::*;

use crate::model::{Deployment, ObjectMeta, Pod, StatefulSet};
use crate::summary::{
    deployment_summary, minimal_summary, pod_summary, project_deployment, project_minimal,
    project_pod, project_stateful_set, stateful_set_summary, DeploymentInfo, DsInfo, PodInfo,
    StsInfo,
};
use crate::time::Timestamp;

verus! {

/// The names of the objects that have one, in their order.
pub open spec fn present_names(metas: Seq<ObjectMeta>) -> Seq<Seq<char>>
    decreases metas.len(),
{
    if metas.len() == 0 {
        Seq::empty()
    } else {
        let rest = present_names(metas.drop_last());
        match metas.last().name {
            Some(n) => rest.push(n@),
            None => rest,
        }
    }
}

/// Every object's metadata carries a valid creation time, if any.
pub open spec fn all_wf(metas: Seq<ObjectMeta>) -> bool {
    forall|i: int| 0 <= i < metas.len() ==> (#[trigger] metas[i]).wf()
}

/// Projects pods to summary rows, one per pod, in the order given.
pub fn project_pods(pods: &Vec<Pod>, now: Timestamp) -> (r: Vec<PodInfo>)
    requires
        now.wf(),
        forall|i: int| 0 <= i < pods@.len() ==> (#[trigger] pods@[i]).metadata.wf(),
    ensures
        r@.len() == pods@.len(),
        forall|i: int| 0 <= i < pods@.len() ==> (#[trigger] r@[i])@ == pod_summary(pods@[i], now),
{
    let mut out: Vec<PodInfo> = Vec::new();
    let mut i: usize = 0;
    while i < pods.len()
        invariant
            now.wf(),
            forall|k: int| 0 <= k < pods@.len() ==> (#[trigger] pods@[k]).metadata.wf(),
            i <= pods@.len(),
            out@.len() == i,
            forall|k: int| 0 <= k < i ==> (#[trigger] out@[k])@ == pod_summary(pods@[k], now),
        decreases pods@.len() - i,
    {
        out.push(project_pod(&pods[i], now));
        i = i + 1;
    }
    out
}

/// Projects deployments to summary rows, one per deployment, in the order
/// given.
pub fn project_deployments(deployments: &Vec<Deployment>, now: Timestamp) -> (r: Vec<
    DeploymentInfo,
>)
    requires
        now.wf(),
        forall|i: int|
            0 <= i < deployments@.len() ==> (#[trigger] deployments@[i]).metadata.wf(),
    ensures
        r@.len() == deployments@.len(),
        forall|i: int|
            0 <= i < deployments@.len() ==> (#[trigger] r@[i])@ == deployment_summary(
                deployments@[i],
                now,
            ),
{
    let mut out: Vec<DeploymentInfo> = Vec::new();
    let mut i: usize = 0;
    while i < deployments.len()
        invariant
            now.wf(),
            forall|k: int|
                0 <= k < deployments@.len() ==> (#[trigger] deployments@[k]).metadata.wf(),
            i <= deployments@.len(),
            out@.len() == i,
            forall|k: int|
                0 <= k < i ==> (#[trigger] out@[k])@ == deployment_summary(deployments@[k], now),
        decreases deployments@.len() - i,
    {
        out.push(project_deployment(&deployments[i], now));
        i = i + 1;
    }
    out
}

/// Projects stateful sets to summary rows, one per stateful set, in the
/// order given.
pub fn project_stateful_sets(sets: &Vec<StatefulSet>, now: Timestamp) -> (r: Vec<StsInfo>)
    requires
        now.wf(),
        forall|i: int| 0 <= i < sets@.len() ==> (#[trigger] sets@[i]).metadata.wf(),
    ensures
        r@.len() == sets@.len(),
        forall|i: int|
            0 <= i < sets@.len() ==> (#[trigger] r@[i])@ == stateful_set_summary(sets@[i], now),
{
    let mut out: Vec<StsInfo> = Vec::new();
    let mut i: usize = 0;
    while i < sets.len()
        invariant
            now.wf(),
            forall|k: int| 0 <= k < sets@.len() ==> (#[trigger] sets@[k]).metadata.wf(),
            i <= sets@.len(),
            out@.len() == i,
            forall|k: int|
                0 <= k < i ==> (#[trigger] out@[k])@ == stateful_set_summary(sets@[k], now),
        decreases sets@.len() - i,
    {
        out.push(project_stateful_set(&sets[i], now));
        i = i + 1;
    }
    out
}

/// Projects daemon sets or services, by their metadata, to name-and-age
/// rows, one per object, in the order given.
pub fn project_minimals(metas: &Vec<ObjectMeta>, now: Timestamp) -> (r: Vec<DsInfo>)
    requires
        now.wf(),
        all_wf(metas@),
    ensures
        r@.len() == metas@.len(),
        forall|i: int|
            0 <= i < metas@.len() ==> (#[trigger] r@[i])@ == minimal_summary(metas@[i], now),
{
    let mut out: Vec<DsInfo> = Vec::new();
    let mut i: usize = 0;
    while i < metas.len()
        invariant
            now.wf(),
            all_wf(metas@),
            i <= metas@.len(),
            out@.len() == i,
            forall|k: int| 0 <= k < i ==> (#[trigger] out@[k])@ == minimal_summary(metas@[k], now),
        decreases metas@.len() - i,
    {
        out.push(project_minimal(&metas[i], now));
        i = i + 1;
    }
    out
}

/// The names of the namespaces that have one, in the order given; a
/// namespace without a name is skipped.
pub fn namespace_names(namespaces: &Vec<ObjectMeta>) -> (r: Vec<String>)
    ensures
        r@.map_values(|s: String| s@) == present_names(namespaces@),
{
    let mut out: Vec<String> = Vec::new();
    let mut i: usize = 0;
    while i < namespaces.len()
        invariant
            i <= namespaces@.len(),
            out@.map_values(|s: String| s@) == present_names(namespaces@.subrange(0, i as int)),
        decreases namespaces@.len() - i,
    {
        let ghost before = out@;
        proof {
            assert(namespaces@.subrange(0, i + 1).drop_last() =~= namespaces@.subrange(0, i as int));
        }
        match &namespaces[i].name {
            Some(n) => {
                out.push(n.clone());
                assert(out@.map_values(|s: String| s@) =~= before.map_values(|s: String| s@).push(n@));
            },
            None => {},
        }
        i = i + 1;
    }
    assert(namespaces@.subrange(0, namespaces@.len() as int) =~= namespaces@);
    out
}

} // verus!
