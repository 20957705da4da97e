use vstd::prelude::*;

use crate::model::{Deployment, ObjectMeta, Pod, StatefulSet};
use crate::text::{
    count_or_default, count_or_zero, decimal, decimal_string, text_or, text_or_default,
    text_or_empty,
};
use crate::time::{age_of, project_age, Timestamp};

verus! {

/// The update strategy reported for a stateful set that names none.
pub const DEFAULT_UPDATE_STRATEGY: &'static str = "RollingUpdate";

/// One row of the pod table.
#[derive(Clone, Debug, PartialEq, Eq)]
pub struct PodInfo {
    pub name: String,
    pub namespace: String,
    pub status: String,
    pub age: i64,
    pub restarts: i32,
    pub ip: String,
    pub node: String,
}

/// One row of the deployment table; `ready` reads "ready/desired".
#[derive(Clone, Debug, PartialEq, Eq)]
pub struct DeploymentInfo {
    pub name: String,
    pub namespace: String,
    pub ready: String,
    pub age: i64,
}

/// One row of the stateful set table.
#[derive(Clone, Debug, PartialEq, Eq)]
pub struct StsInfo {
    pub name: String,
    pub namespace: String,
    pub replicas: i32,
    pub ready_replicas: i32,
    pub update_strategy: String,
    pub age: i64,
}

/// One row of the daemon set or service table.
#[derive(Clone, Debug, PartialEq, Eq)]
pub struct DsInfo {
    pub name: String,
    pub age: i64,
}

pub struct PodInfoView {
    pub name: Seq<char>,
    pub namespace: Seq<char>,
    pub status: Seq<char>,
    pub age: int,
    pub restarts: i32,
    pub ip: Seq<char>,
    pub node: Seq<char>,
}

pub struct DeploymentInfoView {
    pub name: Seq<char>,
    pub namespace: Seq<char>,
    pub ready: Seq<char>,
    pub age: int,
}

pub struct StsInfoView {
    pub name: Seq<char>,
    pub namespace: Seq<char>,
    pub replicas: i32,
    pub ready_replicas: i32,
    pub update_strategy: Seq<char>,
    pub age: int,
}

pub struct DsInfoView {
    pub name: Seq<char>,
    pub age: int,
}

impl View for PodInfo {
    type V = PodInfoView;

    open spec fn view(&self) -> PodInfoView {
        PodInfoView {
            name: self.name@,
            namespace: self.namespace@,
            status: self.status@,
            age: self.age as int,
            restarts: self.restarts,
            ip: self.ip@,
            node: self.node@,
        }
    }
}

impl View for DeploymentInfo {
    type V = DeploymentInfoView;

    open spec fn view(&self) -> DeploymentInfoView {
        DeploymentInfoView {
            name: self.name@,
            namespace: self.namespace@,
            ready: self.ready@,
            age: self.age as int,
        }
    }
}

impl View for StsInfo {
    type V = StsInfoView;

    open spec fn view(&self) -> StsInfoView {
        StsInfoView {
            name: self.name@,
            namespace: self.namespace@,
            replicas: self.replicas,
            ready_replicas: self.ready_replicas,
            update_strategy: self.update_strategy@,
            age: self.age as int,
        }
    }
}

impl View for DsInfo {
    type V = DsInfoView;

    open spec fn view(&self) -> DsInfoView {
        DsInfoView { name: self.name@, age: self.age as int }
    }
}

/// The restart count of a pod's first container, zero when it reports none.
pub open spec fn first_restart_count(p: Pod) -> i32 {
    match p.status {
        Some(s) => match s.container_statuses {
            Some(cs) => if cs@.len() > 0 {
                cs@[0].restart_count
            } else {
                0
            },
            None => 0,
        },
        None => 0,
    }
}

/// The summary row of a pod at `now`.
pub open spec fn pod_summary(p: Pod, now: Timestamp) -> PodInfoView {
    PodInfoView {
        name: text_or_empty(p.metadata.name),
        namespace: text_or_empty(p.metadata.namespace),
        status: match p.status {
            Some(s) => text_or_empty(s.phase),
            None => Seq::empty(),
        },
        age: age_of(p.metadata.creation_timestamp, now),
        restarts: first_restart_count(p),
        ip: match p.status {
            Some(s) => text_or_empty(s.pod_ip),
            None => Seq::empty(),
        },
        node: match p.spec {
            Some(s) => text_or_empty(s.node_name),
            None => Seq::empty(),
        },
    }
}

/// Ready replicas of a deployment, zero when unreported.
pub open spec fn deployment_ready(d: Deployment) -> i32 {
    match d.status {
        Some(s) => count_or_zero(s.ready_replicas),
        None => 0,
    }
}

/// Desired replicas of a deployment, zero when unset.
pub open spec fn deployment_desired(d: Deployment) -> i32 {
    match d.spec {
        Some(s) => count_or_zero(s.replicas),
        None => 0,
    }
}

/// The "ready/desired" text of two counts.
pub open spec fn ready_text(ready: int, desired: int) -> Seq<char> {
    decimal(ready) + seq!['/'] + decimal(desired)
}

/// The summary row of a deployment at `now`.
pub open spec fn deployment_summary(d: Deployment, now: Timestamp) -> DeploymentInfoView {
    DeploymentInfoView {
        name: text_or_empty(d.metadata.name),
        namespace: text_or_empty(d.metadata.namespace),
        ready: ready_text(deployment_ready(d) as int, deployment_desired(d) as int),
        age: age_of(d.metadata.creation_timestamp, now),
    }
}

/// The update strategy of a stateful set, `RollingUpdate` when unset.
pub open spec fn update_strategy_of(s: StatefulSet) -> Seq<char> {
    match s.spec {
        Some(spec) => match spec.update_strategy {
            Some(u) => match u.strategy_type {
                Some(t) => t@,
                None => DEFAULT_UPDATE_STRATEGY@,
            },
            None => DEFAULT_UPDATE_STRATEGY@,
        },
        None => DEFAULT_UPDATE_STRATEGY@,
    }
}

/// The summary row of a stateful set at `now`.
pub open spec fn stateful_set_summary(s: StatefulSet, now: Timestamp) -> StsInfoView {
    StsInfoView {
        name: text_or_empty(s.metadata.name),
        namespace: text_or_empty(s.metadata.namespace),
        replicas: match s.spec {
            Some(spec) => count_or_zero(spec.replicas),
            None => 0,
        },
        ready_replicas: match s.status {
            Some(st) => count_or_zero(st.ready_replicas),
            None => 0,
        },
        update_strategy: update_strategy_of(s),
        age: age_of(s.metadata.creation_timestamp, now),
    }
}

/// The name-and-age row of a daemon set or service at `now`.
pub open spec fn minimal_summary(m: ObjectMeta, now: Timestamp) -> DsInfoView {
    DsInfoView { name: text_or_empty(m.name), age: age_of(m.creation_timestamp, now) }
}

/// Writes the "ready/desired" text of two replica counts.
pub fn format_ready(ready: i32, desired: i32) -> (r: String)
    ensures
        r@ == ready_text(ready as int, desired as int),
{
    let ready_digits = decimal_string(ready);
    let desired_digits = decimal_string(desired);
    proof {
        reveal_strlit("/");
    }
    let with_slash = ready_digits.concat("/");
    with_slash.concat(desired_digits.as_str())
}

/// Projects a pod to its summary row.
pub fn project_pod(pod: &Pod, now: Timestamp) -> (r: PodInfo)
    requires
        now.wf(),
        pod.metadata.wf(),
    ensures
        r@ == pod_summary(*pod, now),
{
    let (status, ip, restarts) = match &pod.status {
        Some(s) => {
            let restarts = match &s.container_statuses {
                Some(cs) => if cs.len() > 0 {
                    cs[0].restart_count
                } else {
                    0
                },
                None => 0,
            };
            (text_or_default(&s.phase), text_or_default(&s.pod_ip), restarts)
        },
        None => (String::new(), String::new(), 0),
    };
    let node = match &pod.spec {
        Some(s) => text_or_default(&s.node_name),
        None => String::new(),
    };
    PodInfo {
        name: text_or_default(&pod.metadata.name),
        namespace: text_or_default(&pod.metadata.namespace),
        status,
        age: project_age(pod.metadata.creation_timestamp, now),
        restarts,
        ip,
        node,
    }
}

/// Projects a deployment to its summary row.
pub fn project_deployment(deployment: &Deployment, now: Timestamp) -> (r: DeploymentInfo)
    requires
        now.wf(),
        deployment.metadata.wf(),
    ensures
        r@ == deployment_summary(*deployment, now),
{
    let ready = match &deployment.status {
        Some(s) => count_or_default(s.ready_replicas),
        None => 0,
    };
    let desired = match &deployment.spec {
        Some(s) => count_or_default(s.replicas),
        None => 0,
    };
    DeploymentInfo {
        name: text_or_default(&deployment.metadata.name),
        namespace: text_or_default(&deployment.metadata.namespace),
        ready: format_ready(ready, desired),
        age: project_age(deployment.metadata.creation_timestamp, now),
    }
}

/// Projects a stateful set to its summary row.
pub fn project_stateful_set(sts: &StatefulSet, now: Timestamp) -> (r: StsInfo)
    requires
        now.wf(),
        sts.metadata.wf(),
    ensures
        r@ == stateful_set_summary(*sts, now),
{
    let (replicas, update_strategy) = match &sts.spec {
        Some(spec) => {
            let strategy = match &spec.update_strategy {
                Some(u) => text_or(&u.strategy_type, DEFAULT_UPDATE_STRATEGY),
                None => String::from_str(DEFAULT_UPDATE_STRATEGY),
            };
            (count_or_default(spec.replicas), strategy)
        },
        None => (0, String::from_str(DEFAULT_UPDATE_STRATEGY)),
    };
    let ready_replicas = match &sts.status {
        Some(st) => count_or_default(st.ready_replicas),
        None => 0,
    };
    StsInfo {
        name: text_or_default(&sts.metadata.name),
        namespace: text_or_default(&sts.metadata.namespace),
        replicas,
        ready_replicas,
        update_strategy,
        age: project_age(sts.metadata.creation_timestamp, now),
    }
}

/// Projects a daemon set or service, by its metadata, to a name-and-age row.
pub fn project_minimal(metadata: &ObjectMeta, now: Timestamp) -> (r: DsInfo)
    requires
        now.wf(),
        metadata.wf(),
    ensures
        r@ == minimal_summary(*metadata, now),
{
    DsInfo {
        name: text_or_default(&metadata.name),
        age: project_age(metadata.creation_timestamp, now),
    }
}

} // verus!
