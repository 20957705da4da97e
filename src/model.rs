use vstd::prelude::*;

use crate::time::Timestamp;

verus! {

/// The identifying part of a cluster object that the projections read.
#[derive(Clone, Debug, PartialEq, Eq)]
pub struct ObjectMeta {
    pub name: Option<String>,
    pub namespace: Option<String>,
    pub creation_timestamp: Option<Timestamp>,
}

impl ObjectMeta {
    /// The creation time, where present, is a valid timestamp.
    pub open spec fn wf(&self) -> bool {
        self.creation_timestamp matches Some(t) ==> t.wf()
    }
}

/// The observed state of one container of a pod.
#[derive(Clone, Debug, PartialEq, Eq)]
pub struct ContainerStatus {
    pub restart_count: i32,
}

/// The desired state of a pod, as far as the projections read it.
#[derive(Clone, Debug, PartialEq, Eq)]
pub struct PodSpec {
    pub node_name: Option<String>,
}

/// The observed state of a pod, as far as the projections read it.
#[derive(Clone, Debug, PartialEq, Eq)]
pub struct PodStatus {
    pub phase: Option<String>,
    pub pod_ip: Option<String>,
    pub container_statuses: Option<Vec<ContainerStatus>>,
}

/// A pod as returned by the cluster.
#[derive(Clone, Debug, PartialEq, Eq)]
pub struct Pod {
    pub metadata: ObjectMeta,
    pub spec: Option<PodSpec>,
    pub status: Option<PodStatus>,
}

/// The desired state of a deployment.
#[derive(Clone, Debug, PartialEq, Eq)]
pub struct DeploymentSpec {
    pub replicas: Option<i32>,
}

/// The observed state of a deployment.
#[derive(Clone, Debug, PartialEq, Eq)]
pub struct DeploymentStatus {
    pub ready_replicas: Option<i32>,
}

/// A deployment as returned by the cluster.
#[derive(Clone, Debug, PartialEq, Eq)]
pub struct Deployment {
    pub metadata: ObjectMeta,
    pub spec: Option<DeploymentSpec>,
    pub status: Option<DeploymentStatus>,
}

/// How a stateful set replaces its pods.
#[derive(Clone, Debug, PartialEq, Eq)]
pub struct StatefulSetUpdateStrategy {
    pub strategy_type: Option<String>,
}

/// The desired state of a stateful set.
#[derive(Clone, Debug, PartialEq, Eq)]
pub struct StatefulSetSpec {
    pub replicas: Option<i32>,
    pub update_strategy: Option<StatefulSetUpdateStrategy>,
}

/// The observed state of a stateful set.
#[derive(Clone, Debug, PartialEq, Eq)]
pub struct StatefulSetStatus {
    pub ready_replicas: Option<i32>,
}

/// A stateful set as returned by the cluster.
#[derive(Clone, Debug, PartialEq, Eq)]
pub struct StatefulSet {
    pub metadata: ObjectMeta,
    pub spec: Option<StatefulSetSpec>,
    pub status: Option<StatefulSetStatus>,
}

} // verus!
