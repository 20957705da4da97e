//! Projection of Kubernetes resource objects into the compact summary
//! records shown by a cluster control panel, plus the YAML text helpers
//! used by its "view definition" and "apply" flows.
//!
//! - `time`: instants, and the age of an object in whole seconds.
//! - `text`: decimal writing and the absent-means-empty/zero accessors.
//! - `model`: the fields of cluster objects that the projections read.
//! - `summary`: one summary row per object kind.
//! - `listing`: lists of rows, in input order, and namespace names.
//! - `yaml`: YAML rendering and parsing for the definition and apply flows.

mod listing;
mod model;
mod summary;
mod text;
mod time;
mod yaml;

pub use listing::{
    all_wf, namespace_names, present_names, project_deployments, project_minimals, project_pods,
    project_stateful_sets,
};
pub use model::{
    ContainerStatus, Deployment, DeploymentSpec, DeploymentStatus, ObjectMeta, Pod, PodSpec,
    PodStatus, StatefulSet, StatefulSetSpec, StatefulSetStatus, StatefulSetUpdateStrategy,
};
pub use summary::{
    deployment_desired, deployment_ready, deployment_summary, first_restart_count, format_ready,
    minimal_summary, pod_summary, project_deployment, project_minimal, project_pod,
    project_stateful_set, ready_text, stateful_set_summary, update_strategy_of, DeploymentInfo,
    DeploymentInfoView, DsInfo, DsInfoView, PodInfo, PodInfoView, StsInfo, StsInfoView,
    DEFAULT_UPDATE_STRATEGY,
};
pub use text::{
    count_or_default, count_or_zero, decimal, decimal_string, digit_char, digits_of, text_or,
    text_or_default, text_or_empty,
};
pub use time::{
    age_of, elapsed_nanos, lemma_age_sign, lemma_age_unknown, project_age, whole_seconds,
    Timestamp, MAX_SECONDS, MIN_SECONDS, NANOS_PER_SECOND,
};
pub use yaml::{
    applied_message, applied_text, apply_outcome, apply_request_from_value, apply_target,
    check_apply_target, error_text, leaf, lemma_apply_keeps_identity, lemma_apply_needs_namespace,
    opt_text, parse_yaml_for_apply, present, rendered_yaml, string_leaves, to_yaml_text,
    yaml_string_leaves, ApplyRequest, MetadataField, ProjectionError, NAMESPACE_POINTER,
    NAME_POINTER,
};
