//! The Kubernetes objects that the operator creates, with the fields that it sets.

use vstd::prelude::*;

use crate::crd::metadata::ObjectMeta;
use crate::crd::odoo_instance::EnvVar;
use crate::string_map::StringMap;

verus! {

// ── Volumes ─────────────────────────────────────────────────────────────────

/// A claim on a persistent volume.
#[derive(Debug, PartialEq, Eq)]
pub struct PersistentVolumeClaimVolumeSource {
    pub claim_name: String,
    pub read_only: Option<bool>,
}

/// A ConfigMap whose keys become files.
#[derive(Debug, PartialEq, Eq)]
pub struct ConfigMapVolumeSource {
    pub name: String,
}

/// A directory that lives as long as its pod.
#[derive(Debug, Default, PartialEq, Eq)]
pub struct EmptyDirVolumeSource {}

/// A volume of a pod.
#[derive(Debug, PartialEq, Eq)]
pub struct Volume {
    pub name: String,
    pub persistent_volume_claim: Option<PersistentVolumeClaimVolumeSource>,
    pub config_map: Option<ConfigMapVolumeSource>,
    pub empty_dir: Option<EmptyDirVolumeSource>,
}

impl Default for Volume {
    fn default() -> (r: Volume)
        ensures
            r.name@ == Seq::<char>::empty(),
            r.persistent_volume_claim is None,
            r.config_map is None,
            r.empty_dir is None,
    {
        Volume { name: String::new(), persistent_volume_claim: None, config_map: None, empty_dir: None }
    }
}

/// Where a container sees a volume.
#[derive(Debug, PartialEq, Eq)]
pub struct VolumeMount {
    pub name: String,
    pub mount_path: String,
    pub read_only: Option<bool>,
}

// ── Containers ──────────────────────────────────────────────────────────────

/// A port that a container listens on.
#[derive(Debug, PartialEq, Eq)]
pub struct ContainerPort {
    pub name: Option<String>,
    pub container_port: i32,
}

/// An HTTP request that checks the health of a container.
#[derive(Debug, PartialEq, Eq)]
pub struct HTTPGetAction {
    pub path: Option<String>,
    pub port: i32,
}

/// A command that checks the health of a container.
#[derive(Debug, PartialEq, Eq)]
pub struct ExecAction {
    pub command: Option<Vec<String>>,
}

/// A health check.
#[derive(Debug, PartialEq, Eq)]
pub struct Probe {
    pub http_get: Option<HTTPGetAction>,
    pub exec_action: Option<ExecAction>,
    pub initial_delay_seconds: Option<i32>,
    pub period_seconds: Option<i32>,
    pub timeout_seconds: Option<i32>,
    pub failure_threshold: Option<i32>,
}

/// Privileges of a container.
#[derive(Debug, Clone, Copy, PartialEq, Eq)]
pub struct SecurityContext {
    pub run_as_user: Option<i64>,
}

/// A container of a pod.
#[derive(Debug)]
pub struct Container {
    pub name: String,
    pub image: Option<String>,
    pub image_pull_policy: Option<String>,
    pub command: Option<Vec<String>>,
    pub args: Option<Vec<String>>,
    pub ports: Option<Vec<ContainerPort>>,
    pub env: Option<Vec<EnvVar>>,
    pub env_from: Option<Vec<k8s_openapi::api::core::v1::EnvFromSource>>,
    pub volume_mounts: Option<Vec<VolumeMount>>,
    pub resources: Option<k8s_openapi::api::core::v1::ResourceRequirements>,
    pub startup_probe: Option<Probe>,
    pub liveness_probe: Option<Probe>,
    pub readiness_probe: Option<Probe>,
    pub security_context: Option<SecurityContext>,
}

impl Container {
    /// Whether nothing but the name, the image, the command and the environment is set.
    pub open spec fn is_bare(self) -> bool {
        &&& self.image_pull_policy is None
        &&& self.args is None
        &&& self.ports is None
        &&& self.env_from is None
        &&& self.volume_mounts is None
        &&& self.has_no_runtime_settings()
    }

    /// Whether resources, health checks and privileges are left open.
    pub open spec fn has_no_runtime_settings(self) -> bool {
        &&& self.resources is None
        &&& self.startup_probe is None
        &&& self.liveness_probe is None
        &&& self.readiness_probe is None
        &&& self.security_context is None
    }
}

impl Default for Container {
    fn default() -> (r: Container)
        ensures
            r.name@ == Seq::<char>::empty(),
            r.image is None,
            r.command is None,
            r.env is None,
            r.is_bare(),
    {
        Container {
            name: String::new(),
            image: None,
            image_pull_policy: None,
            command: None,
            args: None,
            ports: None,
            env: None,
            env_from: None,
            volume_mounts: None,
            resources: None,
            startup_probe: None,
            liveness_probe: None,
            readiness_probe: None,
            security_context: None,
        }
    }
}

// ── Pods ────────────────────────────────────────────────────────────────────

/// An object of the same namespace, by name.
#[derive(Debug, PartialEq, Eq)]
pub struct LocalObjectReference {
    pub name: String,
}

/// Privileges of the containers of a pod.
#[derive(Debug, Clone, Copy, PartialEq, Eq)]
pub struct PodSecurityContext {
    pub run_as_user: Option<i64>,
    pub run_as_group: Option<i64>,
    pub fs_group: Option<i64>,
}

/// What runs in a pod.
#[derive(Debug)]
pub struct PodSpec {
    pub restart_policy: Option<String>,
    pub image_pull_secrets: Option<Vec<LocalObjectReference>>,
    pub affinity: Option<k8s_openapi::api::core::v1::Affinity>,
    pub tolerations: Option<Vec<k8s_openapi::api::core::v1::Toleration>>,
    pub security_context: Option<PodSecurityContext>,
    pub volumes: Option<Vec<Volume>>,
    pub init_containers: Option<Vec<Container>>,
    pub containers: Vec<Container>,
}

/// A pod to be created.
#[derive(Debug)]
pub struct PodTemplateSpec {
    pub metadata: Option<ObjectMeta>,
    pub spec: Option<PodSpec>,
}

// ── Workloads ───────────────────────────────────────────────────────────────

/// How a Job runs its pod.
#[derive(Debug)]
pub struct JobSpec {
    pub backoff_limit: Option<i32>,
    pub active_deadline_seconds: Option<i64>,
    pub ttl_seconds_after_finished: Option<i32>,
    pub template: PodTemplateSpec,
}

/// A pod that runs to completion.
#[derive(Debug)]
pub struct Job {
    pub metadata: ObjectMeta,
    pub spec: Option<JobSpec>,
}

/// How much of a Deployment may be down, and how many pods may be added, in an update.
#[derive(Debug)]
pub struct RollingUpdateDeployment {
    pub max_unavailable: Option<String>,
    pub max_surge: Option<String>,
}

/// How a Deployment replaces its pods.
#[derive(Debug)]
pub struct DeploymentStrategy {
    pub type_: Option<String>,
    pub rolling_update: Option<RollingUpdateDeployment>,
}

/// What a Deployment runs.
#[derive(Debug)]
pub struct DeploymentSpec {
    pub replicas: Option<i32>,
    /// Labels of the pods that belong to the Deployment.
    pub match_labels: StringMap,
    pub strategy: DeploymentStrategy,
    pub template: PodTemplateSpec,
}

/// A set of equal pods.
#[derive(Debug)]
pub struct Deployment {
    pub metadata: ObjectMeta,
    pub spec: DeploymentSpec,
}

// ── Networking ──────────────────────────────────────────────────────────────

/// A port of a Service.
#[derive(Debug)]
pub struct ServicePort {
    pub name: String,
    pub port: i32,
    pub target_port: i32,
    pub protocol: String,
}

/// A stable address of a set of pods.
#[derive(Debug)]
pub struct Service {
    pub metadata: ObjectMeta,
    pub type_: String,
    pub selector: StringMap,
    pub ports: Vec<ServicePort>,
}

/// A path of a host, and the port of the Service behind it.
#[derive(Debug)]
pub struct HTTPIngressPath {
    pub path: String,
    pub path_type: String,
    pub service_name: String,
    pub service_port: i32,
}

/// The paths of a host.
#[derive(Debug)]
pub struct IngressRule {
    pub host: String,
    pub paths: Vec<HTTPIngressPath>,
}

/// The hosts that a certificate covers.
#[derive(Debug)]
pub struct IngressTLS {
    pub hosts: Vec<String>,
    pub secret_name: String,
}

/// Routes from the outside to a Service.
#[derive(Debug)]
pub struct Ingress {
    pub metadata: ObjectMeta,
    pub ingress_class_name: Option<String>,
    pub rules: Vec<IngressRule>,
    pub tls: Vec<IngressTLS>,
}

/// The Gateway that a route attaches to.
#[derive(Debug)]
pub struct HTTPRouteParentRef {
    pub group: String,
    pub kind: String,
    pub namespace: String,
    pub name: String,
}

/// A path prefix, and the port of the Service behind it.
#[derive(Debug)]
pub struct HTTPRouteRule {
    pub path_prefix: String,
    pub backend_kind: String,
    pub backend_name: String,
    pub backend_port: i32,
}

/// Routes from a Gateway to a Service.
#[derive(Debug)]
pub struct HTTPRoute {
    pub metadata: ObjectMeta,
    pub parent_refs: Vec<HTTPRouteParentRef>,
    pub hostnames: Vec<String>,
    pub rules: Vec<HTTPRouteRule>,
}

// ── Configuration and storage ───────────────────────────────────────────────

/// Configuration data.
#[derive(Debug)]
pub struct ConfigMap {
    pub metadata: ObjectMeta,
    pub data: StringMap,
}

/// Confidential data, given as text.
#[derive(Debug)]
pub struct Secret {
    pub metadata: ObjectMeta,
    pub string_data: StringMap,
}

/// An object that a volume is filled from.
#[derive(Debug)]
pub struct TypedObjectReference {
    pub api_group: Option<String>,
    pub kind: String,
    pub name: String,
    pub namespace: Option<String>,
}

impl Clone for TypedObjectReference {
    fn clone(&self) -> (r: TypedObjectReference)
        ensures
            r == *self,
    {
        TypedObjectReference {
            api_group: self.api_group.clone(),
            kind: self.kind.clone(),
            name: self.name.clone(),
            namespace: self.namespace.clone(),
        }
    }
}

/// A claim on storage.
#[derive(Debug)]
pub struct PersistentVolumeClaim {
    pub metadata: ObjectMeta,
    pub access_modes: Vec<String>,
    pub data_source_ref: Option<TypedObjectReference>,
    /// The storage that is requested, as a quantity.
    pub storage: String,
    pub storage_class_name: Option<String>,
}

/// A snapshot of a claim.
#[derive(Debug)]
pub struct VolumeSnapshot {
    pub metadata: ObjectMeta,
    pub source_claim: String,
    pub volume_snapshot_class_name: Option<String>,
}

} // verus!
