//! The Odoo instance: what a user declares and what the operator observed.

use vstd::prelude::*;

use crate::crd::metadata::{ObjectMeta, Resource};
use crate::crd::shared::WebhookConfig;
use crate::string_map::StringMap;

verus! {

// ── Environment variables ───────────────────────────────────────────────────

/// A key of a ConfigMap or a Secret.
#[derive(Debug, PartialEq, Eq)]
pub struct KeySelector {
    pub name: String,
    pub key: String,
    pub optional: Option<bool>,
}

/// A field of the pod.
#[derive(Debug, PartialEq, Eq)]
pub struct FieldSelector {
    pub api_version: Option<String>,
    pub field_path: String,
}

/// A resource of the container.
#[derive(Debug, PartialEq, Eq)]
pub struct ResourceSelector {
    pub container_name: Option<String>,
    pub divisor: Option<String>,
    pub resource: String,
}

/// Where the value of an environment variable comes from.
#[derive(Debug, PartialEq, Eq)]
pub struct EnvVarSource {
    pub config_map_key_ref: Option<KeySelector>,
    pub field_ref: Option<FieldSelector>,
    pub resource_field_ref: Option<ResourceSelector>,
    pub secret_key_ref: Option<KeySelector>,
}

/// An environment variable of a container.
#[derive(Debug, PartialEq, Eq)]
pub struct EnvVar {
    pub name: String,
    pub value: Option<String>,
    pub value_from: Option<EnvVarSource>,
}

impl Default for EnvVarSource {
    fn default() -> (r: EnvVarSource)
        ensures
            r == (EnvVarSource {
                config_map_key_ref: None,
                field_ref: None,
                resource_field_ref: None,
                secret_key_ref: None,
            }),
    {
        EnvVarSource {
            config_map_key_ref: None,
            field_ref: None,
            resource_field_ref: None,
            secret_key_ref: None,
        }
    }
}

impl Default for EnvVar {
    fn default() -> (r: EnvVar)
        ensures
            r.name@ == Seq::<char>::empty(),
            r.value is None,
            r.value_from is None,
    {
        EnvVar { name: String::new(), value: None, value_from: None }
    }
}

impl Clone for KeySelector {
    fn clone(&self) -> (r: KeySelector)
        ensures
            r == *self,
    {
        KeySelector { name: self.name.clone(), key: self.key.clone(), optional: self.optional }
    }
}

impl Clone for FieldSelector {
    fn clone(&self) -> (r: FieldSelector)
        ensures
            r == *self,
    {
        FieldSelector {
            api_version: self.api_version.clone(),
            field_path: self.field_path.clone(),
        }
    }
}

impl Clone for ResourceSelector {
    fn clone(&self) -> (r: ResourceSelector)
        ensures
            r == *self,
    {
        ResourceSelector {
            container_name: self.container_name.clone(),
            divisor: self.divisor.clone(),
            resource: self.resource.clone(),
        }
    }
}

impl Clone for EnvVarSource {
    fn clone(&self) -> (r: EnvVarSource)
        ensures
            r == *self,
    {
        EnvVarSource {
            config_map_key_ref: self.config_map_key_ref.clone(),
            field_ref: self.field_ref.clone(),
            resource_field_ref: self.resource_field_ref.clone(),
            secret_key_ref: self.secret_key_ref.clone(),
        }
    }
}

impl Clone for EnvVar {
    fn clone(&self) -> (r: EnvVar)
        ensures
            r == *self,
    {
        EnvVar {
            name: self.name.clone(),
            value: self.value.clone(),
            value_from: self.value_from.clone(),
        }
    }
}

// ── Parts of the spec ───────────────────────────────────────────────────────

/// The Gateway that an HTTPRoute attaches to. Where it is set, an HTTPRoute is
/// created instead of an Ingress.
#[derive(Debug)]
pub struct GatewayRef {
    pub name: String,
    pub namespace: String,
}

/// How the instance is exposed.
#[derive(Debug)]
pub struct IngressSpec {
    pub hosts: Vec<String>,
    pub issuer: Option<String>,
    pub class: Option<String>,
    pub gateway_ref: Option<GatewayRef>,
}

/// Storage of the filestore: a persistent volume of a size and class, or an
/// ephemeral directory per pod.
#[derive(Debug)]
pub struct FilestoreSpec {
    pub storage_size: Option<String>,
    pub storage_class: Option<String>,
    pub empty_dir: bool,
}

/// Reaction to a database that has gone missing after initialisation.
///
/// `Ignore` publishes a warning and leaves the decision to humans. `Recreate` marks
/// the instance uninitialised, so that the database is created again.
#[derive(Debug, Clone, Copy, PartialEq, Eq, Structural)]
pub enum DatabaseMissingPolicy {
    Ignore,
    Recreate,
}

impl Default for DatabaseMissingPolicy {
    fn default() -> (r: DatabaseMissingPolicy)
        ensures
            r == DatabaseMissingPolicy::Ignore,
    {
        DatabaseMissingPolicy::Ignore
    }
}

/// The PostgreSQL cluster and database of the instance.
#[derive(Debug)]
pub struct DatabaseSpec {
    pub cluster: Option<String>,
    pub name: Option<String>,
    pub missing_policy: DatabaseMissingPolicy,
}

/// Whether an instance is production or staging. Staging is the default, so that an
/// omission cannot let a copy reach a real mail server.
#[derive(Debug, Clone, Copy, PartialEq, Eq, Structural)]
pub enum Environment {
    Staging,
    Production,
}

impl Default for Environment {
    fn default() -> (r: Environment)
        ensures
            r == Environment::Staging,
    {
        Environment::Staging
    }
}

impl Environment {
    /// The value of the label `bemade.org/environment`.
    pub fn as_label(&self) -> (r: &'static str)
        ensures
            r@ == (match *self {
                Environment::Staging => "staging"@,
                Environment::Production => "production"@,
            }),
    {
        match self {
            Environment::Staging => "staging",
            Environment::Production => "production",
        }
    }
}

/// The production instance that a staging instance is cloned from on first
/// initialisation.
#[derive(Debug, PartialEq, Eq)]
pub struct ProductionInstanceRef {
    pub name: String,
    pub namespace: Option<String>,
}

/// Update strategy of a Deployment.
#[derive(Debug, Clone, Copy, PartialEq, Eq, Structural)]
pub enum DeploymentStrategyType {
    Recreate,
    RollingUpdate,
}

impl Default for DeploymentStrategyType {
    fn default() -> (r: DeploymentStrategyType)
        ensures
            r == DeploymentStrategyType::Recreate,
    {
        DeploymentStrategyType::Recreate
    }
}

/// Parameters of a rolling update.
#[derive(Debug)]
pub struct RollingUpdateSpec {
    pub max_unavailable: String,
    pub max_surge: String,
}

/// The share of pods that a rolling update may take down or add where nothing is said.
pub fn default_25_percent() -> (r: String)
    ensures
        r@ == "25%"@,
{
    "25%".to_owned()
}

/// Update strategy of the web Deployment.
#[derive(Debug)]
pub struct StrategySpec {
    pub strategy_type: DeploymentStrategyType,
    pub rolling_update: Option<RollingUpdateSpec>,
}

/// Where status changes of the instance are reported.
#[derive(Debug)]
pub struct OdooWebhookConfig {
    pub url: String,
}

/// HTTP paths of the health checks.
#[derive(Debug)]
pub struct ProbesSpec {
    pub startup_path: String,
    pub liveness_path: String,
    pub readiness_path: String,
}

/// The path of a health check where nothing is said.
pub fn default_health_path() -> (r: String)
    ensures
        r@ == "/web/health"@,
{
    "/web/health".to_owned()
}

/// The pods that run scheduled actions.
#[derive(Debug)]
pub struct CronSpec {
    pub replicas: i32,
    pub resources: Option<k8s_openapi::api::core::v1::ResourceRequirements>,
}

/// The number of replicas where nothing is said.
pub fn default_replicas() -> (r: i32)
    ensures
        r == 1,
{
    1
}

impl Default for CronSpec {
    fn default() -> (r: CronSpec)
        ensures
            r == (CronSpec { replicas: 1, resources: None }),
    {
        CronSpec { replicas: default_replicas(), resources: None }
    }
}

/// A read-only database role for the instance.
#[derive(Debug)]
pub struct ReadOnlySqlAccessSpec {
    pub enabled: bool,
    /// Number of connections that the role may have open at once.
    pub connection_limit: i32,
}

/// The connection limit of a read-only role where nothing is said.
pub fn default_ro_connection_limit() -> (r: i32)
    ensures
        r == 5,
{
    5
}

impl Default for ReadOnlySqlAccessSpec {
    fn default() -> (r: ReadOnlySqlAccessSpec)
        ensures
            r == (ReadOnlySqlAccessSpec { enabled: false, connection_limit: 5 }),
    {
        ReadOnlySqlAccessSpec { enabled: false, connection_limit: default_ro_connection_limit() }
    }
}

/// Automatic initialisation of the database.
#[derive(Debug)]
pub struct InitSpec {
    pub enabled: bool,
    pub modules: Vec<String>,
    pub demo: bool,
    pub webhook: Option<WebhookConfig>,
}

/// What is on unless it is switched off.
pub fn default_true() -> (r: bool)
    ensures
        r,
{
    true
}

/// The modules that a database is initialised with where nothing is said.
pub fn default_init_modules() -> (r: Vec<String>)
    ensures
        r@.len() == 1,
        r@[0]@ == "base"@,
{
    vec!["base".to_owned()]
}

impl Default for InitSpec {
    fn default() -> (r: InitSpec)
        ensures
            r.enabled,
            r.modules@.len() == 1,
            r.modules@[0]@ == "base"@,
            !r.demo,
            r.webhook is None,
    {
        InitSpec { enabled: true, modules: default_init_modules(), demo: false, webhook: None }
    }
}

// ── The resource ────────────────────────────────────────────────────────────

/// What a user declares of an instance.
#[derive(Debug)]
pub struct OdooInstanceSpec {
    pub image: Option<String>,
    pub image_pull_secret: Option<String>,
    pub admin_password: String,
    pub replicas: i32,
    pub cron: CronSpec,
    pub ingress: IngressSpec,
    pub resources: Option<k8s_openapi::api::core::v1::ResourceRequirements>,
    pub filestore: Option<FilestoreSpec>,
    pub config_options: Option<StringMap>,
    pub database: Option<DatabaseSpec>,
    pub init: InitSpec,
    pub environment: Environment,
    pub production_instance_ref: Option<ProductionInstanceRef>,
    pub strategy: Option<StrategySpec>,
    pub webhook: Option<OdooWebhookConfig>,
    pub probes: Option<ProbesSpec>,
    pub affinity: Option<k8s_openapi::api::core::v1::Affinity>,
    pub tolerations: Vec<k8s_openapi::api::core::v1::Toleration>,
    pub read_only_sql_access: Option<ReadOnlySqlAccessSpec>,
    /// Environment of the instance's Odoo containers. An entry here takes the place
    /// of an operator variable of the same name.
    pub extra_env: Vec<EnvVar>,
    /// Further sources of environment variables for the same containers.
    pub extra_env_from: Vec<k8s_openapi::api::core::v1::EnvFromSource>,
}

/// Where an instance stands in its life.
#[derive(Debug, Clone, Copy, PartialEq, Eq, Structural)]
pub enum OdooInstancePhase {
    Provisioning,
    Uninitialized,
    Initializing,
    InitFailed,
    Starting,
    Running,
    Degraded,
    Stopped,
    Upgrading,
    Restoring,
    CloningFromSource,
    BackingUp,
    MigratingFilestore,
    FinalizingFilestoreMigration,
    MigratingDatabase,
    FinalizingDatabaseMigration,
    Error,
}

impl OdooInstancePhase {
    /// The name under which the phase is stored.
    pub open spec fn text(self) -> Seq<char> {
        match self {
            Self::Provisioning => "Provisioning"@,
            Self::Uninitialized => "Uninitialized"@,
            Self::Initializing => "Initializing"@,
            Self::InitFailed => "InitFailed"@,
            Self::Starting => "Starting"@,
            Self::Running => "Running"@,
            Self::Degraded => "Degraded"@,
            Self::Stopped => "Stopped"@,
            Self::Upgrading => "Upgrading"@,
            Self::Restoring => "Restoring"@,
            Self::CloningFromSource => "CloningFromSource"@,
            Self::BackingUp => "BackingUp"@,
            Self::MigratingFilestore => "MigratingFilestore"@,
            Self::FinalizingFilestoreMigration => "FinalizingFilestoreMigration"@,
            Self::MigratingDatabase => "MigratingDatabase"@,
            Self::FinalizingDatabaseMigration => "FinalizingDatabaseMigration"@,
            Self::Error => "Error"@,
        }
    }

    /// The name under which the phase is stored.
    pub fn as_str(self) -> (r: &'static str)
        ensures
            r@ == self.text(),
    {
        match self {
            Self::Provisioning => "Provisioning",
            Self::Uninitialized => "Uninitialized",
            Self::Initializing => "Initializing",
            Self::InitFailed => "InitFailed",
            Self::Starting => "Starting",
            Self::Running => "Running",
            Self::Degraded => "Degraded",
            Self::Stopped => "Stopped",
            Self::Upgrading => "Upgrading",
            Self::Restoring => "Restoring",
            Self::CloningFromSource => "CloningFromSource",
            Self::BackingUp => "BackingUp",
            Self::MigratingFilestore => "MigratingFilestore",
            Self::FinalizingFilestoreMigration => "FinalizingFilestoreMigration",
            Self::MigratingDatabase => "MigratingDatabase",
            Self::FinalizingDatabaseMigration => "FinalizingDatabaseMigration",
            Self::Error => "Error",
        }
    }
}

/// One aspect of an object's state.
#[derive(Debug)]
pub struct Condition {
    pub type_: String,
    pub status: String,
    pub reason: String,
    pub message: String,
    pub last_transition_time: String,
    pub observed_generation: Option<i64>,
}

/// What the operator observed of an instance.
#[derive(Debug)]
pub struct OdooInstanceStatus {
    pub phase: Option<OdooInstancePhase>,
    pub message: Option<String>,
    pub ready: bool,
    pub ready_replicas: i32,
    pub db_initialized: bool,
    pub url: Option<String>,
    pub last_backup: Option<String>,
    pub target_replicas: Option<i32>,
    pub conditions: Vec<Condition>,
    pub migration_job_name: Option<String>,
    pub migration_pv_name: Option<String>,
    pub migration_previous_storage_class: Option<String>,
    pub active_cluster: Option<String>,
    pub db_migration_job_name: Option<String>,
    pub migration_previous_cluster: Option<String>,
}

impl Default for OdooInstanceStatus {
    fn default() -> (r: OdooInstanceStatus)
        ensures
            r.phase is None,
            r.message is None,
            !r.ready,
            r.ready_replicas == 0,
            !r.db_initialized,
            r.url is None,
            r.last_backup is None,
            r.target_replicas is None,
            r.conditions@.len() == 0,
            r.migration_job_name is None,
            r.migration_pv_name is None,
            r.migration_previous_storage_class is None,
            r.active_cluster is None,
            r.db_migration_job_name is None,
            r.migration_previous_cluster is None,
    {
        OdooInstanceStatus {
            phase: None,
            message: None,
            ready: false,
            ready_replicas: 0,
            db_initialized: false,
            url: None,
            last_backup: None,
            target_replicas: None,
            conditions: Vec::new(),
            migration_job_name: None,
            migration_pv_name: None,
            migration_previous_storage_class: None,
            active_cluster: None,
            db_migration_job_name: None,
            migration_previous_cluster: None,
        }
    }
}

/// An Odoo instance.
#[derive(Debug)]
pub struct OdooInstance {
    pub metadata: ObjectMeta,
    pub spec: OdooInstanceSpec,
    pub status: Option<OdooInstanceStatus>,
}

impl Resource for OdooInstance {
    open spec fn kind_text(&self) -> Seq<char> {
        "OdooInstance"@
    }

    open spec fn metadata(&self) -> ObjectMeta {
        self.metadata
    }

    fn kind(&self) -> (r: &'static str) {
        "OdooInstance"
    }

    fn meta(&self) -> (r: &ObjectMeta) {
        &self.metadata
    }
}

impl OdooInstance {
    /// The instance's name.
    pub open spec fn name(&self) -> Seq<char> {
        self.metadata.any_name()
    }

    /// The instance's namespace.
    pub open spec fn namespace(&self) -> Seq<char> {
        self.metadata.namespace_text()
    }

    /// Whether the filestore is an ephemeral directory per pod.
    pub open spec fn ephemeral(&self) -> bool {
        self.spec.filestore matches Some(f) && f.empty_dir
    }

    /// Whether the filestore is an ephemeral directory per pod.
    pub fn is_ephemeral(&self) -> (r: bool)
        ensures
            r == self.ephemeral(),
    {
        match &self.spec.filestore {
            Some(f) => f.empty_dir,
            None => false,
        }
    }

    /// The phase that the instance is in, `Provisioning` where none is recorded.
    pub open spec fn current_phase(&self) -> OdooInstancePhase {
        match self.status {
            Some(s) => match s.phase {
                Some(p) => p,
                None => OdooInstancePhase::Provisioning,
            },
            None => OdooInstancePhase::Provisioning,
        }
    }

    /// The phase that the instance is in, `Provisioning` where none is recorded.
    pub fn phase(&self) -> (r: OdooInstancePhase)
        ensures
            r == self.current_phase(),
    {
        match &self.status {
            Some(s) => match s.phase {
                Some(p) => p,
                None => OdooInstancePhase::Provisioning,
            },
            None => OdooInstancePhase::Provisioning,
        }
    }
}

} // verus!
