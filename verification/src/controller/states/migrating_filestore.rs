//! The migration of the filestore to another storage class.
//!
//! The data is copied to a temporary claim of the new class. If that fails, the class that the
//! instance had is put back.

use vstd::prelude::*;

use crate::controller::child_resources::{
    is_named_meta, one_entry, opt_map, requested_class,
};
use crate::controller::helpers::{
    are_pull_secrets, claim_name, filestore_claim_name, image_pull_secrets, is_mount,
    mount, odoo_security_context, Scripts,
};
use crate::controller::patches::{
    no_instance_change, FieldChange, FieldText, InstanceStatusPatch, InstanceStatusText,
};
use crate::controller::snapshot::ReconcileSnapshot;
use crate::controller::states::{all_deployments, both_deployments, State};
use crate::crd::metadata::ObjectMeta;
use crate::crd::odoo_instance::{OdooInstance, OdooInstancePhase};
use crate::helpers::OperatorDefaults;
use crate::objects::{
    Container, Job, JobSpec, PersistentVolumeClaim, PersistentVolumeClaimVolumeSource,
    PodSecurityContext, PodSpec, PodTemplateSpec, Volume, VolumeMount,
};
use crate::string_map::StringMap;
use crate::text::{join2, join4, opt_text, same_text, texts};

verus! {

broadcast use vstd::seq_lib::group_seq_properties;

/// The filestore is being copied to another storage class. The pods are down.
#[derive(Debug)]
pub struct MigratingFilestore;

impl State for MigratingFilestore {
    open spec fn handled(&self) -> OdooInstancePhase {
        OdooInstancePhase::MigratingFilestore
    }

    fn phase(&self) -> (r: OdooInstancePhase) {
        OdooInstancePhase::MigratingFilestore
    }
}

impl MigratingFilestore {
    /// All pods are down. These Deployments are scaled to zero.
    pub fn ensure(&self, instance: &OdooInstance) -> (r: Vec<String>)
        ensures
            texts(r@) == all_deployments(instance),
    {
        both_deployments(instance)
    }
}

// ── Begin ───────────────────────────────────────────────────────────────────

/// The name of the temporary claim.
pub open spec fn temp_claim_name(name: Seq<char>) -> Seq<char> {
    name + "-filestore-pvc-temp"@
}

fn temp_claim_name_of(name: &str) -> (r: String)
    ensures
        r@ == temp_claim_name(name@),
{
    join2(name, "-filestore-pvc-temp")
}

/// What the migration begins with.
#[derive(Debug)]
pub struct BeginMigration {
    /// The Deployments that are scaled to zero.
    pub scale_down: Vec<String>,
    /// The claim that the data is copied to.
    pub temp_claim: PersistentVolumeClaim,
    /// The Job that copies it.
    pub job: Job,
}

/// The storage class that the filestore is moved to.
pub open spec fn target_class(instance: &OdooInstance, defaults: &OperatorDefaults) -> Seq<char> {
    match requested_class(instance) {
        Some(class) => class,
        None => defaults.storage_class@,
    }
}

/// The storage that the temporary claim requests: what the old one does, where that is known.
pub open spec fn temp_storage(requested: Option<String>) -> Seq<char> {
    match requested {
        Some(storage) => storage@,
        None => "2Gi"@,
    }
}

/// Whether `claim` is the temporary claim.
pub open spec fn is_temp_claim(
    claim: PersistentVolumeClaim,
    instance: &OdooInstance,
    defaults: &OperatorDefaults,
    requested: Option<String>,
) -> bool {
    &&& is_named_meta(
        claim.metadata,
        temp_claim_name(instance.name()),
        instance.namespace(),
        None,
        None,
        Seq::empty(),
    )
    &&& texts(claim.access_modes@) == seq!["ReadWriteMany"@]
    &&& claim.data_source_ref is None
    &&& claim.storage@ == temp_storage(requested)
    &&& opt_text(claim.storage_class_name) == Some(target_class(instance, defaults))
}

/// Whether `r` is what the migration of an instance begins with.
pub open spec fn is_begun_migration(
    r: BeginMigration,
    instance: &OdooInstance,
    defaults: &OperatorDefaults,
    requested: Option<String>,
    scripts: &Scripts,
) -> bool {
    &&& texts(r.scale_down@) == all_deployments(instance)
    &&& is_temp_claim(r.temp_claim, instance, defaults, requested)
    &&& is_rsync_job(
        r.job,
        instance.name(),
        instance.namespace(),
        instance,
        scripts.migrate_filestore@,
    )
}

/// Begins the migration. `requested` is the storage that the old claim requests, where that
/// could be read.
pub fn begin_filestore_migration(
    instance: &OdooInstance,
    defaults: &OperatorDefaults,
    requested: &Option<String>,
    scripts: &Scripts,
) -> (r: BeginMigration)
    ensures
        is_begun_migration(r, instance, defaults, *requested, scripts),
{
    let name = instance.metadata.name_any();
    let namespace = instance.metadata.namespace_or_empty();
    let storage = match requested {
        Some(s) => s.clone(),
        None => "2Gi".to_owned(),
    };
    let class = match &instance.spec.filestore {
        Some(f) => match &f.storage_class {
            Some(c) => c.clone(),
            None => defaults.storage_class.clone(),
        },
        None => defaults.storage_class.clone(),
    };
    let access_modes = vec!["ReadWriteMany".to_owned()];
    proof {
        assert(texts(access_modes@) =~= seq!["ReadWriteMany"@]);
    }
    let temp_claim = PersistentVolumeClaim {
        metadata: ObjectMeta {
            name: Some(temp_claim_name_of(name.as_str())),
            generate_name: None,
            namespace: Some(namespace.clone()),
            uid: None,
            creation_timestamp: None,
            labels: None,
            annotations: None,
            owner_references: None,
        },
        access_modes,
        data_source_ref: None,
        storage,
        storage_class_name: Some(class),
    };
    let job = build_rsync_job(
        name.as_str(),
        namespace.as_str(),
        instance,
        &scripts.migrate_filestore,
    );
    BeginMigration { scale_down: both_deployments(instance), temp_claim, job }
}

/// The storage class that the filestore has, as far as it is known.
pub open spec fn class_before(snapshot: &ReconcileSnapshot) -> Seq<char> {
    match snapshot.actual_storage_class {
        Some(class) => class@,
        None => "unknown"@,
    }
}

/// What is recorded of the migration once its Job is created.
pub open spec fn migration_record(
    instance: &OdooInstance,
    snapshot: &ReconcileSnapshot,
    job_name: Seq<char>,
) -> InstanceStatusText {
    InstanceStatusText {
        migration_job_name: FieldText::To(job_name),
        migration_previous_storage_class: FieldText::To(class_before(snapshot)),
        message: FieldText::To(
            "Migrating filestore from "@ + class_before(snapshot) + " to "@ + (match requested_class(
                instance,
            ) {
                Some(class) => class,
                None => "?"@,
            }),
        ),
        ..no_instance_change()
    }
}

/// What is recorded of the migration once its Job is created.
pub fn record_filestore_migration(
    instance: &OdooInstance,
    snapshot: &ReconcileSnapshot,
    job_name: &str,
) -> (r: InstanceStatusPatch)
    ensures
        r@ == migration_record(instance, snapshot, job_name@),
{
    let before = match &snapshot.actual_storage_class {
        Some(class) => class.clone(),
        None => "unknown".to_owned(),
    };
    let after = match &instance.spec.filestore {
        Some(f) => match &f.storage_class {
            Some(class) => class.clone(),
            None => "?".to_owned(),
        },
        None => "?".to_owned(),
    };
    let mut patch = InstanceStatusPatch::nothing();
    patch.message = FieldChange::To(
        join4("Migrating filestore from ", before.as_str(), " to ", after.as_str()),
    );
    patch.migration_job_name = FieldChange::To(job_name.to_owned());
    patch.migration_previous_storage_class = FieldChange::To(before);
    patch
}

// ── Rollback ────────────────────────────────────────────────────────────────

/// What a rollback does, in this order. Deletions are attempted, and may fail.
#[derive(Debug)]
pub struct RollbackMigration {
    /// The claim that is deleted.
    pub delete_claim: String,
    /// The Job that is deleted.
    pub delete_job: Option<String>,
    /// The storage class that is put back into the spec.
    pub storage_class: Option<String>,
    /// The record of the migration is wiped.
    pub status: InstanceStatusPatch,
}

/// The storage class that the recorded migration came from.
pub open spec fn recorded_class(instance: &OdooInstance) -> Seq<char> {
    match instance.status {
        Some(s) => match s.migration_previous_storage_class {
            Some(class) => class@,
            None => "unknown"@,
        },
        None => "unknown"@,
    }
}

/// The storage class that a rollback puts back, where it is known.
pub open spec fn class_put_back(instance: &OdooInstance) -> Option<Seq<char>> {
    if recorded_class(instance) == "unknown"@ {
        None
    } else {
        Some(recorded_class(instance))
    }
}

/// The record of the migration is wiped, and the rollback is told.
pub open spec fn rollback_record(instance: &OdooInstance) -> InstanceStatusText {
    InstanceStatusText {
        migration_job_name: FieldText::Clear,
        migration_pv_name: FieldText::Clear,
        migration_previous_storage_class: FieldText::Clear,
        message: FieldText::To("Filestore migration rolled back to "@ + recorded_class(instance)),
        ..no_instance_change()
    }
}

/// Whether `r` rolls the migration of an instance back.
pub open spec fn is_rolled_back(r: RollbackMigration, instance: &OdooInstance) -> bool {
    &&& r.delete_claim@ == temp_claim_name(instance.name())
    &&& opt_text(r.delete_job) == crate::controller::snapshot::migration_job(instance)
    &&& opt_text(r.storage_class) == class_put_back(instance)
    &&& r.status@ == rollback_record(instance)
}

/// Rolls the migration back.
pub fn rollback_filestore_migration(instance: &OdooInstance) -> (r: RollbackMigration)
    ensures
        is_rolled_back(r, instance),
{
    let name = instance.metadata.name_any();
    let (delete_job, before): (Option<String>, String) = match &instance.status {
        Some(s) => {
            let before = match &s.migration_previous_storage_class {
                Some(class) => class.clone(),
                None => "unknown".to_owned(),
            };
            (s.migration_job_name.clone(), before)
        },
        None => (None, "unknown".to_owned()),
    };
    let mut status = InstanceStatusPatch::nothing();
    status.migration_job_name = FieldChange::Clear;
    status.migration_pv_name = FieldChange::Clear;
    status.migration_previous_storage_class = FieldChange::Clear;
    status.message = FieldChange::To(
        join2("Filestore migration rolled back to ", before.as_str()),
    );
    let storage_class = if same_text(before.as_str(), "unknown") {
        None
    } else {
        Some(before)
    };
    RollbackMigration {
        delete_claim: temp_claim_name_of(name.as_str()),
        delete_job,
        storage_class,
        status,
    }
}

// ── The Job ─────────────────────────────────────────────────────────────────

/// Whether `v` is a claim under a name of its own.
pub open spec fn is_claim_volume(
    v: Volume,
    name: Seq<char>,
    claim: Seq<char>,
    read_only: Option<bool>,
) -> bool {
    &&& v.name@ == name
    &&& v.persistent_volume_claim matches Some(source)
    &&& source.claim_name@ == claim
    &&& source.read_only == read_only
    &&& v.config_map is None
    &&& v.empty_dir is None
}

/// A claim under a name of its own.
pub fn claim_volume(name: &str, claim: String, read_only: Option<bool>) -> (r: Volume)
    ensures
        is_claim_volume(r, name@, claim@, read_only),
{
    Volume {
        name: name.to_owned(),
        persistent_volume_claim: Some(
            PersistentVolumeClaimVolumeSource { claim_name: claim, read_only },
        ),
        config_map: None,
        empty_dir: None,
    }
}

/// Whether `c` copies the old filestore to the new one.
pub open spec fn is_rsync_container(c: Container, script: Seq<char>) -> bool {
    &&& c.name@ == "rsync"@
    &&& opt_text(c.image) == Some("instrumentisto/rsync-ssh:latest"@)
    &&& c.image_pull_policy is None
    &&& c.command matches Some(command)
    &&& texts(command@) == seq!["/bin/sh"@, "-c"@]
    &&& c.args matches Some(args)
    &&& texts(args@) == seq![script]
    &&& c.ports is None
    &&& c.env is None
    &&& c.env_from is None
    &&& c.volume_mounts matches Some(mounts)
    &&& mounts@.len() == 2
    &&& mounts@[0].name@ == "old-filestore"@
    &&& mounts@[0].mount_path@ == "/mnt/old"@
    &&& mounts@[0].read_only == Some(true)
    &&& is_mount(mounts@[1], "new-filestore"@, "/mnt/new"@)
    &&& c.has_no_runtime_settings()
}

/// Whether `job` copies the filestore of the instance `name` to the temporary claim.
pub open spec fn is_rsync_job(
    job: Job,
    name: Seq<char>,
    namespace: Seq<char>,
    instance: &OdooInstance,
    script: Seq<char>,
) -> bool {
    &&& job.metadata.name is None
    &&& opt_text(job.metadata.generate_name) == Some(name + "-migrate-"@)
    &&& opt_text(job.metadata.namespace) == Some(namespace)
    &&& job.metadata.uid is None
    &&& job.metadata.creation_timestamp is None
    &&& job.metadata.labels is None
    &&& job.metadata.annotations is None
    &&& job.metadata.owner_references is None
    &&& job.spec matches Some(spec)
    &&& spec.backoff_limit == Some(3i32)
    &&& spec.active_deadline_seconds == Some(7200i64)
    &&& spec.ttl_seconds_after_finished == Some(300i32)
    &&& spec.template.metadata matches Some(meta)
    &&& meta.name is None
    &&& meta.generate_name is None
    &&& meta.namespace is None
    &&& meta.uid is None
    &&& meta.creation_timestamp is None
    &&& opt_map(meta.labels) == Some(one_entry("app"@, name))
    &&& meta.annotations is None
    &&& meta.owner_references is None
    &&& spec.template.spec matches Some(pod)
    &&& opt_text(pod.restart_policy) == Some("Never"@)
    &&& are_pull_secrets(pod.image_pull_secrets, instance)
    &&& pod.affinity is None
    &&& pod.tolerations is None
    &&& pod.security_context == Some(
        PodSecurityContext { run_as_user: Some(100), run_as_group: Some(101), fs_group: Some(101) },
    )
    &&& pod.volumes matches Some(volumes)
    &&& volumes@.len() == 2
    &&& is_claim_volume(volumes@[0], "old-filestore"@, claim_name(name), Some(true))
    &&& is_claim_volume(volumes@[1], "new-filestore"@, temp_claim_name(name), None)
    &&& pod.init_containers is None
    &&& pod.containers@.len() == 1
    &&& is_rsync_container(pod.containers@[0], script)
}

/// The Job that copies the filestore of the instance `name` to the temporary claim. It has two
/// hours, since the whole filestore is copied.
pub fn build_rsync_job(
    name: &str,
    namespace: &str,
    instance: &OdooInstance,
    script: &String,
) -> (r: Job)
    ensures
        is_rsync_job(r, name@, namespace@, instance, script@),
{
    let command = vec!["/bin/sh".to_owned(), "-c".to_owned()];
    let args = vec![script.clone()];
    proof {
        assert(texts(command@) =~= seq!["/bin/sh"@, "-c"@]);
        assert(texts(args@) =~= seq![script@]);
    }
    let old_mount = VolumeMount {
        name: "old-filestore".to_owned(),
        mount_path: "/mnt/old".to_owned(),
        read_only: Some(true),
    };
    let container = Container {
        name: "rsync".to_owned(),
        image: Some("instrumentisto/rsync-ssh:latest".to_owned()),
        image_pull_policy: None,
        command: Some(command),
        args: Some(args),
        ports: None,
        env: None,
        env_from: None,
        volume_mounts: Some(vec![old_mount, mount("new-filestore", "/mnt/new")]),
        resources: None,
        startup_probe: None,
        liveness_probe: None,
        readiness_probe: None,
        security_context: None,
    };
    let old_volume = claim_volume("old-filestore", filestore_claim_name(name), Some(true));
    let new_volume = claim_volume("new-filestore", temp_claim_name_of(name), None);
    let mut labels = StringMap::new();
    labels.insert("app".to_owned(), name.to_owned());
    Job {
        metadata: ObjectMeta {
            name: None,
            generate_name: Some(join2(name, "-migrate-")),
            namespace: Some(namespace.to_owned()),
            uid: None,
            creation_timestamp: None,
            labels: None,
            annotations: None,
            owner_references: None,
        },
        spec: Some(
            JobSpec {
                backoff_limit: Some(3),
                active_deadline_seconds: Some(7200),
                ttl_seconds_after_finished: Some(300),
                template: PodTemplateSpec {
                    metadata: Some(
                        ObjectMeta {
                            name: None,
                            generate_name: None,
                            namespace: None,
                            uid: None,
                            creation_timestamp: None,
                            labels: Some(labels),
                            annotations: None,
                            owner_references: None,
                        },
                    ),
                    spec: Some(
                        PodSpec {
                            restart_policy: Some("Never".to_owned()),
                            image_pull_secrets: image_pull_secrets(instance),
                            affinity: None,
                            tolerations: None,
                            security_context: Some(odoo_security_context()),
                            volumes: Some(vec![old_volume, new_volume]),
                            init_containers: None,
                            containers: vec![container],
                        },
                    ),
                },
            },
        ),
    }
}

// ── Laws ────────────────────────────────────────────────────────────────────

/// A rollback puts back what the migration started from: where the storage class that the
/// filestore had was seen, and the record of it is still there, that class is put back.
pub proof fn law_rollback_restores_class(
    before: &OdooInstance,
    snapshot: &ReconcileSnapshot,
    job_name: Seq<char>,
    after: &OdooInstance,
)
    requires
        snapshot.actual_storage_class matches Some(class) && class@ != "unknown"@,
        after.status matches Some(s) && opt_text(s.migration_previous_storage_class)
            == migration_record(
            before,
            snapshot,
            job_name,
        ).migration_previous_storage_class.applied(None),
    ensures
        class_put_back(after) == opt_text(snapshot.actual_storage_class),
{
}

/// A rollback leaves no record of the migration behind, whatever was recorded.
pub proof fn law_rollback_wipes_record(instance: &OdooInstance, recorded: Option<Seq<char>>)
    ensures
        rollback_record(instance).migration_job_name.applied(recorded) is None,
        rollback_record(instance).migration_pv_name.applied(recorded) is None,
        rollback_record(instance).migration_previous_storage_class.applied(recorded) is None,
        rollback_record(instance).phase is None,
        rollback_record(instance).db_initialized is None,
{
}

} // verus!
