//! Tests of the states: staging refresh, restore, upgrade, migration.

use odoo_operator::controller::helpers::Scripts;
use odoo_operator::controller::patches::{job_started, FieldChange, PhaseChange};
use odoo_operator::controller::snapshot::{
    JobLookup, JobObservation, JobStatus, ReconcileSnapshot,
};
use odoo_operator::controller::states::cloning_from_source::{
    build_db_clone_job, build_filestore_clone_job, build_neutralize_job, can_refresh_with_snapshot,
    clone_facts, db_job_event, deleted_claim_event, ensure_source_snapshot, expired_rollback,
    maybe_retry_failed_neutralize, neutralize_image_hash, recreated_claim_event, record_claim,
    record_db_job, record_filestore_job, record_filestore_phase, record_neutralize_job, record_rollback,
    record_snapshot, record_temp_db, refuse_namespace, refuse_source, rollback_snapshot,
    settled_phase, snapshot_class_event, snapshot_data_source, snapshot_event, temp_db_name,
    tools_major, ClaimState, CloneEvent, CloneStep,
};
use odoo_operator::controller::states::migrating_filestore::{
    begin_filestore_migration, record_filestore_migration, rollback_filestore_migration,
};
use odoo_operator::controller::states::restoring::{
    build_restore_job, restore_started_note, RestoreInputs,
};
use odoo_operator::controller::states::upgrading::upgrade_started_note;
use odoo_operator::controller::states::{
    CloningFromSource, InitFailed, MigratingFilestore, Restoring, Upgrading,
};
use odoo_operator::crd::metadata::{Moment, ObjectMeta};
use odoo_operator::crd::odoo_instance::{
    CronSpec, DatabaseSpec, EnvVar, FilestoreSpec, IngressSpec, OdooInstance, OdooInstanceSpec,
    OdooInstanceStatus,
};
use odoo_operator::crd::odoo_restore_job::{
    OdooRestoreJob, OdooRestoreJobSpec, OdooSource, RestoreSource, RestoreSourceType, S3Source,
    SecretReference,
};
use odoo_operator::crd::odoo_staging_refresh_job::{
    FilestoreMethod, OdooStagingRefreshJob, OdooStagingRefreshJobSpec, OdooStagingRefreshJobStatus,
    StagingSource,
};
use odoo_operator::crd::odoo_upgrade_job::{OdooUpgradeJob, OdooUpgradeJobSpec};
use odoo_operator::crd::shared::{BackupFormat, JobRecord, OdooInstanceRef, Phase};
use odoo_operator::helpers::{sha256_hex, OperatorDefaults};
use odoo_operator::objects::Container;

/// A minimal instance.
fn minimal_instance(name: &str, namespace: &str, uid: Option<&str>) -> OdooInstance {
    OdooInstance {
        metadata: ObjectMeta {
            name: Some(name.to_string()),
            namespace: Some(namespace.to_string()),
            uid: uid.map(|s| s.to_string()),
            ..Default::default()
        },
        spec: OdooInstanceSpec {
            image: None,
            image_pull_secret: None,
            admin_password: "admin".to_string(),
            replicas: 1,
            cron: CronSpec::default(),
            ingress: IngressSpec {
                hosts: vec!["test.example.com".to_string()],
                issuer: None,
                class: None,
                gateway_ref: None,
            },
            resources: None,
            filestore: None,
            config_options: None,
            database: None,
            init: Default::default(),
            environment: Default::default(),
            production_instance_ref: None,
            strategy: None,
            webhook: None,
            probes: None,
            affinity: None,
            tolerations: vec![],
            read_only_sql_access: None,
            extra_env: vec![],
            extra_env_from: vec![],
        },
        status: None,
    }
}

fn target() -> OdooInstance {
    minimal_instance("stage", "ns", Some("0f9f3c1e-6f5a-4f0c-9d2e-3a1b2c3d4e5f"))
}

fn with_class(name: &str, class: Option<&str>) -> OdooInstance {
    let mut i = minimal_instance(name, "ns", Some("src-uid"));
    i.spec.filestore = Some(FilestoreSpec {
        storage_size: None,
        storage_class: class.map(|s| s.to_string()),
        empty_dir: false,
    });
    i
}

fn refresh(method: FilestoreMethod, status: Option<OdooStagingRefreshJobStatus>) -> OdooStagingRefreshJob {
    OdooStagingRefreshJob {
        metadata: ObjectMeta {
            name: Some("ref".to_string()),
            namespace: Some("ns".to_string()),
            uid: Some("ref-uid".to_string()),
            ..Default::default()
        },
        spec: OdooStagingRefreshJobSpec {
            odoo_instance_ref: OdooInstanceRef { name: "stage".to_string(), namespace: None },
            source: StagingSource { instance_name: "prod".to_string(), instance_namespace: None },
            filestore_method: method,
            skip_filestore: false,
            neutralize: true,
            webhook: None,
        },
        status,
    }
}

fn scripts() -> Scripts {
    Scripts {
        clone_db: "clone-db".to_string(),
        clone_filestore: "clone-filestore".to_string(),
        neutralize: "neutralize".to_string(),
        verify_mail: "verify-mail".to_string(),
        s3_download: "s3".to_string(),
        odoo_download: "odoo".to_string(),
        restore_extract: "extract".to_string(),
        restore_load_db: "load".to_string(),
        restore_neutralize: "restore-neutralize".to_string(),
        migrate_filestore: "migrate".to_string(),
        cron_startup_probe: "startup".to_string(),
        cron_liveness_probe: "liveness".to_string(),
    }
}

fn snapshot() -> ReconcileSnapshot {
    ReconcileSnapshot {
        ready_replicas: 0,
        deployment_replicas: 0,
        cron_ready_replicas: 0,
        cron_deployment_replicas: 0,
        db_initialized: false,
        init_job: JobStatus::Absent,
        restore_job: JobStatus::Absent,
        upgrade_job: JobStatus::Absent,
        backup_job: JobStatus::Absent,
        refresh_job: JobStatus::Absent,
        active_init_job: None,
        active_restore_job: None,
        active_upgrade_job: None,
        active_backup_job: None,
        active_refresh_job: None,
        pending_backup_jobs: 0,
        storage_class_mismatch: false,
        actual_storage_class: None,
        migration_job: JobStatus::Absent,
        cluster_mismatch: false,
        db_migration_job: JobStatus::Absent,
        stuck_mount_pods: vec![],
    }
}

/// Runs a reconcile of the refresh, and lists its steps. `answer` says what comes of each.
fn course(
    target: &OdooInstance,
    refresh: Option<OdooStagingRefreshJob>,
    source: &OdooInstance,
    answer: fn(CloneStep) -> CloneEvent,
) -> Vec<CloneStep> {
    let mut steps = Vec::new();
    let mut step = CloneStep::Begin;
    let mut event = CloneEvent::Done;
    for _ in 0..30 {
        let known = if event == CloneEvent::SourceFound || steps.contains(&CloneStep::GetSource) {
            Some(source)
        } else {
            None
        };
        step = CloningFromSource.ensure(target, &refresh, known, step, event);
        steps.push(step);
        if matches!(step, CloneStep::Finish | CloneStep::FailNamespace | CloneStep::FailSource) {
            return steps;
        }
        event = answer(step);
    }
    panic!("the reconcile does not end: {steps:?}");
}

fn fine(step: CloneStep) -> CloneEvent {
    match step {
        CloneStep::GetSource => CloneEvent::SourceFound,
        CloneStep::FindSnapshotClass => CloneEvent::ClassCovered,
        CloneStep::CreateSnapshot => CloneEvent::SnapshotCreated,
        CloneStep::GetSnapshot => CloneEvent::SnapshotReady,
        CloneStep::GetClaim => CloneEvent::ClaimGone,
        CloneStep::InspectClaim => CloneEvent::ClaimBound,
        CloneStep::GetDbJob => CloneEvent::DbJobSucceeded,
        _ => CloneEvent::Done,
    }
}

fn slow(step: CloneStep) -> CloneEvent {
    match step {
        CloneStep::GetSource => CloneEvent::SourceFound,
        CloneStep::FindSnapshotClass => CloneEvent::ClassUncovered,
        CloneStep::CreateSnapshot => CloneEvent::SnapshotExisted,
        CloneStep::GetSnapshot => CloneEvent::SnapshotReady,
        CloneStep::GetClaim => CloneEvent::ClaimTerminating,
        CloneStep::InspectClaim => CloneEvent::ClaimUnbound,
        CloneStep::GetDbJob => CloneEvent::DbJobUnfinished,
        _ => CloneEvent::Done,
    }
}

fn lost(step: CloneStep) -> CloneEvent {
    match step {
        CloneStep::GetSource => CloneEvent::SourceMissing,
        _ => CloneEvent::Done,
    }
}

// ── Staging refresh ──────────────────────────────────────────────────────────

#[test]
fn first_reconcile_starts_database_and_copy() {
    let steps = course(
        &target(),
        Some(refresh(FilestoreMethod::Auto, None)),
        &with_class("prod", Some("ceph")),
        fine,
    );
    assert_eq!(
        steps,
        vec![
            CloneStep::ScaleWeb,
            CloneStep::ScaleCron,
            CloneStep::GetSource,
            CloneStep::DetectServers,
            CloneStep::RecordTempDb,
            CloneStep::CreateDbJob,
            CloneStep::RecordDbJob,
            CloneStep::CreateFilestoreJob,
            CloneStep::RecordFilestoreJob,
            CloneStep::Finish,
        ]
    );
}

#[test]
fn snapshot_path_replaces_the_claim_in_order() {
    let mut t = with_class("stage", Some("ceph"));
    t.metadata.uid = Some("t".to_string());
    let status = OdooStagingRefreshJobStatus {
        db_job_name: Some("db".to_string()),
        ..Default::default()
    };
    let steps = course(
        &t,
        Some(refresh(FilestoreMethod::Auto, Some(status))),
        &with_class("prod", Some("ceph")),
        fine,
    );
    assert_eq!(
        steps[2..],
        [
            CloneStep::GetSource,
            CloneStep::FindSnapshotClass,
            CloneStep::CreateSnapshot,
            CloneStep::RecordSnapshot,
            CloneStep::CreateRollback,
            CloneStep::RecordRollback,
            CloneStep::GetSnapshot,
            CloneStep::DeleteClaim,
            CloneStep::GetClaim,
            CloneStep::CreateClaim,
            CloneStep::RecordClaim,
            CloneStep::GetDbJob,
            CloneStep::Finish,
        ]
    );
}

#[test]
fn snapshot_path_waits_while_the_old_claim_terminates() {
    let status = OdooStagingRefreshJobStatus {
        db_job_name: Some("db".to_string()),
        source_snapshot: Some("ref-src".to_string()),
        rollback_snapshot: Some("ref-rollback".to_string()),
        ..Default::default()
    };
    let steps = course(
        &target(),
        Some(refresh(FilestoreMethod::Snapshot, Some(status))),
        &with_class("prod", None),
        slow,
    );
    assert_eq!(
        steps[3..],
        [
            CloneStep::CreateSnapshot,
            CloneStep::GetSnapshot,
            CloneStep::DeleteClaim,
            CloneStep::GetClaim,
            CloneStep::Finish,
        ]
    );
}

#[test]
fn open_method_copies_where_no_snapshot_class_covers() {
    let t = with_class("stage", Some("ceph"));
    let source = with_class("prod", Some("ceph"));
    let status = || OdooStagingRefreshJobStatus {
        db_job_name: Some("db".to_string()),
        ..Default::default()
    };
    let r = refresh(FilestoreMethod::Auto, Some(status()));
    assert_eq!(
        course(&t, Some(r), &source, slow)[3..6],
        [
            CloneStep::FindSnapshotClass,
            CloneStep::CreateFilestoreJob,
            CloneStep::RecordFilestoreJob,
        ]
    );
    // A snapshot that was taken is stayed with.
    let mut r = refresh(FilestoreMethod::Auto, Some(status()));
    r.status.as_mut().unwrap().source_snapshot = Some("ref-src".to_string());
    assert_eq!(course(&t, Some(r), &source, slow)[3], CloneStep::CreateSnapshot);
    // Other classes are never cloned from a snapshot.
    let r = refresh(FilestoreMethod::Auto, Some(status()));
    let steps = course(&t, Some(r), &with_class("prod", Some("nfs")), fine);
    assert_eq!(steps[3], CloneStep::CreateFilestoreJob);
    let drivers = vec!["csi.nfs".to_string(), "csi.ceph".to_string()];
    let event = |p: Option<&str>| snapshot_class_event(&p.map(|s| s.to_string()), &drivers);
    assert_eq!(event(Some("csi.ceph")), CloneEvent::ClassCovered);
    assert_eq!(event(Some("csi.other")), CloneEvent::ClassUncovered);
    assert_eq!(event(None), CloneEvent::ClassUncovered);
}

#[test]
fn refresh_can_be_undone_for_a_day() {
    let mut r = refresh(FilestoreMethod::Snapshot, None);
    let s = rollback_snapshot(&target(), &r);
    assert_eq!(s.metadata.name.as_deref(), Some("ref-rollback"));
    assert_eq!(s.source_claim, "stage-filestore-pvc");
    assert!(
        matches!(record_rollback(&r).rollback_snapshot, FieldChange::To(n) if n == "ref-rollback")
    );
    let at = |secs: i64| Moment { secs, nanos: 0 };
    assert!(expired_rollback(&r, Some(at(0)), at(200_000)).is_none());
    r.status = Some(OdooStagingRefreshJobStatus {
        phase: Some(Phase::Completed),
        rollback_snapshot: Some("ref-rollback".to_string()),
        ..Default::default()
    });
    assert!(expired_rollback(&r, Some(at(1_000)), at(87_399)).is_none());
    assert!(expired_rollback(&r, None, at(87_400)).is_none());
    let expired = expired_rollback(&r, Some(at(1_000)), at(87_400)).unwrap();
    assert_eq!(expired.snapshot, "ref-rollback");
    assert!(matches!(expired.patch.rollback_snapshot, FieldChange::Clear));
    r.status.as_mut().unwrap().phase = Some(Phase::Running);
    assert!(expired_rollback(&r, Some(at(1_000)), at(900_000)).is_none());
}

#[test]
fn running_filestore_step_is_settled() {
    let mut status = OdooStagingRefreshJobStatus {
        db_job_name: Some("db".to_string()),
        filestore_phase: Some(Phase::Running),
        ..Default::default()
    };
    let source = with_class("prod", None);
    let t = target();
    let r = Some(refresh(FilestoreMethod::Snapshot, Some(status)));
    let steps = course(&t, r, &source, fine);
    assert_eq!(
        steps[3..],
        [
            CloneStep::InspectClaim,
            CloneStep::SettleFilestore,
            CloneStep::GetDbJob,
            CloneStep::Finish,
        ]
    );
    let r = Some(refresh(
        FilestoreMethod::Snapshot,
        Some(OdooStagingRefreshJobStatus {
            db_job_name: Some("db".to_string()),
            filestore_phase: Some(Phase::Running),
            ..Default::default()
        }),
    ));
    assert_eq!(settled_phase(clone_facts(&t, &r, Some(&source))), Phase::Completed);
    let steps = course(&t, r, &source, slow);
    assert_eq!(steps[3..], [CloneStep::InspectClaim, CloneStep::GetDbJob, CloneStep::Finish]);
    status = OdooStagingRefreshJobStatus {
        db_job_name: Some("db".to_string()),
        filestore_phase: Some(Phase::Running),
        filestore_job_name: Some("fs".to_string()),
        filestore_job_phase: Some(Phase::Failed),
        ..Default::default()
    };
    let r = Some(refresh(FilestoreMethod::Copy, Some(status)));
    assert_eq!(settled_phase(clone_facts(&t, &r, Some(&source))), Phase::Failed);
    assert_eq!(course(&t, r, &source, fine)[3], CloneStep::SettleFilestore);
}

#[test]
fn clone_is_neutralized_when_complete() {
    let done = || OdooStagingRefreshJobStatus {
        db_job_name: Some("db".to_string()),
        db_job_phase: Some(Phase::Completed),
        filestore_phase: Some(Phase::Completed),
        ..Default::default()
    };
    let source = with_class("prod", None);
    let t = target();
    let r = refresh(FilestoreMethod::Copy, Some(done()));
    assert_eq!(
        course(&t, Some(r), &source, fine)[3..],
        [CloneStep::CreateNeutralizeJob, CloneStep::RecordNeutralizeJob, CloneStep::Finish]
    );
    let mut r = refresh(FilestoreMethod::Copy, Some(done()));
    r.status.as_mut().unwrap().neutralize_job_name = Some("neut".to_string());
    assert_eq!(course(&t, Some(r), &source, fine)[3..], [CloneStep::Finish]);
    let mut r = refresh(FilestoreMethod::Copy, Some(done()));
    r.spec.neutralize = false;
    assert_eq!(
        course(&t, Some(r), &source, fine)[3..],
        [CloneStep::CreateNeutralizeJob, CloneStep::RecordNeutralizeJob, CloneStep::Finish]
    );
}

#[test]
fn skipped_filestore_is_left_alone() {
    let mut r = refresh(FilestoreMethod::Copy, None);
    r.spec.skip_filestore = true;
    let steps = course(&target(), Some(r), &with_class("prod", None), fine);
    assert_eq!(steps[6..], [CloneStep::RecordDbJob, CloneStep::Finish]);
    let mut ephemeral = target();
    ephemeral.spec.filestore =
        Some(FilestoreSpec { storage_size: None, storage_class: None, empty_dir: true });
    let r = refresh(FilestoreMethod::Copy, None);
    let steps = course(&ephemeral, Some(r), &with_class("prod", None), fine);
    assert_eq!(steps[6..], [CloneStep::RecordDbJob, CloneStep::Finish]);
}

#[test]
fn unusable_sources_are_refused() {
    let t = target();
    let source = with_class("prod", None);
    assert_eq!(course(&t, None, &source, fine)[2..], [CloneStep::Finish]);
    let r = refresh(FilestoreMethod::Copy, None);
    assert_eq!(
        course(&t, Some(r), &source, lost)[2..],
        [CloneStep::GetSource, CloneStep::RefuseSource, CloneStep::FailSource]
    );
    let mut r = refresh(FilestoreMethod::Copy, None);
    r.spec.source.instance_namespace = Some("elsewhere".to_string());
    assert_eq!(
        course(&t, Some(r), &source, fine)[2..],
        [CloneStep::RefuseNamespace, CloneStep::FailNamespace]
    );
    assert!(matches!(
        refuse_namespace().message,
        FieldChange::To(m) if m == "cross-namespace staging refresh is not supported in v1 — source and target must share a namespace"
    ));
    assert!(matches!(
        refuse_source(&refresh(FilestoreMethod::Copy, None), "404").message,
        FieldChange::To(m) if m == "source OdooInstance prod not found: 404"
    ));
}

#[test]
fn what_comes_of_a_step() {
    assert_eq!(snapshot_event(Some(true)), CloneEvent::SnapshotReady);
    assert_eq!(snapshot_event(Some(false)), CloneEvent::SnapshotPending);
    assert_eq!(snapshot_event(None), CloneEvent::SnapshotPending);
    let claim = |terminating: bool, phase: Option<&str>| {
        Some(ClaimState { terminating, phase: phase.map(|s| s.to_string()) })
    };
    assert_eq!(deleted_claim_event(&claim(true, None)), CloneEvent::ClaimTerminating);
    assert_eq!(deleted_claim_event(&claim(false, Some("Bound"))), CloneEvent::ClaimGone);
    assert_eq!(deleted_claim_event(&None), CloneEvent::ClaimGone);
    assert_eq!(recreated_claim_event(&claim(false, Some("Bound"))), CloneEvent::ClaimBound);
    assert_eq!(recreated_claim_event(&claim(true, Some("Bound"))), CloneEvent::ClaimUnbound);
    assert_eq!(recreated_claim_event(&claim(false, Some("Pending"))), CloneEvent::ClaimUnbound);
    assert_eq!(recreated_claim_event(&None), CloneEvent::ClaimUnbound);
    let job = |succeeded| {
        JobLookup::Found(JobObservation { succeeded, failed: None, deleting: false })
    };
    assert_eq!(db_job_event(job(Some(1))), CloneEvent::DbJobSucceeded);
    assert_eq!(db_job_event(job(Some(0))), CloneEvent::DbJobUnfinished);
    assert_eq!(db_job_event(job(None)), CloneEvent::DbJobUnfinished);
    assert_eq!(db_job_event(JobLookup::NotFound), CloneEvent::DbJobUnfinished);
    assert_eq!(tools_major(16, 18), 18);
    assert_eq!(tools_major(18, 16), 18);
}

#[test]
fn snapshots_need_one_known_class() {
    let ceph = with_class("a", Some("ceph"));
    assert!(can_refresh_with_snapshot(&ceph, &with_class("b", Some("ceph"))));
    assert!(!can_refresh_with_snapshot(&ceph, &with_class("b", Some("nfs"))));
    assert!(!can_refresh_with_snapshot(&with_class("a", None), &with_class("b", None)));
    assert!(!can_refresh_with_snapshot(&ceph, &target()));
}

fn env_value<'a>(c: &'a Container, name: &str) -> Option<&'a str> {
    c.env
        .as_ref()
        .unwrap()
        .iter()
        .find(|e| e.name == name)
        .and_then(|e| e.value.as_deref())
}

#[test]
fn database_clone_job() {
    let t = target();
    let source = with_class("prod", None);
    let r = refresh(FilestoreMethod::Copy, None);
    let temp = temp_db_name(&t, &r);
    assert_eq!(
        temp,
        format!("odoo_0f9f3c1e_6f5a_4f0c_9d2e_3a1b2c3d4e5f_refresh_{}", &sha256_hex("ref-uid")[..8])
    );
    assert!(temp.len() <= 63);
    let job = build_db_clone_job(&t, &source, &r, "postgres:18", "script");
    assert_eq!(job.metadata.generate_name.as_deref(), Some("ref-db-"));
    let spec = job.spec.unwrap();
    assert_eq!(spec.active_deadline_seconds, Some(3600));
    let pod = spec.template.spec.unwrap();
    assert!(pod.volumes.is_none());
    let c = &pod.containers[0];
    assert_eq!(c.image.as_deref(), Some("postgres:18"));
    assert_eq!(env_value(c, "SRC_DB"), Some("odoo_src_uid"));
    assert_eq!(env_value(c, "TEMP_DB"), Some(temp.as_str()));
    assert_eq!(c.command.as_ref().unwrap()[2], "script");
    let patch = record_temp_db(&t, &r);
    assert!(matches!(patch.temp_db_name, FieldChange::To(n) if n == temp));
    assert!(patch.phase.is_none());
    let patch = record_db_job("k", "T");
    assert_eq!(patch.phase, Some(Phase::Running));
    assert!(matches!(patch.db_job_name, FieldChange::To(n) if n == "k"));
    assert!(matches!(patch.temp_db_name, FieldChange::Keep));
    assert!(matches!(patch.start_time, FieldChange::To(n) if n == "T"));
}

#[test]
fn filestore_copy_job() {
    let t = target();
    let source = with_class("prod", None);
    let r = refresh(FilestoreMethod::Copy, None);
    let job = build_filestore_clone_job(&t, &source, &r, "odoo:18.0", "script");
    let spec = job.spec.unwrap();
    assert_eq!(spec.active_deadline_seconds, Some(7200));
    let pod = spec.template.spec.unwrap();
    let volumes = pod.volumes.unwrap();
    assert_eq!(volumes.len(), 3);
    let claim = volumes[2].persistent_volume_claim.as_ref().unwrap();
    assert_eq!((claim.claim_name.as_str(), claim.read_only), ("prod-filestore-pvc", Some(true)));
    let mounts = pod.containers[0].volume_mounts.as_ref().unwrap();
    assert_eq!((mounts[2].mount_path.as_str(), mounts[2].read_only), ("/src", Some(true)));
    assert_eq!(pod.containers[0].command.as_ref().unwrap()[0], "/bin/bash");
    let patch = record_filestore_job("fs");
    assert_eq!(patch.filestore_phase, PhaseChange::To(Phase::Running));
    assert_eq!(
        record_filestore_phase(Phase::Completed).filestore_phase,
        PhaseChange::To(Phase::Completed)
    );
    let patch = record_claim();
    assert_eq!(patch.filestore_phase, PhaseChange::To(Phase::Running));
    assert!(matches!(patch.filestore_job_name, FieldChange::Keep));
}

#[test]
fn neutralize_job_gets_mail_and_extra_env() {
    let mut t = target();
    let var = |n: &str, v: &str| EnvVar {
        name: n.to_string(),
        value: Some(v.to_string()),
        value_from: None,
    };
    t.spec.extra_env = vec![var("MAIL_HOST", "mine"), var("X", "1")];
    let r = refresh(FilestoreMethod::Copy, None);
    let mail = vec![var("MAIL_HOST", "sink")];
    let job = build_neutralize_job(&t, &r, "odoo:18.0", &mail, &scripts());
    assert_eq!(job.metadata.generate_name.as_deref(), Some("ref-neut-"));
    let spec = job.spec.unwrap();
    assert_eq!((spec.backoff_limit, spec.active_deadline_seconds), (Some(5), Some(300)));
    let pod = spec.template.spec.unwrap();
    let c = &pod.containers[0];
    assert_eq!(c.env.as_ref().unwrap().len(), 7);
    assert_eq!(env_value(c, "DB_NAME"), Some("odoo_0f9f3c1e_6f5a_4f0c_9d2e_3a1b2c3d4e5f"));
    assert_eq!(env_value(c, "MAIL_HOST"), Some("mine"));
    assert_eq!(env_value(c, "X"), Some("1"));
    let patch = record_neutralize_job("n", "odoo:18.0");
    assert!(
        matches!(patch.neutralize_job_image_hash, FieldChange::To(h) if h == sha256_hex("odoo:18.0")[..16])
    );
    assert_eq!(c.command.as_ref().unwrap()[2], "neutralize");
}

#[test]
fn clone_that_is_not_neutralized_is_verified() {
    let mut r = refresh(FilestoreMethod::Copy, None);
    r.spec.neutralize = false;
    let job = build_neutralize_job(&target(), &r, "odoo:18.0", &vec![], &scripts());
    assert_eq!(job.metadata.generate_name.as_deref(), Some("ref-verify-"));
    let pod = job.spec.unwrap().template.spec.unwrap();
    assert_eq!(pod.containers[0].name, "verify-mail");
    assert_eq!(pod.containers[0].command.as_ref().unwrap()[2], "verify-mail");
}

#[test]
fn source_snapshot_is_owned_by_the_refresh() {
    let r = refresh(FilestoreMethod::Snapshot, None);
    let s = ensure_source_snapshot(&r);
    assert_eq!(s.metadata.name.as_deref(), Some("ref-src"));
    assert_eq!(s.metadata.owner_references.as_ref().unwrap()[0].kind, "OdooStagingRefreshJob");
    assert_eq!(s.source_claim, "prod-filestore-pvc");
    assert!(s.volume_snapshot_class_name.is_none());
    let source = snapshot_data_source(&r);
    assert_eq!(source.api_group.as_deref(), Some("snapshot.storage.k8s.io"));
    assert_eq!((source.kind.as_str(), source.name.as_str()), ("VolumeSnapshot", "ref-src"));
    assert!(matches!(record_snapshot(&r).source_snapshot, FieldChange::To(n) if n == "ref-src"));
}

// ── Neutralize retry ─────────────────────────────────────────────────────────

fn failed_refresh(name: &str, created: Option<i64>, image: &str) -> OdooStagingRefreshJob {
    let mut r = refresh(
        FilestoreMethod::Copy,
        Some(OdooStagingRefreshJobStatus {
            phase: Some(Phase::Failed),
            neutralize_job_name: Some(format!("{name}-job")),
            neutralize_job_phase: Some(Phase::Failed),
            neutralize_job_image_hash: Some(neutralize_image_hash(image)),
            ..Default::default()
        }),
    );
    r.metadata.name = Some(name.to_string());
    r.metadata.creation_timestamp = created.map(|secs| Moment { secs, nanos: 0 });
    r
}

#[test]
fn corrected_image_is_tried_once() {
    let mut t = target();
    t.spec.image = Some("odoo:fixed".to_string());
    let defaults = OperatorDefaults::default();
    let list = vec![
        failed_refresh("undated", None, "odoo:typo"),
        failed_refresh("young", Some(20), "odoo:typo"),
        failed_refresh("old", Some(10), "odoo:typo"),
    ];
    let retry = maybe_retry_failed_neutralize(&t, &defaults, &list).unwrap();
    assert_eq!(retry.refresh, "young");
    assert_eq!(retry.delete_job.as_deref(), Some("young-job"));
    assert_eq!(retry.patch.phase, Some(Phase::Running));
    assert_eq!(retry.patch.neutralize_job_phase, PhaseChange::Clear);
    assert!(matches!(retry.patch.neutralize_job_name, FieldChange::Clear));
    assert!(matches!(retry.patch.db_job_name, FieldChange::Keep));
    // The same image again: nothing is done.
    let list = vec![failed_refresh("young", Some(20), "odoo:fixed")];
    assert!(maybe_retry_failed_neutralize(&t, &defaults, &list).is_none());
    // Of two of the same age the last counts.
    let list = vec![
        failed_refresh("a", Some(20), "odoo:fixed"),
        failed_refresh("b", Some(20), "odoo:typo"),
    ];
    assert_eq!(maybe_retry_failed_neutralize(&t, &defaults, &list).unwrap().refresh, "b");
    let mut other = failed_refresh("c", Some(30), "odoo:typo");
    other.spec.odoo_instance_ref.name = "someone".to_string();
    assert!(maybe_retry_failed_neutralize(&t, &defaults, &vec![other]).is_none());
    let plan = InitFailed.ensure(&t, &defaults, &vec![failed_refresh("d", None, "odoo:typo")]);
    assert_eq!(plan.scale_down, vec!["stage".to_string(), "stage-cron".to_string()]);
    assert_eq!(plan.retry.unwrap().refresh, "d");
}

// ── Restore ──────────────────────────────────────────────────────────────────

fn restore(source: RestoreSource, format: BackupFormat, neutralize: bool) -> OdooRestoreJob {
    OdooRestoreJob {
        metadata: ObjectMeta {
            name: Some("res".to_string()),
            uid: Some("res-uid".to_string()),
            ..Default::default()
        },
        spec: OdooRestoreJobSpec {
            odoo_instance_ref: OdooInstanceRef { name: "stage".to_string(), namespace: None },
            source,
            format,
            neutralize,
            webhook: None,
        },
        status: None,
    }
}

fn s3() -> RestoreSource {
    RestoreSource {
        source_type: RestoreSourceType::S3,
        s3: Some(S3Source {
            bucket: "b".to_string(),
            object_key: "k".to_string(),
            endpoint: "e".to_string(),
            insecure: true,
            s3_credentials_secret_ref: Some(SecretReference {
                name: Some("creds".to_string()),
                namespace: None,
            }),
        }),
        odoo: None,
    }
}

fn odoo() -> RestoreSource {
    RestoreSource {
        source_type: RestoreSourceType::Odoo,
        s3: None,
        odoo: Some(OdooSource {
            url: "https://old".to_string(),
            source_database: None,
            master_password: Some("m".to_string()),
        }),
    }
}

fn inputs(credentials: Option<(&str, &str)>) -> RestoreInputs {
    RestoreInputs {
        pg_image: "postgres:17".to_string(),
        credentials: credentials.map(|(a, b)| (a.to_string(), b.to_string())),
        mail_env: vec![],
    }
}

#[test]
fn restore_from_an_object_store() {
    let t = target();
    let r = restore(s3(), BackupFormat::Zip, true);
    let job = build_restore_job(&t, &r, &OperatorDefaults::default(), &inputs(Some(("ak", "sk"))), &scripts());
    assert_eq!(job.metadata.generate_name.as_deref(), Some("res-"));
    let pod = job.spec.unwrap().template.spec.unwrap();
    let steps = pod.init_containers.unwrap();
    let names: Vec<&str> = steps.iter().map(|c| c.name.as_str()).collect();
    assert_eq!(names, vec!["download", "extract", "load-db"]);
    assert_eq!(steps[0].image.as_deref(), Some("quay.io/minio/mc:latest"));
    assert_eq!(env_value(&steps[0], "S3_INSECURE"), Some("true"));
    assert_eq!(env_value(&steps[0], "OUTPUT_FILE"), Some("/workspace/artifact"));
    assert_eq!(env_value(&steps[0], "AWS_ACCESS_KEY_ID"), Some("ak"));
    assert_eq!(env_value(&steps[0], "AWS_SECRET_ACCESS_KEY"), Some("sk"));
    assert_eq!(steps[1].security_context.unwrap().run_as_user, Some(0));
    assert_eq!(steps[2].image.as_deref(), Some("postgres:17"));
    assert_eq!(env_value(&steps[2], "BACKUP_FORMAT"), Some("zip"));
    assert_eq!(pod.containers[0].name, "neutralize");
    assert_eq!(pod.containers[0].image.as_deref(), Some("odoo:18.0"));
    let volumes = pod.volumes.unwrap();
    assert_eq!(volumes[0].name, "workspace");
    let claim = volumes[1].persistent_volume_claim.as_ref().unwrap();
    assert_eq!((claim.claim_name.as_str(), claim.read_only), ("stage-filestore-pvc", Some(false)));
    let job = build_restore_job(&t, &r, &OperatorDefaults::default(), &inputs(None), &scripts());
    let steps = job.spec.unwrap().template.spec.unwrap().init_containers.unwrap();
    assert_eq!(steps[0].env.as_ref().unwrap().len(), 6);
}

#[test]
fn restore_from_a_running_server() {
    let t = target();
    let r = restore(odoo(), BackupFormat::Sql, false);
    let job = build_restore_job(&t, &r, &OperatorDefaults::default(), &inputs(None), &scripts());
    let pod = job.spec.unwrap().template.spec.unwrap();
    let steps = pod.init_containers.unwrap();
    assert_eq!(steps.len(), 2);
    assert_eq!(env_value(&steps[0], "SOURCE_DB"), Some(""));
    assert_eq!(env_value(&steps[0], "BACKUP_FORMAT"), Some("dump"));
    assert_eq!(env_value(&steps[0], "OUTPUT_FILE"), Some("/workspace/dump.sql"));
    assert_eq!(env_value(&steps[1], "BACKUP_FORMAT"), Some("sql"));
    assert_eq!(pod.containers[0].name, "noop");
    assert_eq!(pod.containers[0].command.as_ref().unwrap(), &vec!["/bin/true".to_string()]);
    let mut nowhere = odoo();
    nowhere.odoo = None;
    let r = restore(nowhere, BackupFormat::Dump, false);
    let job = build_restore_job(&t, &r, &OperatorDefaults::default(), &inputs(None), &scripts());
    let steps = job.spec.unwrap().template.spec.unwrap().init_containers.unwrap();
    assert_eq!(steps.len(), 1);
    assert_eq!(env_value(&steps[0], "BACKUP_FORMAT"), Some("dump"));
}

#[test]
fn ephemeral_filestore_is_not_restored() {
    let mut t = target();
    t.spec.filestore =
        Some(FilestoreSpec { storage_size: None, storage_class: None, empty_dir: true });
    let job =
        build_restore_job(
            &t,
            &restore(s3(), BackupFormat::Zip, false),
            &OperatorDefaults::default(),
            &inputs(None),
            &scripts(),
        );
    let volumes = job.spec.unwrap().template.spec.unwrap().volumes.unwrap();
    assert_eq!(volumes[1].name, "filestore");
    assert!(volumes[1].empty_dir.is_some() && volumes[1].persistent_volume_claim.is_none());
}

#[test]
fn restore_job_is_created_once() {
    let t = target();
    let mut s = snapshot();
    let plan = Restoring.ensure(&t, &s);
    assert_eq!(plan.scale_down, vec!["stage".to_string(), "stage-cron".to_string()]);
    assert!(!plan.start && plan.credentials.is_none());
    s.active_restore_job = Some(restore(s3(), BackupFormat::Zip, true));
    let plan = Restoring.ensure(&t, &s);
    assert!(plan.start);
    assert_eq!(plan.credentials, Some(("ns".to_string(), "creds".to_string())));
    s.active_restore_job.as_mut().unwrap().status =
        Some(JobRecord { phase: None, job_name: Some("j".to_string()) });
    let plan = Restoring.ensure(&t, &s);
    assert!(!plan.start && plan.credentials.is_none());
    assert_eq!(restore_started_note("j"), "Created restore job j");
    let patch = job_started("j", "T");
    assert_eq!(patch.phase, Phase::Running);
    assert_eq!(patch.job_name.as_deref(), Some("j"));
    assert_eq!(patch.start_time.as_deref(), Some("T"));
}

// ── Upgrade ──────────────────────────────────────────────────────────────────

fn upgrade(modules: &[&str], install: &[&str]) -> OdooUpgradeJob {
    let own = |v: &[&str]| v.iter().map(|s| s.to_string()).collect();
    OdooUpgradeJob {
        metadata: ObjectMeta { name: Some("up".to_string()), ..Default::default() },
        spec: OdooUpgradeJobSpec {
            odoo_instance_ref: OdooInstanceRef { name: "stage".to_string(), namespace: None },
            scheduled_time: None,
            modules: own(modules),
            modules_install: own(install),
            webhook: None,
        },
        status: None,
    }
}

fn upgrade_args(modules: &[&str], install: &[&str]) -> Vec<String> {
    let mut t = target();
    t.spec.database = Some(DatabaseSpec {
        cluster: None,
        name: Some("db".to_string()),
        missing_policy: Default::default(),
    });
    let mut s = snapshot();
    s.active_upgrade_job = Some(upgrade(modules, install));
    let plan = Upgrading.ensure(&t, &OperatorDefaults::default(), &s);
    assert_eq!(plan.scale_down, vec!["stage-cron".to_string()]);
    let pod = plan.job.unwrap().spec.unwrap().template.spec.unwrap();
    pod.containers[0].args.as_ref().unwrap()[4..].to_vec()
}

#[test]
fn upgrade_names_its_modules() {
    assert_eq!(upgrade_args(&[], &[]), vec!["-u", "all"]);
    assert_eq!(upgrade_args(&["a", "b"], &[]), vec!["-u", "a,b"]);
    assert_eq!(upgrade_args(&[], &["c"]), vec!["-i", "c"]);
    assert_eq!(upgrade_args(&["a"], &["b", "c", "d"]), vec!["-u", "a", "-i", "b,c,d"]);
    assert_eq!(upgrade_started_note("j"), "Created upgrade job j");
}

#[test]
fn operator_image_is_used_where_the_instance_names_none() {
    let defaults = OperatorDefaults { odoo_image: "odoo:19".to_string(), ..Default::default() };
    let mut s = snapshot();
    s.active_upgrade_job = Some(upgrade(&[], &[]));
    let image = |t: &OdooInstance, d: &OperatorDefaults| {
        let job = Upgrading.ensure(t, d, &s).job.unwrap();
        job.spec.unwrap().template.spec.unwrap().containers[0].image.clone().unwrap()
    };
    let mut t = target();
    t.spec.image = None;
    assert_eq!(image(&t, &defaults), "odoo:19");
    assert_eq!(image(&t, &OperatorDefaults::default()), "odoo:18.0");
    let job = build_restore_job(
        &t,
        &restore(s3(), BackupFormat::Sql, true),
        &defaults,
        &inputs(None),
        &scripts(),
    );
    let pod = job.spec.unwrap().template.spec.unwrap();
    assert_eq!(pod.containers[0].image.as_deref(), Some("odoo:19"));
    t.spec.image = Some("mine".to_string());
    assert_eq!(image(&t, &defaults), "mine");
}

#[test]
fn upgrade_job_is_created_once() {
    let mut s = snapshot();
    assert!(Upgrading.ensure(&target(), &OperatorDefaults::default(), &s).job.is_none());
    let mut u = upgrade(&[], &[]);
    u.status = Some(JobRecord { phase: None, job_name: Some("j".to_string()) });
    s.active_upgrade_job = Some(u);
    assert!(Upgrading.ensure(&target(), &OperatorDefaults::default(), &s).job.is_none());
}

// ── Filestore migration ──────────────────────────────────────────────────────

#[test]
fn migration_copies_to_a_temporary_claim() {
    let t = with_class("stage", Some("fast"));
    assert_eq!(
        MigratingFilestore.ensure(&t),
        vec!["stage".to_string(), "stage-cron".to_string()]
    );
    let begin = begin_filestore_migration(
        &t,
        &OperatorDefaults::default(),
        &Some("7Gi".to_string()),
        &scripts(),
    );
    assert_eq!(begin.temp_claim.metadata.name.as_deref(), Some("stage-filestore-pvc-temp"));
    assert_eq!(begin.temp_claim.storage, "7Gi");
    assert_eq!(begin.temp_claim.storage_class_name.as_deref(), Some("fast"));
    let spec = begin.job.spec.unwrap();
    assert_eq!(spec.backoff_limit, Some(3));
    assert_eq!(spec.active_deadline_seconds, Some(7200));
    assert_eq!(spec.ttl_seconds_after_finished, Some(300));
    let pod = spec.template.spec.unwrap();
    assert_eq!(pod.containers[0].args.as_ref().unwrap(), &vec!["migrate".to_string()]);
    let volumes = pod.volumes.unwrap();
    let old = volumes[0].persistent_volume_claim.as_ref().unwrap();
    let new = volumes[1].persistent_volume_claim.as_ref().unwrap();
    assert_eq!((old.claim_name.as_str(), old.read_only), ("stage-filestore-pvc", Some(true)));
    assert_eq!((new.claim_name.as_str(), new.read_only), ("stage-filestore-pvc-temp", None));
    let begin =
        begin_filestore_migration(&target(), &OperatorDefaults::default(), &None, &scripts());
    assert_eq!(begin.temp_claim.storage, "2Gi");
}

#[test]
fn rollback_puts_the_class_back() {
    let mut t = with_class("stage", Some("fast"));
    let mut s = snapshot();
    s.actual_storage_class = Some("slow".to_string());
    let record = record_filestore_migration(&t, &s, "mig");
    assert!(matches!(
        &record.message,
        FieldChange::To(m) if m == "Migrating filestore from slow to fast"
    ));
    let previous = match record.migration_previous_storage_class {
        FieldChange::To(class) => class,
        other => panic!("unexpected {other:?}"),
    };
    t.status = Some(OdooInstanceStatus {
        migration_job_name: Some("mig".to_string()),
        migration_previous_storage_class: Some(previous),
        ..Default::default()
    });
    let rollback = rollback_filestore_migration(&t);
    assert_eq!(rollback.delete_claim, "stage-filestore-pvc-temp");
    assert_eq!(rollback.delete_job.as_deref(), Some("mig"));
    assert_eq!(rollback.storage_class.as_deref(), Some("slow"));
    assert!(matches!(rollback.status.migration_job_name, FieldChange::Clear));
    assert!(matches!(
        rollback.status.message,
        FieldChange::To(m) if m == "Filestore migration rolled back to slow"
    ));
    t.status = None;
    assert!(rollback_filestore_migration(&t).storage_class.is_none());
    s.actual_storage_class = None;
    assert!(matches!(
        record_filestore_migration(&target(), &s, "mig").message,
        FieldChange::To(m) if m == "Migrating filestore from unknown to ?"
    ));
}
