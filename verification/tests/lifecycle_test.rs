//! Tests of the snapshot and of the state machine.

use odoo_operator::controller::missing_database::{react_to_missing_database, MissingDatabase};
use odoo_operator::controller::patches::{FieldChange, PhaseChange};
use odoo_operator::controller::snapshot::{
    aggregate_refresh_sub_statuses, gather_stuck_mount_pods, job_names, record_refresh_jobs,
    resolve_job_status,
    resolve_migration_status, resolve_refresh_sub_job_status, scheduled_time_reached,
    scheduled_time_reached_at, select_jobs, ActiveJobs, ClaimObservation, DeploymentObservation,
    EventObservation, JobLookup, JobLookups, JobObservation, JobStatus, Observations,
    PodObservation, ReconcileSnapshot, RefreshRecords,
};
use odoo_operator::controller::state_machine::{
    action_effects_at, decide, execute_action, phase_patch, requeue_for, run_state_machine,
    scheduled_requeue, Effect, JobKind, Requeue,
};
use odoo_operator::controller::states::{state_for, State};
use odoo_operator::controller::transitions::{
    next_transition, transitions_from, TransitionAction,
};
use odoo_operator::crd::metadata::{Moment, ObjectMeta};
use odoo_operator::crd::odoo_backup_job::{OdooBackupJob, OdooBackupJobSpec};
use odoo_operator::crd::odoo_init_job::{OdooInitJob, OdooInitJobSpec};
use odoo_operator::crd::odoo_instance::{
    CronSpec, DatabaseMissingPolicy, DatabaseSpec, Environment, FilestoreSpec, IngressSpec,
    OdooInstance, OdooInstancePhase, OdooInstanceSpec, OdooInstanceStatus,
};
use odoo_operator::crd::odoo_staging_refresh_job::{
    FilestoreMethod, OdooStagingRefreshJob, OdooStagingRefreshJobSpec, OdooStagingRefreshJobStatus,
    StagingSource,
};
use odoo_operator::crd::odoo_upgrade_job::{OdooUpgradeJob, OdooUpgradeJobSpec};
use odoo_operator::crd::shared::{JobRecord, OdooInstanceRef, Phase, WebhookConfig};

/// A minimal instance.
fn minimal_instance(name: &str, namespace: &str, uid: Option<&str>) -> OdooInstance {
    OdooInstance {
        metadata: ObjectMeta {
            name: Some(name.to_string()),
            namespace: Some(namespace.to_string()),
            uid: uid.map(|s| s.to_string()),
            ..Default::default()
        },
        spec: OdooInstanceSpec {
            image: None,
            image_pull_secret: None,
            admin_password: "admin".to_string(),
            replicas: 1,
            cron: CronSpec::default(),
            ingress: IngressSpec {
                hosts: vec!["test.example.com".to_string()],
                issuer: None,
                class: None,
                gateway_ref: None,
            },
            resources: None,
            filestore: None,
            config_options: None,
            database: None,
            init: Default::default(),
            environment: Default::default(),
            production_instance_ref: None,
            strategy: None,
            webhook: None,
            probes: None,
            affinity: None,
            tolerations: vec![],
            read_only_sql_access: None,
            extra_env: vec![],
            extra_env_from: vec![],
        },
        status: None,
    }
}

fn instance_in(phase: OdooInstancePhase, replicas: i32) -> OdooInstance {
    let mut instance = minimal_instance("inst", "ns", Some("uid"));
    instance.spec.replicas = replicas;
    instance.status = Some(OdooInstanceStatus {
        phase: Some(phase),
        ..Default::default()
    });
    instance
}

fn quiet_snapshot() -> ReconcileSnapshot {
    ReconcileSnapshot {
        ready_replicas: 1,
        deployment_replicas: 1,
        cron_ready_replicas: 1,
        cron_deployment_replicas: 1,
        db_initialized: true,
        init_job: JobStatus::Absent,
        restore_job: JobStatus::Absent,
        upgrade_job: JobStatus::Absent,
        backup_job: JobStatus::Absent,
        refresh_job: JobStatus::Absent,
        active_init_job: None,
        active_restore_job: None,
        active_upgrade_job: None,
        active_backup_job: None,
        active_refresh_job: None,
        pending_backup_jobs: 0,
        storage_class_mismatch: false,
        actual_storage_class: None,
        migration_job: JobStatus::Absent,
        cluster_mismatch: false,
        db_migration_job: JobStatus::Absent,
        stuck_mount_pods: vec![],
    }
}

fn named(name: &str) -> ObjectMeta {
    ObjectMeta {
        name: Some(name.to_string()),
        namespace: Some("ns".to_string()),
        uid: Some(format!("{name}-uid")),
        ..Default::default()
    }
}

fn instance_ref(name: &str) -> OdooInstanceRef {
    OdooInstanceRef { name: name.to_string(), namespace: None }
}

fn backup(name: &str, target: &str, phase: Option<Phase>, job: Option<&str>) -> OdooBackupJob {
    OdooBackupJob {
        metadata: named(name),
        spec: OdooBackupJobSpec {
            odoo_instance_ref: instance_ref(target),
            webhook: Some(WebhookConfig { url: "http://hook".to_string() }),
        },
        status: Some(JobRecord { phase, job_name: job.map(|s| s.to_string()) }),
    }
}

fn upgrade(scheduled: Option<&str>) -> OdooUpgradeJob {
    OdooUpgradeJob {
        metadata: named("up"),
        spec: OdooUpgradeJobSpec {
            odoo_instance_ref: instance_ref("inst"),
            scheduled_time: scheduled.map(|s| s.to_string()),
            modules: vec![],
            modules_install: vec![],
            webhook: None,
        },
        status: None,
    }
}

fn refresh(status: OdooStagingRefreshJobStatus) -> OdooStagingRefreshJob {
    OdooStagingRefreshJob {
        metadata: named("ref"),
        spec: OdooStagingRefreshJobSpec {
            odoo_instance_ref: instance_ref("inst"),
            source: StagingSource { instance_name: "prod".to_string(), instance_namespace: None },
            filestore_method: FilestoreMethod::default(),
            skip_filestore: false,
            neutralize: true,
            webhook: Some(WebhookConfig { url: "http://hook".to_string() }),
        },
        status: Some(status),
    }
}

fn found(succeeded: Option<i32>, failed: Option<i32>, deleting: bool) -> JobLookup {
    JobLookup::Found(JobObservation { succeeded, failed, deleting })
}

fn no_lookups() -> JobLookups {
    JobLookups {
        init: JobLookup::Failed,
        restore: JobLookup::Failed,
        upgrade: JobLookup::Failed,
        backup: JobLookup::Failed,
        refresh_db: JobLookup::Failed,
        refresh_filestore: JobLookup::Failed,
        refresh_neutralize: JobLookup::Failed,
        migration: JobLookup::Failed,
        db_migration: JobLookup::Failed,
    }
}

fn nothing_seen() -> Observations {
    Observations { web: None, cron: None, claim: None, pods: None, events: None }
}

fn no_jobs() -> ActiveJobs {
    ActiveJobs {
        init: None,
        restore: None,
        upgrade: None,
        refresh: None,
        backup: None,
        pending_backups: 0,
    }
}

const NOW: Moment = Moment { secs: 1_700_000_000, nanos: 0 };

fn taken(i: &OdooInstance, s: &ReconcileSnapshot) -> (OdooInstancePhase, Vec<TransitionAction>) {
    let t = next_transition(i, s, NOW).expect("a transition");
    assert_eq!(t.from, i.phase());
    (t.to, t.actions)
}

// ── Job status ───────────────────────────────────────────────────────────────

#[test]
fn presence_of_a_job() {
    assert!(!JobStatus::Absent.is_present());
    assert!(JobStatus::Active.is_present());
    assert!(JobStatus::Succeeded.is_present());
    assert!(JobStatus::Failed.is_present());
}

#[test]
fn job_status_combines_resource_and_job() {
    assert_eq!(resolve_job_status(false, true, found(Some(1), None, false)), JobStatus::Absent);
    assert_eq!(resolve_job_status(true, false, JobLookup::NotFound), JobStatus::Active);
    assert_eq!(resolve_job_status(true, true, JobLookup::NotFound), JobStatus::Failed);
    assert_eq!(resolve_job_status(true, true, JobLookup::Failed), JobStatus::Active);
    assert_eq!(resolve_job_status(true, true, found(Some(1), Some(1), true)), JobStatus::Succeeded);
    assert_eq!(resolve_job_status(true, true, found(Some(0), Some(1), false)), JobStatus::Failed);
    assert_eq!(resolve_job_status(true, true, found(None, None, true)), JobStatus::Failed);
    assert_eq!(resolve_job_status(true, true, found(None, None, false)), JobStatus::Active);
}

#[test]
fn migration_status_of_a_job() {
    assert_eq!(resolve_migration_status(false, found(Some(1), None, false)), JobStatus::Absent);
    assert_eq!(resolve_migration_status(true, JobLookup::NotFound), JobStatus::Absent);
    assert_eq!(resolve_migration_status(true, JobLookup::Failed), JobStatus::Active);
    assert_eq!(resolve_migration_status(true, found(None, None, true)), JobStatus::Active);
    assert_eq!(resolve_migration_status(true, found(None, Some(2), false)), JobStatus::Failed);
}

#[test]
fn recorded_end_outlives_its_job() {
    for lookup in [JobLookup::NotFound, JobLookup::Failed, found(None, Some(1), true)] {
        assert_eq!(
            resolve_refresh_sub_job_status(Some(Phase::Completed), true, lookup),
            (JobStatus::Succeeded, None)
        );
    }
    assert_eq!(
        resolve_refresh_sub_job_status(Some(Phase::Failed), false, JobLookup::NotFound),
        (JobStatus::Failed, None)
    );
    assert_eq!(
        resolve_refresh_sub_job_status(None, true, JobLookup::NotFound),
        (JobStatus::Active, None)
    );
    assert_eq!(
        resolve_refresh_sub_job_status(None, true, found(Some(1), None, false)),
        (JobStatus::Succeeded, Some(Phase::Completed))
    );
    assert_eq!(
        resolve_refresh_sub_job_status(Some(Phase::Running), true, found(None, None, true)),
        (JobStatus::Failed, Some(Phase::Failed))
    );
    assert_eq!(
        resolve_refresh_sub_job_status(None, false, found(Some(1), None, false)),
        (JobStatus::Absent, None)
    );
}

#[test]
fn rollup_of_sub_jobs() {
    let (absent, active) = (JobStatus::Absent, JobStatus::Active);
    let (succeeded, failed) = (JobStatus::Succeeded, JobStatus::Failed);
    assert_eq!(aggregate_refresh_sub_statuses(&vec![succeeded, failed, active]), failed);
    assert_eq!(aggregate_refresh_sub_statuses(&vec![succeeded, succeeded, succeeded]), succeeded);
    assert_eq!(aggregate_refresh_sub_statuses(&vec![succeeded, absent, succeeded]), active);
    assert_eq!(aggregate_refresh_sub_statuses(&vec![]), succeeded);
}

// ── Scheduled upgrades ───────────────────────────────────────────────────────

#[test]
fn scheduled_times_are_compared_as_moments() {
    let at = |s: &str| Some(s.to_string());
    assert!(scheduled_time_reached_at(&None, NOW));
    assert!(scheduled_time_reached_at(&at("not a time"), NOW));
    assert!(scheduled_time_reached_at(&at("2023-11-14T22:13:20Z"), NOW));
    assert!(scheduled_time_reached_at(&at("2023-11-14T23:13:20+01:00"), NOW));
    assert!(!scheduled_time_reached_at(&at("2023-11-14T22:13:20.000000001Z"), NOW));
    assert!(!scheduled_time_reached_at(&at("2023-11-14T22:13:21Z"), NOW));
    assert!(scheduled_time_reached(&at("2001-01-01T00:00:00Z")));
    assert!(!scheduled_time_reached(&at("9999-01-01T00:00:00Z")));
    assert!(scheduled_time_reached(&None));
}

#[test]
fn upgrade_waits_and_wakes_up_in_time() {
    let mut s = quiet_snapshot();
    s.upgrade_job = JobStatus::Active;
    s.active_upgrade_job = Some(upgrade(Some("2023-11-14T22:14:20.5Z")));
    let i = instance_in(OdooInstancePhase::Running, 1);
    assert!(!s.upgrade_job_ready_at(NOW));
    assert!(next_transition(&i, &s, NOW).is_none());
    assert_eq!(scheduled_requeue(&s, NOW), Some((60, 500_000_000)));
    assert_eq!(
        requeue_for(OdooInstancePhase::Running, &s, NOW),
        Requeue::After { secs: 60, nanos: 500_000_000 }
    );
    let later = Moment { secs: NOW.secs + 61, nanos: 0 };
    assert!(s.upgrade_job_ready_at(later));
    assert_eq!(next_transition(&i, &s, later).unwrap().to, OdooInstancePhase::Upgrading);
    assert_eq!(scheduled_requeue(&s, later), None);
    assert!(s.upgrade_job_ready());
    s.upgrade_job = JobStatus::Absent;
    assert!(!s.upgrade_job_ready());
}

#[test]
fn upgrade_may_be_scheduled_for_a_leap_second() {
    let mut s = quiet_snapshot();
    s.upgrade_job = JobStatus::Active;
    let mut delay = |scheduled: &str, secs: i64, nanos: u32| {
        s.active_upgrade_job = Some(upgrade(Some(scheduled)));
        scheduled_requeue(&s, Moment { secs, nanos })
    };
    // An hour before the last second of 2016, and in that second.
    let leap = "2016-12-31T23:59:60.5Z";
    assert_eq!(delay(leap, 1_483_225_199, 0), Some((3_601, 500_000_000)));
    assert_eq!(delay(leap, 1_483_228_799, 999_999_999), Some((0, 500_000_001)));
    assert_eq!(delay(leap, 1_483_228_800, 0), None);
    // From noon to an earlier time of the next day.
    assert_eq!(delay("2016-12-31T00:00:60Z", 1_483_099_200, 0), Some((43_259, 0)));
    assert_eq!(delay("2016-12-31T00:01:00Z", 1_483_099_200, 0), Some((43_260, 0)));
    assert_eq!(delay("2016-12-31T00:00:60Z", 1_483_142_458, 999_999_999), Some((1, 1)));
    assert_eq!(delay("2016-12-31T00:00:60Z", 1_483_056_060, 999_999_999), Some((86_398, 1)));
}

#[test]
fn requeue_by_phase() {
    let s = quiet_snapshot();
    assert_eq!(
        requeue_for(OdooInstancePhase::Degraded, &s, NOW),
        Requeue::After { secs: 10, nanos: 0 }
    );
    assert_eq!(requeue_for(OdooInstancePhase::Running, &s, NOW), Requeue::AwaitChange);
    assert_eq!(requeue_for(OdooInstancePhase::Stopped, &s, NOW), Requeue::AwaitChange);
}

// ── Gathering ────────────────────────────────────────────────────────────────

#[test]
fn the_first_unfinished_resource_is_active() {
    let active = select_jobs(
        "inst",
        vec![],
        vec![],
        vec![],
        vec![],
        vec![
            backup("done", "inst", Some(Phase::Completed), None),
            backup("other", "elsewhere", None, None),
            backup("first", "inst", Some(Phase::Running), Some("job-1")),
            backup("failed", "inst", Some(Phase::Failed), None),
            backup("second", "inst", None, None),
        ],
    );
    assert_eq!(active.backup.as_ref().unwrap().metadata.name.as_deref(), Some("first"));
    assert_eq!(active.pending_backups, 2);
    assert!(active.init.is_none() && active.refresh.is_none());
    let names = job_names(&instance_in(OdooInstancePhase::Running, 1), &active);
    assert_eq!(names.backup.as_deref(), Some("job-1"));
    assert!(names.init.is_none() && names.migration.is_none());
}

#[test]
fn gathered_snapshot_shows_what_is_seen() {
    let mut i = instance_in(OdooInstancePhase::Running, 2);
    i.spec.filestore = Some(FilestoreSpec {
        storage_size: None,
        storage_class: Some("fast".to_string()),
        empty_dir: false,
    });
    let status = i.status.as_mut().unwrap();
    status.db_initialized = true;
    status.active_cluster = Some("pg-a".to_string());
    status.migration_job_name = Some("mig".to_string());
    let mut active = no_jobs();
    active.backup = Some(backup("b", "inst", None, Some("job-b")));
    active.pending_backups = 1;
    let mut lookups = no_lookups();
    lookups.backup = JobLookup::NotFound;
    lookups.migration = JobLookup::NotFound;
    let mut seen = nothing_seen();
    seen.web = Some(DeploymentObservation { replicas: Some(2), ready_replicas: Some(1) });
    seen.cron = Some(DeploymentObservation { replicas: None, ready_replicas: None });
    seen.claim = Some(ClaimObservation { storage_class: Some("slow".to_string()) });
    let gathered = ReconcileSnapshot::gather(&i, "pg-b", active, &lookups, &seen);
    let s = gathered.snapshot;
    assert_eq!((s.deployment_replicas, s.ready_replicas), (2, 1));
    assert_eq!((s.cron_deployment_replicas, s.cron_ready_replicas), (0, 0));
    assert!(s.db_initialized && s.storage_class_mismatch && s.cluster_mismatch);
    assert_eq!(s.actual_storage_class.as_deref(), Some("slow"));
    assert_eq!(s.backup_job, JobStatus::Failed);
    assert_eq!(s.pending_backup_jobs, 1);
    assert_eq!(s.migration_job, JobStatus::Absent);
    assert_eq!(s.db_migration_job, JobStatus::Absent);
    assert_eq!(s.refresh_job, JobStatus::Absent);
    assert_eq!(gathered.records, RefreshRecords { db: None, filestore: None, neutralize: None });
}

#[test]
fn refresh_survives_collected_jobs() {
    // The database clone ended and was recorded; its Job is gone, the copy still runs.
    let i = instance_in(OdooInstancePhase::CloningFromSource, 1);
    let mut active = no_jobs();
    active.refresh = Some(refresh(OdooStagingRefreshJobStatus {
        db_job_name: Some("db".to_string()),
        db_job_phase: Some(Phase::Completed),
        filestore_job_name: Some("fs".to_string()),
        filestore_phase: Some(Phase::Running),
        ..Default::default()
    }));
    let names = job_names(&i, &active);
    assert!(names.refresh_db.is_none());
    assert_eq!(names.refresh_filestore.as_deref(), Some("fs"));
    let mut lookups = no_lookups();
    lookups.refresh_db = JobLookup::NotFound;
    lookups.refresh_filestore = found(Some(1), None, false);
    let gathered = ReconcileSnapshot::gather(&i, "pg", active, &lookups, &nothing_seen());
    assert_eq!(gathered.snapshot.refresh_job, JobStatus::Active);
    assert_eq!(gathered.records.filestore, Some(Phase::Completed));
    assert_eq!(gathered.records.db, None);
}

#[test]
fn ephemeral_target_needs_no_filestore_step() {
    let mut i = instance_in(OdooInstancePhase::CloningFromSource, 1);
    i.spec.filestore =
        Some(FilestoreSpec { storage_size: None, storage_class: None, empty_dir: true });
    let mut active = no_jobs();
    active.refresh = Some(refresh(OdooStagingRefreshJobStatus {
        db_job_name: Some("db".to_string()),
        db_job_phase: Some(Phase::Completed),
        neutralize_job_name: Some("neut".to_string()),
        ..Default::default()
    }));
    let mut lookups = no_lookups();
    lookups.refresh_neutralize = found(Some(1), None, false);
    let gathered = ReconcileSnapshot::gather(&i, "pg", active, &lookups, &nothing_seen());
    assert_eq!(gathered.snapshot.refresh_job, JobStatus::Succeeded);
    assert_eq!(gathered.records.neutralize, Some(Phase::Completed));
}

#[test]
fn stuck_pods_need_a_repeated_mount_failure() {
    let pod = |name: &str, node: bool, reasons: Option<Vec<Option<&str>>>| PodObservation {
        name: name.to_string(),
        node_name: if node { Some("n1".to_string()) } else { None },
        waiting_reasons: reasons
            .map(|rs| rs.into_iter().map(|r| r.map(|s| s.to_string())).collect()),
    };
    let event = |name: &str, reason: &str, count: Option<i32>| EventObservation {
        kind: Some("Pod".to_string()),
        name: Some(name.to_string()),
        reason: Some(reason.to_string()),
        count,
    };
    let creating = || Some(vec![None, Some("ContainerCreating")]);
    let pods = vec![
        pod("stuck", true, creating()),
        pod("once", true, creating()),
        pod("unscheduled", false, creating()),
        pod("running", true, Some(vec![None])),
        pod("statusless", true, None),
        pod("init", true, Some(vec![Some("PodInitializing")])),
    ];
    let events = vec![
        event("stuck", "FailedMount", Some(2)),
        event("once", "FailedMount", None),
        event("unscheduled", "FailedAttachVolume", Some(9)),
        event("running", "FailedAttach", Some(9)),
        event("statusless", "FailedMount", Some(9)),
        event("init", "FailedAttach", Some(3)),
        event("init", "Pulled", Some(3)),
    ];
    assert_eq!(
        gather_stuck_mount_pods(&Some(pods), &Some(events)),
        vec!["stuck".to_string(), "init".to_string()]
    );
    assert!(gather_stuck_mount_pods(&None, &Some(vec![])).is_empty());
}

// ── Transitions ──────────────────────────────────────────────────────────────

#[test]
fn every_phase_has_its_state_and_its_name() {
    let phases = [
        (OdooInstancePhase::Provisioning, "Provisioning", 2),
        (OdooInstancePhase::Uninitialized, "Uninitialized", 3),
        (OdooInstancePhase::Initializing, "Initializing", 3),
        (OdooInstancePhase::InitFailed, "InitFailed", 3),
        (OdooInstancePhase::Starting, "Starting", 6),
        (OdooInstancePhase::Running, "Running", 9),
        (OdooInstancePhase::Degraded, "Degraded", 9),
        (OdooInstancePhase::Stopped, "Stopped", 6),
        (OdooInstancePhase::Upgrading, "Upgrading", 3),
        (OdooInstancePhase::Restoring, "Restoring", 3),
        (OdooInstancePhase::CloningFromSource, "CloningFromSource", 3),
        (OdooInstancePhase::BackingUp, "BackingUp", 14),
        (OdooInstancePhase::MigratingFilestore, "MigratingFilestore", 3),
        (OdooInstancePhase::FinalizingFilestoreMigration, "FinalizingFilestoreMigration", 2),
        (OdooInstancePhase::MigratingDatabase, "MigratingDatabase", 3),
        (OdooInstancePhase::FinalizingDatabaseMigration, "FinalizingDatabaseMigration", 2),
        (OdooInstancePhase::Error, "Error", 2),
    ];
    for (phase, name, ways) in phases {
        assert_eq!(phase.as_str(), name);
        assert_eq!(state_for(&phase).phase(), phase);
        let rows = transitions_from(phase);
        assert_eq!(rows.len(), ways, "{name}");
        assert!(rows.iter().all(|t| t.from == phase));
    }
    assert_eq!(transitions_from(OdooInstancePhase::BackingUp)[0].guard_name, "backup succeeded && another pending");
}

#[test]
fn entry_phases_are_left() {
    let mut s = quiet_snapshot();
    let i = minimal_instance("inst", "ns", None);
    assert_eq!(i.phase(), OdooInstancePhase::Provisioning);
    assert_eq!(taken(&i, &s), (OdooInstancePhase::Starting, vec![]));
    s.db_initialized = false;
    assert_eq!(taken(&i, &s), (OdooInstancePhase::Uninitialized, vec![]));
    let e = instance_in(OdooInstancePhase::Error, 1);
    assert_eq!(taken(&e, &s), (OdooInstancePhase::Uninitialized, vec![]));
}

#[test]
fn initialisation_succeeds_fails_or_is_lost() {
    let i = instance_in(OdooInstancePhase::Initializing, 1);
    let mut s = quiet_snapshot();
    s.init_job = JobStatus::Active;
    assert!(next_transition(&i, &s, NOW).is_none());
    s.init_job = JobStatus::Succeeded;
    assert_eq!(
        taken(&i, &s),
        (
            OdooInstancePhase::Starting,
            vec![TransitionAction::CompleteInitJob, TransitionAction::MarkDbInitialized]
        )
    );
    s.init_job = JobStatus::Failed;
    assert_eq!(taken(&i, &s), (OdooInstancePhase::InitFailed, vec![TransitionAction::FailInitJob]));
    s.init_job = JobStatus::Absent;
    assert_eq!(taken(&i, &s), (OdooInstancePhase::Uninitialized, vec![]));
}

#[test]
fn failed_restore_leaves_the_pods_down() {
    let i = instance_in(OdooInstancePhase::Restoring, 1);
    let mut s = quiet_snapshot();
    s.restore_job = JobStatus::Failed;
    assert_eq!(
        taken(&i, &s),
        (
            OdooInstancePhase::Uninitialized,
            vec![TransitionAction::FailRestoreJob, TransitionAction::MarkDbUninitialized]
        )
    );
}

#[test]
fn failed_refresh_leaves_the_pods_down() {
    let i = instance_in(OdooInstancePhase::CloningFromSource, 1);
    let mut s = quiet_snapshot();
    s.refresh_job = JobStatus::Active;
    assert!(next_transition(&i, &s, NOW).is_none());
    s.refresh_job = JobStatus::Failed;
    let (to, actions) = taken(&i, &s);
    assert_eq!(to, OdooInstancePhase::InitFailed);
    assert!(!actions.contains(&TransitionAction::MarkDbInitialized));
}

#[test]
fn uninitialized_instance_waits_for_work() {
    for phase in [OdooInstancePhase::Uninitialized, OdooInstancePhase::InitFailed] {
        let i = instance_in(phase, 1);
        let mut s = quiet_snapshot();
        assert!(next_transition(&i, &s, NOW).is_none());
        s.restore_job = JobStatus::Active;
        assert_eq!(taken(&i, &s), (OdooInstancePhase::Restoring, vec![]));
    }
}

#[test]
fn zero_replicas_stop_the_instance() {
    let s = quiet_snapshot();
    for phase in [
        OdooInstancePhase::Starting,
        OdooInstancePhase::Running,
        OdooInstancePhase::Degraded,
    ] {
        assert_eq!(taken(&instance_in(phase, 0), &s).0, OdooInstancePhase::Stopped);
    }
}

#[test]
fn urgent_transitions_come_first() {
    let mut s = quiet_snapshot();
    s.storage_class_mismatch = true;
    s.cluster_mismatch = true;
    s.restore_job = JobStatus::Active;
    let i = instance_in(OdooInstancePhase::Running, 0);
    assert_eq!(
        taken(&i, &s),
        (
            OdooInstancePhase::MigratingFilestore,
            vec![TransitionAction::BeginFilestoreMigration]
        )
    );
    s.storage_class_mismatch = false;
    assert_eq!(taken(&i, &s).0, OdooInstancePhase::MigratingDatabase);
    s.cluster_mismatch = false;
    assert_eq!(taken(&i, &s).0, OdooInstancePhase::Stopped);
}

#[test]
fn queued_backups_keep_the_phase() {
    let i = instance_in(OdooInstancePhase::BackingUp, 2);
    let mut s = quiet_snapshot();
    s.backup_job = JobStatus::Succeeded;
    s.pending_backup_jobs = 2;
    assert_eq!(
        taken(&i, &s),
        (OdooInstancePhase::BackingUp, vec![TransitionAction::CompleteBackupJob])
    );
    s.pending_backup_jobs = 1;
    assert_eq!(
        taken(&i, &s),
        (OdooInstancePhase::Degraded, vec![TransitionAction::CompleteBackupJob])
    );
    s.ready_replicas = 0;
    s.backup_job = JobStatus::Failed;
    assert_eq!(taken(&i, &s), (OdooInstancePhase::Starting, vec![TransitionAction::FailBackupJob]));
}

#[test]
fn lost_migration_is_rolled_back() {
    let s = quiet_snapshot();
    let i = instance_in(OdooInstancePhase::MigratingFilestore, 0);
    assert_eq!(
        taken(&i, &s),
        (OdooInstancePhase::Stopped, vec![TransitionAction::RollbackFilestoreMigration])
    );
    let i = instance_in(OdooInstancePhase::MigratingDatabase, 3);
    assert_eq!(
        taken(&i, &s),
        (OdooInstancePhase::Starting, vec![TransitionAction::RollbackDatabaseMigration])
    );
}

#[test]
fn running_instance_with_nothing_to_do_stays() {
    let i = instance_in(OdooInstancePhase::Running, 1);
    let cycle = run_state_machine(&i, &quiet_snapshot());
    assert!(cycle.transition.is_none());
    assert_eq!(cycle.requeue, Requeue::AwaitChange);
    let mut s = quiet_snapshot();
    s.ready_replicas = 0;
    let cycle = decide(&i, &s, NOW, NOW);
    assert_eq!(cycle.transition.unwrap().to, OdooInstancePhase::Starting);
    assert_eq!(cycle.requeue, Requeue::After { secs: 0, nanos: 0 });
    assert_eq!(phase_patch(OdooInstancePhase::Starting).phase, Some(OdooInstancePhase::Starting));
}

// ── Actions ──────────────────────────────────────────────────────────────────

#[test]
fn completed_backup_is_recorded_and_reported() {
    let i = instance_in(OdooInstancePhase::BackingUp, 1);
    let mut s = quiet_snapshot();
    s.active_backup_job = Some(backup("b", "inst", None, Some("job-b")));
    let effects = action_effects_at(TransitionAction::CompleteBackupJob, &i, &s, "T");
    assert_eq!(effects.len(), 2);
    match &effects[0] {
        Effect::PatchJob { kind, name, patch } => {
            assert_eq!(*kind, JobKind::Backup);
            assert_eq!(name, "b");
            assert_eq!(patch.phase, Phase::Completed);
            assert_eq!(patch.completion_time.as_deref(), Some("T"));
            assert!(patch.message.is_none() && patch.job_name.is_none());
        }
        other => panic!("unexpected {other:?}"),
    }
    match &effects[1] {
        Effect::Notify { webhook, phase, job_name, message, completion_time } => {
            assert_eq!(webhook.url, "http://hook");
            assert_eq!(*phase, Phase::Completed);
            assert_eq!(job_name.as_deref(), Some("job-b"));
            assert!(message.is_none());
            assert_eq!(completion_time, "T");
        }
        other => panic!("unexpected {other:?}"),
    }
    assert!(action_effects_at(TransitionAction::CompleteRestoreJob, &i, &s, "T").is_empty());
}

#[test]
fn finished_upgrade_restarts_the_web_pods() {
    let i = instance_in(OdooInstancePhase::Upgrading, 1);
    let mut s = quiet_snapshot();
    s.active_upgrade_job = Some(upgrade(None));
    let effects = execute_action(TransitionAction::CompleteUpgradeJob, &i, &s);
    assert!(matches!(&effects[0], Effect::RestartDeployment(name) if name == "inst"));
    assert!(matches!(&effects[1], Effect::PatchJob { kind: JobKind::Upgrade, .. }));
    let effects = action_effects_at(TransitionAction::FailUpgradeJob, &i, &s, "T");
    assert_eq!(effects.len(), 1);
    match &effects[0] {
        Effect::PatchJob { patch, .. } => {
            assert_eq!(patch.phase, Phase::Failed);
            assert_eq!(patch.message.as_deref(), Some("upgrade job failed"));
        }
        other => panic!("unexpected {other:?}"),
    }
}

#[test]
fn finished_refresh_deletes_its_snapshot() {
    let i = instance_in(OdooInstancePhase::CloningFromSource, 1);
    let mut s = quiet_snapshot();
    s.active_refresh_job = Some(refresh(OdooStagingRefreshJobStatus {
        source_snapshot: Some("ref-src".to_string()),
        db_job_name: Some("db".to_string()),
        ..Default::default()
    }));
    let effects = action_effects_at(TransitionAction::CompleteRefreshJob, &i, &s, "T");
    assert_eq!(effects.len(), 3);
    assert!(matches!(&effects[0], Effect::DeleteSnapshot(n) if n == "ref-src"));
    assert!(matches!(&effects[1], Effect::PatchJob { kind: JobKind::Refresh, .. }));
    assert!(matches!(&effects[2], Effect::Notify { job_name: Some(n), .. } if n == "db"));
    let effects = action_effects_at(TransitionAction::FailRefreshJob, &i, &s, "T");
    assert_eq!(effects.len(), 2);
}

#[test]
fn temporary_database_is_forgotten_after_the_cutover() {
    let records =
        RefreshRecords { db: Some(Phase::Completed), filestore: None, neutralize: None };
    let patch = record_refresh_jobs(records).unwrap();
    assert!(matches!(patch.temp_db_name, FieldChange::Clear));
    assert_eq!(patch.db_job_phase, PhaseChange::To(Phase::Completed));
    assert_eq!(patch.neutralize_job_phase, PhaseChange::Keep);
    let records = RefreshRecords { db: Some(Phase::Failed), filestore: None, neutralize: None };
    assert!(matches!(record_refresh_jobs(records).unwrap().temp_db_name, FieldChange::Keep));
    let records = RefreshRecords { db: None, filestore: None, neutralize: None };
    assert!(record_refresh_jobs(records).is_none());
    let i = instance_in(OdooInstancePhase::CloningFromSource, 1);
    let mut s = quiet_snapshot();
    s.active_refresh_job = Some(refresh(OdooStagingRefreshJobStatus {
        temp_db_name: Some("tmp".to_string()),
        ..Default::default()
    }));
    let effects = action_effects_at(TransitionAction::CompleteRefreshJob, &i, &s, "T");
    match &effects[0] {
        Effect::PatchRefresh { name, patch } => {
            assert_eq!(name, "ref");
            assert!(matches!(patch.temp_db_name, FieldChange::Clear));
        }
        other => panic!("unexpected {other:?}"),
    }
}

#[test]
fn ended_initialisation_is_reported() {
    let i = instance_in(OdooInstancePhase::Initializing, 1);
    let mut s = quiet_snapshot();
    s.active_init_job = Some(OdooInitJob {
        metadata: named("init"),
        spec: OdooInitJobSpec {
            odoo_instance_ref: instance_ref("inst"),
            modules: vec![],
            demo: false,
            webhook: Some(WebhookConfig { url: "http://hook".to_string() }),
        },
        status: Some(JobRecord { phase: None, job_name: Some("job".to_string()) }),
    });
    for (action, ended, told) in [
        (TransitionAction::CompleteInitJob, Phase::Completed, None),
        (TransitionAction::FailInitJob, Phase::Failed, Some("init job failed")),
    ] {
        let effects = action_effects_at(action, &i, &s, "T");
        assert_eq!(effects.len(), 2);
        match &effects[1] {
            Effect::Notify { webhook, phase, job_name, message, completion_time } => {
                assert_eq!(webhook.url, "http://hook");
                assert_eq!(*phase, ended);
                assert_eq!(job_name.as_deref(), Some("job"));
                assert_eq!(message.as_deref(), told);
                assert_eq!(completion_time, "T");
            }
            other => panic!("unexpected {other:?}"),
        }
    }
}

#[test]
fn marks_and_cleared_records() {
    let i = instance_in(OdooInstancePhase::Restoring, 1);
    let s = quiet_snapshot();
    match &action_effects_at(TransitionAction::MarkDbUninitialized, &i, &s, "T")[0] {
        Effect::PatchInstance(patch) => {
            assert_eq!(patch.db_initialized, Some(false));
            assert!(patch.phase.is_none());
            assert!(matches!(patch.message, FieldChange::Keep));
        }
        other => panic!("unexpected {other:?}"),
    }
    match &action_effects_at(TransitionAction::ClearFilestoreMigrationStatus, &i, &s, "T")[0] {
        Effect::PatchInstance(patch) => {
            assert!(matches!(patch.message, FieldChange::Clear));
            assert!(matches!(patch.migration_job_name, FieldChange::Clear));
            assert!(matches!(patch.migration_pv_name, FieldChange::Clear));
            assert!(matches!(patch.migration_previous_storage_class, FieldChange::Clear));
            assert!(patch.db_initialized.is_none());
        }
        other => panic!("unexpected {other:?}"),
    }
    assert!(matches!(
        action_effects_at(TransitionAction::BeginFilestoreMigration, &i, &s, "T")[0],
        Effect::BeginFilestoreMigration
    ));
}

// ── Missing databases ────────────────────────────────────────────────────────

#[test]
fn missing_database_is_wiped_only_on_request() {
    let mut i = instance_in(OdooInstancePhase::Running, 1);
    i.status.as_mut().unwrap().db_initialized = true;
    assert!(matches!(react_to_missing_database(&i, Some(false)), MissingDatabase::Warn));
    assert!(matches!(react_to_missing_database(&i, Some(true)), MissingDatabase::Nothing));
    assert!(matches!(react_to_missing_database(&i, None), MissingDatabase::Nothing));
    i.spec.database = Some(DatabaseSpec {
        cluster: None,
        name: None,
        missing_policy: DatabaseMissingPolicy::Recreate,
    });
    match react_to_missing_database(&i, Some(false)) {
        MissingDatabase::Recreate(patch) => assert_eq!(patch.db_initialized, Some(false)),
        other => panic!("unexpected {other:?}"),
    }
    i.status.as_mut().unwrap().db_initialized = false;
    assert!(matches!(react_to_missing_database(&i, Some(false)), MissingDatabase::Nothing));
}

#[test]
fn environment_labels() {
    assert_eq!(Environment::Staging.as_label(), "staging");
    assert_eq!(Environment::Production.as_label(), "production");
    assert_eq!(Environment::default(), Environment::Staging);
}
