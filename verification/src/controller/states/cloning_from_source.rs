//! The staging refresh: a live instance is cloned into a staging one.
//!
//! The database is cloned by a Job. The filestore is copied by another Job, or the claim is
//! recreated from a snapshot of the source. When both are done, a third Job neutralizes the
//! clone, or only verifies that it sends no mail. Each reconcile carries this as far as it can.

use vstd::prelude::*;

use crate::controller::child_resources::{image_of, image_text, requested_class};
use crate::controller::helpers::{
    apply_extra_env, are_odoo_mounts, are_odoo_volumes, claim_name, cm_env, conf_name,
    controller_owner_ref, env, filestore_claim_name, has_extra_env, is_cm_env, is_controller_ref,
    is_env, is_instance_job, job_pod, odoo_conf_name, odoo_volume_mounts, runs_script,
    script_command, OdooJobBuilder, Scripts,
};
use crate::controller::patches::{
    no_refresh_change, FieldChange, FieldText, PhaseChange, RefreshStatusPatch, RefreshStatusText,
};
use crate::controller::snapshot::{
    db_job, db_phase, filestore_job, filestore_job_phase, filestore_phase, is_positive,
    neutralize_job, neutralize_phase, skips_filestore, JobLookup,
};
use crate::controller::state_machine::recorded_snapshot;
use crate::controller::states::migrating_filestore::{claim_volume, is_claim_volume};
use crate::controller::states::State;
use crate::crd::metadata::{Moment, ObjectMeta};
use crate::crd::odoo_instance::{EnvVar, OdooInstance, OdooInstancePhase};
use crate::crd::odoo_staging_refresh_job::{FilestoreMethod, OdooStagingRefreshJob};
use crate::crd::shared::Phase;
use crate::helpers::{
    custom_db_name, database_name, db_name, sha256_hex, sha256_text, OperatorDefaults,
};
use crate::objects::{Container, Job, TypedObjectReference, VolumeMount, VolumeSnapshot};
use crate::text::{
    chars_of, join2, join3, join4, opt_text, same_opt_text, same_text, string_of, texts,
};

verus! {

broadcast use vstd::seq_lib::group_seq_properties;

/// A live instance is being cloned into this one. The pods are down.
#[derive(Debug)]
pub struct CloningFromSource;

impl State for CloningFromSource {
    open spec fn handled(&self) -> OdooInstancePhase {
        OdooInstancePhase::CloningFromSource
    }

    fn phase(&self) -> (r: OdooInstancePhase) {
        OdooInstancePhase::CloningFromSource
    }
}

// ── What the refresh goes by ────────────────────────────────────────────────

/// What the course of a refresh depends on, as it stands when the reconcile begins.
#[derive(Debug, Clone, Copy, PartialEq, Eq, Structural)]
pub struct CloneFacts {
    /// There is an unfinished refresh.
    pub has_refresh: bool,
    /// Source and target are in one namespace.
    pub same_namespace: bool,
    pub db_job_named: bool,
    pub db_job_phase: Option<Phase>,
    /// The filestore is left alone.
    pub skip_filestore: bool,
    /// The filestore is copied by a Job, not cloned from a snapshot.
    pub use_copy: bool,
    /// The filestore is cloned from a snapshot only where a snapshot class covers it.
    pub find_class: bool,
    pub filestore_phase: Option<Phase>,
    pub filestore_job_named: bool,
    pub filestore_job_phase: Option<Phase>,
    /// The snapshot of the source is recorded under its name.
    pub snapshot_recorded: bool,
    /// A snapshot of the target is recorded, by which the refresh can be undone.
    pub rollback_recorded: bool,
    pub neutralize_job_named: bool,
}

/// Whether the target can be cloned from a snapshot of the source: both ask for one and the
/// same storage class.
pub open spec fn snapshot_possible(source: &OdooInstance, target: &OdooInstance) -> bool {
    requested_class(source) is Some && requested_class(source) == requested_class(target)
}

/// Whether the target can be cloned from a snapshot of the source.
pub fn can_refresh_with_snapshot(source: &OdooInstance, target: &OdooInstance) -> (r: bool)
    ensures
        r == snapshot_possible(source, target),
{
    match (&source.spec.filestore, &target.spec.filestore) {
        (Some(s), Some(t)) => s.storage_class.is_some() && same_opt_text(
            &s.storage_class,
            &t.storage_class,
        ),
        _ => false,
    }
}

/// Whether the filestore is copied by a Job, whatever snapshot classes there are. `Auto` copies
/// where the target cannot be cloned from a snapshot.
pub open spec fn copies(
    refresh: &OdooStagingRefreshJob,
    source: &OdooInstance,
    target: &OdooInstance,
) -> bool {
    match refresh.spec.filestore_method {
        FilestoreMethod::Copy => true,
        FilestoreMethod::Snapshot => false,
        FilestoreMethod::Auto => !snapshot_possible(source, target),
    }
}

/// Whether it depends on the snapshot classes how the filestore is cloned.
pub open spec fn asks_for_class(
    refresh: &OdooStagingRefreshJob,
    source: &OdooInstance,
    target: &OdooInstance,
) -> bool {
    refresh.spec.filestore_method == FilestoreMethod::Auto && snapshot_possible(source, target)
}

/// The namespace of the source.
pub open spec fn source_namespace(refresh: &OdooStagingRefreshJob, target: &OdooInstance) -> Seq<
    char,
> {
    match refresh.spec.source.instance_namespace {
        Some(ns) => ns@,
        None => target.namespace(),
    }
}

/// The name of the snapshot that a refresh takes of its source.
pub open spec fn snapshot_name(refresh: &OdooStagingRefreshJob) -> Seq<char> {
    refresh.metadata.any_name() + "-src"@
}

/// The name of the snapshot that a refresh takes of its source.
pub fn source_snapshot_name(refresh: &OdooStagingRefreshJob) -> (r: String)
    ensures
        r@ == snapshot_name(refresh),
{
    let name = refresh.metadata.name_any();
    join2(name.as_str(), "-src")
}

/// The name of the snapshot by which a refresh can be undone.
pub open spec fn rollback_name(refresh: &OdooStagingRefreshJob) -> Seq<char> {
    refresh.metadata.any_name() + "-rollback"@
}

/// The name of the snapshot by which a refresh can be undone.
pub fn rollback_snapshot_name(refresh: &OdooStagingRefreshJob) -> (r: String)
    ensures
        r@ == rollback_name(refresh),
{
    let name = refresh.metadata.name_any();
    join2(name.as_str(), "-rollback")
}

/// The snapshot by which a refresh can be undone, as it is recorded.
pub open spec fn recorded_rollback(refresh: OdooStagingRefreshJob) -> Option<Seq<char>> {
    match refresh.status {
        Some(s) => opt_text(s.rollback_snapshot),
        None => None,
    }
}

/// What the course of a refresh depends on. Before the source is known, it is taken to be
/// cloned from a snapshot; nothing depends on that by then.
pub open spec fn facts(
    target: &OdooInstance,
    refresh: Option<OdooStagingRefreshJob>,
    source: Option<&OdooInstance>,
) -> CloneFacts {
    match refresh {
        Some(r) => CloneFacts {
            has_refresh: true,
            same_namespace: source_namespace(&r, target) == target.namespace(),
            db_job_named: db_job(r) is Some,
            db_job_phase: db_phase(r),
            skip_filestore: skips_filestore(r, target),
            use_copy: source matches Some(s) && copies(&r, s, target),
            find_class: source matches Some(s) && asks_for_class(&r, s, target),
            filestore_phase: filestore_phase(r),
            filestore_job_named: filestore_job(r) is Some,
            filestore_job_phase: filestore_job_phase(r),
            snapshot_recorded: recorded_snapshot(r) == Some(snapshot_name(&r)),
            rollback_recorded: recorded_rollback(r) is Some,
            neutralize_job_named: neutralize_job(r) is Some,
        },
        None => CloneFacts {
            has_refresh: false,
            same_namespace: false,
            db_job_named: false,
            db_job_phase: None,
            skip_filestore: false,
            use_copy: false,
            find_class: false,
            filestore_phase: None,
            filestore_job_named: false,
            filestore_job_phase: None,
            snapshot_recorded: false,
            rollback_recorded: false,
            neutralize_job_named: false,
        },
    }
}

/// What the course of a refresh depends on.
pub fn clone_facts(
    target: &OdooInstance,
    refresh: &Option<OdooStagingRefreshJob>,
    source: Option<&OdooInstance>,
) -> (r: CloneFacts)
    ensures
        r == facts(target, *refresh, source),
{
    let job = match refresh {
        Some(job) => job,
        None => {
            return CloneFacts {
                has_refresh: false,
                same_namespace: false,
                db_job_named: false,
                db_job_phase: None,
                skip_filestore: false,
                use_copy: false,
                find_class: false,
                filestore_phase: None,
                filestore_job_named: false,
                filestore_job_phase: None,
                snapshot_recorded: false,
                rollback_recorded: false,
                neutralize_job_named: false,
            };
        },
    };
    let namespace = target.metadata.namespace_or_empty();
    let same_namespace = match &job.spec.source.instance_namespace {
        Some(ns) => same_text(ns.as_str(), namespace.as_str()),
        None => true,
    };
    let (use_copy, find_class): (bool, bool) = match source {
        Some(s) => match job.spec.filestore_method {
            FilestoreMethod::Copy => (true, false),
            FilestoreMethod::Snapshot => (false, false),
            FilestoreMethod::Auto => {
                let possible = can_refresh_with_snapshot(s, target);
                (!possible, possible)
            },
        },
        None => (false, false),
    };
    let expected = source_snapshot_name(job);
    let mut result = CloneFacts {
        has_refresh: true,
        same_namespace,
        db_job_named: false,
        db_job_phase: None,
        skip_filestore: job.spec.skip_filestore || target.is_ephemeral(),
        use_copy,
        find_class,
        filestore_phase: None,
        filestore_job_named: false,
        filestore_job_phase: None,
        snapshot_recorded: false,
        rollback_recorded: false,
        neutralize_job_named: false,
    };
    if let Some(status) = &job.status {
        result.db_job_named = status.db_job_name.is_some();
        result.db_job_phase = status.db_job_phase;
        result.filestore_phase = status.filestore_phase;
        result.filestore_job_named = status.filestore_job_name.is_some();
        result.filestore_job_phase = status.filestore_job_phase;
        result.snapshot_recorded = match &status.source_snapshot {
            Some(name) => same_text(name.as_str(), expected.as_str()),
            None => false,
        };
        result.rollback_recorded = status.rollback_snapshot.is_some();
        result.neutralize_job_named = status.neutralize_job_name.is_some();
    }
    result
}

// ── The course of a refresh ─────────────────────────────────────────────────

/// A step of a refresh: something to be asked of the cluster, or the end.
#[derive(Debug, Clone, Copy, PartialEq, Eq, Structural)]
pub enum CloneStep {
    /// Nothing was done yet.
    Begin,
    /// Scale the web pods of the target to zero.
    ScaleWeb,
    /// Scale the pods of the target that run scheduled actions to zero.
    ScaleCron,
    /// Record that the source is in another namespace.
    RefuseNamespace,
    /// Read the source instance.
    GetSource,
    /// Record that the source was not found.
    RefuseSource,
    /// Find out the versions of the database servers.
    DetectServers,
    /// Record the temporary database, create the Job that clones the database, and record it.
    RecordTempDb,
    CreateDbJob,
    RecordDbJob,
    /// See whether a snapshot class covers the storage class of the filestore.
    FindSnapshotClass,
    /// Create the Job that copies the filestore, and record it.
    CreateFilestoreJob,
    RecordFilestoreJob,
    /// Take a snapshot of the source's claim, and record it.
    CreateSnapshot,
    RecordSnapshot,
    /// Take a snapshot of the target's claim, by which the refresh can be undone, and record it.
    CreateRollback,
    RecordRollback,
    /// See whether the snapshot of the source is ready.
    GetSnapshot,
    /// Delete the target's claim, see whether it is gone, create it from the snapshot, and record
    /// that.
    DeleteClaim,
    GetClaim,
    CreateClaim,
    RecordClaim,
    /// See whether the recreated claim is bound.
    InspectClaim,
    /// Record how the filestore step ended.
    SettleFilestore,
    /// Read the Job that clones the database.
    GetDbJob,
    /// Create the Job that neutralizes the clone, or only verifies that it sends no mail, and
    /// record it.
    CreateNeutralizeJob,
    RecordNeutralizeJob,
    /// This reconcile is done.
    Finish,
    /// The refresh fails: the source is in another namespace.
    FailNamespace,
    /// The refresh fails: the source was not found.
    FailSource,
}

/// What came of a step.
#[derive(Debug, Clone, Copy, PartialEq, Eq, Structural)]
pub enum CloneEvent {
    /// It was done.
    Done,
    SourceFound,
    SourceMissing,
    ClassCovered,
    ClassUncovered,
    SnapshotCreated,
    SnapshotExisted,
    SnapshotReady,
    SnapshotPending,
    ClaimTerminating,
    ClaimGone,
    ClaimBound,
    ClaimUnbound,
    DbJobSucceeded,
    DbJobUnfinished,
}

/// Whether the filestore step is done.
pub open spec fn filestore_done(f: CloneFacts) -> bool {
    f.skip_filestore || f.filestore_phase == Some(Phase::Completed)
}

/// The step after the state of the database clone is known: neutralize when both are done.
pub open spec fn neutralize_step(f: CloneFacts, db_done: bool) -> CloneStep {
    if !db_done || !filestore_done(f) || f.neutralize_job_named {
        CloneStep::Finish
    } else {
        CloneStep::CreateNeutralizeJob
    }
}

/// The step after the filestore is settled: find out whether the database is cloned. What was
/// recorded of its Job counts before the Job itself.
pub open spec fn db_outcome_step(f: CloneFacts) -> CloneStep {
    if f.db_job_phase == Some(Phase::Completed) {
        neutralize_step(f, true)
    } else if f.db_job_named {
        CloneStep::GetDbJob
    } else {
        CloneStep::Finish
    }
}

/// The step that settles a running filestore step: from the record of its Job where it has one,
/// else from the recreated claim.
pub open spec fn settle_step(f: CloneFacts) -> CloneStep {
    if f.filestore_phase != Some(Phase::Running) {
        db_outcome_step(f)
    } else if !f.filestore_job_named {
        CloneStep::InspectClaim
    } else if f.filestore_job_phase matches Some(p) && p.is_terminal() {
        CloneStep::SettleFilestore
    } else {
        db_outcome_step(f)
    }
}

/// The step that starts the filestore step, unless it is skipped or was started. Once a snapshot
/// is recorded, it is stayed with.
pub open spec fn filestore_start(f: CloneFacts) -> CloneStep {
    if f.skip_filestore || f.filestore_phase is Some {
        settle_step(f)
    } else if f.use_copy {
        CloneStep::CreateFilestoreJob
    } else if f.find_class && !f.snapshot_recorded {
        CloneStep::FindSnapshotClass
    } else {
        CloneStep::CreateSnapshot
    }
}

/// The step that starts the database clone, unless it was started.
pub open spec fn db_start(f: CloneFacts) -> CloneStep {
    if f.db_job_named {
        filestore_start(f)
    } else {
        CloneStep::DetectServers
    }
}

/// The step after the snapshot of the source is taken: one of the target, unless that was taken
/// before.
pub open spec fn rollback_step(f: CloneFacts) -> CloneStep {
    if f.rollback_recorded {
        CloneStep::GetSnapshot
    } else {
        CloneStep::CreateRollback
    }
}

/// The step after `step`, which came out as `event`.
pub open spec fn step_after(step: CloneStep, event: CloneEvent, f: CloneFacts) -> CloneStep {
    match step {
        CloneStep::Begin => CloneStep::ScaleWeb,
        CloneStep::ScaleWeb => CloneStep::ScaleCron,
        CloneStep::ScaleCron => if !f.has_refresh {
            CloneStep::Finish
        } else if !f.same_namespace {
            CloneStep::RefuseNamespace
        } else {
            CloneStep::GetSource
        },
        CloneStep::RefuseNamespace => CloneStep::FailNamespace,
        CloneStep::GetSource => if event == CloneEvent::SourceFound {
            db_start(f)
        } else {
            CloneStep::RefuseSource
        },
        CloneStep::RefuseSource => CloneStep::FailSource,
        CloneStep::DetectServers => CloneStep::RecordTempDb,
        CloneStep::RecordTempDb => CloneStep::CreateDbJob,
        CloneStep::CreateDbJob => CloneStep::RecordDbJob,
        CloneStep::RecordDbJob => filestore_start(f),
        CloneStep::FindSnapshotClass => if event == CloneEvent::ClassCovered {
            CloneStep::CreateSnapshot
        } else {
            CloneStep::CreateFilestoreJob
        },
        CloneStep::CreateFilestoreJob => CloneStep::RecordFilestoreJob,
        CloneStep::RecordFilestoreJob => settle_step(f),
        CloneStep::CreateSnapshot => if event == CloneEvent::SnapshotCreated
            || !f.snapshot_recorded {
            CloneStep::RecordSnapshot
        } else {
            rollback_step(f)
        },
        CloneStep::RecordSnapshot => rollback_step(f),
        CloneStep::CreateRollback => CloneStep::RecordRollback,
        CloneStep::RecordRollback => CloneStep::GetSnapshot,
        CloneStep::GetSnapshot => if event == CloneEvent::SnapshotReady {
            CloneStep::DeleteClaim
        } else {
            CloneStep::Finish
        },
        CloneStep::DeleteClaim => CloneStep::GetClaim,
        CloneStep::GetClaim => if event == CloneEvent::ClaimTerminating {
            CloneStep::Finish
        } else {
            CloneStep::CreateClaim
        },
        CloneStep::CreateClaim => CloneStep::RecordClaim,
        CloneStep::RecordClaim => settle_step(f),
        CloneStep::InspectClaim => if event == CloneEvent::ClaimBound {
            CloneStep::SettleFilestore
        } else {
            db_outcome_step(f)
        },
        CloneStep::SettleFilestore => db_outcome_step(f),
        CloneStep::GetDbJob => neutralize_step(f, event == CloneEvent::DbJobSucceeded),
        CloneStep::CreateNeutralizeJob => CloneStep::RecordNeutralizeJob,
        CloneStep::RecordNeutralizeJob => CloneStep::Finish,
        CloneStep::Finish => CloneStep::Finish,
        CloneStep::FailNamespace => CloneStep::FailNamespace,
        CloneStep::FailSource => CloneStep::FailSource,
    }
}

fn neutralize_step_of(f: CloneFacts, db_done: bool) -> (r: CloneStep)
    ensures
        r == neutralize_step(f, db_done),
{
    let done = f.skip_filestore || match f.filestore_phase {
        Some(Phase::Completed) => true,
        _ => false,
    };
    if !db_done || !done || f.neutralize_job_named {
        CloneStep::Finish
    } else {
        CloneStep::CreateNeutralizeJob
    }
}

fn db_outcome_step_of(f: CloneFacts) -> (r: CloneStep)
    ensures
        r == db_outcome_step(f),
{
    match f.db_job_phase {
        Some(Phase::Completed) => neutralize_step_of(f, true),
        _ => {
            if f.db_job_named {
                CloneStep::GetDbJob
            } else {
                CloneStep::Finish
            }
        },
    }
}

fn settle_step_of(f: CloneFacts) -> (r: CloneStep)
    ensures
        r == settle_step(f),
{
    match f.filestore_phase {
        Some(Phase::Running) => {
            if !f.filestore_job_named {
                return CloneStep::InspectClaim;
            }
            match f.filestore_job_phase {
                Some(Phase::Completed) => CloneStep::SettleFilestore,
                Some(Phase::Failed) => CloneStep::SettleFilestore,
                _ => db_outcome_step_of(f),
            }
        },
        _ => db_outcome_step_of(f),
    }
}

fn filestore_start_of(f: CloneFacts) -> (r: CloneStep)
    ensures
        r == filestore_start(f),
{
    if f.skip_filestore || f.filestore_phase.is_some() {
        settle_step_of(f)
    } else if f.use_copy {
        CloneStep::CreateFilestoreJob
    } else if f.find_class && !f.snapshot_recorded {
        CloneStep::FindSnapshotClass
    } else {
        CloneStep::CreateSnapshot
    }
}

fn rollback_step_of(f: CloneFacts) -> (r: CloneStep)
    ensures
        r == rollback_step(f),
{
    if f.rollback_recorded {
        CloneStep::GetSnapshot
    } else {
        CloneStep::CreateRollback
    }
}

/// The step after `step`, which came out as `event`.
pub fn next_step(step: CloneStep, event: CloneEvent, f: CloneFacts) -> (r: CloneStep)
    ensures
        r == step_after(step, event, f),
{
    match step {
        CloneStep::Begin => CloneStep::ScaleWeb,
        CloneStep::ScaleWeb => CloneStep::ScaleCron,
        CloneStep::ScaleCron => {
            if !f.has_refresh {
                CloneStep::Finish
            } else if !f.same_namespace {
                CloneStep::RefuseNamespace
            } else {
                CloneStep::GetSource
            }
        },
        CloneStep::RefuseNamespace => CloneStep::FailNamespace,
        CloneStep::GetSource => {
            if event == CloneEvent::SourceFound {
                if f.db_job_named {
                    filestore_start_of(f)
                } else {
                    CloneStep::DetectServers
                }
            } else {
                CloneStep::RefuseSource
            }
        },
        CloneStep::RefuseSource => CloneStep::FailSource,
        CloneStep::DetectServers => CloneStep::RecordTempDb,
        CloneStep::RecordTempDb => CloneStep::CreateDbJob,
        CloneStep::CreateDbJob => CloneStep::RecordDbJob,
        CloneStep::RecordDbJob => filestore_start_of(f),
        CloneStep::FindSnapshotClass => {
            if event == CloneEvent::ClassCovered {
                CloneStep::CreateSnapshot
            } else {
                CloneStep::CreateFilestoreJob
            }
        },
        CloneStep::CreateFilestoreJob => CloneStep::RecordFilestoreJob,
        CloneStep::RecordFilestoreJob => settle_step_of(f),
        CloneStep::CreateSnapshot => {
            if event == CloneEvent::SnapshotCreated || !f.snapshot_recorded {
                CloneStep::RecordSnapshot
            } else {
                rollback_step_of(f)
            }
        },
        CloneStep::RecordSnapshot => rollback_step_of(f),
        CloneStep::CreateRollback => CloneStep::RecordRollback,
        CloneStep::RecordRollback => CloneStep::GetSnapshot,
        CloneStep::GetSnapshot => {
            if event == CloneEvent::SnapshotReady {
                CloneStep::DeleteClaim
            } else {
                CloneStep::Finish
            }
        },
        CloneStep::DeleteClaim => CloneStep::GetClaim,
        CloneStep::GetClaim => {
            if event == CloneEvent::ClaimTerminating {
                CloneStep::Finish
            } else {
                CloneStep::CreateClaim
            }
        },
        CloneStep::CreateClaim => CloneStep::RecordClaim,
        CloneStep::RecordClaim => settle_step_of(f),
        CloneStep::InspectClaim => {
            if event == CloneEvent::ClaimBound {
                CloneStep::SettleFilestore
            } else {
                db_outcome_step_of(f)
            }
        },
        CloneStep::SettleFilestore => db_outcome_step_of(f),
        CloneStep::GetDbJob => neutralize_step_of(f, event == CloneEvent::DbJobSucceeded),
        CloneStep::CreateNeutralizeJob => CloneStep::RecordNeutralizeJob,
        CloneStep::RecordNeutralizeJob => CloneStep::Finish,
        CloneStep::Finish => CloneStep::Finish,
        CloneStep::FailNamespace => CloneStep::FailNamespace,
        CloneStep::FailSource => CloneStep::FailSource,
    }
}

impl CloningFromSource {
    /// All pods are down, and the refresh goes on: the step after `step`, which came out as
    /// `event`. A reconcile starts with `Begin`, and runs until the step is an end.
    pub fn ensure(
        &self,
        target: &OdooInstance,
        refresh: &Option<OdooStagingRefreshJob>,
        source: Option<&OdooInstance>,
        step: CloneStep,
        event: CloneEvent,
    ) -> (r: CloneStep)
        ensures
            r == step_after(step, event, facts(target, *refresh, source)),
    {
        next_step(step, event, clone_facts(target, refresh, source))
    }
}

// ── What comes of a step ────────────────────────────────────────────────────

/// Whether a snapshot class covers a storage class: its driver is what provisions the class.
pub open spec fn is_covered(provisioner: Option<String>, drivers: Seq<String>) -> bool {
    provisioner matches Some(p) && texts(drivers).contains(p@)
}

/// What is seen of the snapshot classes.
pub open spec fn seen_class(provisioner: Option<String>, drivers: Seq<String>) -> CloneEvent {
    if is_covered(provisioner, drivers) {
        CloneEvent::ClassCovered
    } else {
        CloneEvent::ClassUncovered
    }
}

/// Whether a snapshot class covers the storage class of the filestore. `provisioner` is that of
/// the storage class, where the class was found, and `drivers` are those of the snapshot classes.
pub fn snapshot_class_event(provisioner: &Option<String>, drivers: &Vec<String>) -> (r: CloneEvent)
    ensures
        r == seen_class(*provisioner, drivers@),
{
    let wanted = match provisioner {
        Some(p) => p,
        None => return CloneEvent::ClassUncovered,
    };
    let mut i: usize = 0;
    while i < drivers.len()
        invariant
            i <= drivers@.len(),
            *provisioner == Some(*wanted),
            forall|j: int| 0 <= j < i ==> (#[trigger] drivers@[j])@ != wanted@,
        decreases drivers@.len() - i,
    {
        if same_text(drivers[i].as_str(), wanted.as_str()) {
            proof {
                assert(texts(drivers@)[i as int] == wanted@);
            }
            return CloneEvent::ClassCovered;
        }
        i = i + 1;
    }
    proof {
        if texts(drivers@).contains(wanted@) {
            let j = choose|j: int| 0 <= j < drivers@.len() && texts(drivers@)[j] == wanted@;
            assert(drivers@[j]@ == wanted@);
        }
    }
    CloneEvent::ClassUncovered
}

/// What is seen of a snapshot.
pub open spec fn seen_snapshot(ready_to_use: Option<bool>) -> CloneEvent {
    if ready_to_use == Some(true) {
        CloneEvent::SnapshotReady
    } else {
        CloneEvent::SnapshotPending
    }
}

/// Whether a snapshot can be cloned from. One that cannot be found yet cannot.
pub fn snapshot_event(ready_to_use: Option<bool>) -> (r: CloneEvent)
    ensures
        r == seen_snapshot(ready_to_use),
{
    match ready_to_use {
        Some(true) => CloneEvent::SnapshotReady,
        _ => CloneEvent::SnapshotPending,
    }
}

/// What is seen of the target's claim.
#[derive(Debug)]
pub struct ClaimState {
    pub terminating: bool,
    pub phase: Option<String>,
}

/// What is seen of the claim that was deleted.
pub open spec fn seen_deleted_claim(claim: Option<ClaimState>) -> CloneEvent {
    if claim matches Some(c) && c.terminating {
        CloneEvent::ClaimTerminating
    } else {
        CloneEvent::ClaimGone
    }
}

/// What is seen of the claim that was created again.
pub open spec fn seen_recreated_claim(claim: Option<ClaimState>) -> CloneEvent {
    if claim matches Some(c) && !c.terminating && opt_text(c.phase) == Some("Bound"@) {
        CloneEvent::ClaimBound
    } else {
        CloneEvent::ClaimUnbound
    }
}

/// What is seen of the Job that clones the database.
pub open spec fn seen_db_job(lookup: JobLookup) -> CloneEvent {
    if lookup matches JobLookup::Found(job) && is_positive(job.succeeded) {
        CloneEvent::DbJobSucceeded
    } else {
        CloneEvent::DbJobUnfinished
    }
}

/// Whether the old claim is out of the way.
pub fn deleted_claim_event(claim: &Option<ClaimState>) -> (r: CloneEvent)
    ensures
        r == seen_deleted_claim(*claim),
{
    match claim {
        Some(c) => {
            if c.terminating {
                CloneEvent::ClaimTerminating
            } else {
                CloneEvent::ClaimGone
            }
        },
        None => CloneEvent::ClaimGone,
    }
}

/// Whether the recreated claim is bound. An old one that is still terminating does not count.
pub fn recreated_claim_event(claim: &Option<ClaimState>) -> (r: CloneEvent)
    ensures
        r == seen_recreated_claim(*claim),
{
    match claim {
        Some(c) => {
            let bound = match &c.phase {
                Some(p) => same_text(p.as_str(), "Bound"),
                None => false,
            };
            if !c.terminating && bound {
                CloneEvent::ClaimBound
            } else {
                CloneEvent::ClaimUnbound
            }
        },
        None => CloneEvent::ClaimUnbound,
    }
}

/// Whether the Job that clones the database has succeeded.
pub fn db_job_event(lookup: JobLookup) -> (r: CloneEvent)
    ensures
        r == seen_db_job(lookup),
{
    match lookup {
        JobLookup::Found(job) => match job.succeeded {
            Some(n) => {
                if n > 0 {
                    CloneEvent::DbJobSucceeded
                } else {
                    CloneEvent::DbJobUnfinished
                }
            },
            None => CloneEvent::DbJobUnfinished,
        },
        _ => CloneEvent::DbJobUnfinished,
    }
}

// ── What is recorded ────────────────────────────────────────────────────────

/// A message for the user.
pub open spec fn message_change(message: Seq<char>) -> RefreshStatusText {
    RefreshStatusText { message: FieldText::To(message), ..no_refresh_change() }
}

fn message_patch(message: String) -> (r: RefreshStatusPatch)
    ensures
        r@ == message_change(message@),
{
    let mut patch = RefreshStatusPatch::nothing();
    patch.message = FieldChange::To(message);
    patch
}

/// What is said where the source is in another namespace.
pub open spec fn namespace_refusal() -> RefreshStatusText {
    message_change(
        "cross-namespace staging refresh is not supported in v1 — source and target must share a namespace"@,
    )
}

/// What is said where the source was not found.
pub open spec fn source_refusal(refresh: &OdooStagingRefreshJob, error: Seq<char>) -> RefreshStatusText {
    message_change(
        "source OdooInstance "@ + refresh.spec.source.instance_name@ + " not found: "@ + error,
    )
}

/// The source is in another namespace.
pub fn refuse_namespace() -> (r: RefreshStatusPatch)
    ensures
        r@ == namespace_refusal(),
{
    message_patch(
        "cross-namespace staging refresh is not supported in v1 — source and target must share a namespace".to_owned(),
    )
}

/// The source was not found.
pub fn refuse_source(refresh: &OdooStagingRefreshJob, error: &str) -> (r: RefreshStatusPatch)
    ensures
        r@ == source_refusal(refresh, error@),
{
    message_patch(
        join4(
            "source OdooInstance ",
            refresh.spec.source.instance_name.as_str(),
            " not found: ",
            error,
        ),
    )
}

/// The database that the clone is loaded into first: named after the target's, and after the
/// refresh by a short hash of its UID, so that it is found again and is short enough.
pub open spec fn temp_db(target: &OdooInstance, refresh: &OdooStagingRefreshJob) -> Seq<char> {
    database_name(target) + "_refresh_"@ + sha256_text(
        match refresh.metadata.uid {
            Some(uid) => uid@,
            None => "norun"@,
        },
    ).take(8)
}

/// The first characters of the hash of a text.
fn short_hash(text: &str, len: usize) -> (r: String)
    requires
        len <= 64,
    ensures
        r@ == sha256_text(text@).take(len as int),
        r@.len() == len,
{
    let hash = sha256_hex(text);
    let chars = chars_of(hash.as_str());
    proof {
        assert(chars@.subrange(0, len as int) =~= chars@.take(len as int));
    }
    string_of(&chars, 0, len)
}

/// The database that the clone is loaded into first. Where the target's database is named after
/// a UUID, the name keeps within the 63 bytes that PostgreSQL allows.
pub fn temp_db_name(target: &OdooInstance, refresh: &OdooStagingRefreshJob) -> (r: String)
    ensures
        r@ == temp_db(target, refresh),
        r@.len() == database_name(target).len() + 17,
        custom_db_name(target) is None && (target.metadata.uid matches Some(uid) && uid@.len()
            <= 36) ==> r@.len() <= 63,
{
    proof {
        reveal_strlit("_refresh_");
        reveal_strlit("odoo_");
    }
    let db = db_name(target);
    let short = match &refresh.metadata.uid {
        Some(uid) => short_hash(uid.as_str(), 8),
        None => short_hash("norun", 8),
    };
    join3(db.as_str(), "_refresh_", short.as_str())
}

/// The newer one of two versions.
pub open spec fn newer(source: i32, target: i32) -> i32 {
    if source >= target {
        source
    } else {
        target
    }
}

/// The version that the database tools must have: the newer one of the two servers.
pub fn tools_major(source: i32, target: i32) -> (r: i32)
    ensures
        r == newer(source, target),
{
    if source >= target {
        source
    } else {
        target
    }
}

/// The record of the database that the clone is loaded into first.
pub open spec fn temp_db_record(target: &OdooInstance, refresh: &OdooStagingRefreshJob) -> RefreshStatusText {
    RefreshStatusText {
        temp_db_name: FieldText::To(temp_db(target, refresh)),
        ..no_refresh_change()
    }
}

/// The clone is going to be loaded into this database.
pub fn record_temp_db(target: &OdooInstance, refresh: &OdooStagingRefreshJob) -> (r:
    RefreshStatusPatch)
    ensures
        r@ == temp_db_record(target, refresh),
{
    let mut patch = RefreshStatusPatch::nothing();
    patch.temp_db_name = FieldChange::To(temp_db_name(target, refresh));
    patch
}

/// The record of the Job that clones the database, and of its start.
pub open spec fn db_job_record(job_name: Seq<char>, now: Seq<char>) -> RefreshStatusText {
    RefreshStatusText {
        phase: Some(Phase::Running),
        db_job_name: FieldText::To(job_name),
        start_time: FieldText::To(now),
        ..no_refresh_change()
    }
}

/// The Job that clones the database is running.
pub fn record_db_job(job_name: &str, now: &str) -> (r: RefreshStatusPatch)
    ensures
        r@ == db_job_record(job_name@, now@),
{
    let mut patch = RefreshStatusPatch::nothing();
    patch.phase = Some(Phase::Running);
    patch.db_job_name = FieldChange::To(job_name.to_owned());
    patch.start_time = FieldChange::To(now.to_owned());
    patch
}

/// The record of the Job that copies the filestore.
pub open spec fn filestore_job_record(job_name: Seq<char>) -> RefreshStatusText {
    RefreshStatusText {
        filestore_job_name: FieldText::To(job_name),
        filestore_phase: PhaseChange::To(Phase::Running),
        ..no_refresh_change()
    }
}

/// The Job that copies the filestore is running.
pub fn record_filestore_job(job_name: &str) -> (r: RefreshStatusPatch)
    ensures
        r@ == filestore_job_record(job_name@),
{
    let mut patch = RefreshStatusPatch::nothing();
    patch.filestore_job_name = FieldChange::To(job_name.to_owned());
    patch.filestore_phase = PhaseChange::To(Phase::Running);
    patch
}

/// The record of the snapshot of the source.
pub open spec fn snapshot_record(refresh: &OdooStagingRefreshJob) -> RefreshStatusText {
    RefreshStatusText {
        source_snapshot: FieldText::To(snapshot_name(refresh)),
        ..no_refresh_change()
    }
}

/// The snapshot of the source is taken.
pub fn record_snapshot(refresh: &OdooStagingRefreshJob) -> (r: RefreshStatusPatch)
    ensures
        r@ == snapshot_record(refresh),
{
    let mut patch = RefreshStatusPatch::nothing();
    patch.source_snapshot = FieldChange::To(source_snapshot_name(refresh));
    patch
}

/// The record of the snapshot by which the refresh can be undone.
pub open spec fn rollback_record(refresh: &OdooStagingRefreshJob) -> RefreshStatusText {
    RefreshStatusText {
        rollback_snapshot: FieldText::To(rollback_name(refresh)),
        ..no_refresh_change()
    }
}

/// The snapshot by which the refresh can be undone is taken.
pub fn record_rollback(refresh: &OdooStagingRefreshJob) -> (r: RefreshStatusPatch)
    ensures
        r@ == rollback_record(refresh),
{
    let mut patch = RefreshStatusPatch::nothing();
    patch.rollback_snapshot = FieldChange::To(rollback_snapshot_name(refresh));
    patch
}

/// The record of how the filestore step stands.
pub open spec fn filestore_phase_record(phase: Phase) -> RefreshStatusText {
    RefreshStatusText { filestore_phase: PhaseChange::To(phase), ..no_refresh_change() }
}

/// The filestore step stands at this phase.
pub fn record_filestore_phase(phase: Phase) -> (r: RefreshStatusPatch)
    ensures
        r@ == filestore_phase_record(phase),
{
    let mut patch = RefreshStatusPatch::nothing();
    patch.filestore_phase = PhaseChange::To(phase);
    patch
}

/// The record of the claim that was created again.
pub open spec fn claim_record() -> RefreshStatusText {
    filestore_phase_record(Phase::Running)
}

/// The target's claim is created again, and the filestore step is running.
pub fn record_claim() -> (r: RefreshStatusPatch)
    ensures
        r@ == claim_record(),
{
    record_filestore_phase(Phase::Running)
}

/// The phase that the filestore step is settled with: that of its Job where it has one, else it
/// is completed, since the recreated claim is bound.
pub open spec fn settled(f: CloneFacts) -> Phase {
    if f.filestore_job_named && f.filestore_job_phase == Some(Phase::Failed) {
        Phase::Failed
    } else {
        Phase::Completed
    }
}

/// The phase that the filestore step is settled with.
pub fn settled_phase(f: CloneFacts) -> (r: Phase)
    ensures
        r == settled(f),
{
    let failed = match f.filestore_job_phase {
        Some(Phase::Failed) => true,
        _ => false,
    };
    if f.filestore_job_named && failed {
        Phase::Failed
    } else {
        Phase::Completed
    }
}

/// The short hash of an image, by which a corrected image is told from the one that failed.
pub open spec fn image_hash(image: Seq<char>) -> Seq<char> {
    sha256_text(image).take(16)
}

/// The short hash of an image, by which a corrected image is told from the one that failed.
pub fn neutralize_image_hash(image: &str) -> (r: String)
    ensures
        r@ == image_hash(image@),
{
    short_hash(image, 16)
}

/// The record of the Job that neutralizes the clone, and of its image.
pub open spec fn neutralize_record(job_name: Seq<char>, image: Seq<char>) -> RefreshStatusText {
    RefreshStatusText {
        neutralize_job_name: FieldText::To(job_name),
        neutralize_job_image_hash: FieldText::To(image_hash(image)),
        ..no_refresh_change()
    }
}

/// The Job that neutralizes or verifies the clone is running.
pub fn record_neutralize_job(job_name: &str, image: &str) -> (r: RefreshStatusPatch)
    ensures
        r@ == neutralize_record(job_name@, image@),
{
    let mut patch = RefreshStatusPatch::nothing();
    patch.neutralize_job_name = FieldChange::To(job_name.to_owned());
    patch.neutralize_job_image_hash = FieldChange::To(neutralize_image_hash(image));
    patch
}

// ── What is created ─────────────────────────────────────────────────────────

/// Whether `env` tells how both databases are reached, and how they are called.
pub open spec fn are_clone_env(
    env: Seq<EnvVar>,
    source_conf: Seq<char>,
    target_conf: Seq<char>,
    source_db: Seq<char>,
    target_db: Seq<char>,
    temp: Seq<char>,
) -> bool {
    &&& env.len() == 11
    &&& is_cm_env(env[0], "SRC_HOST"@, source_conf, "db_host"@)
    &&& is_cm_env(env[1], "SRC_PORT"@, source_conf, "db_port"@)
    &&& is_cm_env(env[2], "SRC_USER"@, source_conf, "db_user"@)
    &&& is_cm_env(env[3], "SRC_PASSWORD"@, source_conf, "db_password"@)
    &&& is_env(env[4], "SRC_DB"@, source_db)
    &&& is_cm_env(env[5], "TGT_HOST"@, target_conf, "db_host"@)
    &&& is_cm_env(env[6], "TGT_PORT"@, target_conf, "db_port"@)
    &&& is_cm_env(env[7], "TGT_USER"@, target_conf, "db_user"@)
    &&& is_cm_env(env[8], "TGT_PASSWORD"@, target_conf, "db_password"@)
    &&& is_env(env[9], "TGT_DB"@, target_db)
    &&& is_env(env[10], "TEMP_DB"@, temp)
}

/// Whether `job` clones the database of `source` into that of `target`.
pub open spec fn is_db_clone_job(
    job: Job,
    target: &OdooInstance,
    source: &OdooInstance,
    refresh: &OdooStagingRefreshJob,
    image: Seq<char>,
    script: Seq<char>,
) -> bool {
    &&& is_instance_job(
        job,
        refresh.metadata.any_name() + "-db-"@,
        target.namespace(),
        refresh,
        target,
        0,
        3600,
    )
    &&& job_pod(job).volumes is None
    &&& job_pod(job).init_containers is None
    &&& job_pod(job).containers@.len() == 1
    &&& {
        let c = job_pod(job).containers@[0];
        &&& c.is_bare()
        &&& c.name@ == "clone-db"@
        &&& opt_text(c.image) == Some(image)
        &&& runs_script(c, "/bin/sh"@, script)
        &&& c.env matches Some(e)
        &&& are_clone_env(
            e@,
            conf_name(refresh.spec.source.instance_name@),
            conf_name(target.name()),
            database_name(source),
            database_name(target),
            temp_db(target, refresh),
        )
    }
}

/// The Job that clones the database of `source` into that of `target`. `image` holds database
/// tools that are as new as both servers.
pub fn build_db_clone_job(
    target: &OdooInstance,
    source: &OdooInstance,
    refresh: &OdooStagingRefreshJob,
    image: &str,
    script: &str,
) -> (r: Job)
    ensures
        is_db_clone_job(r, target, source, refresh, image@, script@),
{
    let target_name = target.metadata.name_any();
    let source_conf = odoo_conf_name(refresh.spec.source.instance_name.as_str());
    let target_conf = odoo_conf_name(target_name.as_str());
    let temp = temp_db_name(target, refresh);
    let variables = vec![
        cm_env("SRC_HOST", source_conf.as_str(), "db_host"),
        cm_env("SRC_PORT", source_conf.as_str(), "db_port"),
        cm_env("SRC_USER", source_conf.as_str(), "db_user"),
        cm_env("SRC_PASSWORD", source_conf.as_str(), "db_password"),
        env("SRC_DB", db_name(source)),
        cm_env("TGT_HOST", target_conf.as_str(), "db_host"),
        cm_env("TGT_PORT", target_conf.as_str(), "db_port"),
        cm_env("TGT_USER", target_conf.as_str(), "db_user"),
        cm_env("TGT_PASSWORD", target_conf.as_str(), "db_password"),
        env("TGT_DB", db_name(target)),
        env("TEMP_DB", temp),
    ];
    let mut c = Container::default();
    c.name = "clone-db".to_owned();
    c.image = Some(image.to_owned());
    c.command = script_command("/bin/sh", script);
    c.env = Some(variables);
    let ghost container = c;
    let containers = vec![c];
    let name = refresh.metadata.name_any();
    let prefix = join2(name.as_str(), "-db-");
    let namespace = target.metadata.namespace_or_empty();
    let builder = OdooJobBuilder::new(prefix.as_str(), namespace.as_str(), refresh, target);
    let job = builder.active_deadline(3600).without_standard_volumes().containers(
        containers,
    ).build();
    proof {
        assert(job_pod(job).containers@[0] == container);
    }
    job
}

/// Whether `job` copies the filestore of the source to that of `target`.
pub open spec fn is_filestore_clone_job(
    job: Job,
    target: &OdooInstance,
    source: &OdooInstance,
    refresh: &OdooStagingRefreshJob,
    image: Seq<char>,
    script: Seq<char>,
) -> bool {
    &&& is_instance_job(
        job,
        refresh.metadata.any_name() + "-fs-"@,
        target.namespace(),
        refresh,
        target,
        0,
        7200,
    )
    &&& job_pod(job).volumes matches Some(volumes)
    &&& volumes@.len() == 3
    &&& are_odoo_volumes(volumes@.take(2), target.name(), target.ephemeral())
    &&& is_claim_volume(
        volumes@[2],
        "source-filestore"@,
        claim_name(refresh.spec.source.instance_name@),
        Some(true),
    )
    &&& job_pod(job).init_containers is None
    &&& job_pod(job).containers@.len() == 1
    &&& {
        let c = job_pod(job).containers@[0];
        &&& c.name@ == "clone-filestore"@
        &&& opt_text(c.image) == Some(image)
        &&& c.image_pull_policy is None
        &&& runs_script(c, "/bin/bash"@, script)
        &&& c.args is None
        &&& c.ports is None
        &&& c.env_from is None
        &&& c.has_no_runtime_settings()
        &&& c.env matches Some(e)
        &&& e@.len() == 4
        &&& is_env(e@[0], "SRC_FILESTORE"@, "/src"@)
        &&& is_env(e@[1], "TGT_FILESTORE"@, "/var/lib/odoo"@)
        &&& is_env(e@[2], "SRC_DB"@, database_name(source))
        &&& is_env(e@[3], "TGT_DB"@, database_name(target))
        &&& c.volume_mounts matches Some(mounts)
        &&& mounts@.len() == 3
        &&& are_odoo_mounts(mounts@.take(2))
        &&& mounts@[2].name@ == "source-filestore"@
        &&& mounts@[2].mount_path@ == "/src"@
        &&& mounts@[2].read_only == Some(true)
    }
}

/// The Job that copies the filestore of the source to that of `target`.
pub fn build_filestore_clone_job(
    target: &OdooInstance,
    source: &OdooInstance,
    refresh: &OdooStagingRefreshJob,
    image: &str,
    script: &str,
) -> (r: Job)
    ensures
        is_filestore_clone_job(r, target, source, refresh, image@, script@),
{
    let source_claim = filestore_claim_name(refresh.spec.source.instance_name.as_str());
    let source_volume = claim_volume("source-filestore", source_claim, Some(true));
    let mut mounts = odoo_volume_mounts();
    let ghost standard_mounts = mounts@;
    mounts.push(
        VolumeMount {
            name: "source-filestore".to_owned(),
            mount_path: "/src".to_owned(),
            read_only: Some(true),
        },
    );
    proof {
        assert(mounts@.take(2) =~= standard_mounts);
    }
    let mut c = Container::default();
    c.name = "clone-filestore".to_owned();
    c.image = Some(image.to_owned());
    c.command = script_command("/bin/bash", script);
    c.env = Some(
        vec![
            env("SRC_FILESTORE", "/src"),
            env("TGT_FILESTORE", "/var/lib/odoo"),
            env("SRC_DB", db_name(source)),
            env("TGT_DB", db_name(target)),
        ],
    );
    c.volume_mounts = Some(mounts);
    let ghost container = c;
    let containers = vec![c];
    let name = refresh.metadata.name_any();
    let prefix = join2(name.as_str(), "-fs-");
    let namespace = target.metadata.namespace_or_empty();
    let builder = OdooJobBuilder::new(prefix.as_str(), namespace.as_str(), refresh, target);
    let ghost standard = builder.standard_volumes@;
    let volumes = vec![source_volume];
    let ghost extra = volumes@;
    let job = builder.active_deadline(7200).extra_volumes(volumes).containers(containers).build();
    proof {
        let all = job_pod(job).volumes->0@;
        assert(all == standard + extra);
        assert(all.take(2) =~= standard);
        assert(all[2] == extra[0]);
        assert(job_pod(job).containers@[0] == container);
    }
    job
}

/// Whether `c` neutralizes the clone, before the instance's environment is layered on. Where the
/// clone is not to be neutralized, it is still verified that no mail can escape from it.
pub open spec fn is_clone_neutralize(
    c: Container,
    target: &OdooInstance,
    neutralize: bool,
    image: Seq<char>,
    mail_env: Seq<EnvVar>,
    scripts: &Scripts,
) -> bool {
    let map = conf_name(target.name());
    &&& c.name@ == if neutralize {
        "neutralize"@
    } else {
        "verify-mail"@
    }
    &&& opt_text(c.image) == Some(image)
    &&& c.image_pull_policy is None
    &&& runs_script(
        c,
        "/bin/bash"@,
        if neutralize {
            scripts.neutralize@
        } else {
            scripts.verify_mail@
        },
    )
    &&& c.args is None
    &&& c.ports is None
    &&& c.env matches Some(e)
    &&& e@.len() == 5 + mail_env.len()
    &&& is_env(e@[0], "DB_NAME"@, database_name(target))
    &&& is_cm_env(e@[1], "HOST"@, map, "db_host"@)
    &&& is_cm_env(e@[2], "PORT"@, map, "db_port"@)
    &&& is_cm_env(e@[3], "USER"@, map, "db_user"@)
    &&& is_cm_env(e@[4], "PASSWORD"@, map, "db_password"@)
    &&& e@.skip(5) == mail_env
    &&& c.env_from is None
    &&& c.volume_mounts matches Some(mounts)
    &&& are_odoo_mounts(mounts@)
    &&& c.has_no_runtime_settings()
}

/// Whether `job` neutralizes the clone, or verifies it where it is not to be neutralized. It has
/// five minutes, and is tried again when a pod fails.
pub open spec fn is_neutralize_job(
    job: Job,
    target: &OdooInstance,
    refresh: &OdooStagingRefreshJob,
    image: Seq<char>,
    mail_env: Seq<EnvVar>,
    scripts: &Scripts,
) -> bool {
    &&& is_instance_job(
        job,
        refresh.metadata.any_name() + (if refresh.spec.neutralize {
            "-neut-"@
        } else {
            "-verify-"@
        }),
        target.namespace(),
        refresh,
        target,
        5,
        300,
    )
    &&& job_pod(job).volumes matches Some(volumes)
    &&& are_odoo_volumes(volumes@, target.name(), target.ephemeral())
    &&& job_pod(job).init_containers is None
    &&& job_pod(job).containers@.len() == 1
    &&& exists|base: Container|
        {
            &&& #[trigger] is_clone_neutralize(
                base,
                target,
                refresh.spec.neutralize,
                image,
                mail_env,
                scripts,
            )
            &&& has_extra_env(job_pod(job).containers@[0], base, target)
        }
}

/// The Job that neutralizes the clone, or verifies it where it is not to be neutralized.
/// `mail_env` tells it where a staging instance sends its mail.
pub fn build_neutralize_job(
    target: &OdooInstance,
    refresh: &OdooStagingRefreshJob,
    image: &str,
    mail_env: &Vec<EnvVar>,
    scripts: &Scripts,
) -> (r: Job)
    ensures
        is_neutralize_job(r, target, refresh, image@, mail_env@, scripts),
{
    let target_name = target.metadata.name_any();
    let map = odoo_conf_name(target_name.as_str());
    let mut variables = vec![
        env("DB_NAME", db_name(target)),
        cm_env("HOST", map.as_str(), "db_host"),
        cm_env("PORT", map.as_str(), "db_port"),
        cm_env("USER", map.as_str(), "db_user"),
        cm_env("PASSWORD", map.as_str(), "db_password"),
    ];
    let mut mail = mail_env.clone();
    proof {
        assert(mail@ =~= mail_env@);
    }
    variables.append(&mut mail);
    proof {
        assert(variables@.skip(5) =~= mail_env@);
    }
    let neutralize = refresh.spec.neutralize;
    let mut c = Container::default();
    c.name = if neutralize {
        "neutralize".to_owned()
    } else {
        "verify-mail".to_owned()
    };
    c.image = Some(image.to_owned());
    c.command = if neutralize {
        script_command("/bin/bash", scripts.neutralize.as_str())
    } else {
        script_command("/bin/bash", scripts.verify_mail.as_str())
    };
    c.env = Some(variables);
    c.volume_mounts = Some(odoo_volume_mounts());
    let ghost base = c;
    let container = apply_extra_env(c, target);
    let containers = vec![container];
    let name = refresh.metadata.name_any();
    let prefix = if neutralize {
        join2(name.as_str(), "-neut-")
    } else {
        join2(name.as_str(), "-verify-")
    };
    let namespace = target.metadata.namespace_or_empty();
    let builder = OdooJobBuilder::new(prefix.as_str(), namespace.as_str(), refresh, target);
    let ghost fresh = builder;
    let job = builder.active_deadline(300).backoff_limit(5).containers(containers).build();
    proof {
        assert(is_clone_neutralize(base, target, neutralize, image@, mail_env@, scripts));
        assert(fresh.standard_volumes@ + fresh.extra_volumes@ =~= fresh.standard_volumes@);
    }
    job
}

/// Whether `s` is the snapshot of that name that a refresh takes of a claim. The refresh owns it,
/// so it is cleaned up with the refresh. The class is left open: the default one of the storage
/// driver is used.
pub open spec fn is_refresh_snapshot(
    s: VolumeSnapshot,
    refresh: &OdooStagingRefreshJob,
    name: Seq<char>,
    claim: Seq<char>,
) -> bool {
    &&& opt_text(s.metadata.name) == Some(name)
    &&& s.metadata.generate_name is None
    &&& opt_text(s.metadata.namespace) == Some(refresh.metadata.namespace_text())
    &&& s.metadata.uid is None
    &&& s.metadata.creation_timestamp is None
    &&& s.metadata.labels is None
    &&& s.metadata.annotations is None
    &&& s.metadata.owner_references matches Some(owners)
    &&& owners@.len() == 1
    &&& is_controller_ref(owners@[0], refresh)
    &&& s.source_claim@ == claim
    &&& s.volume_snapshot_class_name is None
}

fn refresh_snapshot(refresh: &OdooStagingRefreshJob, name: String, claim: String) -> (r:
    VolumeSnapshot)
    ensures
        is_refresh_snapshot(r, refresh, name@, claim@),
{
    VolumeSnapshot {
        metadata: ObjectMeta {
            name: Some(name),
            generate_name: None,
            namespace: Some(refresh.metadata.namespace_or_empty()),
            uid: None,
            creation_timestamp: None,
            labels: None,
            annotations: None,
            owner_references: Some(vec![controller_owner_ref(refresh)]),
        },
        source_claim: claim,
        volume_snapshot_class_name: None,
    }
}

/// Whether `s` is the snapshot of the source's claim.
pub open spec fn is_source_snapshot(s: VolumeSnapshot, refresh: &OdooStagingRefreshJob) -> bool {
    is_refresh_snapshot(
        s,
        refresh,
        snapshot_name(refresh),
        claim_name(refresh.spec.source.instance_name@),
    )
}

/// The snapshot of the source's claim.
pub fn ensure_source_snapshot(refresh: &OdooStagingRefreshJob) -> (r: VolumeSnapshot)
    ensures
        is_source_snapshot(r, refresh),
{
    refresh_snapshot(
        refresh,
        source_snapshot_name(refresh),
        filestore_claim_name(refresh.spec.source.instance_name.as_str()),
    )
}

/// Whether `s` is the snapshot of the target's claim.
pub open spec fn is_target_snapshot(
    s: VolumeSnapshot,
    target: &OdooInstance,
    refresh: &OdooStagingRefreshJob,
) -> bool {
    is_refresh_snapshot(s, refresh, rollback_name(refresh), claim_name(target.name()))
}

/// The snapshot of the target's claim as it is before the refresh. It is asked for together with
/// that of the source, and so before the claim is deleted.
pub fn rollback_snapshot(target: &OdooInstance, refresh: &OdooStagingRefreshJob) -> (r:
    VolumeSnapshot)
    ensures
        is_target_snapshot(r, target, refresh),
{
    let target_name = target.metadata.name_any();
    refresh_snapshot(
        refresh,
        rollback_snapshot_name(refresh),
        filestore_claim_name(target_name.as_str()),
    )
}

/// A snapshot that is not needed any more.
#[derive(Debug)]
pub struct ExpiredRollback {
    pub snapshot: String,
    /// It is not on record any more.
    pub patch: RefreshStatusPatch,
}

/// Whether a refresh can no longer be undone: it is over, and a day has passed since the snapshot
/// of the target was taken.
pub open spec fn rollback_expired(
    refresh: OdooStagingRefreshJob,
    taken: Option<Moment>,
    now: Moment,
) -> bool {
    &&& refresh.status matches Some(s)
    &&& s.phase matches Some(phase)
    &&& phase.is_terminal()
    &&& recorded_rollback(refresh) is Some
    &&& taken matches Some(t)
    &&& t.secs + 86_400 <= now.secs
}

/// Whether `r` gives up the snapshot by which a refresh could be undone, when that is due.
pub open spec fn is_expired_rollback(
    r: Option<ExpiredRollback>,
    refresh: OdooStagingRefreshJob,
    taken: Option<Moment>,
    now: Moment,
) -> bool {
    &&& r is Some == rollback_expired(refresh, taken, now)
    &&& r matches Some(expired) ==> {
        &&& Some(expired.snapshot@) == recorded_rollback(refresh)
        &&& expired.patch@ == (RefreshStatusText {
            rollback_snapshot: FieldText::Clear,
            ..no_refresh_change()
        })
    }
}

/// Gives up the snapshot by which a refresh could be undone, a day after it was taken. `taken` is
/// when that was, where the snapshot was found.
pub fn expired_rollback(
    refresh: &OdooStagingRefreshJob,
    taken: Option<Moment>,
    now: Moment,
) -> (r: Option<ExpiredRollback>)
    ensures
        is_expired_rollback(r, *refresh, taken, now),
{
    let status = match &refresh.status {
        Some(status) => status,
        None => return None,
    };
    let over = match status.phase {
        Some(Phase::Completed) => true,
        Some(Phase::Failed) => true,
        _ => false,
    };
    match (&status.rollback_snapshot, taken) {
        (Some(snapshot), Some(t)) => {
            if !over || t.secs as i128 + 86_400 > now.secs as i128 {
                return None;
            }
            let mut patch = RefreshStatusPatch::nothing();
            patch.rollback_snapshot = FieldChange::Clear;
            Some(ExpiredRollback { snapshot: snapshot.clone(), patch })
        },
        _ => None,
    }
}

/// Whether `r` is the snapshot of the source, as the source of the target's new claim.
pub open spec fn is_snapshot_reference(r: TypedObjectReference, refresh: &OdooStagingRefreshJob) -> bool {
    &&& opt_text(r.api_group) == Some("snapshot.storage.k8s.io"@)
    &&& r.kind@ == "VolumeSnapshot"@
    &&& r.name@ == snapshot_name(refresh)
    &&& r.namespace is None
}

/// The snapshot of the source, as the source of the target's new claim.
pub fn snapshot_data_source(refresh: &OdooStagingRefreshJob) -> (r: TypedObjectReference)
    ensures
        is_snapshot_reference(r, refresh),
{
    TypedObjectReference {
        api_group: Some("snapshot.storage.k8s.io".to_owned()),
        kind: "VolumeSnapshot".to_owned(),
        name: source_snapshot_name(refresh),
        namespace: None,
    }
}

// ── Retry ───────────────────────────────────────────────────────────────────

/// A failed neutralization is tried again with a corrected image.
#[derive(Debug)]
pub struct NeutralizeRetry {
    /// The refresh that is reopened.
    pub refresh: String,
    /// The failed Job, which is deleted where it still exists.
    pub delete_job: Option<String>,
    /// The neutralization is forgotten. What was done before it stays done.
    pub patch: RefreshStatusPatch,
}

/// Whether the neutralization of this refresh of the instance `name` has failed.
pub open spec fn failed_to_neutralize(refresh: OdooStagingRefreshJob, name: Seq<char>) -> bool {
    refresh.spec.odoo_instance_ref.name@ == name && neutralize_phase(refresh) == Some(
        Phase::Failed,
    )
}

/// Whether a creation time is the same as `other` or earlier. One that is missing counts as the
/// earliest.
pub open spec fn created_by(time: Option<Moment>, other: Option<Moment>) -> bool {
    match (time, other) {
        (None, _) => true,
        (Some(_), None) => false,
        (Some(a), Some(b)) => a.not_after(b),
    }
}

/// The position of the youngest refresh whose neutralization failed, of several the last.
pub open spec fn retry_candidate(refreshes: Seq<OdooStagingRefreshJob>, name: Seq<char>) -> Option<
    int,
>
    decreases refreshes.len(),
{
    if refreshes.len() == 0 {
        None
    } else {
        let before = retry_candidate(refreshes.drop_last(), name);
        let last = refreshes.last();
        if failed_to_neutralize(last, name) && (before matches Some(i) ==> created_by(
            refreshes[i].metadata.creation_timestamp,
            last.metadata.creation_timestamp,
        )) {
            Some(refreshes.len() - 1)
        } else {
            before
        }
    }
}

/// The hash of the image that the failed neutralization ran with.
pub open spec fn recorded_hash(refresh: OdooStagingRefreshJob) -> Option<Seq<char>> {
    match refresh.status {
        Some(s) => opt_text(s.neutralize_job_image_hash),
        None => None,
    }
}

/// The neutralization is forgotten, and the refresh is running again.
pub open spec fn retry_change() -> RefreshStatusText {
    RefreshStatusText {
        phase: Some(Phase::Running),
        neutralize_job_name: FieldText::Clear,
        neutralize_job_phase: PhaseChange::Clear,
        neutralize_job_image_hash: FieldText::Clear,
        message: FieldText::To("neutralize image changed; retrying with corrected spec"@),
        ..no_refresh_change()
    }
}

/// Whether a retry is due: the youngest failed neutralization ran with another image than the
/// one that the instance has now.
pub open spec fn retry_due(
    instance: &OdooInstance,
    defaults: &OperatorDefaults,
    refreshes: Seq<OdooStagingRefreshJob>,
) -> bool {
    retry_candidate(refreshes, instance.name()) matches Some(i) && recorded_hash(refreshes[i])
        != Some(image_hash(image_text(instance, defaults)))
}

proof fn lemma_candidate_in_range(refreshes: Seq<OdooStagingRefreshJob>, name: Seq<char>)
    ensures
        retry_candidate(refreshes, name) matches Some(i) ==> 0 <= i < refreshes.len()
            && failed_to_neutralize(refreshes[i], name),
    decreases refreshes.len(),
{
    if refreshes.len() > 0 {
        lemma_candidate_in_range(refreshes.drop_last(), name);
    }
}

fn find_retry_candidate(refreshes: &Vec<OdooStagingRefreshJob>, name: &str) -> (r: Option<usize>)
    ensures
        r is Some == retry_candidate(refreshes@, name@) is Some,
        r matches Some(i) ==> i < refreshes@.len() && retry_candidate(refreshes@, name@) == Some(
            i as int,
        ),
{
    let mut best: Option<usize> = None;
    let mut i: usize = 0;
    proof {
        assert(refreshes@.take(0) =~= Seq::<OdooStagingRefreshJob>::empty());
    }
    while i < refreshes.len()
        invariant
            i <= refreshes@.len(),
            best is Some == retry_candidate(refreshes@.take(i as int), name@) is Some,
            best matches Some(b) ==> b < i && retry_candidate(refreshes@.take(i as int), name@)
                == Some(b as int),
        decreases refreshes@.len() - i,
    {
        let job = &refreshes[i];
        proof {
            assert(refreshes@.take(i + 1).drop_last() =~= refreshes@.take(i as int));
        }
        let failed = match &job.status {
            Some(s) => match s.neutralize_job_phase {
                Some(Phase::Failed) => true,
                _ => false,
            },
            None => false,
        };
        if failed && same_text(job.spec.odoo_instance_ref.name.as_str(), name) {
            let younger = match best {
                Some(b) => match (
                    refreshes[b].metadata.creation_timestamp,
                    job.metadata.creation_timestamp,
                ) {
                    (None, _) => true,
                    (Some(_), None) => false,
                    (Some(x), Some(y)) => x.is_not_after(y),
                },
                None => true,
            };
            if younger {
                best = Some(i);
            }
        }
        i = i + 1;
    }
    proof {
        assert(refreshes@.take(refreshes@.len() as int) =~= refreshes@);
    }
    best
}

/// Tries a failed neutralization again once the image of the instance was corrected. With the
/// same image nothing is done, so that a broken one is not tried over and over. The clone of the
/// database and of the filestore is kept.
pub fn maybe_retry_failed_neutralize(
    instance: &OdooInstance,
    defaults: &OperatorDefaults,
    refreshes: &Vec<OdooStagingRefreshJob>,
) -> (r: Option<NeutralizeRetry>)
    ensures
        r is Some == retry_due(instance, defaults, refreshes@),
        r matches Some(retry) ==> {
            let refresh = refreshes@[retry_candidate(refreshes@, instance.name())->0];
            &&& retry.refresh@ == refresh.metadata.any_name()
            &&& opt_text(retry.delete_job) == neutralize_job(refresh)
            &&& retry.patch@ == retry_change()
        },
{
    let name = instance.metadata.name_any();
    let image = image_of(instance, defaults);
    let current = neutralize_image_hash(image.as_str());
    let at = match find_retry_candidate(refreshes, name.as_str()) {
        Some(at) => at,
        None => return None,
    };
    let refresh = &refreshes[at];
    let (unchanged, delete_job): (bool, Option<String>) = match &refresh.status {
        Some(s) => {
            let unchanged = match &s.neutralize_job_image_hash {
                Some(hash) => same_text(hash.as_str(), current.as_str()),
                None => false,
            };
            (unchanged, s.neutralize_job_name.clone())
        },
        None => (false, None),
    };
    if unchanged {
        return None;
    }
    let mut patch = RefreshStatusPatch::nothing();
    patch.phase = Some(Phase::Running);
    patch.neutralize_job_name = FieldChange::Clear;
    patch.neutralize_job_phase = PhaseChange::Clear;
    patch.neutralize_job_image_hash = FieldChange::Clear;
    patch.message = FieldChange::To(
        "neutralize image changed; retrying with corrected spec".to_owned(),
    );
    Some(NeutralizeRetry { refresh: refresh.metadata.name_any(), delete_job, patch })
}

// ── Laws ────────────────────────────────────────────────────────────────────

/// Whether a reconcile is over.
pub open spec fn is_end(step: CloneStep) -> bool {
    step == CloneStep::Finish || step == CloneStep::FailNamespace || step == CloneStep::FailSource
}

/// The place of a step in the course of a refresh.
pub open spec fn place(step: CloneStep) -> nat {
    match step {
        CloneStep::Begin => 0,
        CloneStep::ScaleWeb => 1,
        CloneStep::ScaleCron => 2,
        CloneStep::RefuseNamespace => 3,
        CloneStep::GetSource => 4,
        CloneStep::RefuseSource => 5,
        CloneStep::DetectServers => 6,
        CloneStep::RecordTempDb => 7,
        CloneStep::CreateDbJob => 8,
        CloneStep::RecordDbJob => 9,
        CloneStep::FindSnapshotClass => 10,
        CloneStep::CreateFilestoreJob => 11,
        CloneStep::RecordFilestoreJob => 12,
        CloneStep::CreateSnapshot => 13,
        CloneStep::RecordSnapshot => 14,
        CloneStep::CreateRollback => 15,
        CloneStep::RecordRollback => 16,
        CloneStep::GetSnapshot => 17,
        CloneStep::DeleteClaim => 18,
        CloneStep::GetClaim => 19,
        CloneStep::CreateClaim => 20,
        CloneStep::RecordClaim => 21,
        CloneStep::InspectClaim => 22,
        CloneStep::SettleFilestore => 23,
        CloneStep::GetDbJob => 24,
        CloneStep::CreateNeutralizeJob => 25,
        CloneStep::RecordNeutralizeJob => 26,
        CloneStep::Finish => 27,
        CloneStep::FailNamespace => 27,
        CloneStep::FailSource => 27,
    }
}

/// A reconcile comes to an end, whatever comes of its steps: no step is taken twice.
pub proof fn law_refresh_reconcile_ends(step: CloneStep, event: CloneEvent, f: CloneFacts)
    requires
        !is_end(step),
    ensures
        place(step_after(step, event, f)) > place(step),
{
}

/// The clone is neutralized, or verified, only when it is complete: the database is cloned, the
/// filestore is there or left alone. And that is done once.
pub proof fn law_neutralize_comes_last(step: CloneStep, event: CloneEvent, f: CloneFacts)
    requires
        step_after(step, event, f) == CloneStep::CreateNeutralizeJob,
    ensures
        filestore_done(f),
        !f.neutralize_job_named,
        f.db_job_phase == Some(Phase::Completed) || (step == CloneStep::GetDbJob && event
            == CloneEvent::DbJobSucceeded),
{
}

/// The target's claim is deleted only when the snapshot of the source is ready and one of the
/// target is on record, by which the refresh can be undone. The claim is created only when the
/// old one is not terminating any more, and the filestore step counts as running only after that.
pub proof fn law_claim_is_replaced_in_order(step: CloneStep, event: CloneEvent, f: CloneFacts)
    ensures
        step_after(step, event, f) == CloneStep::DeleteClaim ==> step == CloneStep::GetSnapshot
            && event == CloneEvent::SnapshotReady,
        step_after(step, event, f) == CloneStep::GetSnapshot ==> f.rollback_recorded || step
            == CloneStep::RecordRollback,
        step_after(step, event, f) == CloneStep::RecordRollback ==> step
            == CloneStep::CreateRollback,
        step_after(step, event, f) == CloneStep::CreateClaim ==> step == CloneStep::GetClaim
            && event != CloneEvent::ClaimTerminating,
        step_after(step, event, f) == CloneStep::RecordClaim ==> step == CloneStep::CreateClaim,
{
}

/// What was started is not started again. The temporary database is on record before the Job
/// that fills it is created.
pub proof fn law_jobs_are_created_once(step: CloneStep, event: CloneEvent, f: CloneFacts)
    ensures
        f.db_job_named ==> step_after(step, event, f) != CloneStep::DetectServers,
        step_after(step, event, f) == CloneStep::RecordTempDb ==> step == CloneStep::DetectServers,
        step_after(step, event, f) == CloneStep::CreateDbJob ==> step == CloneStep::RecordTempDb,
        f.filestore_phase is Some && step != CloneStep::FindSnapshotClass ==> step_after(
            step,
            event,
            f,
        ) != CloneStep::CreateFilestoreJob && step_after(step, event, f)
            != CloneStep::CreateSnapshot && step_after(step, event, f)
            != CloneStep::FindSnapshotClass,
        f.neutralize_job_named ==> step_after(step, event, f) != CloneStep::CreateNeutralizeJob,
{
}

/// A filestore that is left alone is neither copied nor replaced.
pub proof fn law_skipped_filestore_is_untouched(step: CloneStep, event: CloneEvent, f: CloneFacts)
    requires
        f.skip_filestore,
        place(step) <= place(CloneStep::RecordDbJob),
    ensures
        step_after(step, event, f) != CloneStep::FindSnapshotClass,
        step_after(step, event, f) != CloneStep::CreateFilestoreJob,
        step_after(step, event, f) != CloneStep::CreateSnapshot,
        step_after(step, event, f) != CloneStep::DeleteClaim,
        step_after(step, event, f) != CloneStep::CreateClaim,
{
}

/// Where the method is left open, the filestore is cloned from a snapshot only if both instances
/// ask for one and the same storage class and a snapshot class covers it. Else it is copied.
pub proof fn law_open_method_needs_snapshot_class(
    target: &OdooInstance,
    refresh: OdooStagingRefreshJob,
    source: &OdooInstance,
    step: CloneStep,
    event: CloneEvent,
)
    requires
        refresh.spec.filestore_method == FilestoreMethod::Auto,
        recorded_snapshot(refresh) is None,
    ensures
        ({
            let f = facts(target, Some(refresh), Some(source));
            let next = step_after(step, event, f);
            &&& next == CloneStep::CreateSnapshot ==> step == CloneStep::FindSnapshotClass && event
                == CloneEvent::ClassCovered
            &&& next == CloneStep::FindSnapshotClass ==> snapshot_possible(source, target)
            &&& next == CloneStep::CreateFilestoreJob ==> !snapshot_possible(source, target) || (
            step == CloneStep::FindSnapshotClass && event != CloneEvent::ClassCovered)
        }),
{
}

/// A source in another namespace is refused before anything is read or created.
pub proof fn law_other_namespace_is_refused(event: CloneEvent, f: CloneFacts)
    requires
        f.has_refresh,
        !f.same_namespace,
    ensures
        step_after(CloneStep::ScaleCron, event, f) == CloneStep::RefuseNamespace,
        step_after(CloneStep::RefuseNamespace, event, f) == CloneStep::FailNamespace,
{
}

/// Whether `after` is `before` with the patch applied to its neutralization and its phase.
pub open spec fn is_patched(
    after: OdooStagingRefreshJob,
    before: OdooStagingRefreshJob,
    patch: RefreshStatusText,
) -> bool {
    &&& after.spec == before.spec
    &&& after.metadata == before.metadata
    &&& after.status matches Some(s)
    &&& s.phase == (if patch.phase is Some {
        patch.phase
    } else {
        match before.status {
            Some(b) => b.phase,
            None => None,
        }
    })
    &&& opt_text(s.neutralize_job_name) == patch.neutralize_job_name.applied(
        neutralize_job(before),
    )
    &&& s.neutralize_job_phase == patch.neutralize_job_phase.applied(neutralize_phase(before))
    &&& opt_text(s.neutralize_job_image_hash) == patch.neutralize_job_image_hash.applied(
        recorded_hash(before),
    )
    &&& opt_text(s.db_job_name) == patch.db_job_name.applied(db_job(before))
    &&& s.db_job_phase == patch.db_job_phase.applied(db_phase(before))
    &&& opt_text(s.filestore_job_name) == patch.filestore_job_name.applied(filestore_job(before))
    &&& s.filestore_job_phase == patch.filestore_job_phase.applied(filestore_job_phase(before))
    &&& s.filestore_phase == patch.filestore_phase.applied(filestore_phase(before))
}

/// The snapshot by which a refresh can be undone is kept for a day at least, and while the refresh
/// goes on.
pub proof fn law_rollback_is_kept_for_a_day(
    refresh: OdooStagingRefreshJob,
    taken: Moment,
    now: Moment,
)
    requires
        now.secs - taken.secs < 24 * 60 * 60 || (refresh.status matches Some(s) && s.phase
            == Some(Phase::Running)),
    ensures
        !rollback_expired(refresh, Some(taken), now),
{
}

/// A retry reopens the refresh: it is unfinished again, its neutralization has not begun, and
/// what was cloned stays cloned.
pub proof fn law_retry_reopens_refresh(
    before: OdooStagingRefreshJob,
    after: OdooStagingRefreshJob,
    lookup: JobLookup,
)
    requires
        is_patched(after, before, retry_change()),
    ensures
        crate::controller::snapshot::is_unfinished(after, before.spec.odoo_instance_ref.name@),
        crate::controller::snapshot::neutralize_step(after, lookup)
            == crate::controller::snapshot::JobStatus::Absent,
        crate::controller::snapshot::db_step(after, lookup) == crate::controller::snapshot::db_step(
            before,
            lookup,
        ),
        filestore_phase(after) == filestore_phase(before),
        filestore_job_phase(after) == filestore_job_phase(before),
{
}

/// A retry is not repeated: the Job that it leads to records the hash of the current image, and
/// while that image stays, its failure draws no further retry.
pub proof fn law_retry_is_not_repeated(
    instance: &OdooInstance,
    defaults: &OperatorDefaults,
    before: OdooStagingRefreshJob,
    after: OdooStagingRefreshJob,
    job_name: Seq<char>,
    refreshes: Seq<OdooStagingRefreshJob>,
    i: int,
)
    requires
        is_patched(
            after,
            before,
            neutralize_record(job_name, image_text(instance, defaults)),
        ),
        retry_candidate(refreshes, instance.name()) == Some(i),
        recorded_hash(refreshes[i]) == recorded_hash(after),
    ensures
        !retry_due(instance, defaults, refreshes),
{
}

/// Only a failed neutralization of this instance is tried again.
pub proof fn law_retry_is_for_failed_neutralization(
    instance: &OdooInstance,
    defaults: &OperatorDefaults,
    refreshes: Seq<OdooStagingRefreshJob>,
)
    requires
        retry_due(instance, defaults, refreshes),
    ensures
        retry_candidate(refreshes, instance.name()) matches Some(i) && 0 <= i < refreshes.len()
            && failed_to_neutralize(refreshes[i], instance.name()),
{
    lemma_candidate_in_range(refreshes, instance.name());
}

} // verus!
