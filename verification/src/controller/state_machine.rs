//! The state machine that drives the life of an instance.
//!
//! In each reconcile the outputs of the current phase are ensured first (see the states). Then
//! the transition table is consulted. Where a transition is taken, its actions are performed,
//! the new phase is recorded, and the instance is reconciled again at once. Where none is taken,
//! the instance is looked at again later.

use vstd::prelude::*;

use crate::controller::patches::{
    finished, no_instance_change, no_refresh_change, FieldChange, FieldText, InstanceStatusPatch,
    InstanceStatusText, JobStatusPatch, JobStatusText, RefreshStatusPatch, RefreshStatusText,
};
use crate::controller::snapshot::{
    db_job, neutralize_job, record_job, scheduled_moment, JobStatus, ReconcileSnapshot,
};
use crate::controller::transitions::{next_row, next_transition, Transition, TransitionAction};
use crate::crd::metadata::Moment;
use crate::crd::odoo_instance::{OdooInstance, OdooInstancePhase};
use crate::crd::shared::{JobRecord, Phase, WebhookConfig};
use crate::helpers::{current_moment, is_clock_time, odoo_time, utc_now_odoo};
use crate::outside::{duration_until, is_moment, nanos_until, parse_rfc3339, time_until};
use crate::text::opt_text;

verus! {

broadcast use vstd::seq_lib::group_seq_properties;

// ── Effects ─────────────────────────────────────────────────────────────────

/// The kinds of job resources.
#[derive(Debug, Clone, Copy, PartialEq, Eq, Structural)]
pub enum JobKind {
    Init,
    Restore,
    Refresh,
    Upgrade,
    Backup,
}

/// Something to be done to the cluster, or told to the outside.
#[derive(Debug)]
pub enum Effect {
    /// Patch the status of the instance.
    PatchInstance(InstanceStatusPatch),
    /// Patch the status of a job resource.
    PatchJob { kind: JobKind, name: String, patch: JobStatusPatch },
    /// Patch the status of a staging refresh.
    PatchRefresh { name: String, patch: RefreshStatusPatch },
    /// Report the end of a job to its webhook.
    Notify {
        webhook: WebhookConfig,
        phase: Phase,
        job_name: Option<String>,
        message: Option<String>,
        completion_time: String,
    },
    /// Restart the pods of a Deployment.
    RestartDeployment(String),
    /// Delete a volume snapshot.
    DeleteSnapshot(String),
    BeginFilestoreMigration,
    CompleteFilestoreMigration,
    RollbackFilestoreMigration,
    BeginDatabaseMigration,
    CompleteDatabaseMigration,
    ClearDatabaseMigrationStatus,
    RollbackDatabaseMigration,
}

/// Something to be done to the cluster, or told to the outside.
pub enum EffectText {
    PatchInstance(InstanceStatusText),
    PatchJob { kind: JobKind, name: Seq<char>, patch: JobStatusText },
    PatchRefresh { name: Seq<char>, patch: RefreshStatusText },
    Notify {
        url: Seq<char>,
        phase: Phase,
        job_name: Option<Seq<char>>,
        message: Option<Seq<char>>,
        completion_time: Seq<char>,
    },
    RestartDeployment(Seq<char>),
    DeleteSnapshot(Seq<char>),
    BeginFilestoreMigration,
    CompleteFilestoreMigration,
    RollbackFilestoreMigration,
    BeginDatabaseMigration,
    CompleteDatabaseMigration,
    ClearDatabaseMigrationStatus,
    RollbackDatabaseMigration,
}

impl View for Effect {
    type V = EffectText;

    open spec fn view(&self) -> EffectText {
        match *self {
            Effect::PatchInstance(patch) => EffectText::PatchInstance(patch@),
            Effect::PatchJob { kind, name, patch } => EffectText::PatchJob {
                kind,
                name: name@,
                patch: patch@,
            },
            Effect::PatchRefresh { name, patch } => EffectText::PatchRefresh {
                name: name@,
                patch: patch@,
            },
            Effect::Notify { webhook, phase, job_name, message, completion_time } => EffectText::Notify {
                url: webhook.url@,
                phase,
                job_name: opt_text(job_name),
                message: opt_text(message),
                completion_time: completion_time@,
            },
            Effect::RestartDeployment(name) => EffectText::RestartDeployment(name@),
            Effect::DeleteSnapshot(name) => EffectText::DeleteSnapshot(name@),
            Effect::BeginFilestoreMigration => EffectText::BeginFilestoreMigration,
            Effect::CompleteFilestoreMigration => EffectText::CompleteFilestoreMigration,
            Effect::RollbackFilestoreMigration => EffectText::RollbackFilestoreMigration,
            Effect::BeginDatabaseMigration => EffectText::BeginDatabaseMigration,
            Effect::CompleteDatabaseMigration => EffectText::CompleteDatabaseMigration,
            Effect::ClearDatabaseMigrationStatus => EffectText::ClearDatabaseMigrationStatus,
            Effect::RollbackDatabaseMigration => EffectText::RollbackDatabaseMigration,
        }
    }
}

/// What a list of effects does.
pub open spec fn effect_texts(effects: Seq<Effect>) -> Seq<EffectText> {
    effects.map_values(|e: Effect| e@)
}

/// The end of a job: its resource is patched, and its webhook is told where it has one.
pub open spec fn finish_effects(
    kind: JobKind,
    name: Seq<char>,
    phase: Phase,
    message: Option<Seq<char>>,
    webhook: Option<WebhookConfig>,
    job_name: Option<Seq<char>>,
    now: Seq<char>,
) -> Seq<EffectText> {
    let patch = EffectText::PatchJob { kind, name, patch: finished(phase, now, message) };
    match webhook {
        Some(w) => seq![
            patch,
            EffectText::Notify {
                url: w.url@,
                phase,
                job_name,
                message,
                completion_time: now,
            },
        ],
        None => seq![patch],
    }
}

/// The message of a failure, none where there was none.
pub open spec fn failure(phase: Phase, message: Seq<char>) -> Option<Seq<char>> {
    if phase == Phase::Failed {
        Some(message)
    } else {
        None
    }
}

fn finish(
    kind: JobKind,
    name: String,
    phase: Phase,
    message: &str,
    webhook: &Option<WebhookConfig>,
    job_name: Option<String>,
    now: &str,
) -> (r: Vec<Effect>)
    ensures
        effect_texts(r@) == finish_effects(
            kind,
            name@,
            phase,
            failure(phase, message@),
            *webhook,
            opt_text(job_name),
            now@,
        ),
{
    let failed = phase == Phase::Failed;
    let patch_message = if failed {
        Some(message.to_owned())
    } else {
        None
    };
    let patch = JobStatusPatch {
        phase,
        job_name: None,
        start_time: None,
        completion_time: Some(now.to_owned()),
        message: patch_message,
    };
    let mut effects = vec![Effect::PatchJob { kind, name, patch }];
    if let Some(w) = webhook {
        let told = if failed {
            Some(message.to_owned())
        } else {
            None
        };
        effects.push(
            Effect::Notify {
                webhook: w.clone(),
                phase,
                job_name,
                message: told,
                completion_time: now.to_owned(),
            },
        );
    }
    proof {
        assert(effect_texts(effects@) =~= finish_effects(
            kind,
            name@,
            phase,
            failure(phase, message@),
            *webhook,
            opt_text(job_name),
            now@,
        ));
    }
    effects
}

/// The end of the initialisation.
pub open spec fn init_effects(s: &ReconcileSnapshot, phase: Phase, now: Seq<char>) -> Seq<EffectText> {
    match s.active_init_job {
        Some(job) => finish_effects(
            JobKind::Init,
            job.metadata.any_name(),
            phase,
            failure(phase, "init job failed"@),
            job.spec.webhook,
            record_job(job.status),
            now,
        ),
        None => Seq::empty(),
    }
}

/// The end of the restore.
pub open spec fn restore_effects(s: &ReconcileSnapshot, phase: Phase, now: Seq<char>) -> Seq<
    EffectText,
> {
    match s.active_restore_job {
        Some(job) => finish_effects(
            JobKind::Restore,
            job.metadata.any_name(),
            phase,
            failure(phase, "restore job failed"@),
            job.spec.webhook,
            record_job(job.status),
            now,
        ),
        None => Seq::empty(),
    }
}

/// The snapshot that a refresh recorded.
pub open spec fn recorded_snapshot(
    job: crate::crd::odoo_staging_refresh_job::OdooStagingRefreshJob,
) -> Option<Seq<char>> {
    match job.status {
        Some(status) => opt_text(status.source_snapshot),
        None => None,
    }
}

/// The temporary database that a refresh recorded.
pub open spec fn recorded_temp_db(
    job: crate::crd::odoo_staging_refresh_job::OdooStagingRefreshJob,
) -> Option<Seq<char>> {
    match job.status {
        Some(status) => opt_text(status.temp_db_name),
        None => None,
    }
}

/// What a completed refresh leaves behind is cleared away: the snapshot that it was cloned from,
/// and the record of its temporary database.
pub open spec fn cleanup_effects(
    job: crate::crd::odoo_staging_refresh_job::OdooStagingRefreshJob,
) -> Seq<EffectText> {
    (match recorded_snapshot(job) {
        Some(snapshot) => seq![EffectText::DeleteSnapshot(snapshot)],
        None => Seq::empty(),
    }) + (match recorded_temp_db(job) {
        Some(_) => seq![
            EffectText::PatchRefresh {
                name: job.metadata.any_name(),
                patch: RefreshStatusText { temp_db_name: FieldText::Clear, ..no_refresh_change() },
            },
        ],
        None => Seq::empty(),
    })
}

/// The end of the staging refresh. Of its Jobs the neutralize Job is reported, else the one
/// that cloned the database. On success the rest is cleared away first, so that a deletion that
/// fails is tried again with what follows it.
pub open spec fn refresh_effects(s: &ReconcileSnapshot, phase: Phase, now: Seq<char>) -> Seq<
    EffectText,
> {
    match s.active_refresh_job {
        Some(job) => {
            let told = finish_effects(
                JobKind::Refresh,
                job.metadata.any_name(),
                phase,
                failure(phase, "staging refresh failed"@),
                job.spec.webhook,
                if neutralize_job(job) is Some {
                    neutralize_job(job)
                } else {
                    db_job(job)
                },
                now,
            );
            if phase == Phase::Completed {
                cleanup_effects(job) + told
            } else {
                told
            }
        },
        None => Seq::empty(),
    }
}

/// The end of the upgrade. On success the web pods are restarted.
pub open spec fn upgrade_effects(
    i: &OdooInstance,
    s: &ReconcileSnapshot,
    phase: Phase,
    now: Seq<char>,
) -> Seq<EffectText> {
    match s.active_upgrade_job {
        Some(job) => {
            let told = finish_effects(
                JobKind::Upgrade,
                job.metadata.any_name(),
                phase,
                failure(phase, "upgrade job failed"@),
                job.spec.webhook,
                record_job(job.status),
                now,
            );
            if phase == Phase::Completed {
                seq![EffectText::RestartDeployment(i.name())] + told
            } else {
                told
            }
        },
        None => Seq::empty(),
    }
}

/// The end of the backup.
pub open spec fn backup_effects(s: &ReconcileSnapshot, phase: Phase, now: Seq<char>) -> Seq<
    EffectText,
> {
    match s.active_backup_job {
        Some(job) => finish_effects(
            JobKind::Backup,
            job.metadata.any_name(),
            phase,
            failure(phase, "backup job failed"@),
            job.spec.webhook,
            record_job(job.status),
            now,
        ),
        None => Seq::empty(),
    }
}

/// The record of a filestore migration is wiped.
pub open spec fn cleared_migration() -> InstanceStatusText {
    InstanceStatusText {
        message: FieldText::Clear,
        migration_job_name: FieldText::Clear,
        migration_pv_name: FieldText::Clear,
        migration_previous_storage_class: FieldText::Clear,
        ..no_instance_change()
    }
}

/// What an action does. `now` is the time that it is done at.
pub open spec fn action_effects(
    action: TransitionAction,
    i: &OdooInstance,
    s: &ReconcileSnapshot,
    now: Seq<char>,
) -> Seq<EffectText> {
    match action {
        TransitionAction::MarkDbInitialized => seq![
            EffectText::PatchInstance(
                InstanceStatusText { db_initialized: Some(true), ..no_instance_change() },
            ),
        ],
        TransitionAction::MarkDbUninitialized => seq![
            EffectText::PatchInstance(
                InstanceStatusText { db_initialized: Some(false), ..no_instance_change() },
            ),
        ],
        TransitionAction::CompleteInitJob => init_effects(s, Phase::Completed, now),
        TransitionAction::FailInitJob => init_effects(s, Phase::Failed, now),
        TransitionAction::CompleteRestoreJob => restore_effects(s, Phase::Completed, now),
        TransitionAction::FailRestoreJob => restore_effects(s, Phase::Failed, now),
        TransitionAction::CompleteRefreshJob => refresh_effects(s, Phase::Completed, now),
        TransitionAction::FailRefreshJob => refresh_effects(s, Phase::Failed, now),
        TransitionAction::CompleteUpgradeJob => upgrade_effects(i, s, Phase::Completed, now),
        TransitionAction::FailUpgradeJob => upgrade_effects(i, s, Phase::Failed, now),
        TransitionAction::CompleteBackupJob => backup_effects(s, Phase::Completed, now),
        TransitionAction::FailBackupJob => backup_effects(s, Phase::Failed, now),
        TransitionAction::BeginFilestoreMigration => seq![EffectText::BeginFilestoreMigration],
        TransitionAction::CompleteFilestoreMigration => seq![EffectText::CompleteFilestoreMigration],
        TransitionAction::ClearFilestoreMigrationStatus => seq![
            EffectText::PatchInstance(cleared_migration()),
        ],
        TransitionAction::RollbackFilestoreMigration => seq![EffectText::RollbackFilestoreMigration],
        TransitionAction::BeginDatabaseMigration => seq![EffectText::BeginDatabaseMigration],
        TransitionAction::CompleteDatabaseMigration => seq![EffectText::CompleteDatabaseMigration],
        TransitionAction::ClearDatabaseMigrationStatus => seq![
            EffectText::ClearDatabaseMigrationStatus,
        ],
        TransitionAction::RollbackDatabaseMigration => seq![EffectText::RollbackDatabaseMigration],
    }
}

fn one_effect(e: Effect) -> (r: Vec<Effect>)
    ensures
        effect_texts(r@) == seq![e@],
{
    let v = vec![e];
    proof {
        assert(effect_texts(v@) =~= seq![e@]);
    }
    v
}

fn no_effects() -> (r: Vec<Effect>)
    ensures
        effect_texts(r@) == Seq::<EffectText>::empty(),
{
    let v: Vec<Effect> = Vec::new();
    proof {
        assert(effect_texts(v@) =~= Seq::<EffectText>::empty());
    }
    v
}

fn job_name_of(status: &Option<JobRecord>) -> (r: Option<String>)
    ensures
        opt_text(r) == record_job(*status),
{
    match status {
        Some(s) => s.job_name.clone(),
        None => None,
    }
}

fn finish_init(s: &ReconcileSnapshot, phase: Phase, now: &str) -> (r: Vec<Effect>)
    ensures
        effect_texts(r@) == init_effects(s, phase, now@),
{
    match &s.active_init_job {
        Some(job) => finish(
            JobKind::Init,
            job.metadata.name_any(),
            phase,
            "init job failed",
            &job.spec.webhook,
            job_name_of(&job.status),
            now,
        ),
        None => no_effects(),
    }
}

fn finish_restore(s: &ReconcileSnapshot, phase: Phase, now: &str) -> (r: Vec<Effect>)
    ensures
        effect_texts(r@) == restore_effects(s, phase, now@),
{
    match &s.active_restore_job {
        Some(job) => finish(
            JobKind::Restore,
            job.metadata.name_any(),
            phase,
            "restore job failed",
            &job.spec.webhook,
            job_name_of(&job.status),
            now,
        ),
        None => no_effects(),
    }
}

fn cleanup(job: &crate::crd::odoo_staging_refresh_job::OdooStagingRefreshJob) -> (r: Vec<Effect>)
    ensures
        effect_texts(r@) == cleanup_effects(*job),
{
    let mut effects: Vec<Effect> = Vec::new();
    if let Some(status) = &job.status {
        if let Some(snapshot) = &status.source_snapshot {
            effects.push(Effect::DeleteSnapshot(snapshot.clone()));
        }
        if status.temp_db_name.is_some() {
            let mut patch = RefreshStatusPatch::nothing();
            patch.temp_db_name = FieldChange::Clear;
            effects.push(Effect::PatchRefresh { name: job.metadata.name_any(), patch });
        }
    }
    proof {
        assert(effect_texts(effects@) =~= cleanup_effects(*job));
    }
    effects
}

fn finish_refresh(s: &ReconcileSnapshot, phase: Phase, now: &str) -> (r: Vec<Effect>)
    ensures
        effect_texts(r@) == refresh_effects(s, phase, now@),
{
    match &s.active_refresh_job {
        Some(job) => {
            let reported = match &job.status {
                Some(status) => match &status.neutralize_job_name {
                    Some(name) => Some(name.clone()),
                    None => status.db_job_name.clone(),
                },
                None => None,
            };
            let mut told = finish(
                JobKind::Refresh,
                job.metadata.name_any(),
                phase,
                "staging refresh failed",
                &job.spec.webhook,
                reported,
                now,
            );
            if phase == Phase::Completed {
                let ghost rest = effect_texts(told@);
                let mut effects = cleanup(job);
                let ghost first = effect_texts(effects@);
                effects.append(&mut told);
                proof {
                    assert(effect_texts(effects@) =~= first + rest);
                }
                effects
            } else {
                told
            }
        },
        None => no_effects(),
    }
}

fn finish_upgrade(i: &OdooInstance, s: &ReconcileSnapshot, phase: Phase, now: &str) -> (r: Vec<
    Effect,
>)
    ensures
        effect_texts(r@) == upgrade_effects(i, s, phase, now@),
{
    match &s.active_upgrade_job {
        Some(job) => {
            let mut told = finish(
                JobKind::Upgrade,
                job.metadata.name_any(),
                phase,
                "upgrade job failed",
                &job.spec.webhook,
                job_name_of(&job.status),
                now,
            );
            if phase == Phase::Completed {
                let ghost rest = effect_texts(told@);
                let mut effects = vec![Effect::RestartDeployment(i.metadata.name_any())];
                effects.append(&mut told);
                proof {
                    assert(effect_texts(effects@) =~= seq![
                        EffectText::RestartDeployment(i.name()),
                    ] + rest);
                }
                effects
            } else {
                told
            }
        },
        None => no_effects(),
    }
}

fn finish_backup(s: &ReconcileSnapshot, phase: Phase, now: &str) -> (r: Vec<Effect>)
    ensures
        effect_texts(r@) == backup_effects(s, phase, now@),
{
    match &s.active_backup_job {
        Some(job) => finish(
            JobKind::Backup,
            job.metadata.name_any(),
            phase,
            "backup job failed",
            &job.spec.webhook,
            job_name_of(&job.status),
            now,
        ),
        None => no_effects(),
    }
}

/// What an action does, at the time `now`.
pub fn action_effects_at(
    action: TransitionAction,
    instance: &OdooInstance,
    snapshot: &ReconcileSnapshot,
    now: &str,
) -> (r: Vec<Effect>)
    ensures
        effect_texts(r@) == action_effects(action, instance, snapshot, now@),
{
    match action {
        TransitionAction::MarkDbInitialized => {
            let mut patch = InstanceStatusPatch::nothing();
            patch.db_initialized = Some(true);
            one_effect(Effect::PatchInstance(patch))
        },
        TransitionAction::MarkDbUninitialized => {
            let mut patch = InstanceStatusPatch::nothing();
            patch.db_initialized = Some(false);
            one_effect(Effect::PatchInstance(patch))
        },
        TransitionAction::CompleteInitJob => finish_init(snapshot, Phase::Completed, now),
        TransitionAction::FailInitJob => finish_init(snapshot, Phase::Failed, now),
        TransitionAction::CompleteRestoreJob => finish_restore(snapshot, Phase::Completed, now),
        TransitionAction::FailRestoreJob => finish_restore(snapshot, Phase::Failed, now),
        TransitionAction::CompleteRefreshJob => finish_refresh(snapshot, Phase::Completed, now),
        TransitionAction::FailRefreshJob => finish_refresh(snapshot, Phase::Failed, now),
        TransitionAction::CompleteUpgradeJob => finish_upgrade(
            instance,
            snapshot,
            Phase::Completed,
            now,
        ),
        TransitionAction::FailUpgradeJob => finish_upgrade(instance, snapshot, Phase::Failed, now),
        TransitionAction::CompleteBackupJob => finish_backup(snapshot, Phase::Completed, now),
        TransitionAction::FailBackupJob => finish_backup(snapshot, Phase::Failed, now),
        TransitionAction::BeginFilestoreMigration => one_effect(Effect::BeginFilestoreMigration),
        TransitionAction::CompleteFilestoreMigration => one_effect(
            Effect::CompleteFilestoreMigration,
        ),
        TransitionAction::ClearFilestoreMigrationStatus => {
            let mut patch = InstanceStatusPatch::nothing();
            patch.message = FieldChange::Clear;
            patch.migration_job_name = FieldChange::Clear;
            patch.migration_pv_name = FieldChange::Clear;
            patch.migration_previous_storage_class = FieldChange::Clear;
            one_effect(Effect::PatchInstance(patch))
        },
        TransitionAction::RollbackFilestoreMigration => one_effect(
            Effect::RollbackFilestoreMigration,
        ),
        TransitionAction::BeginDatabaseMigration => one_effect(Effect::BeginDatabaseMigration),
        TransitionAction::CompleteDatabaseMigration => one_effect(Effect::CompleteDatabaseMigration),
        TransitionAction::ClearDatabaseMigrationStatus => one_effect(
            Effect::ClearDatabaseMigrationStatus,
        ),
        TransitionAction::RollbackDatabaseMigration => one_effect(Effect::RollbackDatabaseMigration),
    }
}

/// What an action does, now.
pub fn execute_action(
    action: TransitionAction,
    instance: &OdooInstance,
    snapshot: &ReconcileSnapshot,
) -> (r: Vec<Effect>)
    ensures
        exists|now: Moment, text: Seq<char>|
            is_clock_time(now) && #[trigger] odoo_time(now) == Some(text) && effect_texts(r@)
                == #[trigger] action_effects(action, instance, snapshot, text),
{
    let now = utc_now_odoo();
    action_effects_at(action, instance, snapshot, now.as_str())
}

// ── When to look again ──────────────────────────────────────────────────────

/// When an instance is reconciled again.
#[derive(Debug, Clone, Copy, PartialEq, Eq, Structural)]
pub enum Requeue {
    /// After so many seconds and nanoseconds.
    After { secs: u64, nanos: u32 },
    /// When something changes.
    AwaitChange,
}

/// How long until a scheduled upgrade is due, where one is ahead.
pub open spec fn upgrade_delay(s: &ReconcileSnapshot, now: Moment) -> Option<(u64, u32)> {
    if s.upgrade_job == JobStatus::Absent {
        None
    } else {
        match s.upgrade_schedule() {
            Some(scheduled) => match scheduled_moment(scheduled) {
                Some(target) => if target.not_after(now) {
                    None
                } else {
                    match time_until((now.secs, now.nanos), (target.secs, target.nanos)) {
                        Some(delay) => Some(delay),
                        None => Some((10, 0)),
                    }
                },
                None => None,
            },
            None => None,
        }
    }
}

/// Whether the phase is one in which the instance is polled.
pub open spec fn is_polled(phase: OdooInstancePhase) -> bool {
    ||| phase == OdooInstancePhase::Starting
    ||| phase == OdooInstancePhase::Initializing
    ||| phase == OdooInstancePhase::Restoring
    ||| phase == OdooInstancePhase::CloningFromSource
    ||| phase == OdooInstancePhase::Upgrading
    ||| phase == OdooInstancePhase::BackingUp
    ||| phase == OdooInstancePhase::Degraded
    ||| phase == OdooInstancePhase::MigratingFilestore
    ||| phase == OdooInstancePhase::FinalizingFilestoreMigration
    ||| phase == OdooInstancePhase::MigratingDatabase
    ||| phase == OdooInstancePhase::FinalizingDatabaseMigration
}

/// When an instance that stays in its phase is looked at again: when a scheduled upgrade is due,
/// else every ten seconds where something is going on.
pub open spec fn requeue(phase: OdooInstancePhase, s: &ReconcileSnapshot, now: Moment) -> Requeue {
    match upgrade_delay(s, now) {
        Some(delay) => Requeue::After { secs: delay.0, nanos: delay.1 },
        None => if is_polled(phase) {
            Requeue::After { secs: 10, nanos: 0 }
        } else {
            Requeue::AwaitChange
        },
    }
}

/// How long until a scheduled upgrade is due, where one is ahead. So an upgrade that is present
/// is either due, or is looked at again. At a moment that the clock can show that is when it is
/// due: the delay is the time from `now` to the scheduled moment, and is never zero.
pub fn scheduled_requeue(snapshot: &ReconcileSnapshot, now: Moment) -> (r: Option<(u64, u32)>)
    ensures
        r == upgrade_delay(snapshot, now),
        r is Some <==> snapshot.upgrade_job != JobStatus::Absent && !snapshot.upgrade_due(now),
        r matches Some(delay) ==> {
            let target = scheduled_moment(snapshot.upgrade_schedule()->0)->0;
            let nanos = nanos_until((now.secs, now.nanos), (target.secs, target.nanos));
            &&& snapshot.upgrade_schedule() is Some
            &&& scheduled_moment(snapshot.upgrade_schedule()->0) is Some
            &&& is_moment(target.secs, target.nanos)
            &&& is_moment(now.secs, now.nanos) && now.nanos < 1_000_000_000 ==> delay.0
                * 1_000_000_000 + delay.1 == nanos && nanos > 0
        },
{
    if !snapshot.upgrade_job.is_present() {
        return None;
    }
    let job = match &snapshot.active_upgrade_job {
        Some(job) => job,
        None => return None,
    };
    let scheduled = match &job.spec.scheduled_time {
        Some(s) => s,
        None => return None,
    };
    let (secs, nanos): (i64, u32) = match parse_rfc3339(scheduled.as_str()) {
        Some(m) => m,
        None => return None,
    };
    let target = Moment { secs, nanos };
    if target.is_not_after(now) {
        return None;
    }
    match duration_until((now.secs, now.nanos), (target.secs, target.nanos)) {
        Some(delay) => Some(delay),
        None => Some((10, 0)),
    }
}

/// When an instance that stays in its phase is looked at again.
pub fn requeue_for(phase: OdooInstancePhase, snapshot: &ReconcileSnapshot, now: Moment) -> (r:
    Requeue)
    ensures
        r == requeue(phase, snapshot, now),
{
    if let Some((secs, nanos)) = scheduled_requeue(snapshot, now) {
        return Requeue::After { secs, nanos };
    }
    match phase {
        OdooInstancePhase::Starting
        | OdooInstancePhase::Initializing
        | OdooInstancePhase::Restoring
        | OdooInstancePhase::CloningFromSource
        | OdooInstancePhase::Upgrading
        | OdooInstancePhase::BackingUp
        | OdooInstancePhase::Degraded
        | OdooInstancePhase::MigratingFilestore
        | OdooInstancePhase::FinalizingFilestoreMigration
        | OdooInstancePhase::MigratingDatabase
        | OdooInstancePhase::FinalizingDatabaseMigration => Requeue::After { secs: 10, nanos: 0 },
        _ => Requeue::AwaitChange,
    }
}

// ── One cycle ───────────────────────────────────────────────────────────────

/// What one cycle of the state machine decides: the transition to take, if any, and when the
/// instance is reconciled again.
#[derive(Debug)]
pub struct Cycle {
    pub transition: Option<Transition>,
    pub requeue: Requeue,
}

/// Whether `r` is what one cycle decides at the moment `now`, with a delay measured at `later`.
pub open spec fn is_cycle(
    r: Cycle,
    instance: &OdooInstance,
    snapshot: &ReconcileSnapshot,
    now: Moment,
    later: Moment,
) -> bool {
    match next_row(instance, snapshot, now) {
        Some(row) => {
            &&& r.transition matches Some(t)
            &&& t@ == row
            &&& r.requeue == Requeue::After { secs: 0, nanos: 0 }
        },
        None => {
            &&& r.transition is None
            &&& r.requeue == requeue(instance.current_phase(), snapshot, later)
        },
    }
}

/// Decides on one cycle. `now` is the moment at which the guards are evaluated, `later` the one
/// at which a delay is measured.
pub fn decide(
    instance: &OdooInstance,
    snapshot: &ReconcileSnapshot,
    now: Moment,
    later: Moment,
) -> (r: Cycle)
    ensures
        is_cycle(r, instance, snapshot, now, later),
{
    match next_transition(instance, snapshot, now) {
        Some(t) => Cycle { transition: Some(t), requeue: Requeue::After { secs: 0, nanos: 0 } },
        None => Cycle {
            transition: None,
            requeue: requeue_for(instance.phase(), snapshot, later),
        },
    }
}

/// Decides on one cycle, now. Where a transition is taken, its actions are executed in order,
/// then the phase is recorded (see `phase_patch`).
pub fn run_state_machine(instance: &OdooInstance, snapshot: &ReconcileSnapshot) -> (r: Cycle)
    ensures
        exists|now: Moment, later: Moment|
            is_clock_time(now) && is_clock_time(later) && #[trigger] is_cycle(
                r,
                instance,
                snapshot,
                now,
                later,
            ),
{
    let now = current_moment();
    let later = current_moment();
    decide(instance, snapshot, now, later)
}

/// The record of a phase.
pub open spec fn phase_record(to: OdooInstancePhase) -> InstanceStatusText {
    InstanceStatusText { phase: Some(to), ..no_instance_change() }
}

/// The phase is recorded.
pub fn phase_patch(to: OdooInstancePhase) -> (r: InstanceStatusPatch)
    ensures
        r@ == phase_record(to),
{
    let mut patch = InstanceStatusPatch::nothing();
    patch.phase = Some(to);
    patch
}

} // verus!
