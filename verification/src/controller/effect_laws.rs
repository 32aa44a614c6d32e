//! What the actions of the state machine do to the cluster, and what they tell.

use vstd::prelude::*;

use crate::controller::patches::{job_started, FieldText, InstanceStatusPatch, JobStatusPatch};
use crate::controller::snapshot::{scheduled_moment, JobStatus, ReconcileSnapshot};
use crate::controller::state_machine::{
    action_effects_at, decide, effect_texts, phase_patch, requeue_for, scheduled_requeue, Cycle,
    Effect, EffectText, JobKind, Requeue,
};
use crate::controller::states::migrating_filestore::record_filestore_migration;
use crate::controller::transitions::{next_transition, Transition, TransitionAction};
use crate::crd::metadata::Moment;
use crate::crd::odoo_instance::{OdooInstance, OdooInstancePhase};
use crate::crd::shared::{Phase, WebhookConfig};
use crate::helpers::is_clock_time;
use crate::text::opt_text;

verus! {

/// Whether the effects mark a resource as ended, now, with a reason exactly where it failed.
pub open spec fn marks(
    effects: Seq<EffectText>,
    marked: JobKind,
    resource: Seq<char>,
    end: Phase,
    reason: Seq<char>,
    now: Seq<char>,
) -> bool {
    exists|k: int|
        0 <= k < effects.len() && match #[trigger] effects[k] {
            EffectText::PatchJob { kind, name, patch } => {
                &&& kind == marked
                &&& name == resource
                &&& patch.phase == end
                &&& patch.completion_time == Some(now)
                &&& patch.message == if end == Phase::Failed {
                    Some(reason)
                } else {
                    None
                }
                &&& patch.job_name is None
                &&& patch.start_time is None
            },
            _ => false,
        }
}

/// Whether no other resource is marked.
pub open spec fn marks_nothing_else(
    effects: Seq<EffectText>,
    marked: JobKind,
    resource: Seq<char>,
    end: Phase,
) -> bool {
    forall|k: int|
        0 <= k < effects.len() ==> match #[trigger] effects[k] {
            EffectText::PatchJob { kind, name, patch } => kind == marked && name == resource
                && patch.phase == end,
            EffectText::PatchInstance(_) => false,
            _ => true,
        }
}

/// Whether the end is told to the webhook, where there is one, and to nobody where there is none.
pub open spec fn tells(
    effects: Seq<EffectText>,
    webhook: Option<WebhookConfig>,
    end: Phase,
    reason: Seq<char>,
    job: Option<Seq<char>>,
    now: Seq<char>,
) -> bool {
    match webhook {
        Some(w) => exists|k: int|
            0 <= k < effects.len() && match #[trigger] effects[k] {
                EffectText::Notify { url, phase, job_name, message, completion_time } => {
                    &&& url == w.url@
                    &&& phase == end
                    &&& job_name == job
                    &&& message == if end == Phase::Failed {
                        Some(reason)
                    } else {
                        None
                    }
                    &&& completion_time == now
                },
                _ => false,
            },
        None => forall|k: int|
            0 <= k < effects.len() ==> !((#[trigger] effects[k]) is Notify),
    }
}

/// Whether the pods of a Deployment are restarted.
pub open spec fn restarts(effects: Seq<EffectText>, name: Seq<char>) -> bool {
    exists|k: int|
        0 <= k < effects.len() && #[trigger] effects[k] == EffectText::RestartDeployment(name)
}

/// The end of an initialisation is marked on its resource, and told to its webhook.
pub proof fn law_init_end_is_told(
    i: &OdooInstance,
    s: &ReconcileSnapshot,
    now: &str,
    ok: bool,
    r: Vec<Effect>,
)
    requires
        call_ensures(
            action_effects_at,
            (
                if ok {
                    TransitionAction::CompleteInitJob
                } else {
                    TransitionAction::FailInitJob
                },
                i,
                s,
                now,
            ),
            r,
        ),
        s.active_init_job is Some,
    ensures
        ({
            let job = s.active_init_job->0;
            let end = if ok {
                Phase::Completed
            } else {
                Phase::Failed
            };
            let effects = effect_texts(r@);
            &&& marks(
                effects,
                JobKind::Init,
                job.metadata.any_name(),
                end,
                "init job failed"@,
                now@,
            )
            &&& marks_nothing_else(effects, JobKind::Init, job.metadata.any_name(), end)
            &&& tells(
                effects,
                job.spec.webhook,
                end,
                "init job failed"@,
                match job.status {
                    Some(r) => opt_text(r.job_name),
                    None => None,
                },
                now@,
            )
            &&& effects.len() == if job.spec.webhook is Some {
                2int
            } else {
                1
            }
        }),
{
    let job = s.active_init_job->0;
    let effects = effect_texts(r@);
    assert(effects[0] is PatchJob);
    if job.spec.webhook is Some {
        assert(effects[1] is Notify);
    }
}

/// The end of a restore is marked on its resource, and told to its webhook.
pub proof fn law_restore_end_is_told(
    i: &OdooInstance,
    s: &ReconcileSnapshot,
    now: &str,
    ok: bool,
    r: Vec<Effect>,
)
    requires
        call_ensures(
            action_effects_at,
            (
                if ok {
                    TransitionAction::CompleteRestoreJob
                } else {
                    TransitionAction::FailRestoreJob
                },
                i,
                s,
                now,
            ),
            r,
        ),
        s.active_restore_job is Some,
    ensures
        ({
            let job = s.active_restore_job->0;
            let end = if ok {
                Phase::Completed
            } else {
                Phase::Failed
            };
            let effects = effect_texts(r@);
            &&& marks(
                effects,
                JobKind::Restore,
                job.metadata.any_name(),
                end,
                "restore job failed"@,
                now@,
            )
            &&& marks_nothing_else(effects, JobKind::Restore, job.metadata.any_name(), end)
            &&& tells(
                effects,
                job.spec.webhook,
                end,
                "restore job failed"@,
                match job.status {
                    Some(r) => opt_text(r.job_name),
                    None => None,
                },
                now@,
            )
            &&& effects.len() == if job.spec.webhook is Some {
                2int
            } else {
                1
            }
        }),
{
    let job = s.active_restore_job->0;
    let effects = effect_texts(r@);
    assert(effects[0] is PatchJob);
    if job.spec.webhook is Some {
        assert(effects[1] is Notify);
    }
}

/// The end of a backup is marked on its resource, and told to its webhook.
pub proof fn law_backup_end_is_told(
    i: &OdooInstance,
    s: &ReconcileSnapshot,
    now: &str,
    ok: bool,
    r: Vec<Effect>,
)
    requires
        call_ensures(
            action_effects_at,
            (
                if ok {
                    TransitionAction::CompleteBackupJob
                } else {
                    TransitionAction::FailBackupJob
                },
                i,
                s,
                now,
            ),
            r,
        ),
        s.active_backup_job is Some,
    ensures
        ({
            let job = s.active_backup_job->0;
            let end = if ok {
                Phase::Completed
            } else {
                Phase::Failed
            };
            let effects = effect_texts(r@);
            &&& marks(
                effects,
                JobKind::Backup,
                job.metadata.any_name(),
                end,
                "backup job failed"@,
                now@,
            )
            &&& marks_nothing_else(effects, JobKind::Backup, job.metadata.any_name(), end)
            &&& tells(
                effects,
                job.spec.webhook,
                end,
                "backup job failed"@,
                match job.status {
                    Some(r) => opt_text(r.job_name),
                    None => None,
                },
                now@,
            )
            &&& effects.len() == if job.spec.webhook is Some {
                2int
            } else {
                1
            }
        }),
{
    let job = s.active_backup_job->0;
    let effects = effect_texts(r@);
    assert(effects[0] is PatchJob);
    if job.spec.webhook is Some {
        assert(effects[1] is Notify);
    }
}

/// The end of an upgrade is marked on its resource, and told to its webhook. The web pods are
/// restarted, so that they load what was upgraded, exactly where it succeeded.
pub proof fn law_upgrade_end_is_told(
    i: &OdooInstance,
    s: &ReconcileSnapshot,
    now: &str,
    ok: bool,
    r: Vec<Effect>,
)
    requires
        call_ensures(
            action_effects_at,
            (
                if ok {
                    TransitionAction::CompleteUpgradeJob
                } else {
                    TransitionAction::FailUpgradeJob
                },
                i,
                s,
                now,
            ),
            r,
        ),
        s.active_upgrade_job is Some,
    ensures
        ({
            let job = s.active_upgrade_job->0;
            let end = if ok {
                Phase::Completed
            } else {
                Phase::Failed
            };
            let effects = effect_texts(r@);
            &&& marks(
                effects,
                JobKind::Upgrade,
                job.metadata.any_name(),
                end,
                "upgrade job failed"@,
                now@,
            )
            &&& marks_nothing_else(effects, JobKind::Upgrade, job.metadata.any_name(), end)
            &&& tells(
                effects,
                job.spec.webhook,
                end,
                "upgrade job failed"@,
                match job.status {
                    Some(r) => opt_text(r.job_name),
                    None => None,
                },
                now@,
            )
            &&& restarts(effects, i.name()) == ok
            &&& effects.len() == (if job.spec.webhook is Some {
                2int
            } else {
                1
            }) + (if ok {
                1int
            } else {
                0
            })
        }),
{
    let job = s.active_upgrade_job->0;
    let effects = effect_texts(r@);
    let at: int = if ok {
        1
    } else {
        0
    };
    assert(effects[at] is PatchJob);
    if ok {
        assert(effects[0] == EffectText::RestartDeployment(i.name()));
    }
    if job.spec.webhook is Some {
        assert(effects[at + 1] is Notify);
    }
}

/// The end of a staging refresh is marked on its resource, and told to its webhook, with the Job
/// that came last: the one that neutralizes, else the one that clones the database. The snapshot
/// of the source and the record of the temporary database are cleared away exactly where it
/// succeeded, and before the end is marked.
pub proof fn law_refresh_end_is_told(
    i: &OdooInstance,
    s: &ReconcileSnapshot,
    now: &str,
    ok: bool,
    r: Vec<Effect>,
)
    requires
        call_ensures(
            action_effects_at,
            (
                if ok {
                    TransitionAction::CompleteRefreshJob
                } else {
                    TransitionAction::FailRefreshJob
                },
                i,
                s,
                now,
            ),
            r,
        ),
        s.active_refresh_job is Some,
    ensures
        ({
            let job = s.active_refresh_job->0;
            let end = if ok {
                Phase::Completed
            } else {
                Phase::Failed
            };
            let effects = effect_texts(r@);
            &&& marks(
                effects,
                JobKind::Refresh,
                job.metadata.any_name(),
                end,
                "staging refresh failed"@,
                now@,
            )
            &&& marks_nothing_else(effects, JobKind::Refresh, job.metadata.any_name(), end)
            &&& tells(
                effects,
                job.spec.webhook,
                end,
                "staging refresh failed"@,
                match job.status {
                    Some(r) => if r.neutralize_job_name is Some {
                        opt_text(r.neutralize_job_name)
                    } else {
                        opt_text(r.db_job_name)
                    },
                    None => None,
                },
                now@,
            )
            &&& job.status matches Some(r) ==> (r.source_snapshot matches Some(snapshot) ==> (ok
                <==> effects.contains(EffectText::DeleteSnapshot(snapshot@))))
            &&& forall|k: int|
                0 <= k < effects.len() ==> match #[trigger] effects[k] {
                    EffectText::DeleteSnapshot(name) => ok && job.status is Some && opt_text(
                        job.status->0.source_snapshot,
                    ) == Some(name) && k < effects.len() - 1,
                    EffectText::PatchRefresh { name, patch } => {
                        &&& ok
                        &&& name == job.metadata.any_name()
                        &&& patch.temp_db_name == FieldText::Clear
                        &&& patch.phase is None
                        &&& patch.rollback_snapshot == FieldText::Keep
                        &&& k < effects.len() - 1
                    },
                    EffectText::RestartDeployment(_) => false,
                    _ => true,
                }
        }),
{
    let job = s.active_refresh_job->0;
    let effects = effect_texts(r@);
    let named = job.status is Some && job.status->0.source_snapshot is Some;
    let temp = job.status is Some && job.status->0.temp_db_name is Some;
    let at: int = if ok {
        (if named {
            1int
        } else {
            0
        }) + (if temp {
            1int
        } else {
            0
        })
    } else {
        0
    };
    assert(effects[at] is PatchJob);
    if ok && named {
        assert(effects[0] is DeleteSnapshot);
    }
    if job.spec.webhook is Some {
        assert(effects[at + 1] is Notify);
    }
    if !ok && named {
        let gone = EffectText::DeleteSnapshot(job.status->0.source_snapshot->0@);
        if effects.contains(gone) {
            let k = choose|k: int| 0 <= k < effects.len() && effects[k] == gone;
            assert(effects[k] == gone);
        }
    }
}

/// Where there is no resource, nothing is marked and nobody is told.
pub proof fn law_no_resource_no_effect(
    i: &OdooInstance,
    s: &ReconcileSnapshot,
    now: &str,
    action: TransitionAction,
    r: Vec<Effect>,
)
    requires
        call_ensures(action_effects_at, (action, i, s, now), r),
        ({
            ||| s.active_init_job is None && (action == TransitionAction::CompleteInitJob || action
                == TransitionAction::FailInitJob)
            ||| s.active_restore_job is None && (action == TransitionAction::CompleteRestoreJob
                || action == TransitionAction::FailRestoreJob)
            ||| s.active_refresh_job is None && (action == TransitionAction::CompleteRefreshJob
                || action == TransitionAction::FailRefreshJob)
            ||| s.active_upgrade_job is None && (action == TransitionAction::CompleteUpgradeJob
                || action == TransitionAction::FailUpgradeJob)
            ||| s.active_backup_job is None && (action == TransitionAction::CompleteBackupJob
                || action == TransitionAction::FailBackupJob)
        }),
    ensures
        r@.len() == 0,
{
    assert(effect_texts(r@).len() == r@.len());
}

/// The database is marked as what the action says, and nothing else is done.
pub proof fn law_marks_are_made(
    i: &OdooInstance,
    s: &ReconcileSnapshot,
    now: &str,
    initialized: bool,
    r: Vec<Effect>,
)
    requires
        call_ensures(
            action_effects_at,
            (
                if initialized {
                    TransitionAction::MarkDbInitialized
                } else {
                    TransitionAction::MarkDbUninitialized
                },
                i,
                s,
                now,
            ),
            r,
        ),
    ensures
        r@.len() == 1,
        r@[0] matches Effect::PatchInstance(patch) && patch.db_initialized == Some(initialized)
            && patch.phase is None && patch@.message == FieldText::Keep
            && patch@.migration_job_name == FieldText::Keep,
{
    assert(effect_texts(r@).len() == r@.len());
    assert(effect_texts(r@)[0] == r@[0]@);
}

/// The end of a filestore migration wipes whatever its beginning recorded, and nothing else.
pub proof fn law_migration_leaves_no_record(
    i: &OdooInstance,
    s: &ReconcileSnapshot,
    now: &str,
    job_name: &str,
    begun: InstanceStatusPatch,
    r: Vec<Effect>,
)
    requires
        call_ensures(record_filestore_migration, (i, s, job_name), begun),
        call_ensures(
            action_effects_at,
            (TransitionAction::ClearFilestoreMigrationStatus, i, s, now),
            r,
        ),
    ensures
        begun@.migration_job_name.applied(None) == Some(job_name@),
        r@.len() == 1,
        r@[0] matches Effect::PatchInstance(patch) && {
            let wiped = patch@;
            &&& wiped.migration_job_name.applied(begun@.migration_job_name.applied(None)) is None
            &&& wiped.migration_previous_storage_class.applied(
                begun@.migration_previous_storage_class.applied(None),
            ) is None
            &&& wiped.migration_pv_name.applied(begun@.migration_pv_name.applied(None)) is None
            &&& wiped.message.applied(begun@.message.applied(None)) is None
            &&& wiped.phase is None
            &&& wiped.db_initialized is None
        },
{
    assert(effect_texts(r@).len() == r@.len());
    assert(effect_texts(r@)[0] == r@[0]@);
}

/// Each step of a migration is handed to the part that carries it out, and that is all.
pub proof fn law_migration_steps_are_carried_out(
    i: &OdooInstance,
    s: &ReconcileSnapshot,
    now: &str,
    action: TransitionAction,
    r: Vec<Effect>,
)
    requires
        call_ensures(action_effects_at, (action, i, s, now), r),
    ensures
        action == TransitionAction::BeginFilestoreMigration ==> r@.len() == 1 && r@[0]@
            == EffectText::BeginFilestoreMigration,
        action == TransitionAction::CompleteFilestoreMigration ==> r@.len() == 1 && r@[0]@
            == EffectText::CompleteFilestoreMigration,
        action == TransitionAction::RollbackFilestoreMigration ==> r@.len() == 1 && r@[0]@
            == EffectText::RollbackFilestoreMigration,
        action == TransitionAction::BeginDatabaseMigration ==> r@.len() == 1 && r@[0]@
            == EffectText::BeginDatabaseMigration,
        action == TransitionAction::CompleteDatabaseMigration ==> r@.len() == 1 && r@[0]@
            == EffectText::CompleteDatabaseMigration,
        action == TransitionAction::RollbackDatabaseMigration ==> r@.len() == 1 && r@[0]@
            == EffectText::RollbackDatabaseMigration,
        action == TransitionAction::ClearDatabaseMigrationStatus ==> r@.len() == 1 && r@[0]@
            == EffectText::ClearDatabaseMigrationStatus,
{
    assert(effect_texts(r@).len() == r@.len());
    if r@.len() > 0 {
        assert(effect_texts(r@)[0] == r@[0]@);
    }
}

/// A job resource that has started is unfinished, and names its Job.
pub proof fn law_started_is_running(job_name: &str, now: &str, r: JobStatusPatch)
    requires
        call_ensures(job_started, (job_name, now), r),
    ensures
        r.phase == Phase::Running,
        opt_text(r.job_name) == Some(job_name@),
        opt_text(r.start_time) == Some(now@),
        r.completion_time is None,
        r.message is None,
{
}

// ── When to look again ──────────────────────────────────────────────────────

/// An instance is left alone until something changes only where nothing goes on that the operator
/// must watch: it is at rest, up or down, or waits for its user. An instance that works, starts or
/// has lost replicas is looked at again.
pub proof fn law_only_resting_instances_are_left_alone(
    phase: OdooInstancePhase,
    s: &ReconcileSnapshot,
    now: Moment,
    r: Requeue,
)
    requires
        call_ensures(requeue_for, (phase, s, now), r),
    ensures
        ({
            let resting = phase == OdooInstancePhase::Provisioning || phase
                == OdooInstancePhase::Uninitialized || phase == OdooInstancePhase::InitFailed
                || phase == OdooInstancePhase::Running || phase == OdooInstancePhase::Stopped
                || phase == OdooInstancePhase::Error;
            let waits = s.upgrade_job != JobStatus::Absent && !s.upgrade_due(now);
            &&& r is AwaitChange <==> resting && !waits
            &&& !resting && !waits ==> r == (Requeue::After { secs: 10, nanos: 0 })
        }),
{
}

/// Where an upgrade is scheduled ahead, the instance is looked at again when its time has come: the
/// delay is the time from now to the scheduled moment.
pub proof fn law_delay_ends_at_the_scheduled_moment(
    phase: OdooInstancePhase,
    s: &ReconcileSnapshot,
    now: Moment,
    delay: Option<(u64, u32)>,
    r: Requeue,
)
    requires
        call_ensures(scheduled_requeue, (s, now), delay),
        call_ensures(requeue_for, (phase, s, now), r),
        is_clock_time(now),
        s.upgrade_job != JobStatus::Absent,
        s.active_upgrade_job is Some,
        s.active_upgrade_job->0.spec.scheduled_time is Some,
        scheduled_moment(s.active_upgrade_job->0.spec.scheduled_time->0@) is Some,
    ensures
        ({
            let target = scheduled_moment(s.active_upgrade_job->0.spec.scheduled_time->0@)->0;
            let ahead = now.secs < target.secs || (now.secs == target.secs && now.nanos
                < target.nanos);
            &&& delay is Some <==> ahead
            &&& delay matches Some(d) ==> r == (Requeue::After { secs: d.0, nanos: d.1 })
            &&& ahead && target.nanos < 1_000_000_000 ==> (delay->0).0 * 1_000_000_000 + (
            delay->0).1 == (target.secs - now.secs) * 1_000_000_000 + (target.nanos - now.nanos)
        }),
{
}

/// Where a transition is taken, the instance is looked at again at once; where none is, it is not.
pub proof fn law_transitions_follow_at_once(
    r: Cycle,
    i: &OdooInstance,
    s: &ReconcileSnapshot,
    now: Moment,
    later: Moment,
    taken: Option<Transition>,
    idle: Requeue,
)
    requires
        call_ensures(decide, (i, s, now, later), r),
        call_ensures(next_transition, (i, s, now), taken),
        call_ensures(requeue_for, (i.current_phase(), s, later), idle),
    ensures
        r.transition is Some <==> taken is Some,
        r.transition matches Some(t) ==> t@ == taken->0@ && r.requeue == (Requeue::After {
            secs: 0,
            nanos: 0,
        }),
        r.transition is None ==> r.requeue == idle,
{
}

/// The record of a phase changes the phase and nothing else.
pub proof fn law_phase_record_is_the_phase(to: OdooInstancePhase, r: InstanceStatusPatch)
    requires
        call_ensures(phase_patch, (to,), r),
    ensures
        r.phase == Some(to),
        r.db_initialized is None,
        r@.message == FieldText::Keep,
        r@.migration_job_name == FieldText::Keep,
        r@.migration_pv_name == FieldText::Keep,
        r@.migration_previous_storage_class == FieldText::Keep,
{
}

} // verus!
