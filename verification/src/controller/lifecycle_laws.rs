//! What the transition table promises of the life of an instance.

use vstd::prelude::*;

use crate::controller::patches::{
    no_instance_change, no_refresh_change, FieldText, InstanceStatusText, RefreshStatusText,
};
use crate::controller::snapshot::{JobStatus, ReconcileSnapshot};
use crate::controller::state_machine::{
    action_effects, cleanup_effects, recorded_temp_db, requeue, upgrade_delay, EffectText,
};
use crate::controller::transitions::{
    first_match, guard_holds, next_row, slot_status, table, Cond, Guard, JobSlot, Row,
    TransitionAction,
};
use crate::crd::metadata::Moment;
use crate::crd::odoo_instance::{OdooInstance, OdooInstancePhase};

verus! {

/// A taken transition is a row of the table whose guard holds, and no row before it has a
/// guard that holds.
pub proof fn law_first_match_wins(
    i: &OdooInstance,
    s: &ReconcileSnapshot,
    now: Moment,
    k: int,
)
    requires
        0 <= k < table(i.current_phase()).len(),
        guard_holds(table(i.current_phase())[k].guard, i, s, now),
        forall|j: int|
            0 <= j < k ==> !guard_holds(#[trigger] table(i.current_phase())[j].guard, i, s, now),
    ensures
        next_row(i, s, now) == Some(table(i.current_phase())[k]),
{
    lemma_first_match(table(i.current_phase()), 0, k, i, s, now);
}

proof fn lemma_first_match(
    rows: Seq<Row>,
    from: int,
    k: int,
    i: &OdooInstance,
    s: &ReconcileSnapshot,
    now: Moment,
)
    requires
        0 <= from <= k < rows.len(),
        guard_holds(rows[k].guard, i, s, now),
        forall|j: int| from <= j < k ==> !guard_holds(#[trigger] rows[j].guard, i, s, now),
    ensures
        first_match(rows, from, i, s, now) == Some(rows[k]),
    decreases k - from,
{
    if from < k {
        lemma_first_match(rows, from + 1, k, i, s, now);
    }
}

proof fn lemma_match_is_row(
    rows: Seq<Row>,
    from: int,
    i: &OdooInstance,
    s: &ReconcileSnapshot,
    now: Moment,
) -> (k: int)
    requires
        from >= 0,
        first_match(rows, from, i, s, now) is Some,
    ensures
        from <= k < rows.len(),
        first_match(rows, from, i, s, now) == Some(rows[k]),
        guard_holds(rows[k].guard, i, s, now),
    decreases rows.len() - from,
{
    if from < rows.len() && guard_holds(rows[from].guard, i, s, now) {
        from
    } else {
        lemma_match_is_row(rows, from + 1, i, s, now)
    }
}

/// A transition starts in the phase that the instance is in, and its guard holds.
pub proof fn law_transition_leaves_current_phase(
    i: &OdooInstance,
    s: &ReconcileSnapshot,
    now: Moment,
)
    ensures
        next_row(i, s, now) matches Some(taken) ==> taken.from == i.current_phase() && guard_holds(
            taken.guard,
            i,
            s,
            now,
        ),
{
    if next_row(i, s, now) is Some {
        let k = lemma_match_is_row(table(i.current_phase()), 0, i, s, now);
        lemma_rows_start_in_phase(i.current_phase(), k);
    }
}

#[verifier::spinoff_prover]
proof fn lemma_rows_start_in_phase(phase: OdooInstancePhase, k: int)
    requires
        0 <= k < table(phase).len(),
    ensures
        table(phase)[k].from == phase,
{
}

/// A new instance, and one in error, does not stay: it starts where its database is
/// initialised, and waits for initialisation where it is not.
pub proof fn law_entry_phases_are_left(i: &OdooInstance, s: &ReconcileSnapshot, now: Moment)
    requires
        i.current_phase() == OdooInstancePhase::Provisioning || i.current_phase()
            == OdooInstancePhase::Error,
    ensures
        next_row(i, s, now) matches Some(taken) && taken.actions.len() == 0 && taken.to == (
        if s.db_initialized {
            OdooInstancePhase::Starting
        } else {
            OdooInstancePhase::Uninitialized
        }),
{
    reveal_with_fuel(first_match, 3);
}

/// An instance whose database is not initialised, or whose initialisation failed, comes up only
/// through an initialisation, a restore or a staging refresh.
pub proof fn law_uninitialized_never_starts(i: &OdooInstance, s: &ReconcileSnapshot, now: Moment)
    requires
        i.current_phase() == OdooInstancePhase::Uninitialized || i.current_phase()
            == OdooInstancePhase::InitFailed,
    ensures
        next_row(i, s, now) matches Some(taken) ==> taken.actions.len() == 0 && (taken.to
            == OdooInstancePhase::Initializing || taken.to == OdooInstancePhase::Restoring
            || taken.to == OdooInstancePhase::CloningFromSource),
        next_row(i, s, now) is None <==> s.init_job == JobStatus::Absent && s.restore_job
            == JobStatus::Absent && s.refresh_job == JobStatus::Absent,
{
    reveal_with_fuel(first_match, 4);
}

/// Whether a phase is one in which work on the instance is going on, and which work.
pub open spec fn working_slot(phase: OdooInstancePhase) -> Option<JobSlot> {
    match phase {
        OdooInstancePhase::Initializing => Some(JobSlot::Init),
        OdooInstancePhase::Restoring => Some(JobSlot::Restore),
        OdooInstancePhase::CloningFromSource => Some(JobSlot::Refresh),
        OdooInstancePhase::Upgrading => Some(JobSlot::Upgrade),
        OdooInstancePhase::BackingUp => Some(JobSlot::Backup),
        OdooInstancePhase::MigratingFilestore => Some(JobSlot::Migration),
        OdooInstancePhase::MigratingDatabase => Some(JobSlot::DbMigration),
        _ => None,
    }
}

/// While work is going on, the instance stays in the phase of that work.
#[verifier::spinoff_prover]
pub proof fn law_active_work_keeps_phase(i: &OdooInstance, s: &ReconcileSnapshot, now: Moment)
    requires
        working_slot(i.current_phase()) is Some,
        slot_status(s, working_slot(i.current_phase())->0)
            == JobStatus::Active,
    ensures
        next_row(i, s, now) is None,
{
    reveal_with_fuel(first_match, 16);
}

/// Once work has ended, or its resource is gone, the instance does not hang: a transition is
/// taken.
#[verifier::spinoff_prover]
pub proof fn law_ended_work_moves_on(i: &OdooInstance, s: &ReconcileSnapshot, now: Moment)
    requires
        working_slot(i.current_phase()) is Some,
        slot_status(s, working_slot(i.current_phase())->0)
            != JobStatus::Active,
        i.spec.replicas >= 0,
        s.ready_replicas >= 0,
    ensures
        next_row(i, s, now) is Some,
{
    reveal_with_fuel(first_match, 16);
}

/// A failed restore leaves the pods down: the restore is marked failed and the database
/// uninitialised, since the restore has dropped it.
pub proof fn law_failed_restore_stays_down(i: &OdooInstance, s: &ReconcileSnapshot, now: Moment)
    requires
        i.current_phase() == OdooInstancePhase::Restoring,
        s.restore_job == JobStatus::Failed,
    ensures
        next_row(i, s, now) matches Some(taken) && taken.to == OdooInstancePhase::Uninitialized
            && taken.actions == seq![
            TransitionAction::FailRestoreJob,
            TransitionAction::MarkDbUninitialized,
        ],
{
    reveal_with_fuel(first_match, 4);
}

/// A failed initialisation or staging refresh leaves the pods down, until there is new work.
pub proof fn law_failed_setup_stays_down(i: &OdooInstance, s: &ReconcileSnapshot, now: Moment)
    requires
        (i.current_phase() == OdooInstancePhase::Initializing && s.init_job == JobStatus::Failed)
            || (i.current_phase() == OdooInstancePhase::CloningFromSource && s.refresh_job
            == JobStatus::Failed),
    ensures
        next_row(i, s, now) matches Some(taken) && taken.to == OdooInstancePhase::InitFailed
            && !taken.actions.contains(TransitionAction::MarkDbInitialized),
{
    reveal_with_fuel(first_match, 4);
    assert(!seq![TransitionAction::FailInitJob].contains(TransitionAction::MarkDbInitialized));
    assert(!seq![TransitionAction::FailRefreshJob].contains(TransitionAction::MarkDbInitialized));
}

/// The database is marked initialised only where an initialisation, a restore or a refresh has
/// succeeded, and the instance starts then.
#[verifier::spinoff_prover]
pub proof fn law_initialized_only_on_success(i: &OdooInstance, s: &ReconcileSnapshot, now: Moment)
    ensures
        next_row(i, s, now) matches Some(taken) ==> (taken.actions.contains(
            TransitionAction::MarkDbInitialized,
        ) ==> taken.to == OdooInstancePhase::Starting && ({
            ||| i.current_phase() == OdooInstancePhase::Initializing && s.init_job
                == JobStatus::Succeeded
            ||| i.current_phase() == OdooInstancePhase::Restoring && s.restore_job
                == JobStatus::Succeeded
            ||| i.current_phase() == OdooInstancePhase::CloningFromSource && s.refresh_job
                == JobStatus::Succeeded
        })),
{
    if next_row(i, s, now) is Some {
        let k = lemma_match_is_row(table(i.current_phase()), 0, i, s, now);
        if table(i.current_phase())[k].actions.contains(TransitionAction::MarkDbInitialized) {
            lemma_marking_row(i.current_phase(), k);
        }
    }
}

#[verifier::spinoff_prover]
proof fn lemma_marking_row(phase: OdooInstancePhase, k: int)
    requires
        0 <= k < table(phase).len(),
        table(phase)[k].actions.contains(TransitionAction::MarkDbInitialized),
    ensures
        table(phase)[k].to == OdooInstancePhase::Starting,
        ({
            ||| phase == OdooInstancePhase::Initializing && table(phase)[k].guard == Guard::One(
                Cond::Is(JobSlot::Init, JobStatus::Succeeded),
            )
            ||| phase == OdooInstancePhase::Restoring && table(phase)[k].guard == Guard::One(
                Cond::Is(JobSlot::Restore, JobStatus::Succeeded),
            )
            ||| phase == OdooInstancePhase::CloningFromSource && table(phase)[k].guard
                == Guard::One(Cond::Is(JobSlot::Refresh, JobStatus::Succeeded))
        }),
{
    let actions = table(phase)[k].actions;
    let at = choose|at: int|
        0 <= at < actions.len() && actions[at] == TransitionAction::MarkDbInitialized;
    assert(actions[at] == TransitionAction::MarkDbInitialized);
}

/// Marking the database initialised, or not, records exactly that.
pub proof fn law_marks_are_recorded(i: &OdooInstance, s: &ReconcileSnapshot, now: Seq<char>)
    ensures
        action_effects(TransitionAction::MarkDbInitialized, i, s, now) == seq![
            EffectText::PatchInstance(
                InstanceStatusText { db_initialized: Some(true), ..no_instance_change() },
            ),
        ],
        action_effects(TransitionAction::MarkDbUninitialized, i, s, now) == seq![
            EffectText::PatchInstance(
                InstanceStatusText { db_initialized: Some(false), ..no_instance_change() },
            ),
        ],
{
}

/// A finished backup is completed without leaving the phase while another one is pending.
#[verifier::spinoff_prover]
pub proof fn law_queued_backup_keeps_phase(i: &OdooInstance, s: &ReconcileSnapshot, now: Moment)
    requires
        i.current_phase() == OdooInstancePhase::BackingUp,
        s.backup_job == JobStatus::Succeeded || s.backup_job == JobStatus::Failed,
        s.pending_backup_jobs > 1,
    ensures
        next_row(i, s, now) matches Some(taken) && taken.to == OdooInstancePhase::BackingUp
            && taken.actions == seq![
            if s.backup_job == JobStatus::Succeeded {
                TransitionAction::CompleteBackupJob
            } else {
                TransitionAction::FailBackupJob
            },
        ],
{
    reveal_with_fuel(first_match, 4);
}

/// The last backup ends the phase, wherever the replicas stand.
#[verifier::spinoff_prover]
pub proof fn law_last_backup_ends_phase(i: &OdooInstance, s: &ReconcileSnapshot, now: Moment)
    requires
        i.current_phase() == OdooInstancePhase::BackingUp,
        s.backup_job == JobStatus::Succeeded || s.backup_job == JobStatus::Failed,
        s.pending_backup_jobs <= 1,
        i.spec.replicas >= 0,
        s.ready_replicas >= 0,
    ensures
        next_row(i, s, now) matches Some(taken) && taken.to == (if i.spec.replicas == 0 {
            OdooInstancePhase::Stopped
        } else if s.ready_replicas >= i.spec.replicas {
            OdooInstancePhase::Running
        } else if s.ready_replicas > 0 {
            OdooInstancePhase::Degraded
        } else {
            OdooInstancePhase::Starting
        }),
{
    reveal_with_fuel(first_match, 16);
}

/// A failed or lost migration is rolled back.
pub proof fn law_lost_migration_rolls_back(i: &OdooInstance, s: &ReconcileSnapshot, now: Moment)
    requires
        i.spec.replicas >= 0,
    ensures
        i.current_phase() == OdooInstancePhase::MigratingFilestore && (s.migration_job
            == JobStatus::Failed || s.migration_job == JobStatus::Absent) ==> (next_row(
            i,
            s,
            now,
        ) matches Some(taken) && taken.actions == seq![
            TransitionAction::RollbackFilestoreMigration,
        ]),
        i.current_phase() == OdooInstancePhase::MigratingDatabase && (s.db_migration_job
            == JobStatus::Failed || s.db_migration_job == JobStatus::Absent) ==> (next_row(
            i,
            s,
            now,
        ) matches Some(taken) && taken.actions == seq![
            TransitionAction::RollbackDatabaseMigration,
        ]),
{
    reveal_with_fuel(first_match, 4);
}

/// A running instance with nothing to do and all its replicas ready stays as it is.
#[verifier::spinoff_prover]
pub proof fn law_idle_instance_stays(i: &OdooInstance, s: &ReconcileSnapshot, now: Moment)
    requires
        i.current_phase() == OdooInstancePhase::Running,
        i.spec.replicas > 0,
        s.ready_replicas >= i.spec.replicas,
        !s.storage_class_mismatch,
        !s.cluster_mismatch,
        s.restore_job == JobStatus::Absent,
        s.refresh_job == JobStatus::Absent,
        s.upgrade_job == JobStatus::Absent,
        s.backup_job == JobStatus::Absent,
    ensures
        next_row(i, s, now) is None,
{
    reveal_with_fuel(first_match, 12);
}

/// An instance that shall have no replicas stops, unless its data is to be moved first.
#[verifier::spinoff_prover]
pub proof fn law_zero_replicas_stop(i: &OdooInstance, s: &ReconcileSnapshot, now: Moment)
    requires
        i.current_phase() == OdooInstancePhase::Starting || ((i.current_phase()
            == OdooInstancePhase::Running || i.current_phase() == OdooInstancePhase::Degraded)
            && !s.storage_class_mismatch && !s.cluster_mismatch),
        i.spec.replicas == 0,
    ensures
        next_row(i, s, now) matches Some(taken) && taken.to == OdooInstancePhase::Stopped,
{
    reveal_with_fuel(first_match, 5);
}

/// An upgrade whose scheduled time is ahead does not start.
#[verifier::spinoff_prover]
pub proof fn law_upgrade_waits_for_its_time(i: &OdooInstance, s: &ReconcileSnapshot, now: Moment)
    requires
        !s.upgrade_due(now),
    ensures
        next_row(i, s, now) matches Some(taken) ==> taken.to != OdooInstancePhase::Upgrading,
{
    if next_row(i, s, now) is Some {
        let k = lemma_match_is_row(table(i.current_phase()), 0, i, s, now);
        if table(i.current_phase())[k].to == OdooInstancePhase::Upgrading {
            lemma_upgrade_row(i.current_phase(), k);
        }
    }
}

#[verifier::spinoff_prover]
proof fn lemma_upgrade_row(phase: OdooInstancePhase, k: int)
    requires
        0 <= k < table(phase).len(),
        table(phase)[k].to == OdooInstancePhase::Upgrading,
    ensures
        table(phase)[k].guard == Guard::One(Cond::UpgradeDue),
{
}

/// An upgrade that is present is either due, or the instance is looked at again for it.
pub proof fn law_waiting_upgrade_wakes_up(
    phase: OdooInstancePhase,
    s: &ReconcileSnapshot,
    now: Moment,
)
    ensures
        upgrade_delay(s, now) is Some <==> s.upgrade_job != JobStatus::Absent && !s.upgrade_due(
            now,
        ),
        s.upgrade_job != JobStatus::Absent && !s.upgrade_due(now) ==> requeue(
            phase,
            s,
            now,
        ) is After,
{
}

/// A completed refresh leaves no temporary database on record.
pub proof fn law_completed_refresh_clears_temp_db(
    i: &OdooInstance,
    s: &ReconcileSnapshot,
    now: Seq<char>,
)
    requires
        s.active_refresh_job matches Some(job) && recorded_temp_db(job) is Some,
    ensures
        action_effects(TransitionAction::CompleteRefreshJob, i, s, now).contains(
            EffectText::PatchRefresh {
                name: s.active_refresh_job->0.metadata.any_name(),
                patch: RefreshStatusText { temp_db_name: FieldText::Clear, ..no_refresh_change() },
            },
        ),
{
    let job = s.active_refresh_job->0;
    let effects = action_effects(TransitionAction::CompleteRefreshJob, i, s, now);
    let first = cleanup_effects(job);
    assert(effects[first.len() - 1] == first.last());
}

} // verus!
