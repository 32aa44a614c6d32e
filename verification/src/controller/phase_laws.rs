//! Which transition is taken in which situation, phase by phase.

use vstd::prelude::*;

use crate::controller::snapshot::{JobStatus, ReconcileSnapshot};
use crate::controller::transitions::{
    first_match, next_transition, rows, table, transitions_from, Transition, TransitionAction,
};
use crate::crd::metadata::Moment;
use crate::crd::odoo_instance::{OdooInstance, OdooInstancePhase};

verus! {

/// Whether the instance stays in its phase.
pub open spec fn stays(i: &OdooInstance, s: &ReconcileSnapshot, now: Moment) -> bool {
    forall|r: Option<Transition>| #[trigger]
        call_ensures(next_transition, (i, s, now), r) ==> r is None
}

/// Whether the instance goes to `to`, and nothing is done on the way.
pub open spec fn goes_to(
    i: &OdooInstance,
    s: &ReconcileSnapshot,
    now: Moment,
    to: OdooInstancePhase,
) -> bool {
    forall|r: Option<Transition>| #[trigger]
        call_ensures(next_transition, (i, s, now), r) ==> (r matches Some(taken) && taken.from
            == i.current_phase() && taken.to == to && taken.actions@.len() == 0)
}

/// Whether the instance goes to `to` with one action on the way.
pub open spec fn goes_with(
    i: &OdooInstance,
    s: &ReconcileSnapshot,
    now: Moment,
    to: OdooInstancePhase,
    action: TransitionAction,
) -> bool {
    forall|r: Option<Transition>| #[trigger]
        call_ensures(next_transition, (i, s, now), r) ==> (r matches Some(taken) && taken.from
            == i.current_phase() && taken.to == to && taken.actions@.len() == 1
            && taken.actions@[0] == action)
}

/// Whether the instance goes to `to` with two actions on the way.
pub open spec fn goes_with_both(
    i: &OdooInstance,
    s: &ReconcileSnapshot,
    now: Moment,
    to: OdooInstancePhase,
    first: TransitionAction,
    second: TransitionAction,
) -> bool {
    forall|r: Option<Transition>| #[trigger]
        call_ensures(next_transition, (i, s, now), r) ==> (r matches Some(taken) && taken.from
            == i.current_phase() && taken.to == to && taken.actions@.len() == 2
            && taken.actions@[0] == first && taken.actions@[1] == second)
}

/// Whether the data of the instance lies where it should.
pub open spec fn data_in_place(s: &ReconcileSnapshot) -> bool {
    !s.storage_class_mismatch && !s.cluster_mismatch
}

/// Whether an upgrade is there and its time has come.
pub open spec fn upgrade_waits(s: &ReconcileSnapshot, now: Moment) -> bool {
    s.upgrade_job != JobStatus::Absent && s.upgrade_due(now)
}

/// An upgrade is due only where there is one.
pub proof fn law_due_upgrade_is_present(s: &ReconcileSnapshot, now: Moment)
    ensures
        s.upgrade_due(now) ==> s.upgrade_job != JobStatus::Absent,
{
}

/// A stopped instance starts as soon as it shall have replicas, whatever is still ready of it,
/// unless its data is to be moved or there is a restore, a refresh or a due upgrade first. It
/// stays stopped as long as it shall have none, and takes no backups.
#[verifier::spinoff_prover]
pub proof fn law_stopped_starts_when_wanted(i: &OdooInstance, s: &ReconcileSnapshot, now: Moment)
    requires
        i.current_phase() == OdooInstancePhase::Stopped,
        data_in_place(s),
        s.restore_job == JobStatus::Absent,
        s.refresh_job == JobStatus::Absent,
        !s.upgrade_due(now),
    ensures
        i.spec.replicas > 0 ==> goes_to(i, s, now, OdooInstancePhase::Starting),
        i.spec.replicas <= 0 ==> stays(i, s, now),
{
    reveal_with_fuel(first_match, 8);
}

/// A starting instance runs as soon as all its replicas are ready, and waits for them until then.
#[verifier::spinoff_prover]
pub proof fn law_starting_waits_for_its_replicas(
    i: &OdooInstance,
    s: &ReconcileSnapshot,
    now: Moment,
)
    requires
        i.current_phase() == OdooInstancePhase::Starting,
        i.spec.replicas > 0,
        s.restore_job == JobStatus::Absent,
        s.refresh_job == JobStatus::Absent,
        !s.upgrade_due(now),
        s.backup_job == JobStatus::Absent,
    ensures
        s.ready_replicas >= i.spec.replicas ==> goes_to(i, s, now, OdooInstancePhase::Running),
        s.ready_replicas < i.spec.replicas ==> stays(i, s, now),
{
    reveal_with_fuel(first_match, 8);
}

/// A running or degraded instance with nothing to do goes by its replicas: it runs while all are
/// ready, is degraded while only some are, and starts anew when none is.
#[verifier::spinoff_prover]
pub proof fn law_replicas_decide(i: &OdooInstance, s: &ReconcileSnapshot, now: Moment)
    requires
        i.current_phase() == OdooInstancePhase::Running || i.current_phase()
            == OdooInstancePhase::Degraded,
        i.spec.replicas > 0,
        s.ready_replicas >= 0,
        data_in_place(s),
        s.restore_job == JobStatus::Absent,
        s.refresh_job == JobStatus::Absent,
        !s.upgrade_due(now),
        s.backup_job == JobStatus::Absent,
    ensures
        ({
            let standing = if s.ready_replicas >= i.spec.replicas {
                OdooInstancePhase::Running
            } else if s.ready_replicas > 0 {
                OdooInstancePhase::Degraded
            } else {
                OdooInstancePhase::Starting
            };
            if standing == i.current_phase() {
                stays(i, s, now)
            } else {
                goes_to(i, s, now, standing)
            }
        }),
{
    reveal_with_fuel(first_match, 11);
}

/// Whether an instance is standing: up, coming up or stopped, with no work going on.
pub open spec fn is_standing(phase: OdooInstancePhase) -> bool {
    phase == OdooInstancePhase::Starting || phase == OdooInstancePhase::Running || phase
        == OdooInstancePhase::Degraded || phase == OdooInstancePhase::Stopped
}

/// Data that lies in the wrong place is moved before anything else is done, the filestore before
/// the database. Only an instance that is still starting is left alone.
#[verifier::spinoff_prover]
pub proof fn law_data_is_moved_first(i: &OdooInstance, s: &ReconcileSnapshot, now: Moment)
    requires
        is_standing(i.current_phase()),
        i.current_phase() != OdooInstancePhase::Starting,
    ensures
        s.storage_class_mismatch ==> goes_with(
            i,
            s,
            now,
            OdooInstancePhase::MigratingFilestore,
            TransitionAction::BeginFilestoreMigration,
        ),
        !s.storage_class_mismatch && s.cluster_mismatch ==> goes_with(
            i,
            s,
            now,
            OdooInstancePhase::MigratingDatabase,
            TransitionAction::BeginDatabaseMigration,
        ),
{
    reveal_with_fuel(first_match, 4);
}

/// An instance that shall have no replicas stops, whatever work there is, once its data lies in
/// place.
#[verifier::spinoff_prover]
pub proof fn law_unwanted_stops(i: &OdooInstance, s: &ReconcileSnapshot, now: Moment)
    requires
        is_standing(i.current_phase()),
        i.current_phase() != OdooInstancePhase::Stopped,
        i.current_phase() == OdooInstancePhase::Starting || data_in_place(s),
        i.spec.replicas == 0,
    ensures
        goes_to(i, s, now, OdooInstancePhase::Stopped),
{
    reveal_with_fuel(first_match, 5);
}

/// Work is taken up in one order, wherever the instance stands and however many replicas are
/// ready: a restore, a refresh, an upgrade whose time has come, a backup. A stopped instance takes
/// up all but backups.
#[verifier::spinoff_prover]
pub proof fn law_work_is_taken_up_in_order(i: &OdooInstance, s: &ReconcileSnapshot, now: Moment)
    requires
        is_standing(i.current_phase()),
        i.current_phase() == OdooInstancePhase::Stopped || i.spec.replicas != 0,
        i.current_phase() == OdooInstancePhase::Starting || data_in_place(s),
    ensures
        s.restore_job != JobStatus::Absent ==> goes_to(i, s, now, OdooInstancePhase::Restoring),
        s.restore_job == JobStatus::Absent && s.refresh_job != JobStatus::Absent ==> goes_to(
            i,
            s,
            now,
            OdooInstancePhase::CloningFromSource,
        ),
        s.restore_job == JobStatus::Absent && s.refresh_job == JobStatus::Absent && upgrade_waits(
            s,
            now,
        ) ==> goes_to(i, s, now, OdooInstancePhase::Upgrading),
        s.restore_job == JobStatus::Absent && s.refresh_job == JobStatus::Absent
            && !s.upgrade_due(now) && s.backup_job != JobStatus::Absent && i.current_phase()
            != OdooInstancePhase::Stopped ==> goes_to(i, s, now, OdooInstancePhase::BackingUp),
{
    reveal_with_fuel(first_match, 9);
}

/// An instance without a database takes up the work that gives it one, in one order.
pub proof fn law_setup_is_taken_up_in_order(i: &OdooInstance, s: &ReconcileSnapshot, now: Moment)
    requires
        i.current_phase() == OdooInstancePhase::Uninitialized || i.current_phase()
            == OdooInstancePhase::InitFailed,
    ensures
        s.init_job != JobStatus::Absent ==> goes_to(i, s, now, OdooInstancePhase::Initializing),
        s.init_job == JobStatus::Absent && s.restore_job != JobStatus::Absent ==> goes_to(
            i,
            s,
            now,
            OdooInstancePhase::Restoring,
        ),
        s.init_job == JobStatus::Absent && s.restore_job == JobStatus::Absent && s.refresh_job
            != JobStatus::Absent ==> goes_to(i, s, now, OdooInstancePhase::CloningFromSource),
{
    reveal_with_fuel(first_match, 5);
}

/// An initialisation, a restore or a refresh that succeeds gives the instance a database: the
/// resource is completed, the database is marked, and the instance starts.
pub proof fn law_success_gives_a_database(i: &OdooInstance, s: &ReconcileSnapshot, now: Moment)
    ensures
        i.current_phase() == OdooInstancePhase::Initializing && s.init_job == JobStatus::Succeeded
            ==> goes_with_both(
            i,
            s,
            now,
            OdooInstancePhase::Starting,
            TransitionAction::CompleteInitJob,
            TransitionAction::MarkDbInitialized,
        ),
        i.current_phase() == OdooInstancePhase::Restoring && s.restore_job == JobStatus::Succeeded
            ==> goes_with_both(
            i,
            s,
            now,
            OdooInstancePhase::Starting,
            TransitionAction::CompleteRestoreJob,
            TransitionAction::MarkDbInitialized,
        ),
        i.current_phase() == OdooInstancePhase::CloningFromSource && s.refresh_job
            == JobStatus::Succeeded ==> goes_with_both(
            i,
            s,
            now,
            OdooInstancePhase::Starting,
            TransitionAction::CompleteRefreshJob,
            TransitionAction::MarkDbInitialized,
        ),
{
    reveal_with_fuel(first_match, 3);
}

/// Work that fails is marked failed. What it worked on decides where the instance goes: an
/// upgrade leaves the database as it was, a restore has dropped it, and an instance that was never
/// set up, or only halfway, stays down.
pub proof fn law_failure_is_marked(i: &OdooInstance, s: &ReconcileSnapshot, now: Moment)
    ensures
        i.current_phase() == OdooInstancePhase::Initializing && s.init_job == JobStatus::Failed
            ==> goes_with(
            i,
            s,
            now,
            OdooInstancePhase::InitFailed,
            TransitionAction::FailInitJob,
        ),
        i.current_phase() == OdooInstancePhase::Restoring && s.restore_job == JobStatus::Failed
            ==> goes_with_both(
            i,
            s,
            now,
            OdooInstancePhase::Uninitialized,
            TransitionAction::FailRestoreJob,
            TransitionAction::MarkDbUninitialized,
        ),
        i.current_phase() == OdooInstancePhase::CloningFromSource && s.refresh_job
            == JobStatus::Failed ==> goes_with(
            i,
            s,
            now,
            OdooInstancePhase::InitFailed,
            TransitionAction::FailRefreshJob,
        ),
        i.current_phase() == OdooInstancePhase::Upgrading && s.upgrade_job == JobStatus::Failed
            ==> goes_with(
            i,
            s,
            now,
            OdooInstancePhase::Starting,
            TransitionAction::FailUpgradeJob,
        ),
        i.current_phase() == OdooInstancePhase::Upgrading && s.upgrade_job == JobStatus::Succeeded
            ==> goes_with(
            i,
            s,
            now,
            OdooInstancePhase::Starting,
            TransitionAction::CompleteUpgradeJob,
        ),
{
    reveal_with_fuel(first_match, 4);
}

/// Work whose resource is taken back is given up: nothing is marked, and the instance goes back
/// to where it has a database, or has none.
pub proof fn law_work_that_is_gone_is_given_up(
    i: &OdooInstance,
    s: &ReconcileSnapshot,
    now: Moment,
)
    ensures
        i.current_phase() == OdooInstancePhase::Initializing && s.init_job == JobStatus::Absent
            ==> goes_to(i, s, now, OdooInstancePhase::Uninitialized),
        i.current_phase() == OdooInstancePhase::Restoring && s.restore_job == JobStatus::Absent
            ==> goes_to(i, s, now, OdooInstancePhase::Starting),
        i.current_phase() == OdooInstancePhase::CloningFromSource && s.refresh_job
            == JobStatus::Absent ==> goes_to(i, s, now, OdooInstancePhase::Uninitialized),
        i.current_phase() == OdooInstancePhase::Upgrading && s.upgrade_job == JobStatus::Absent
            ==> goes_to(i, s, now, OdooInstancePhase::Starting),
{
    reveal_with_fuel(first_match, 5);
}

/// The last backup leads to where the replicas stand, with the action that fits its outcome, and
/// a backup that is taken back leads there without one.
#[verifier::spinoff_prover]
pub proof fn law_backup_ends_where_the_replicas_stand(
    i: &OdooInstance,
    s: &ReconcileSnapshot,
    now: Moment,
)
    requires
        i.current_phase() == OdooInstancePhase::BackingUp,
        s.pending_backup_jobs <= 1,
        i.spec.replicas >= 0,
        s.ready_replicas >= 0,
    ensures
        ({
            let standing = if i.spec.replicas == 0 {
                OdooInstancePhase::Stopped
            } else if s.ready_replicas >= i.spec.replicas {
                OdooInstancePhase::Running
            } else if s.ready_replicas > 0 {
                OdooInstancePhase::Degraded
            } else {
                OdooInstancePhase::Starting
            };
            match s.backup_job {
                JobStatus::Succeeded => goes_with(
                    i,
                    s,
                    now,
                    standing,
                    TransitionAction::CompleteBackupJob,
                ),
                JobStatus::Failed => goes_with(
                    i,
                    s,
                    now,
                    standing,
                    TransitionAction::FailBackupJob,
                ),
                JobStatus::Absent => goes_to(i, s, now, standing),
                JobStatus::Active => stays(i, s, now),
            }
        }),
{
    reveal_with_fuel(first_match, 16);
}

/// A migration that succeeds is finished, and is over when the data lies in place: the instance
/// starts then, or stays stopped where it shall have no replicas. One that fails, or is gone, is
/// rolled back, and the instance starts or stays stopped likewise.
#[verifier::spinoff_prover]
pub proof fn law_migrations_end(i: &OdooInstance, s: &ReconcileSnapshot, now: Moment)
    requires
        i.spec.replicas >= 0,
    ensures
        ({
            let after = if i.spec.replicas > 0 {
                OdooInstancePhase::Starting
            } else {
                OdooInstancePhase::Stopped
            };
            &&& i.current_phase() == OdooInstancePhase::MigratingFilestore ==> match s.migration_job {
                JobStatus::Succeeded => goes_with(
                    i,
                    s,
                    now,
                    OdooInstancePhase::FinalizingFilestoreMigration,
                    TransitionAction::CompleteFilestoreMigration,
                ),
                JobStatus::Active => stays(i, s, now),
                _ => goes_with(i, s, now, after, TransitionAction::RollbackFilestoreMigration),
            }
            &&& i.current_phase() == OdooInstancePhase::MigratingDatabase
                ==> match s.db_migration_job {
                JobStatus::Succeeded => goes_with(
                    i,
                    s,
                    now,
                    OdooInstancePhase::FinalizingDatabaseMigration,
                    TransitionAction::CompleteDatabaseMigration,
                ),
                JobStatus::Active => stays(i, s, now),
                _ => goes_with(i, s, now, after, TransitionAction::RollbackDatabaseMigration),
            }
            &&& i.current_phase() == OdooInstancePhase::FinalizingFilestoreMigration ==> (
            if s.storage_class_mismatch {
                stays(i, s, now)
            } else {
                goes_with(i, s, now, after, TransitionAction::ClearFilestoreMigrationStatus)
            })
            &&& i.current_phase() == OdooInstancePhase::FinalizingDatabaseMigration ==> (
            if s.cluster_mismatch {
                stays(i, s, now)
            } else {
                goes_with(i, s, now, after, TransitionAction::ClearDatabaseMigrationStatus)
            })
        }),
{
    reveal_with_fuel(first_match, 5);
}

/// Whether the way out at `k` leads to `to`, and its reason is told as `reason`.
pub open spec fn is_way(
    ways: Seq<Transition>,
    k: int,
    to: OdooInstancePhase,
    reason: Seq<char>,
) -> bool {
    0 <= k < ways.len() && ways[k].to == to && ways[k].guard_name@ == reason
}

/// The ways out of a phase, the urgent ones first, each with the reason that is told when it is
/// taken. There are no others.
#[verifier::spinoff_prover]
pub proof fn law_ways_out_are_told(phase: OdooInstancePhase, r: Vec<Transition>)
    requires
        call_ensures(transitions_from, (phase,), r),
    ensures
        match phase {
            OdooInstancePhase::Provisioning => {
                &&& r@.len() == 2
                &&& is_way(r@, 0, OdooInstancePhase::Uninitialized, "!db_initialized"@)
                &&& is_way(r@, 1, OdooInstancePhase::Starting, "db_initialized"@)
            },
            OdooInstancePhase::Uninitialized => {
                &&& r@.len() == 3
                &&& is_way(r@, 0, OdooInstancePhase::Initializing, "init_job present"@)
                &&& is_way(r@, 1, OdooInstancePhase::Restoring, "restore_job present"@)
                &&& is_way(r@, 2, OdooInstancePhase::CloningFromSource, "refresh_job present"@)
            },
            OdooInstancePhase::Initializing => {
                &&& r@.len() == 3
                &&& is_way(r@, 0, OdooInstancePhase::Starting, "init_job succeeded"@)
                &&& is_way(r@, 1, OdooInstancePhase::InitFailed, "init_job failed"@)
                &&& is_way(r@, 2, OdooInstancePhase::Uninitialized, "init_job absent"@)
            },
            OdooInstancePhase::InitFailed => {
                &&& r@.len() == 3
                &&& is_way(r@, 0, OdooInstancePhase::Initializing, "init_job present"@)
                &&& is_way(r@, 1, OdooInstancePhase::Restoring, "restore_job present"@)
                &&& is_way(r@, 2, OdooInstancePhase::CloningFromSource, "refresh_job present"@)
            },
            OdooInstancePhase::Starting => {
                &&& r@.len() == 6
                &&& is_way(r@, 0, OdooInstancePhase::Stopped, "replicas == 0"@)
                &&& is_way(r@, 1, OdooInstancePhase::Restoring, "restore_job present"@)
                &&& is_way(r@, 2, OdooInstancePhase::CloningFromSource, "refresh_job present"@)
                &&& is_way(r@, 3, OdooInstancePhase::Upgrading, "upgrade_job ready"@)
                &&& is_way(r@, 4, OdooInstancePhase::BackingUp, "backup_job present"@)
                &&& is_way(r@, 5, OdooInstancePhase::Running, "ready >= desired"@)
            },
            OdooInstancePhase::Running => {
                &&& r@.len() == 9
                &&& is_way(r@, 0, OdooInstancePhase::MigratingFilestore, "storage_class_mismatch"@)
                &&& is_way(r@, 1, OdooInstancePhase::MigratingDatabase, "cluster_mismatch"@)
                &&& is_way(r@, 2, OdooInstancePhase::Stopped, "replicas == 0"@)
                &&& is_way(r@, 3, OdooInstancePhase::Restoring, "restore_job present"@)
                &&& is_way(r@, 4, OdooInstancePhase::CloningFromSource, "refresh_job present"@)
                &&& is_way(r@, 5, OdooInstancePhase::Upgrading, "upgrade_job ready"@)
                &&& is_way(r@, 6, OdooInstancePhase::BackingUp, "backup_job present"@)
                &&& is_way(r@, 7, OdooInstancePhase::Degraded, "ready < desired && ready > 0"@)
                &&& is_way(r@, 8, OdooInstancePhase::Starting, "ready == 0"@)
            },
            OdooInstancePhase::Degraded => {
                &&& r@.len() == 9
                &&& is_way(r@, 0, OdooInstancePhase::MigratingFilestore, "storage_class_mismatch"@)
                &&& is_way(r@, 1, OdooInstancePhase::MigratingDatabase, "cluster_mismatch"@)
                &&& is_way(r@, 2, OdooInstancePhase::Stopped, "replicas == 0"@)
                &&& is_way(r@, 3, OdooInstancePhase::Restoring, "restore_job present"@)
                &&& is_way(r@, 4, OdooInstancePhase::CloningFromSource, "refresh_job present"@)
                &&& is_way(r@, 5, OdooInstancePhase::Upgrading, "upgrade_job ready"@)
                &&& is_way(r@, 6, OdooInstancePhase::BackingUp, "backup_job present"@)
                &&& is_way(r@, 7, OdooInstancePhase::Running, "ready >= desired"@)
                &&& is_way(r@, 8, OdooInstancePhase::Starting, "ready == 0"@)
            },
            OdooInstancePhase::BackingUp => {
                &&& r@.len() == 14
                &&& is_way(r@, 0, OdooInstancePhase::BackingUp, "backup succeeded && another pending"@)
                &&& is_way(r@, 1, OdooInstancePhase::BackingUp, "backup failed && another pending"@)
                &&& is_way(r@, 2, OdooInstancePhase::Stopped, "backup succeeded && replicas == 0"@)
                &&& is_way(r@, 3, OdooInstancePhase::Stopped, "backup failed && replicas == 0"@)
                &&& is_way(r@, 4, OdooInstancePhase::Running, "backup succeeded && ready >= desired"@)
                &&& is_way(r@, 5, OdooInstancePhase::Running, "backup failed && ready >= desired"@)
                &&& is_way(r@, 6, OdooInstancePhase::Degraded, "backup succeeded && 0 < ready < desired"@)
                &&& is_way(r@, 7, OdooInstancePhase::Degraded, "backup failed && 0 < ready < desired"@)
                &&& is_way(r@, 8, OdooInstancePhase::Starting, "backup succeeded && ready == 0"@)
                &&& is_way(r@, 9, OdooInstancePhase::Starting, "backup failed && ready == 0"@)
                &&& is_way(r@, 10, OdooInstancePhase::Running, "backup absent && ready >= desired"@)
                &&& is_way(r@, 11, OdooInstancePhase::Degraded, "backup absent && 0 < ready < desired"@)
                &&& is_way(r@, 12, OdooInstancePhase::Starting, "backup absent && ready == 0"@)
                &&& is_way(r@, 13, OdooInstancePhase::Stopped, "backup absent && replicas == 0"@)
            },
            OdooInstancePhase::CloningFromSource => {
                &&& r@.len() == 3
                &&& is_way(r@, 0, OdooInstancePhase::Starting, "refresh_job succeeded"@)
                &&& is_way(r@, 1, OdooInstancePhase::InitFailed, "refresh_job failed"@)
                &&& is_way(r@, 2, OdooInstancePhase::Uninitialized, "refresh_job absent"@)
            },
            OdooInstancePhase::Upgrading => {
                &&& r@.len() == 3
                &&& is_way(r@, 0, OdooInstancePhase::Starting, "upgrade_job succeeded"@)
                &&& is_way(r@, 1, OdooInstancePhase::Starting, "upgrade_job failed"@)
                &&& is_way(r@, 2, OdooInstancePhase::Starting, "upgrade_job absent"@)
            },
            OdooInstancePhase::Restoring => {
                &&& r@.len() == 3
                &&& is_way(r@, 0, OdooInstancePhase::Starting, "restore_job succeeded"@)
                &&& is_way(r@, 1, OdooInstancePhase::Uninitialized, "restore_job failed"@)
                &&& is_way(r@, 2, OdooInstancePhase::Starting, "restore_job absent"@)
            },
            OdooInstancePhase::Stopped => {
                &&& r@.len() == 6
                &&& is_way(r@, 0, OdooInstancePhase::MigratingFilestore, "storage_class_mismatch"@)
                &&& is_way(r@, 1, OdooInstancePhase::MigratingDatabase, "cluster_mismatch"@)
                &&& is_way(r@, 2, OdooInstancePhase::Restoring, "restore_job present"@)
                &&& is_way(r@, 3, OdooInstancePhase::CloningFromSource, "refresh_job present"@)
                &&& is_way(r@, 4, OdooInstancePhase::Upgrading, "upgrade_job ready"@)
                &&& is_way(r@, 5, OdooInstancePhase::Starting, "replicas > 0"@)
            },
            OdooInstancePhase::MigratingFilestore => {
                &&& r@.len() == 3
                &&& is_way(r@, 0, OdooInstancePhase::FinalizingFilestoreMigration, "migration_job succeeded"@)
                &&& is_way(r@, 1, OdooInstancePhase::Starting, "migration_job failed/absent && replicas > 0"@)
                &&& is_way(r@, 2, OdooInstancePhase::Stopped, "migration_job failed/absent && replicas == 0"@)
            },
            OdooInstancePhase::FinalizingFilestoreMigration => {
                &&& r@.len() == 2
                &&& is_way(r@, 0, OdooInstancePhase::Starting, "pvc rebound && replicas > 0"@)
                &&& is_way(r@, 1, OdooInstancePhase::Stopped, "pvc rebound && replicas == 0"@)
            },
            OdooInstancePhase::MigratingDatabase => {
                &&& r@.len() == 3
                &&& is_way(r@, 0, OdooInstancePhase::FinalizingDatabaseMigration, "db_migration_job succeeded"@)
                &&& is_way(r@, 1, OdooInstancePhase::Starting, "db_migration_job failed/absent && replicas > 0"@)
                &&& is_way(r@, 2, OdooInstancePhase::Stopped, "db_migration_job failed/absent && replicas == 0"@)
            },
            OdooInstancePhase::FinalizingDatabaseMigration => {
                &&& r@.len() == 2
                &&& is_way(r@, 0, OdooInstancePhase::Starting, "cluster switched && replicas > 0"@)
                &&& is_way(r@, 1, OdooInstancePhase::Stopped, "cluster switched && replicas == 0"@)
            },
            OdooInstancePhase::Error => {
                &&& r@.len() == 2
                &&& is_way(r@, 0, OdooInstancePhase::Starting, "db_initialized"@)
                &&& is_way(r@, 1, OdooInstancePhase::Uninitialized, "!db_initialized"@)
            },
        },
        forall|k: int| 0 <= k < r@.len() ==> (#[trigger] r@[k]).from == phase,
{
    let all = rows(r@);
    assert(all.len() == r@.len());
    assert forall|k: int| 0 <= k < r@.len() implies #[trigger] r@[k]@ == table(phase)[k] by {
        assert(all[k] == r@[k]@);
    }
    assert forall|k: int| 0 <= k < r@.len() implies (#[trigger] r@[k]).from == phase by {
        assert(r@[k]@ == table(phase)[k]);
    }
    if r@.len() > 0 {
        assert(r@[0]@ == table(phase)[0]);
    }
    if r@.len() > 1 {
        assert(r@[1]@ == table(phase)[1]);
    }
    if r@.len() > 2 {
        assert(r@[2]@ == table(phase)[2]);
    }
    if r@.len() > 3 {
        assert(r@[3]@ == table(phase)[3]);
    }
    if r@.len() > 4 {
        assert(r@[4]@ == table(phase)[4]);
    }
    if r@.len() > 5 {
        assert(r@[5]@ == table(phase)[5]);
    }
    if r@.len() > 6 {
        assert(r@[6]@ == table(phase)[6]);
    }
    if r@.len() > 7 {
        assert(r@[7]@ == table(phase)[7]);
    }
    if r@.len() > 8 {
        assert(r@[8]@ == table(phase)[8]);
    }
    if r@.len() > 9 {
        assert(r@[9]@ == table(phase)[9]);
    }
    if r@.len() > 10 {
        assert(r@[10]@ == table(phase)[10]);
    }
    if r@.len() > 11 {
        assert(r@[11]@ == table(phase)[11]);
    }
    if r@.len() > 12 {
        assert(r@[12]@ == table(phase)[12]);
    }
    if r@.len() > 13 {
        assert(r@[13]@ == table(phase)[13]);
    }
}

} // verus!
