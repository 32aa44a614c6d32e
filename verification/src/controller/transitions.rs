//! The transition table of the state machine.

use vstd::prelude::*;

use crate::controller::snapshot::{JobStatus, ReconcileSnapshot};
use crate::crd::metadata::Moment;
use crate::crd::odoo_instance::{OdooInstance, OdooInstancePhase};

verus! {

// ── Guards ──────────────────────────────────────────────────────────────────

/// The kinds of work that guards look at.
#[derive(Debug, Clone, Copy, PartialEq, Eq, Structural)]
pub enum JobSlot {
    Init,
    Restore,
    Refresh,
    Upgrade,
    Backup,
    Migration,
    DbMigration,
}

/// A condition on an instance and a snapshot.
#[derive(Debug, Clone, Copy, PartialEq, Eq, Structural)]
pub enum Cond {
    DbInitialized,
    DbUninitialized,
    /// There is unfinished work.
    Present(JobSlot),
    /// The work has this status.
    Is(JobSlot, JobStatus),
    /// The work failed, or is gone.
    Lost(JobSlot),
    /// An upgrade is present, and its time has come.
    UpgradeDue,
    /// More than one backup is unfinished.
    AnotherBackupPending,
    /// No replicas are wanted.
    StopWanted,
    /// Replicas are wanted.
    RunWanted,
    /// As many replicas are ready as are wanted.
    ReadyEnough,
    /// Fewer replicas are ready than are wanted.
    ReadyShort,
    SomeReady,
    NoneReady,
    ClassMismatch,
    ClassMatch,
    ClusterMismatch,
    ClusterMatch,
}

/// Conditions that must all hold.
#[derive(Debug, Clone, Copy, PartialEq, Eq, Structural)]
pub enum Guard {
    One(Cond),
    Two(Cond, Cond),
    Three(Cond, Cond, Cond),
}

/// The status of one kind of work.
pub open spec fn slot_status(s: &ReconcileSnapshot, slot: JobSlot) -> JobStatus {
    match slot {
        JobSlot::Init => s.init_job,
        JobSlot::Restore => s.restore_job,
        JobSlot::Refresh => s.refresh_job,
        JobSlot::Upgrade => s.upgrade_job,
        JobSlot::Backup => s.backup_job,
        JobSlot::Migration => s.migration_job,
        JobSlot::DbMigration => s.db_migration_job,
    }
}

/// Whether a condition holds at the moment `now`.
pub open spec fn cond_holds(
    cond: Cond,
    i: &OdooInstance,
    s: &ReconcileSnapshot,
    now: Moment,
) -> bool {
    match cond {
        Cond::DbInitialized => s.db_initialized,
        Cond::DbUninitialized => !s.db_initialized,
        Cond::Present(slot) => slot_status(s, slot) != JobStatus::Absent,
        Cond::Is(slot, status) => slot_status(s, slot) == status,
        Cond::Lost(slot) => slot_status(s, slot) == JobStatus::Failed || slot_status(s, slot)
            == JobStatus::Absent,
        Cond::UpgradeDue => s.upgrade_due(now),
        Cond::AnotherBackupPending => s.pending_backup_jobs > 1,
        Cond::StopWanted => i.spec.replicas == 0,
        Cond::RunWanted => i.spec.replicas > 0,
        Cond::ReadyEnough => s.ready_replicas >= i.spec.replicas,
        Cond::ReadyShort => s.ready_replicas < i.spec.replicas,
        Cond::SomeReady => s.ready_replicas > 0,
        Cond::NoneReady => s.ready_replicas == 0,
        Cond::ClassMismatch => s.storage_class_mismatch,
        Cond::ClassMatch => !s.storage_class_mismatch,
        Cond::ClusterMismatch => s.cluster_mismatch,
        Cond::ClusterMatch => !s.cluster_mismatch,
    }
}

/// Whether a guard holds at the moment `now`.
pub open spec fn guard_holds(
    guard: Guard,
    i: &OdooInstance,
    s: &ReconcileSnapshot,
    now: Moment,
) -> bool {
    match guard {
        Guard::One(a) => cond_holds(a, i, s, now),
        Guard::Two(a, b) => cond_holds(a, i, s, now) && cond_holds(b, i, s, now),
        Guard::Three(a, b, c) => cond_holds(a, i, s, now) && cond_holds(b, i, s, now)
            && cond_holds(c, i, s, now),
    }
}

fn slot_status_of(s: &ReconcileSnapshot, slot: JobSlot) -> (r: JobStatus)
    ensures
        r == slot_status(s, slot),
{
    match slot {
        JobSlot::Init => s.init_job,
        JobSlot::Restore => s.restore_job,
        JobSlot::Refresh => s.refresh_job,
        JobSlot::Upgrade => s.upgrade_job,
        JobSlot::Backup => s.backup_job,
        JobSlot::Migration => s.migration_job,
        JobSlot::DbMigration => s.db_migration_job,
    }
}

impl Cond {
    /// Whether the condition holds at the moment `now`.
    pub fn holds(self, i: &OdooInstance, s: &ReconcileSnapshot, now: Moment) -> (r: bool)
        ensures
            r == cond_holds(self, i, s, now),
    {
        match self {
            Cond::DbInitialized => s.db_initialized,
            Cond::DbUninitialized => !s.db_initialized,
            Cond::Present(slot) => slot_status_of(s, slot).is_present(),
            Cond::Is(slot, status) => slot_status_of(s, slot) == status,
            Cond::Lost(slot) => {
                let status = slot_status_of(s, slot);
                status == JobStatus::Failed || status == JobStatus::Absent
            },
            Cond::UpgradeDue => s.upgrade_job_ready_at(now),
            Cond::AnotherBackupPending => s.pending_backup_jobs > 1,
            Cond::StopWanted => i.spec.replicas == 0,
            Cond::RunWanted => i.spec.replicas > 0,
            Cond::ReadyEnough => s.ready_replicas >= i.spec.replicas,
            Cond::ReadyShort => s.ready_replicas < i.spec.replicas,
            Cond::SomeReady => s.ready_replicas > 0,
            Cond::NoneReady => s.ready_replicas == 0,
            Cond::ClassMismatch => s.storage_class_mismatch,
            Cond::ClassMatch => !s.storage_class_mismatch,
            Cond::ClusterMismatch => s.cluster_mismatch,
            Cond::ClusterMatch => !s.cluster_mismatch,
        }
    }
}

impl Guard {
    /// Whether the guard holds at the moment `now`.
    pub fn holds(self, i: &OdooInstance, s: &ReconcileSnapshot, now: Moment) -> (r: bool)
        ensures
            r == guard_holds(self, i, s, now),
    {
        match self {
            Guard::One(a) => a.holds(i, s, now),
            Guard::Two(a, b) => a.holds(i, s, now) && b.holds(i, s, now),
            Guard::Three(a, b, c) => a.holds(i, s, now) && b.holds(i, s, now) && c.holds(i, s, now),
        }
    }
}

// ── Actions ─────────────────────────────────────────────────────────────────

/// What is done once, on the way from one phase to another.
#[derive(Debug, Clone, Copy, PartialEq, Eq, Structural)]
pub enum TransitionAction {
    MarkDbInitialized,
    MarkDbUninitialized,
    CompleteInitJob,
    FailInitJob,
    CompleteRestoreJob,
    FailRestoreJob,
    CompleteRefreshJob,
    FailRefreshJob,
    CompleteUpgradeJob,
    FailUpgradeJob,
    CompleteBackupJob,
    FailBackupJob,
    BeginFilestoreMigration,
    CompleteFilestoreMigration,
    ClearFilestoreMigrationStatus,
    RollbackFilestoreMigration,
    BeginDatabaseMigration,
    CompleteDatabaseMigration,
    ClearDatabaseMigrationStatus,
    RollbackDatabaseMigration,
}

// ── The table ───────────────────────────────────────────────────────────────

/// A row of the transition table.
#[derive(Debug)]
pub struct Transition {
    pub from: OdooInstancePhase,
    pub to: OdooInstancePhase,
    pub guard: Guard,
    pub guard_name: &'static str,
    pub actions: Vec<TransitionAction>,
}

/// A row of the transition table.
pub struct Row {
    pub from: OdooInstancePhase,
    pub to: OdooInstancePhase,
    pub guard: Guard,
    pub guard_name: Seq<char>,
    pub actions: Seq<TransitionAction>,
}

impl View for Transition {
    type V = Row;

    open spec fn view(&self) -> Row {
        Row {
            from: self.from,
            to: self.to,
            guard: self.guard,
            guard_name: self.guard_name@,
            actions: self.actions@,
        }
    }
}

/// A row of the transition table.
pub open spec fn row(
    from: OdooInstancePhase,
    to: OdooInstancePhase,
    guard: Guard,
    guard_name: Seq<char>,
    actions: Seq<TransitionAction>,
) -> Row {
    Row { from, to, guard, guard_name, actions }
}

/// The ways out of a phase. The first one whose guard holds is taken, so the urgent ones come
/// first.
pub open spec fn table(phase: OdooInstancePhase) -> Seq<Row> {
    match phase {
        OdooInstancePhase::Provisioning => seq![
            // The child resources are ensured before the state machine runs, so this phase is left at once.
            row(
                OdooInstancePhase::Provisioning,
                OdooInstancePhase::Uninitialized,
                Guard::One(Cond::DbUninitialized),
                "!db_initialized"@,
                Seq::empty(),
            ),
            row(
                OdooInstancePhase::Provisioning,
                OdooInstancePhase::Starting,
                Guard::One(Cond::DbInitialized),
                "db_initialized"@,
                Seq::empty(),
            ),
        ],
        OdooInstancePhase::Uninitialized => seq![
            row(
                OdooInstancePhase::Uninitialized,
                OdooInstancePhase::Initializing,
                Guard::One(Cond::Present(JobSlot::Init)),
                "init_job present"@,
                Seq::empty(),
            ),
            row(
                OdooInstancePhase::Uninitialized,
                OdooInstancePhase::Restoring,
                Guard::One(Cond::Present(JobSlot::Restore)),
                "restore_job present"@,
                Seq::empty(),
            ),
            row(
                OdooInstancePhase::Uninitialized,
                OdooInstancePhase::CloningFromSource,
                Guard::One(Cond::Present(JobSlot::Refresh)),
                "refresh_job present"@,
                Seq::empty(),
            ),
        ],
        OdooInstancePhase::Initializing => seq![
            row(
                OdooInstancePhase::Initializing,
                OdooInstancePhase::Starting,
                Guard::One(Cond::Is(JobSlot::Init, JobStatus::Succeeded)),
                "init_job succeeded"@,
                seq![TransitionAction::CompleteInitJob, TransitionAction::MarkDbInitialized],
            ),
            row(
                OdooInstancePhase::Initializing,
                OdooInstancePhase::InitFailed,
                Guard::One(Cond::Is(JobSlot::Init, JobStatus::Failed)),
                "init_job failed"@,
                seq![TransitionAction::FailInitJob],
            ),
            row(
                OdooInstancePhase::Initializing,
                OdooInstancePhase::Uninitialized,
                Guard::One(Cond::Is(JobSlot::Init, JobStatus::Absent)),
                "init_job absent"@,
                Seq::empty(),
            ),
        ],
        OdooInstancePhase::InitFailed => seq![
            row(
                OdooInstancePhase::InitFailed,
                OdooInstancePhase::Initializing,
                Guard::One(Cond::Present(JobSlot::Init)),
                "init_job present"@,
                Seq::empty(),
            ),
            row(
                OdooInstancePhase::InitFailed,
                OdooInstancePhase::Restoring,
                Guard::One(Cond::Present(JobSlot::Restore)),
                "restore_job present"@,
                Seq::empty(),
            ),
            row(
                OdooInstancePhase::InitFailed,
                OdooInstancePhase::CloningFromSource,
                Guard::One(Cond::Present(JobSlot::Refresh)),
                "refresh_job present"@,
                Seq::empty(),
            ),
        ],
        OdooInstancePhase::Starting => seq![
            row(
                OdooInstancePhase::Starting,
                OdooInstancePhase::Stopped,
                Guard::One(Cond::StopWanted),
                "replicas == 0"@,
                Seq::empty(),
            ),
            row(
                OdooInstancePhase::Starting,
                OdooInstancePhase::Restoring,
                Guard::One(Cond::Present(JobSlot::Restore)),
                "restore_job present"@,
                Seq::empty(),
            ),
            row(
                OdooInstancePhase::Starting,
                OdooInstancePhase::CloningFromSource,
                Guard::One(Cond::Present(JobSlot::Refresh)),
                "refresh_job present"@,
                Seq::empty(),
            ),
            row(
                OdooInstancePhase::Starting,
                OdooInstancePhase::Upgrading,
                Guard::One(Cond::UpgradeDue),
                "upgrade_job ready"@,
                Seq::empty(),
            ),
            row(
                OdooInstancePhase::Starting,
                OdooInstancePhase::BackingUp,
                Guard::One(Cond::Present(JobSlot::Backup)),
                "backup_job present"@,
                Seq::empty(),
            ),
            row(
                OdooInstancePhase::Starting,
                OdooInstancePhase::Running,
                Guard::Two(Cond::ReadyEnough, Cond::RunWanted),
                "ready >= desired"@,
                Seq::empty(),
            ),
        ],
        OdooInstancePhase::Running => seq![
            row(
                OdooInstancePhase::Running,
                OdooInstancePhase::MigratingFilestore,
                Guard::One(Cond::ClassMismatch),
                "storage_class_mismatch"@,
                seq![TransitionAction::BeginFilestoreMigration],
            ),
            row(
                OdooInstancePhase::Running,
                OdooInstancePhase::MigratingDatabase,
                Guard::One(Cond::ClusterMismatch),
                "cluster_mismatch"@,
                seq![TransitionAction::BeginDatabaseMigration],
            ),
            row(
                OdooInstancePhase::Running,
                OdooInstancePhase::Stopped,
                Guard::One(Cond::StopWanted),
                "replicas == 0"@,
                Seq::empty(),
            ),
            row(
                OdooInstancePhase::Running,
                OdooInstancePhase::Restoring,
                Guard::One(Cond::Present(JobSlot::Restore)),
                "restore_job present"@,
                Seq::empty(),
            ),
            row(
                OdooInstancePhase::Running,
                OdooInstancePhase::CloningFromSource,
                Guard::One(Cond::Present(JobSlot::Refresh)),
                "refresh_job present"@,
                Seq::empty(),
            ),
            row(
                OdooInstancePhase::Running,
                OdooInstancePhase::Upgrading,
                Guard::One(Cond::UpgradeDue),
                "upgrade_job ready"@,
                Seq::empty(),
            ),
            row(
                OdooInstancePhase::Running,
                OdooInstancePhase::BackingUp,
                Guard::One(Cond::Present(JobSlot::Backup)),
                "backup_job present"@,
                Seq::empty(),
            ),
            row(
                OdooInstancePhase::Running,
                OdooInstancePhase::Degraded,
                Guard::Two(Cond::ReadyShort, Cond::SomeReady),
                "ready < desired && ready > 0"@,
                Seq::empty(),
            ),
            row(
                OdooInstancePhase::Running,
                OdooInstancePhase::Starting,
                Guard::Two(Cond::ReadyShort, Cond::NoneReady),
                "ready == 0"@,
                Seq::empty(),
            ),
        ],
        OdooInstancePhase::Degraded => seq![
            row(
                OdooInstancePhase::Degraded,
                OdooInstancePhase::MigratingFilestore,
                Guard::One(Cond::ClassMismatch),
                "storage_class_mismatch"@,
                seq![TransitionAction::BeginFilestoreMigration],
            ),
            row(
                OdooInstancePhase::Degraded,
                OdooInstancePhase::MigratingDatabase,
                Guard::One(Cond::ClusterMismatch),
                "cluster_mismatch"@,
                seq![TransitionAction::BeginDatabaseMigration],
            ),
            row(
                OdooInstancePhase::Degraded,
                OdooInstancePhase::Stopped,
                Guard::One(Cond::StopWanted),
                "replicas == 0"@,
                Seq::empty(),
            ),
            row(
                OdooInstancePhase::Degraded,
                OdooInstancePhase::Restoring,
                Guard::One(Cond::Present(JobSlot::Restore)),
                "restore_job present"@,
                Seq::empty(),
            ),
            row(
                OdooInstancePhase::Degraded,
                OdooInstancePhase::CloningFromSource,
                Guard::One(Cond::Present(JobSlot::Refresh)),
                "refresh_job present"@,
                Seq::empty(),
            ),
            row(
                OdooInstancePhase::Degraded,
                OdooInstancePhase::Upgrading,
                Guard::One(Cond::UpgradeDue),
                "upgrade_job ready"@,
                Seq::empty(),
            ),
            row(
                OdooInstancePhase::Degraded,
                OdooInstancePhase::BackingUp,
                Guard::One(Cond::Present(JobSlot::Backup)),
                "backup_job present"@,
                Seq::empty(),
            ),
            row(
                OdooInstancePhase::Degraded,
                OdooInstancePhase::Running,
                Guard::One(Cond::ReadyEnough),
                "ready >= desired"@,
                Seq::empty(),
            ),
            row(
                OdooInstancePhase::Degraded,
                OdooInstancePhase::Starting,
                Guard::One(Cond::NoneReady),
                "ready == 0"@,
                Seq::empty(),
            ),
        ],
        OdooInstancePhase::BackingUp => seq![
            // A finished backup with another one behind it is completed without leaving the phase.
            row(
                OdooInstancePhase::BackingUp,
                OdooInstancePhase::BackingUp,
                Guard::Two(Cond::Is(JobSlot::Backup, JobStatus::Succeeded), Cond::AnotherBackupPending),
                "backup succeeded && another pending"@,
                seq![TransitionAction::CompleteBackupJob],
            ),
            row(
                OdooInstancePhase::BackingUp,
                OdooInstancePhase::BackingUp,
                Guard::Two(Cond::Is(JobSlot::Backup, JobStatus::Failed), Cond::AnotherBackupPending),
                "backup failed && another pending"@,
                seq![TransitionAction::FailBackupJob],
            ),
            row(
                OdooInstancePhase::BackingUp,
                OdooInstancePhase::Stopped,
                Guard::Two(Cond::Is(JobSlot::Backup, JobStatus::Succeeded), Cond::StopWanted),
                "backup succeeded && replicas == 0"@,
                seq![TransitionAction::CompleteBackupJob],
            ),
            row(
                OdooInstancePhase::BackingUp,
                OdooInstancePhase::Stopped,
                Guard::Two(Cond::Is(JobSlot::Backup, JobStatus::Failed), Cond::StopWanted),
                "backup failed && replicas == 0"@,
                seq![TransitionAction::FailBackupJob],
            ),
            row(
                OdooInstancePhase::BackingUp,
                OdooInstancePhase::Running,
                Guard::Two(Cond::Is(JobSlot::Backup, JobStatus::Succeeded), Cond::ReadyEnough),
                "backup succeeded && ready >= desired"@,
                seq![TransitionAction::CompleteBackupJob],
            ),
            row(
                OdooInstancePhase::BackingUp,
                OdooInstancePhase::Running,
                Guard::Two(Cond::Is(JobSlot::Backup, JobStatus::Failed), Cond::ReadyEnough),
                "backup failed && ready >= desired"@,
                seq![TransitionAction::FailBackupJob],
            ),
            row(
                OdooInstancePhase::BackingUp,
                OdooInstancePhase::Degraded,
                Guard::Three(Cond::Is(JobSlot::Backup, JobStatus::Succeeded), Cond::SomeReady, Cond::ReadyShort),
                "backup succeeded && 0 < ready < desired"@,
                seq![TransitionAction::CompleteBackupJob],
            ),
            row(
                OdooInstancePhase::BackingUp,
                OdooInstancePhase::Degraded,
                Guard::Three(Cond::Is(JobSlot::Backup, JobStatus::Failed), Cond::SomeReady, Cond::ReadyShort),
                "backup failed && 0 < ready < desired"@,
                seq![TransitionAction::FailBackupJob],
            ),
            row(
                OdooInstancePhase::BackingUp,
                OdooInstancePhase::Starting,
                Guard::Three(Cond::Is(JobSlot::Backup, JobStatus::Succeeded), Cond::NoneReady, Cond::RunWanted),
                "backup succeeded && ready == 0"@,
                seq![TransitionAction::CompleteBackupJob],
            ),
            row(
                OdooInstancePhase::BackingUp,
                OdooInstancePhase::Starting,
                Guard::Three(Cond::Is(JobSlot::Backup, JobStatus::Failed), Cond::NoneReady, Cond::RunWanted),
                "backup failed && ready == 0"@,
                seq![TransitionAction::FailBackupJob],
            ),
            row(
                OdooInstancePhase::BackingUp,
                OdooInstancePhase::Running,
                Guard::Three(Cond::Is(JobSlot::Backup, JobStatus::Absent), Cond::ReadyEnough, Cond::RunWanted),
                "backup absent && ready >= desired"@,
                Seq::empty(),
            ),
            row(
                OdooInstancePhase::BackingUp,
                OdooInstancePhase::Degraded,
                Guard::Three(Cond::Is(JobSlot::Backup, JobStatus::Absent), Cond::SomeReady, Cond::ReadyShort),
                "backup absent && 0 < ready < desired"@,
                Seq::empty(),
            ),
            row(
                OdooInstancePhase::BackingUp,
                OdooInstancePhase::Starting,
                Guard::Three(Cond::Is(JobSlot::Backup, JobStatus::Absent), Cond::NoneReady, Cond::RunWanted),
                "backup absent && ready == 0"@,
                Seq::empty(),
            ),
            row(
                OdooInstancePhase::BackingUp,
                OdooInstancePhase::Stopped,
                Guard::Two(Cond::Is(JobSlot::Backup, JobStatus::Absent), Cond::StopWanted),
                "backup absent && replicas == 0"@,
                Seq::empty(),
            ),
        ],
        OdooInstancePhase::CloningFromSource => seq![
            row(
                OdooInstancePhase::CloningFromSource,
                OdooInstancePhase::Starting,
                Guard::One(Cond::Is(JobSlot::Refresh, JobStatus::Succeeded)),
                "refresh_job succeeded"@,
                seq![TransitionAction::CompleteRefreshJob, TransitionAction::MarkDbInitialized],
            ),
            row(
                OdooInstancePhase::CloningFromSource,
                OdooInstancePhase::InitFailed,
                Guard::One(Cond::Is(JobSlot::Refresh, JobStatus::Failed)),
                "refresh_job failed"@,
                seq![TransitionAction::FailRefreshJob],
            ),
            row(
                OdooInstancePhase::CloningFromSource,
                OdooInstancePhase::Uninitialized,
                Guard::One(Cond::Is(JobSlot::Refresh, JobStatus::Absent)),
                "refresh_job absent"@,
                Seq::empty(),
            ),
        ],
        OdooInstancePhase::Upgrading => seq![
            row(
                OdooInstancePhase::Upgrading,
                OdooInstancePhase::Starting,
                Guard::One(Cond::Is(JobSlot::Upgrade, JobStatus::Succeeded)),
                "upgrade_job succeeded"@,
                seq![TransitionAction::CompleteUpgradeJob],
            ),
            row(
                OdooInstancePhase::Upgrading,
                OdooInstancePhase::Starting,
                Guard::One(Cond::Is(JobSlot::Upgrade, JobStatus::Failed)),
                "upgrade_job failed"@,
                seq![TransitionAction::FailUpgradeJob],
            ),
            row(
                OdooInstancePhase::Upgrading,
                OdooInstancePhase::Starting,
                Guard::One(Cond::Is(JobSlot::Upgrade, JobStatus::Absent)),
                "upgrade_job absent"@,
                Seq::empty(),
            ),
        ],
        OdooInstancePhase::Restoring => seq![
            // A failed restore has dropped the database. The pods stay down, and the instance counts as
            // uninitialised.
            row(
                OdooInstancePhase::Restoring,
                OdooInstancePhase::Starting,
                Guard::One(Cond::Is(JobSlot::Restore, JobStatus::Succeeded)),
                "restore_job succeeded"@,
                seq![TransitionAction::CompleteRestoreJob, TransitionAction::MarkDbInitialized],
            ),
            row(
                OdooInstancePhase::Restoring,
                OdooInstancePhase::Uninitialized,
                Guard::One(Cond::Is(JobSlot::Restore, JobStatus::Failed)),
                "restore_job failed"@,
                seq![TransitionAction::FailRestoreJob, TransitionAction::MarkDbUninitialized],
            ),
            row(
                OdooInstancePhase::Restoring,
                OdooInstancePhase::Starting,
                Guard::One(Cond::Is(JobSlot::Restore, JobStatus::Absent)),
                "restore_job absent"@,
                Seq::empty(),
            ),
        ],
        OdooInstancePhase::Stopped => seq![
            row(
                OdooInstancePhase::Stopped,
                OdooInstancePhase::MigratingFilestore,
                Guard::One(Cond::ClassMismatch),
                "storage_class_mismatch"@,
                seq![TransitionAction::BeginFilestoreMigration],
            ),
            row(
                OdooInstancePhase::Stopped,
                OdooInstancePhase::MigratingDatabase,
                Guard::One(Cond::ClusterMismatch),
                "cluster_mismatch"@,
                seq![TransitionAction::BeginDatabaseMigration],
            ),
            row(
                OdooInstancePhase::Stopped,
                OdooInstancePhase::Restoring,
                Guard::One(Cond::Present(JobSlot::Restore)),
                "restore_job present"@,
                Seq::empty(),
            ),
            row(
                OdooInstancePhase::Stopped,
                OdooInstancePhase::CloningFromSource,
                Guard::One(Cond::Present(JobSlot::Refresh)),
                "refresh_job present"@,
                Seq::empty(),
            ),
            row(
                OdooInstancePhase::Stopped,
                OdooInstancePhase::Upgrading,
                Guard::One(Cond::UpgradeDue),
                "upgrade_job ready"@,
                Seq::empty(),
            ),
            row(
                OdooInstancePhase::Stopped,
                OdooInstancePhase::Starting,
                Guard::One(Cond::RunWanted),
                "replicas > 0"@,
                Seq::empty(),
            ),
        ],
        OdooInstancePhase::MigratingFilestore => seq![
            row(
                OdooInstancePhase::MigratingFilestore,
                OdooInstancePhase::FinalizingFilestoreMigration,
                Guard::One(Cond::Is(JobSlot::Migration, JobStatus::Succeeded)),
                "migration_job succeeded"@,
                seq![TransitionAction::CompleteFilestoreMigration],
            ),
            row(
                OdooInstancePhase::MigratingFilestore,
                OdooInstancePhase::Starting,
                Guard::Two(Cond::Lost(JobSlot::Migration), Cond::RunWanted),
                "migration_job failed/absent && replicas > 0"@,
                seq![TransitionAction::RollbackFilestoreMigration],
            ),
            row(
                OdooInstancePhase::MigratingFilestore,
                OdooInstancePhase::Stopped,
                Guard::Two(Cond::Lost(JobSlot::Migration), Cond::StopWanted),
                "migration_job failed/absent && replicas == 0"@,
                seq![TransitionAction::RollbackFilestoreMigration],
            ),
        ],
        OdooInstancePhase::FinalizingFilestoreMigration => seq![
            row(
                OdooInstancePhase::FinalizingFilestoreMigration,
                OdooInstancePhase::Starting,
                Guard::Two(Cond::ClassMatch, Cond::RunWanted),
                "pvc rebound && replicas > 0"@,
                seq![TransitionAction::ClearFilestoreMigrationStatus],
            ),
            row(
                OdooInstancePhase::FinalizingFilestoreMigration,
                OdooInstancePhase::Stopped,
                Guard::Two(Cond::ClassMatch, Cond::StopWanted),
                "pvc rebound && replicas == 0"@,
                seq![TransitionAction::ClearFilestoreMigrationStatus],
            ),
        ],
        OdooInstancePhase::MigratingDatabase => seq![
            row(
                OdooInstancePhase::MigratingDatabase,
                OdooInstancePhase::FinalizingDatabaseMigration,
                Guard::One(Cond::Is(JobSlot::DbMigration, JobStatus::Succeeded)),
                "db_migration_job succeeded"@,
                seq![TransitionAction::CompleteDatabaseMigration],
            ),
            row(
                OdooInstancePhase::MigratingDatabase,
                OdooInstancePhase::Starting,
                Guard::Two(Cond::Lost(JobSlot::DbMigration), Cond::RunWanted),
                "db_migration_job failed/absent && replicas > 0"@,
                seq![TransitionAction::RollbackDatabaseMigration],
            ),
            row(
                OdooInstancePhase::MigratingDatabase,
                OdooInstancePhase::Stopped,
                Guard::Two(Cond::Lost(JobSlot::DbMigration), Cond::StopWanted),
                "db_migration_job failed/absent && replicas == 0"@,
                seq![TransitionAction::RollbackDatabaseMigration],
            ),
        ],
        OdooInstancePhase::FinalizingDatabaseMigration => seq![
            row(
                OdooInstancePhase::FinalizingDatabaseMigration,
                OdooInstancePhase::Starting,
                Guard::Two(Cond::ClusterMatch, Cond::RunWanted),
                "cluster switched && replicas > 0"@,
                seq![TransitionAction::ClearDatabaseMigrationStatus],
            ),
            row(
                OdooInstancePhase::FinalizingDatabaseMigration,
                OdooInstancePhase::Stopped,
                Guard::Two(Cond::ClusterMatch, Cond::StopWanted),
                "cluster switched && replicas == 0"@,
                seq![TransitionAction::ClearDatabaseMigrationStatus],
            ),
        ],
        OdooInstancePhase::Error => seq![
            row(
                OdooInstancePhase::Error,
                OdooInstancePhase::Starting,
                Guard::One(Cond::DbInitialized),
                "db_initialized"@,
                Seq::empty(),
            ),
            row(
                OdooInstancePhase::Error,
                OdooInstancePhase::Uninitialized,
                Guard::One(Cond::DbUninitialized),
                "!db_initialized"@,
                Seq::empty(),
            ),
        ],
    }
}

fn no_actions() -> (r: Vec<TransitionAction>)
    ensures
        r@ == Seq::<TransitionAction>::empty(),
{
    Vec::new()
}

fn one_action(a: TransitionAction) -> (r: Vec<TransitionAction>)
    ensures
        r@ == seq![a],
{
    vec![a]
}

fn two_actions(a: TransitionAction, b: TransitionAction) -> (r: Vec<TransitionAction>)
    ensures
        r@ == seq![a, b],
{
    vec![a, b]
}

fn transition(
    from: OdooInstancePhase,
    to: OdooInstancePhase,
    guard: Guard,
    guard_name: &'static str,
    actions: Vec<TransitionAction>,
) -> (r: Transition)
    ensures
        r@ == row(from, to, guard, guard_name@, actions@),
{
    Transition { from, to, guard, guard_name, actions }
}

/// The rows of a list of transitions.
pub open spec fn rows(transitions: Seq<Transition>) -> Seq<Row> {
    transitions.map_values(|t: Transition| t@)
}

/// The ways out of a phase, in the order in which they are tried.
#[verifier::spinoff_prover]
#[verifier::rlimit(60)]
pub fn transitions_from(phase: OdooInstancePhase) -> (r: Vec<Transition>)
    ensures
        rows(r@) == table(phase),
{
    let ways = match phase {
        OdooInstancePhase::Provisioning => vec![
            transition(
                OdooInstancePhase::Provisioning,
                OdooInstancePhase::Uninitialized,
                Guard::One(Cond::DbUninitialized),
                "!db_initialized",
                no_actions(),
            ),
            transition(
                OdooInstancePhase::Provisioning,
                OdooInstancePhase::Starting,
                Guard::One(Cond::DbInitialized),
                "db_initialized",
                no_actions(),
            ),
        ],
        OdooInstancePhase::Uninitialized => vec![
            transition(
                OdooInstancePhase::Uninitialized,
                OdooInstancePhase::Initializing,
                Guard::One(Cond::Present(JobSlot::Init)),
                "init_job present",
                no_actions(),
            ),
            transition(
                OdooInstancePhase::Uninitialized,
                OdooInstancePhase::Restoring,
                Guard::One(Cond::Present(JobSlot::Restore)),
                "restore_job present",
                no_actions(),
            ),
            transition(
                OdooInstancePhase::Uninitialized,
                OdooInstancePhase::CloningFromSource,
                Guard::One(Cond::Present(JobSlot::Refresh)),
                "refresh_job present",
                no_actions(),
            ),
        ],
        OdooInstancePhase::Initializing => vec![
            transition(
                OdooInstancePhase::Initializing,
                OdooInstancePhase::Starting,
                Guard::One(Cond::Is(JobSlot::Init, JobStatus::Succeeded)),
                "init_job succeeded",
                two_actions(TransitionAction::CompleteInitJob, TransitionAction::MarkDbInitialized),
            ),
            transition(
                OdooInstancePhase::Initializing,
                OdooInstancePhase::InitFailed,
                Guard::One(Cond::Is(JobSlot::Init, JobStatus::Failed)),
                "init_job failed",
                one_action(TransitionAction::FailInitJob),
            ),
            transition(
                OdooInstancePhase::Initializing,
                OdooInstancePhase::Uninitialized,
                Guard::One(Cond::Is(JobSlot::Init, JobStatus::Absent)),
                "init_job absent",
                no_actions(),
            ),
        ],
        OdooInstancePhase::InitFailed => vec![
            transition(
                OdooInstancePhase::InitFailed,
                OdooInstancePhase::Initializing,
                Guard::One(Cond::Present(JobSlot::Init)),
                "init_job present",
                no_actions(),
            ),
            transition(
                OdooInstancePhase::InitFailed,
                OdooInstancePhase::Restoring,
                Guard::One(Cond::Present(JobSlot::Restore)),
                "restore_job present",
                no_actions(),
            ),
            transition(
                OdooInstancePhase::InitFailed,
                OdooInstancePhase::CloningFromSource,
                Guard::One(Cond::Present(JobSlot::Refresh)),
                "refresh_job present",
                no_actions(),
            ),
        ],
        OdooInstancePhase::Starting => vec![
            transition(
                OdooInstancePhase::Starting,
                OdooInstancePhase::Stopped,
                Guard::One(Cond::StopWanted),
                "replicas == 0",
                no_actions(),
            ),
            transition(
                OdooInstancePhase::Starting,
                OdooInstancePhase::Restoring,
                Guard::One(Cond::Present(JobSlot::Restore)),
                "restore_job present",
                no_actions(),
            ),
            transition(
                OdooInstancePhase::Starting,
                OdooInstancePhase::CloningFromSource,
                Guard::One(Cond::Present(JobSlot::Refresh)),
                "refresh_job present",
                no_actions(),
            ),
            transition(
                OdooInstancePhase::Starting,
                OdooInstancePhase::Upgrading,
                Guard::One(Cond::UpgradeDue),
                "upgrade_job ready",
                no_actions(),
            ),
            transition(
                OdooInstancePhase::Starting,
                OdooInstancePhase::BackingUp,
                Guard::One(Cond::Present(JobSlot::Backup)),
                "backup_job present",
                no_actions(),
            ),
            transition(
                OdooInstancePhase::Starting,
                OdooInstancePhase::Running,
                Guard::Two(Cond::ReadyEnough, Cond::RunWanted),
                "ready >= desired",
                no_actions(),
            ),
        ],
        OdooInstancePhase::Running => vec![
            transition(
                OdooInstancePhase::Running,
                OdooInstancePhase::MigratingFilestore,
                Guard::One(Cond::ClassMismatch),
                "storage_class_mismatch",
                one_action(TransitionAction::BeginFilestoreMigration),
            ),
            transition(
                OdooInstancePhase::Running,
                OdooInstancePhase::MigratingDatabase,
                Guard::One(Cond::ClusterMismatch),
                "cluster_mismatch",
                one_action(TransitionAction::BeginDatabaseMigration),
            ),
            transition(
                OdooInstancePhase::Running,
                OdooInstancePhase::Stopped,
                Guard::One(Cond::StopWanted),
                "replicas == 0",
                no_actions(),
            ),
            transition(
                OdooInstancePhase::Running,
                OdooInstancePhase::Restoring,
                Guard::One(Cond::Present(JobSlot::Restore)),
                "restore_job present",
                no_actions(),
            ),
            transition(
                OdooInstancePhase::Running,
                OdooInstancePhase::CloningFromSource,
                Guard::One(Cond::Present(JobSlot::Refresh)),
                "refresh_job present",
                no_actions(),
            ),
            transition(
                OdooInstancePhase::Running,
                OdooInstancePhase::Upgrading,
                Guard::One(Cond::UpgradeDue),
                "upgrade_job ready",
                no_actions(),
            ),
            transition(
                OdooInstancePhase::Running,
                OdooInstancePhase::BackingUp,
                Guard::One(Cond::Present(JobSlot::Backup)),
                "backup_job present",
                no_actions(),
            ),
            transition(
                OdooInstancePhase::Running,
                OdooInstancePhase::Degraded,
                Guard::Two(Cond::ReadyShort, Cond::SomeReady),
                "ready < desired && ready > 0",
                no_actions(),
            ),
            transition(
                OdooInstancePhase::Running,
                OdooInstancePhase::Starting,
                Guard::Two(Cond::ReadyShort, Cond::NoneReady),
                "ready == 0",
                no_actions(),
            ),
        ],
        OdooInstancePhase::Degraded => vec![
            transition(
                OdooInstancePhase::Degraded,
                OdooInstancePhase::MigratingFilestore,
                Guard::One(Cond::ClassMismatch),
                "storage_class_mismatch",
                one_action(TransitionAction::BeginFilestoreMigration),
            ),
            transition(
                OdooInstancePhase::Degraded,
                OdooInstancePhase::MigratingDatabase,
                Guard::One(Cond::ClusterMismatch),
                "cluster_mismatch",
                one_action(TransitionAction::BeginDatabaseMigration),
            ),
            transition(
                OdooInstancePhase::Degraded,
                OdooInstancePhase::Stopped,
                Guard::One(Cond::StopWanted),
                "replicas == 0",
                no_actions(),
            ),
            transition(
                OdooInstancePhase::Degraded,
                OdooInstancePhase::Restoring,
                Guard::One(Cond::Present(JobSlot::Restore)),
                "restore_job present",
                no_actions(),
            ),
            transition(
                OdooInstancePhase::Degraded,
                OdooInstancePhase::CloningFromSource,
                Guard::One(Cond::Present(JobSlot::Refresh)),
                "refresh_job present",
                no_actions(),
            ),
            transition(
                OdooInstancePhase::Degraded,
                OdooInstancePhase::Upgrading,
                Guard::One(Cond::UpgradeDue),
                "upgrade_job ready",
                no_actions(),
            ),
            transition(
                OdooInstancePhase::Degraded,
                OdooInstancePhase::BackingUp,
                Guard::One(Cond::Present(JobSlot::Backup)),
                "backup_job present",
                no_actions(),
            ),
            transition(
                OdooInstancePhase::Degraded,
                OdooInstancePhase::Running,
                Guard::One(Cond::ReadyEnough),
                "ready >= desired",
                no_actions(),
            ),
            transition(
                OdooInstancePhase::Degraded,
                OdooInstancePhase::Starting,
                Guard::One(Cond::NoneReady),
                "ready == 0",
                no_actions(),
            ),
        ],
        OdooInstancePhase::BackingUp => vec![
            transition(
                OdooInstancePhase::BackingUp,
                OdooInstancePhase::BackingUp,
                Guard::Two(Cond::Is(JobSlot::Backup, JobStatus::Succeeded), Cond::AnotherBackupPending),
                "backup succeeded && another pending",
                one_action(TransitionAction::CompleteBackupJob),
            ),
            transition(
                OdooInstancePhase::BackingUp,
                OdooInstancePhase::BackingUp,
                Guard::Two(Cond::Is(JobSlot::Backup, JobStatus::Failed), Cond::AnotherBackupPending),
                "backup failed && another pending",
                one_action(TransitionAction::FailBackupJob),
            ),
            transition(
                OdooInstancePhase::BackingUp,
                OdooInstancePhase::Stopped,
                Guard::Two(Cond::Is(JobSlot::Backup, JobStatus::Succeeded), Cond::StopWanted),
                "backup succeeded && replicas == 0",
                one_action(TransitionAction::CompleteBackupJob),
            ),
            transition(
                OdooInstancePhase::BackingUp,
                OdooInstancePhase::Stopped,
                Guard::Two(Cond::Is(JobSlot::Backup, JobStatus::Failed), Cond::StopWanted),
                "backup failed && replicas == 0",
                one_action(TransitionAction::FailBackupJob),
            ),
            transition(
                OdooInstancePhase::BackingUp,
                OdooInstancePhase::Running,
                Guard::Two(Cond::Is(JobSlot::Backup, JobStatus::Succeeded), Cond::ReadyEnough),
                "backup succeeded && ready >= desired",
                one_action(TransitionAction::CompleteBackupJob),
            ),
            transition(
                OdooInstancePhase::BackingUp,
                OdooInstancePhase::Running,
                Guard::Two(Cond::Is(JobSlot::Backup, JobStatus::Failed), Cond::ReadyEnough),
                "backup failed && ready >= desired",
                one_action(TransitionAction::FailBackupJob),
            ),
            transition(
                OdooInstancePhase::BackingUp,
                OdooInstancePhase::Degraded,
                Guard::Three(Cond::Is(JobSlot::Backup, JobStatus::Succeeded), Cond::SomeReady, Cond::ReadyShort),
                "backup succeeded && 0 < ready < desired",
                one_action(TransitionAction::CompleteBackupJob),
            ),
            transition(
                OdooInstancePhase::BackingUp,
                OdooInstancePhase::Degraded,
                Guard::Three(Cond::Is(JobSlot::Backup, JobStatus::Failed), Cond::SomeReady, Cond::ReadyShort),
                "backup failed && 0 < ready < desired",
                one_action(TransitionAction::FailBackupJob),
            ),
            transition(
                OdooInstancePhase::BackingUp,
                OdooInstancePhase::Starting,
                Guard::Three(Cond::Is(JobSlot::Backup, JobStatus::Succeeded), Cond::NoneReady, Cond::RunWanted),
                "backup succeeded && ready == 0",
                one_action(TransitionAction::CompleteBackupJob),
            ),
            transition(
                OdooInstancePhase::BackingUp,
                OdooInstancePhase::Starting,
                Guard::Three(Cond::Is(JobSlot::Backup, JobStatus::Failed), Cond::NoneReady, Cond::RunWanted),
                "backup failed && ready == 0",
                one_action(TransitionAction::FailBackupJob),
            ),
            transition(
                OdooInstancePhase::BackingUp,
                OdooInstancePhase::Running,
                Guard::Three(Cond::Is(JobSlot::Backup, JobStatus::Absent), Cond::ReadyEnough, Cond::RunWanted),
                "backup absent && ready >= desired",
                no_actions(),
            ),
            transition(
                OdooInstancePhase::BackingUp,
                OdooInstancePhase::Degraded,
                Guard::Three(Cond::Is(JobSlot::Backup, JobStatus::Absent), Cond::SomeReady, Cond::ReadyShort),
                "backup absent && 0 < ready < desired",
                no_actions(),
            ),
            transition(
                OdooInstancePhase::BackingUp,
                OdooInstancePhase::Starting,
                Guard::Three(Cond::Is(JobSlot::Backup, JobStatus::Absent), Cond::NoneReady, Cond::RunWanted),
                "backup absent && ready == 0",
                no_actions(),
            ),
            transition(
                OdooInstancePhase::BackingUp,
                OdooInstancePhase::Stopped,
                Guard::Two(Cond::Is(JobSlot::Backup, JobStatus::Absent), Cond::StopWanted),
                "backup absent && replicas == 0",
                no_actions(),
            ),
        ],
        OdooInstancePhase::CloningFromSource => vec![
            transition(
                OdooInstancePhase::CloningFromSource,
                OdooInstancePhase::Starting,
                Guard::One(Cond::Is(JobSlot::Refresh, JobStatus::Succeeded)),
                "refresh_job succeeded",
                two_actions(TransitionAction::CompleteRefreshJob, TransitionAction::MarkDbInitialized),
            ),
            transition(
                OdooInstancePhase::CloningFromSource,
                OdooInstancePhase::InitFailed,
                Guard::One(Cond::Is(JobSlot::Refresh, JobStatus::Failed)),
                "refresh_job failed",
                one_action(TransitionAction::FailRefreshJob),
            ),
            transition(
                OdooInstancePhase::CloningFromSource,
                OdooInstancePhase::Uninitialized,
                Guard::One(Cond::Is(JobSlot::Refresh, JobStatus::Absent)),
                "refresh_job absent",
                no_actions(),
            ),
        ],
        OdooInstancePhase::Upgrading => vec![
            transition(
                OdooInstancePhase::Upgrading,
                OdooInstancePhase::Starting,
                Guard::One(Cond::Is(JobSlot::Upgrade, JobStatus::Succeeded)),
                "upgrade_job succeeded",
                one_action(TransitionAction::CompleteUpgradeJob),
            ),
            transition(
                OdooInstancePhase::Upgrading,
                OdooInstancePhase::Starting,
                Guard::One(Cond::Is(JobSlot::Upgrade, JobStatus::Failed)),
                "upgrade_job failed",
                one_action(TransitionAction::FailUpgradeJob),
            ),
            transition(
                OdooInstancePhase::Upgrading,
                OdooInstancePhase::Starting,
                Guard::One(Cond::Is(JobSlot::Upgrade, JobStatus::Absent)),
                "upgrade_job absent",
                no_actions(),
            ),
        ],
        OdooInstancePhase::Restoring => vec![
            transition(
                OdooInstancePhase::Restoring,
                OdooInstancePhase::Starting,
                Guard::One(Cond::Is(JobSlot::Restore, JobStatus::Succeeded)),
                "restore_job succeeded",
                two_actions(TransitionAction::CompleteRestoreJob, TransitionAction::MarkDbInitialized),
            ),
            transition(
                OdooInstancePhase::Restoring,
                OdooInstancePhase::Uninitialized,
                Guard::One(Cond::Is(JobSlot::Restore, JobStatus::Failed)),
                "restore_job failed",
                two_actions(TransitionAction::FailRestoreJob, TransitionAction::MarkDbUninitialized),
            ),
            transition(
                OdooInstancePhase::Restoring,
                OdooInstancePhase::Starting,
                Guard::One(Cond::Is(JobSlot::Restore, JobStatus::Absent)),
                "restore_job absent",
                no_actions(),
            ),
        ],
        OdooInstancePhase::Stopped => vec![
            transition(
                OdooInstancePhase::Stopped,
                OdooInstancePhase::MigratingFilestore,
                Guard::One(Cond::ClassMismatch),
                "storage_class_mismatch",
                one_action(TransitionAction::BeginFilestoreMigration),
            ),
            transition(
                OdooInstancePhase::Stopped,
                OdooInstancePhase::MigratingDatabase,
                Guard::One(Cond::ClusterMismatch),
                "cluster_mismatch",
                one_action(TransitionAction::BeginDatabaseMigration),
            ),
            transition(
                OdooInstancePhase::Stopped,
                OdooInstancePhase::Restoring,
                Guard::One(Cond::Present(JobSlot::Restore)),
                "restore_job present",
                no_actions(),
            ),
            transition(
                OdooInstancePhase::Stopped,
                OdooInstancePhase::CloningFromSource,
                Guard::One(Cond::Present(JobSlot::Refresh)),
                "refresh_job present",
                no_actions(),
            ),
            transition(
                OdooInstancePhase::Stopped,
                OdooInstancePhase::Upgrading,
                Guard::One(Cond::UpgradeDue),
                "upgrade_job ready",
                no_actions(),
            ),
            transition(
                OdooInstancePhase::Stopped,
                OdooInstancePhase::Starting,
                Guard::One(Cond::RunWanted),
                "replicas > 0",
                no_actions(),
            ),
        ],
        OdooInstancePhase::MigratingFilestore => vec![
            transition(
                OdooInstancePhase::MigratingFilestore,
                OdooInstancePhase::FinalizingFilestoreMigration,
                Guard::One(Cond::Is(JobSlot::Migration, JobStatus::Succeeded)),
                "migration_job succeeded",
                one_action(TransitionAction::CompleteFilestoreMigration),
            ),
            transition(
                OdooInstancePhase::MigratingFilestore,
                OdooInstancePhase::Starting,
                Guard::Two(Cond::Lost(JobSlot::Migration), Cond::RunWanted),
                "migration_job failed/absent && replicas > 0",
                one_action(TransitionAction::RollbackFilestoreMigration),
            ),
            transition(
                OdooInstancePhase::MigratingFilestore,
                OdooInstancePhase::Stopped,
                Guard::Two(Cond::Lost(JobSlot::Migration), Cond::StopWanted),
                "migration_job failed/absent && replicas == 0",
                one_action(TransitionAction::RollbackFilestoreMigration),
            ),
        ],
        OdooInstancePhase::FinalizingFilestoreMigration => vec![
            transition(
                OdooInstancePhase::FinalizingFilestoreMigration,
                OdooInstancePhase::Starting,
                Guard::Two(Cond::ClassMatch, Cond::RunWanted),
                "pvc rebound && replicas > 0",
                one_action(TransitionAction::ClearFilestoreMigrationStatus),
            ),
            transition(
                OdooInstancePhase::FinalizingFilestoreMigration,
                OdooInstancePhase::Stopped,
                Guard::Two(Cond::ClassMatch, Cond::StopWanted),
                "pvc rebound && replicas == 0",
                one_action(TransitionAction::ClearFilestoreMigrationStatus),
            ),
        ],
        OdooInstancePhase::MigratingDatabase => vec![
            transition(
                OdooInstancePhase::MigratingDatabase,
                OdooInstancePhase::FinalizingDatabaseMigration,
                Guard::One(Cond::Is(JobSlot::DbMigration, JobStatus::Succeeded)),
                "db_migration_job succeeded",
                one_action(TransitionAction::CompleteDatabaseMigration),
            ),
            transition(
                OdooInstancePhase::MigratingDatabase,
                OdooInstancePhase::Starting,
                Guard::Two(Cond::Lost(JobSlot::DbMigration), Cond::RunWanted),
                "db_migration_job failed/absent && replicas > 0",
                one_action(TransitionAction::RollbackDatabaseMigration),
            ),
            transition(
                OdooInstancePhase::MigratingDatabase,
                OdooInstancePhase::Stopped,
                Guard::Two(Cond::Lost(JobSlot::DbMigration), Cond::StopWanted),
                "db_migration_job failed/absent && replicas == 0",
                one_action(TransitionAction::RollbackDatabaseMigration),
            ),
        ],
        OdooInstancePhase::FinalizingDatabaseMigration => vec![
            transition(
                OdooInstancePhase::FinalizingDatabaseMigration,
                OdooInstancePhase::Starting,
                Guard::Two(Cond::ClusterMatch, Cond::RunWanted),
                "cluster switched && replicas > 0",
                one_action(TransitionAction::ClearDatabaseMigrationStatus),
            ),
            transition(
                OdooInstancePhase::FinalizingDatabaseMigration,
                OdooInstancePhase::Stopped,
                Guard::Two(Cond::ClusterMatch, Cond::StopWanted),
                "cluster switched && replicas == 0",
                one_action(TransitionAction::ClearDatabaseMigrationStatus),
            ),
        ],
        OdooInstancePhase::Error => vec![
            transition(
                OdooInstancePhase::Error,
                OdooInstancePhase::Starting,
                Guard::One(Cond::DbInitialized),
                "db_initialized",
                no_actions(),
            ),
            transition(
                OdooInstancePhase::Error,
                OdooInstancePhase::Uninitialized,
                Guard::One(Cond::DbUninitialized),
                "!db_initialized",
                no_actions(),
            ),
        ],
    };
    proof {
        assert(rows(ways@) =~= table(phase));
    }
    ways
}

/// The first row from `k` on whose guard holds.
pub open spec fn first_match(
    rows: Seq<Row>,
    k: int,
    i: &OdooInstance,
    s: &ReconcileSnapshot,
    now: Moment,
) -> Option<Row>
    decreases rows.len() - k,
{
    if k < 0 || k >= rows.len() {
        None
    } else if guard_holds(rows[k].guard, i, s, now) {
        Some(rows[k])
    } else {
        first_match(rows, k + 1, i, s, now)
    }
}

/// The transition that an instance takes, if any.
pub open spec fn next_row(i: &OdooInstance, s: &ReconcileSnapshot, now: Moment) -> Option<Row> {
    first_match(table(i.current_phase()), 0, i, s, now)
}

/// The transition that an instance takes at the moment `now`, if any: the first one out of its
/// phase whose guard holds.
pub fn next_transition(i: &OdooInstance, s: &ReconcileSnapshot, now: Moment) -> (r: Option<
    Transition,
>)
    ensures
        match next_row(i, s, now) {
            Some(row) => r matches Some(t) && t@ == row,
            None => r is None,
        },
{
    let mut ways = transitions_from(i.phase());
    let ghost all = rows(ways@);
    let mut k: usize = 0;
    while k < ways.len()
        invariant
            k <= ways@.len(),
            all == rows(ways@),
            all == table(i.current_phase()),
            first_match(all, 0, i, s, now) == first_match(all, k as int, i, s, now),
        decreases ways@.len() - k,
    {
        if ways[k].guard.holds(i, s, now) {
            proof {
                assert(all[k as int] == ways@[k as int]@);
            }
            let taken = ways.swap_remove(k);
            return Some(taken);
        }
        k = k + 1;
    }
    None
}

} // verus!
