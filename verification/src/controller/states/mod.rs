//! The states behind the phases.
//!
//! Each phase has outputs that are ensured in every reconcile: what must be so while an instance
//! is in it. They can be ensured again and again.

use vstd::prelude::*;

use crate::controller::helpers::{cron_depl_name, cron_name};
use crate::crd::odoo_instance::{OdooInstance, OdooInstancePhase};
use crate::text::texts;

pub use cloning_from_source::CloningFromSource;
pub use init_failed::InitFailed;
pub use migrating_filestore::MigratingFilestore;
pub use restoring::Restoring;
pub use upgrading::Upgrading;

pub mod cloning_from_source;
pub mod init_failed;
pub mod migrating_filestore;
pub mod restoring;
pub mod upgrading;

verus! {

/// A state of the state machine.
pub trait State {
    /// The phase that the state stands behind.
    spec fn handled(&self) -> OdooInstancePhase;

    /// The phase that the state stands behind.
    fn phase(&self) -> (r: OdooInstancePhase)
        ensures
            r == self.handled(),
    ;
}

/// The instance was just created.
#[derive(Debug)]
pub struct Provisioning;

impl State for Provisioning {
    open spec fn handled(&self) -> OdooInstancePhase {
        OdooInstancePhase::Provisioning
    }

    fn phase(&self) -> (r: OdooInstancePhase) {
        OdooInstancePhase::Provisioning
    }
}

/// The database waits to be initialised.
#[derive(Debug)]
pub struct Uninitialized;

impl State for Uninitialized {
    open spec fn handled(&self) -> OdooInstancePhase {
        OdooInstancePhase::Uninitialized
    }

    fn phase(&self) -> (r: OdooInstancePhase) {
        OdooInstancePhase::Uninitialized
    }
}

/// The database is being initialised.
#[derive(Debug)]
pub struct Initializing;

impl State for Initializing {
    open spec fn handled(&self) -> OdooInstancePhase {
        OdooInstancePhase::Initializing
    }

    fn phase(&self) -> (r: OdooInstancePhase) {
        OdooInstancePhase::Initializing
    }
}

/// The pods are coming up.
#[derive(Debug)]
pub struct Starting;

impl State for Starting {
    open spec fn handled(&self) -> OdooInstancePhase {
        OdooInstancePhase::Starting
    }

    fn phase(&self) -> (r: OdooInstancePhase) {
        OdooInstancePhase::Starting
    }
}

/// All replicas are ready.
#[derive(Debug)]
pub struct Running;

impl State for Running {
    open spec fn handled(&self) -> OdooInstancePhase {
        OdooInstancePhase::Running
    }

    fn phase(&self) -> (r: OdooInstancePhase) {
        OdooInstancePhase::Running
    }
}

/// Some replicas are not ready.
#[derive(Debug)]
pub struct Degraded;

impl State for Degraded {
    open spec fn handled(&self) -> OdooInstancePhase {
        OdooInstancePhase::Degraded
    }

    fn phase(&self) -> (r: OdooInstancePhase) {
        OdooInstancePhase::Degraded
    }
}

/// No replicas are wanted.
#[derive(Debug)]
pub struct Stopped;

impl State for Stopped {
    open spec fn handled(&self) -> OdooInstancePhase {
        OdooInstancePhase::Stopped
    }

    fn phase(&self) -> (r: OdooInstancePhase) {
        OdooInstancePhase::Stopped
    }
}

/// A backup is being taken.
#[derive(Debug)]
pub struct BackingUp;

impl State for BackingUp {
    open spec fn handled(&self) -> OdooInstancePhase {
        OdooInstancePhase::BackingUp
    }

    fn phase(&self) -> (r: OdooInstancePhase) {
        OdooInstancePhase::BackingUp
    }
}

/// The copied filestore is being put in place.
#[derive(Debug)]
pub struct FinalizingFilestoreMigration;

impl State for FinalizingFilestoreMigration {
    open spec fn handled(&self) -> OdooInstancePhase {
        OdooInstancePhase::FinalizingFilestoreMigration
    }

    fn phase(&self) -> (r: OdooInstancePhase) {
        OdooInstancePhase::FinalizingFilestoreMigration
    }
}

/// The database is being copied to another cluster.
#[derive(Debug)]
pub struct MigratingDatabase;

impl State for MigratingDatabase {
    open spec fn handled(&self) -> OdooInstancePhase {
        OdooInstancePhase::MigratingDatabase
    }

    fn phase(&self) -> (r: OdooInstancePhase) {
        OdooInstancePhase::MigratingDatabase
    }
}

/// The copied database is being put in place.
#[derive(Debug)]
pub struct FinalizingDatabaseMigration;

impl State for FinalizingDatabaseMigration {
    open spec fn handled(&self) -> OdooInstancePhase {
        OdooInstancePhase::FinalizingDatabaseMigration
    }

    fn phase(&self) -> (r: OdooInstancePhase) {
        OdooInstancePhase::FinalizingDatabaseMigration
    }
}

/// The instance is in error.
#[derive(Debug)]
pub struct Error;

impl State for Error {
    open spec fn handled(&self) -> OdooInstancePhase {
        OdooInstancePhase::Error
    }

    fn phase(&self) -> (r: OdooInstancePhase) {
        OdooInstancePhase::Error
    }
}

/// The state behind some phase.
#[derive(Debug)]
pub enum AnyState {
    Provisioning(Provisioning),
    Uninitialized(Uninitialized),
    Initializing(Initializing),
    InitFailed(InitFailed),
    Starting(Starting),
    Running(Running),
    Degraded(Degraded),
    Stopped(Stopped),
    Upgrading(Upgrading),
    Restoring(Restoring),
    CloningFromSource(CloningFromSource),
    BackingUp(BackingUp),
    MigratingFilestore(MigratingFilestore),
    FinalizingFilestoreMigration(FinalizingFilestoreMigration),
    MigratingDatabase(MigratingDatabase),
    FinalizingDatabaseMigration(FinalizingDatabaseMigration),
    Error(Error),
}

impl State for AnyState {
    open spec fn handled(&self) -> OdooInstancePhase {
        match self {
            AnyState::Provisioning(state) => state.handled(),
            AnyState::Uninitialized(state) => state.handled(),
            AnyState::Initializing(state) => state.handled(),
            AnyState::InitFailed(state) => state.handled(),
            AnyState::Starting(state) => state.handled(),
            AnyState::Running(state) => state.handled(),
            AnyState::Degraded(state) => state.handled(),
            AnyState::Stopped(state) => state.handled(),
            AnyState::Upgrading(state) => state.handled(),
            AnyState::Restoring(state) => state.handled(),
            AnyState::CloningFromSource(state) => state.handled(),
            AnyState::BackingUp(state) => state.handled(),
            AnyState::MigratingFilestore(state) => state.handled(),
            AnyState::FinalizingFilestoreMigration(state) => state.handled(),
            AnyState::MigratingDatabase(state) => state.handled(),
            AnyState::FinalizingDatabaseMigration(state) => state.handled(),
            AnyState::Error(state) => state.handled(),
        }
    }

    fn phase(&self) -> (r: OdooInstancePhase) {
        match self {
            AnyState::Provisioning(state) => state.phase(),
            AnyState::Uninitialized(state) => state.phase(),
            AnyState::Initializing(state) => state.phase(),
            AnyState::InitFailed(state) => state.phase(),
            AnyState::Starting(state) => state.phase(),
            AnyState::Running(state) => state.phase(),
            AnyState::Degraded(state) => state.phase(),
            AnyState::Stopped(state) => state.phase(),
            AnyState::Upgrading(state) => state.phase(),
            AnyState::Restoring(state) => state.phase(),
            AnyState::CloningFromSource(state) => state.phase(),
            AnyState::BackingUp(state) => state.phase(),
            AnyState::MigratingFilestore(state) => state.phase(),
            AnyState::FinalizingFilestoreMigration(state) => state.phase(),
            AnyState::MigratingDatabase(state) => state.phase(),
            AnyState::FinalizingDatabaseMigration(state) => state.phase(),
            AnyState::Error(state) => state.phase(),
        }
    }
}

/// The state behind a phase.
pub fn state_for(phase: &OdooInstancePhase) -> (r: AnyState)
    ensures
        r.handled() == *phase,
{
    match phase {
        OdooInstancePhase::Provisioning => AnyState::Provisioning(Provisioning),
        OdooInstancePhase::Uninitialized => AnyState::Uninitialized(Uninitialized),
        OdooInstancePhase::Initializing => AnyState::Initializing(Initializing),
        OdooInstancePhase::InitFailed => AnyState::InitFailed(InitFailed),
        OdooInstancePhase::Starting => AnyState::Starting(Starting),
        OdooInstancePhase::Running => AnyState::Running(Running),
        OdooInstancePhase::Degraded => AnyState::Degraded(Degraded),
        OdooInstancePhase::Stopped => AnyState::Stopped(Stopped),
        OdooInstancePhase::Upgrading => AnyState::Upgrading(Upgrading),
        OdooInstancePhase::Restoring => AnyState::Restoring(Restoring),
        OdooInstancePhase::CloningFromSource => AnyState::CloningFromSource(CloningFromSource),
        OdooInstancePhase::BackingUp => AnyState::BackingUp(BackingUp),
        OdooInstancePhase::MigratingFilestore => AnyState::MigratingFilestore(MigratingFilestore),
        OdooInstancePhase::FinalizingFilestoreMigration => AnyState::FinalizingFilestoreMigration(FinalizingFilestoreMigration),
        OdooInstancePhase::MigratingDatabase => AnyState::MigratingDatabase(MigratingDatabase),
        OdooInstancePhase::FinalizingDatabaseMigration => AnyState::FinalizingDatabaseMigration(FinalizingDatabaseMigration),
        OdooInstancePhase::Error => AnyState::Error(Error),
    }
}

/// The Deployments of an instance: the web pods, and the pods that run scheduled actions.
pub open spec fn all_deployments(instance: &OdooInstance) -> Seq<Seq<char>> {
    seq![instance.name(), cron_name(instance)]
}

/// The Deployments of an instance: the web pods, and the pods that run scheduled actions.
pub fn both_deployments(instance: &OdooInstance) -> (r: Vec<String>)
    ensures
        texts(r@) == all_deployments(instance),
{
    let names = vec![instance.metadata.name_any(), cron_depl_name(instance)];
    proof {
        assert(texts(names@) =~= seq![instance.name(), cron_name(instance)]);
    }
    names
}

} // verus!
