//! A database that has gone missing after it was initialised.

use vstd::prelude::*;

use crate::controller::patches::{no_instance_change, InstanceStatusPatch, InstanceStatusText};
use crate::controller::snapshot::recorded_initialized;
use crate::crd::odoo_instance::{DatabaseMissingPolicy, OdooInstance};

verus! {

/// What to do about the database of an instance.
#[derive(Debug)]
pub enum MissingDatabase {
    /// There is nothing to do.
    Nothing,
    /// Publish a warning, and leave the rest to humans.
    Warn,
    /// Mark the database uninitialised, so that it is created again.
    Recreate(InstanceStatusPatch),
}

/// The policy of an instance. Nothing is wiped unless it asks for that.
pub open spec fn missing_policy(instance: &OdooInstance) -> DatabaseMissingPolicy {
    match instance.spec.database {
        Some(d) => d.missing_policy,
        None => DatabaseMissingPolicy::Ignore,
    }
}

/// Whether `r` is how a database is reacted to.
pub open spec fn is_reaction(
    r: MissingDatabase,
    instance: &OdooInstance,
    found: Option<bool>,
) -> bool {
    if recorded_initialized(instance) && found == Some(false) {
        match missing_policy(instance) {
            DatabaseMissingPolicy::Ignore => r is Warn,
            DatabaseMissingPolicy::Recreate => r matches MissingDatabase::Recreate(patch)
                && patch@ == (InstanceStatusText {
                db_initialized: Some(false),
                ..no_instance_change()
            }),
        }
    } else {
        r is Nothing
    }
}

/// Reacts to a database that is gone though it was initialised. `exists` says whether it is
/// there, where that could be found out.
pub fn react_to_missing_database(instance: &OdooInstance, exists: Option<bool>) -> (r:
    MissingDatabase)
    ensures
        is_reaction(r, instance, exists),
{
    let initialized = match &instance.status {
        Some(s) => s.db_initialized,
        None => false,
    };
    let gone = match exists {
        Some(there) => !there,
        None => false,
    };
    if !initialized || !gone {
        return MissingDatabase::Nothing;
    }
    let policy = match &instance.spec.database {
        Some(d) => d.missing_policy,
        None => DatabaseMissingPolicy::Ignore,
    };
    match policy {
        DatabaseMissingPolicy::Ignore => MissingDatabase::Warn,
        DatabaseMissingPolicy::Recreate => {
            let mut patch = InstanceStatusPatch::nothing();
            patch.db_initialized = Some(false);
            MissingDatabase::Recreate(patch)
        },
    }
}

} // verus!
