//! Validating admission webhook for instances.
//!
//! A storage size may not decrease, since a volume cannot shrink. Storage class and
//! database cluster may change, since the operator migrates the data, but not in a
//! phase in which that is unsafe.

use vstd::prelude::*;

use crate::crd::metadata::{or_empty, text_or_empty};
use crate::crd::odoo_instance::{FilestoreSpec, OdooInstance, OdooInstancePhase};
use crate::helpers::{parse_quantity, quantity};
use crate::text::{debug_of, debug_text, join3, join4, opt_text, same_opt_text, same_text, texts};

verus! {

/// A request to admit a change of an instance. On creation there is no old object, on
/// deletion no new one.
#[derive(Debug)]
pub struct AdmissionRequest {
    pub uid: String,
    pub object: Option<OdooInstance>,
    pub old_object: Option<OdooInstance>,
}

/// The answer to an admission request.
#[derive(Debug)]
pub struct AdmissionResponse {
    pub uid: String,
    pub allowed: bool,
    pub message: Option<String>,
    pub warnings: Option<Vec<String>>,
}

/// What is answered to a request.
pub enum Verdict {
    Allow { warnings: Seq<Seq<char>> },
    Deny { message: Seq<char> },
}

impl AdmissionResponse {
    /// Whether the response states the verdict.
    pub open spec fn states(self, verdict: Verdict) -> bool {
        match verdict {
            Verdict::Allow { warnings } => {
                &&& self.allowed
                &&& self.message is None
                &&& self.warnings is None == (warnings.len() == 0)
                &&& self.warnings matches Some(w) ==> texts(w@) == warnings
            },
            Verdict::Deny { message } => {
                &&& !self.allowed
                &&& opt_text(self.message) == Some(message)
                &&& self.warnings is None
            },
        }
    }
}

// ── Ephemeral filestores ────────────────────────────────────────────────────

/// The filestore of an instance that may not exist.
pub open spec fn filestore_of(instance: Option<OdooInstance>) -> Option<FilestoreSpec> {
    match instance {
        Some(i) => i.spec.filestore,
        None => None,
    }
}

/// The storage size that a filestore asks for.
pub open spec fn size_of(filestore: Option<FilestoreSpec>) -> Option<Seq<char>> {
    match filestore {
        Some(f) => opt_text(f.storage_size),
        None => None,
    }
}

/// The storage class that a filestore asks for.
pub open spec fn class_of(filestore: Option<FilestoreSpec>) -> Option<Seq<char>> {
    match filestore {
        Some(f) => opt_text(f.storage_class),
        None => None,
    }
}

/// Whether a filestore is an ephemeral directory.
pub open spec fn is_empty_dir(filestore: Option<FilestoreSpec>) -> bool {
    filestore matches Some(f) && f.empty_dir
}

/// Whether a size or class is set or changed on an ephemeral filestore, where neither
/// has a meaning. What was there before is tolerated.
pub open spec fn clashes(new: Option<FilestoreSpec>, old: Option<FilestoreSpec>) -> bool {
    &&& is_empty_dir(new)
    &&& {
        ||| size_of(new) is Some && size_of(new) != size_of(old)
        ||| class_of(new) is Some && class_of(new) != class_of(old)
    }
}

/// What is said of an ephemeral filestore: that leftover values are ignored, and on the
/// way into it, what it means.
pub open spec fn ephemeral_warnings(
    new: Option<FilestoreSpec>,
    old: Option<FilestoreSpec>,
) -> Seq<Seq<char>> {
    let leftover = if is_empty_dir(new) && (size_of(new) is Some || class_of(new) is Some) {
        seq![
            "spec.filestore: storageSize/storageClass are ignored while emptyDir is true and will be removed by the operator"@,
        ]
    } else {
        Seq::empty()
    };
    let entering = if is_empty_dir(new) && !is_empty_dir(old) {
        seq![
            "spec.filestore.emptyDir: the filestore is now per-pod and ephemeral; an existing filestore PVC is retained but no longer mounted. This declares that attachments live in external storage and sessions in a non-filesystem store — backups of this instance are database-only"@,
        ]
    } else {
        Seq::empty()
    };
    leftover + entering
}

// ── Quantities ──────────────────────────────────────────────────────────────

/// Why a storage size may not change from `old` to `new`, if it may not.
pub open spec fn shrink_message(old: Seq<char>, new: Seq<char>) -> Option<Seq<char>> {
    match quantity(old) {
        Err(e) => Some("invalid old quantity "@ + debug_text(old) + ": "@ + e),
        Ok(old_bytes) => match quantity(new) {
            Err(e) => Some("invalid new quantity "@ + debug_text(new) + ": "@ + e),
            Ok(new_bytes) => if new_bytes < old_bytes {
                Some(
                    "spec.filestore.storageSize: cannot decrease storage size from "@ + old
                        + " to "@ + new,
                )
            } else {
                None
            },
        },
    }
}

/// Compares two storage quantities and refuses a decrease.
pub fn compare_quantities(old: &str, new: &str) -> (r: Result<(), String>)
    ensures
        match shrink_message(old@, new@) {
            Some(message) => r matches Err(m) && m@ == message,
            None => r is Ok,
        },
{
    let old_bytes: u64 = match parse_quantity(old) {
        Ok(bytes) => bytes,
        Err(e) => {
            let shown = debug_of(old);
            return Err(join4("invalid old quantity ", shown.as_str(), ": ", e.as_str()));
        },
    };
    let new_bytes: u64 = match parse_quantity(new) {
        Ok(bytes) => bytes,
        Err(e) => {
            let shown = debug_of(new);
            return Err(join4("invalid new quantity ", shown.as_str(), ": ", e.as_str()));
        },
    };
    if new_bytes < old_bytes {
        return Err(
            join4(
                "spec.filestore.storageSize: cannot decrease storage size from ",
                old,
                " to ",
                new,
            ),
        );
    }
    Ok(())
}

// ── Updates ─────────────────────────────────────────────────────────────────

/// The recorded phase of an instance.
pub open spec fn recorded_phase(instance: OdooInstance) -> Option<OdooInstancePhase> {
    match instance.status {
        Some(s) => s.phase,
        None => None,
    }
}

/// The database cluster that an instance asks for, empty where it asks for none.
pub open spec fn cluster_text(instance: OdooInstance) -> Seq<char> {
    match instance.spec.database {
        Some(d) => text_or_empty(d.cluster),
        None => Seq::empty(),
    }
}

/// The storage class that an instance asks for, empty where it asks for none.
pub open spec fn class_text(instance: OdooInstance) -> Seq<char> {
    match instance.spec.filestore {
        Some(f) => text_or_empty(f.storage_class),
        None => Seq::empty(),
    }
}

/// The cluster that a running migration came from.
pub open spec fn previous_cluster(instance: OdooInstance) -> Option<Seq<char>> {
    match instance.status {
        Some(s) => opt_text(s.migration_previous_cluster),
        None => None,
    }
}

/// The storage class that a running migration came from.
pub open spec fn previous_class(instance: OdooInstance) -> Option<Seq<char>> {
    match instance.status {
        Some(s) => opt_text(s.migration_previous_storage_class),
        None => None,
    }
}

/// The phases in which neither the database cluster nor the storage class may change.
pub open spec fn is_unsafe_phase(phase: OdooInstancePhase) -> bool {
    ||| phase == OdooInstancePhase::Restoring
    ||| phase == OdooInstancePhase::Upgrading
    ||| phase == OdooInstancePhase::BackingUp
    ||| phase == OdooInstancePhase::MigratingFilestore
    ||| phase == OdooInstancePhase::FinalizingFilestoreMigration
    ||| phase == OdooInstancePhase::MigratingDatabase
    ||| phase == OdooInstancePhase::FinalizingDatabaseMigration
    ||| phase == OdooInstancePhase::Uninitialized
}

/// Whether a value that matters is replaced by another.
pub open spec fn changes(old: Seq<char>, new: Seq<char>) -> bool {
    old.len() > 0 && new.len() > 0 && old != new
}

/// Why the storage size may not change, if it may not.
pub open spec fn size_denial(old: OdooInstance, new: OdooInstance) -> Option<Seq<char>> {
    match (size_of(old.spec.filestore), size_of(new.spec.filestore)) {
        (Some(old_size), Some(new_size)) => if old_size.len() > 0 && new_size.len() > 0 {
            shrink_message(old_size, new_size)
        } else {
            None
        },
        _ => None,
    }
}

/// Why the database cluster may not change, if it may not. The way back to the cluster
/// that a migration came from is always open.
pub open spec fn cluster_denial(old: OdooInstance, new: OdooInstance) -> Option<Seq<char>> {
    match recorded_phase(old) {
        Some(phase) => if changes(cluster_text(old), cluster_text(new)) && previous_cluster(old)
            != Some(cluster_text(new)) && is_unsafe_phase(phase) {
            Some(
                "spec.database.cluster: cannot change cluster while instance is in "@
                    + phase.text() + " phase"@,
            )
        } else {
            None
        },
        None => None,
    }
}

/// Why the storage class may not change, if it may not. The way back to the class that a
/// migration came from is always open.
pub open spec fn class_denial(old: OdooInstance, new: OdooInstance) -> Option<Seq<char>> {
    match recorded_phase(old) {
        Some(phase) => if changes(class_text(old), class_text(new)) && previous_class(old) != Some(
            class_text(new),
        ) && is_unsafe_phase(phase) {
            Some(
                "spec.filestore.storageClass: cannot change storage class while instance is in "@
                    + phase.text() + " phase"@,
            )
        } else {
            None
        },
        None => None,
    }
}

/// Why an update is refused, if it is.
pub open spec fn update_denial(old: OdooInstance, new: OdooInstance) -> Option<Seq<char>> {
    if size_denial(old, new) is Some {
        size_denial(old, new)
    } else if cluster_denial(old, new) is Some {
        cluster_denial(old, new)
    } else {
        class_denial(old, new)
    }
}

/// What is answered to a request.
pub open spec fn verdict(object: Option<OdooInstance>, old_object: Option<OdooInstance>) -> Verdict {
    let new = filestore_of(object);
    let old = filestore_of(old_object);
    let denial = match (old_object, object) {
        (Some(o), Some(n)) => update_denial(o, n),
        _ => None,
    };
    if clashes(new, old) {
        Verdict::Deny {
            message: "spec.filestore: storageSize/storageClass cannot be set together with emptyDir: true"@,
        }
    } else {
        match denial {
            Some(message) => Verdict::Deny { message },
            None => Verdict::Allow { warnings: ephemeral_warnings(new, old) },
        }
    }
}

// ── Validation ──────────────────────────────────────────────────────────────

fn allow(uid: &String, warnings: Vec<String>) -> (r: AdmissionResponse)
    ensures
        r.uid == *uid,
        r.states(Verdict::Allow { warnings: texts(warnings@) }),
{
    let none: bool = warnings.is_empty();
    let attached = if none {
        None
    } else {
        Some(warnings)
    };
    AdmissionResponse { uid: uid.clone(), allowed: true, message: None, warnings: attached }
}

fn deny(uid: &String, message: String) -> (r: AdmissionResponse)
    ensures
        r.uid == *uid,
        r.states(Verdict::Deny { message: message@ }),
{
    AdmissionResponse { uid: uid.clone(), allowed: false, message: Some(message), warnings: None }
}

fn filestore_ref(instance: &Option<OdooInstance>) -> (r: Option<&FilestoreSpec>)
    ensures
        r is Some == filestore_of(*instance) is Some,
        r matches Some(f) ==> filestore_of(*instance) == Some(*f),
{
    match instance {
        Some(i) => i.spec.filestore.as_ref(),
        None => None,
    }
}

fn size_or_class_clashes(new: &FilestoreSpec, old: Option<&FilestoreSpec>) -> (r: bool)
    requires
        new.empty_dir,
    ensures
        r == clashes(
            Some(*new),
            match old {
                Some(o) => Some(*o),
                None => None,
            },
        ),
{
    match old {
        Some(o) => (new.storage_size.is_some() && !same_opt_text(
            &new.storage_size,
            &o.storage_size,
        )) || (new.storage_class.is_some() && !same_opt_text(&new.storage_class, &o.storage_class)),
        None => new.storage_size.is_some() || new.storage_class.is_some(),
    }
}

fn size_change(old: &OdooInstance, new: &OdooInstance) -> (r: Result<(), String>)
    ensures
        match size_denial(*old, *new) {
            Some(message) => r matches Err(m) && m@ == message,
            None => r is Ok,
        },
{
    if let (Some(old_filestore), Some(new_filestore)) = (&old.spec.filestore, &new.spec.filestore) {
        if let (Some(old_size), Some(new_size)) = (
            &old_filestore.storage_size,
            &new_filestore.storage_size,
        ) {
            if !old_size.as_str().is_empty() && !new_size.as_str().is_empty() {
                return compare_quantities(old_size.as_str(), new_size.as_str());
            }
        }
    }
    Ok(())
}

fn phase_of(instance: &OdooInstance) -> (r: Option<OdooInstancePhase>)
    ensures
        r == recorded_phase(*instance),
{
    match &instance.status {
        Some(s) => s.phase,
        None => None,
    }
}

fn unsafe_phase(phase: OdooInstancePhase) -> (r: bool)
    ensures
        r == is_unsafe_phase(phase),
{
    match phase {
        OdooInstancePhase::Restoring
        | OdooInstancePhase::Upgrading
        | OdooInstancePhase::BackingUp
        | OdooInstancePhase::MigratingFilestore
        | OdooInstancePhase::FinalizingFilestoreMigration
        | OdooInstancePhase::MigratingDatabase
        | OdooInstancePhase::FinalizingDatabaseMigration
        | OdooInstancePhase::Uninitialized => true,
        _ => false,
    }
}

fn cluster_change(old: &OdooInstance, new: &OdooInstance) -> (r: Result<(), String>)
    ensures
        match cluster_denial(*old, *new) {
            Some(message) => r matches Err(m) && m@ == message,
            None => r is Ok,
        },
{
    let old_cluster = match &old.spec.database {
        Some(d) => or_empty(&d.cluster),
        None => String::new(),
    };
    let new_cluster = match &new.spec.database {
        Some(d) => or_empty(&d.cluster),
        None => String::new(),
    };
    let is_rollback = match &old.status {
        Some(s) => match &s.migration_previous_cluster {
            Some(previous) => same_text(previous.as_str(), new_cluster.as_str()),
            None => false,
        },
        None => false,
    };
    if old_cluster.as_str().is_empty() || new_cluster.as_str().is_empty() || same_text(
        old_cluster.as_str(),
        new_cluster.as_str(),
    ) || is_rollback {
        return Ok(());
    }
    match phase_of(old) {
        Some(phase) => {
            if unsafe_phase(phase) {
                Err(
                    join3(
                        "spec.database.cluster: cannot change cluster while instance is in ",
                        phase.as_str(),
                        " phase",
                    ),
                )
            } else {
                Ok(())
            }
        },
        None => Ok(()),
    }
}

fn class_change(old: &OdooInstance, new: &OdooInstance) -> (r: Result<(), String>)
    ensures
        match class_denial(*old, *new) {
            Some(message) => r matches Err(m) && m@ == message,
            None => r is Ok,
        },
{
    let old_class = match &old.spec.filestore {
        Some(f) => or_empty(&f.storage_class),
        None => String::new(),
    };
    let new_class = match &new.spec.filestore {
        Some(f) => or_empty(&f.storage_class),
        None => String::new(),
    };
    let is_rollback = match &old.status {
        Some(s) => match &s.migration_previous_storage_class {
            Some(previous) => same_text(previous.as_str(), new_class.as_str()),
            None => false,
        },
        None => false,
    };
    if old_class.as_str().is_empty() || new_class.as_str().is_empty() || same_text(
        old_class.as_str(),
        new_class.as_str(),
    ) || is_rollback {
        return Ok(());
    }
    match phase_of(old) {
        Some(phase) => {
            if unsafe_phase(phase) {
                Err(
                    join3(
                        "spec.filestore.storageClass: cannot change storage class while instance is in ",
                        phase.as_str(),
                        " phase",
                    ),
                )
            } else {
                Ok(())
            }
        },
        None => Ok(()),
    }
}

/// Whether `r` answers a request.
pub open spec fn answers(r: AdmissionResponse, req: AdmissionRequest) -> bool {
    &&& r.uid == req.uid
    &&& r.states(verdict(req.object, req.old_object))
}

/// Validates an admission request.
pub fn validate(req: AdmissionRequest) -> (r: AdmissionResponse)
    ensures
        answers(r, req),
{
    let mut warnings: Vec<String> = Vec::new();
    let new_filestore = filestore_ref(&req.object);
    let old_filestore = filestore_ref(&req.old_object);
    if let Some(new) = new_filestore {
        if new.empty_dir {
            if size_or_class_clashes(new, old_filestore) {
                return deny(
                    &req.uid,
                    "spec.filestore: storageSize/storageClass cannot be set together with emptyDir: true".to_owned(),
                );
            }
            if new.storage_size.is_some() || new.storage_class.is_some() {
                warnings.push(
                    "spec.filestore: storageSize/storageClass are ignored while emptyDir is true and will be removed by the operator".to_owned(),
                );
            }
            let was_ephemeral = match old_filestore {
                Some(old) => old.empty_dir,
                None => false,
            };
            if !was_ephemeral {
                warnings.push(
                    "spec.filestore.emptyDir: the filestore is now per-pod and ephemeral; an existing filestore PVC is retained but no longer mounted. This declares that attachments live in external storage and sessions in a non-filesystem store — backups of this instance are database-only".to_owned(),
                );
            }
        }
    }
    proof {
        assert(texts(warnings@) =~= ephemeral_warnings(
            filestore_of(req.object),
            filestore_of(req.old_object),
        ));
    }
    if let (Some(old), Some(new)) = (&req.old_object, &req.object) {
        if let Err(message) = size_change(old, new) {
            return deny(&req.uid, message);
        }
        if let Err(message) = cluster_change(old, new) {
            return deny(&req.uid, message);
        }
        if let Err(message) = class_change(old, new) {
            return deny(&req.uid, message);
        }
    }
    allow(&req.uid, warnings)
}

// ── Laws ────────────────────────────────────────────────────────────────────

/// An admitted update never makes the storage smaller: where both the old and the new
/// size are given, both are quantities and the new one is at least the old one.
pub proof fn law_admitted_size_never_decreases(old: OdooInstance, new: OdooInstance)
    requires
        verdict(Some(new), Some(old)) is Allow,
        size_of(old.spec.filestore) is Some,
        size_of(new.spec.filestore) is Some,
        size_of(old.spec.filestore)->0.len() > 0,
        size_of(new.spec.filestore)->0.len() > 0,
    ensures
        quantity(size_of(old.spec.filestore)->0) is Ok,
        quantity(size_of(new.spec.filestore)->0) is Ok,
        quantity(size_of(old.spec.filestore)->0)->Ok_0 <= quantity(
            size_of(new.spec.filestore)->0,
        )->Ok_0,
{
}

/// The way back to the cluster and the storage class that a migration came from is open
/// in every phase.
pub proof fn law_rollback_is_admitted(old: OdooInstance, new: OdooInstance)
    requires
        !clashes(new.spec.filestore, old.spec.filestore),
        size_denial(old, new) is None,
        cluster_text(new) == cluster_text(old) || previous_cluster(old) == Some(cluster_text(new)),
        class_text(new) == class_text(old) || previous_class(old) == Some(class_text(new)),
    ensures
        verdict(Some(new), Some(old)) is Allow,
{
}

/// A change of cluster or storage class is refused in every phase in which it is unsafe.
pub proof fn law_unsafe_change_is_refused(
    old: OdooInstance,
    new: OdooInstance,
    phase: OdooInstancePhase,
)
    requires
        recorded_phase(old) == Some(phase),
        is_unsafe_phase(phase),
        ({
            ||| changes(cluster_text(old), cluster_text(new)) && previous_cluster(old) != Some(
                cluster_text(new),
            )
            ||| changes(class_text(old), class_text(new)) && previous_class(old) != Some(
                class_text(new),
            )
        }),
    ensures
        verdict(Some(new), Some(old)) is Deny,
{
}

/// Creation is admitted, unless a size or a class is set on an ephemeral filestore.
pub proof fn law_creation_is_admitted(new: OdooInstance)
    ensures
        verdict(Some(new), None) is Deny <==> is_empty_dir(new.spec.filestore) && (size_of(
            new.spec.filestore,
        ) is Some || class_of(new.spec.filestore) is Some),
{
}

/// Deletion is admitted, without a warning.
pub proof fn law_deletion_is_admitted(old: OdooInstance)
    ensures
        verdict(None, Some(old)) == (Verdict::Allow { warnings: Seq::empty() }),
{
    assert(ephemeral_warnings(None, old.spec.filestore) =~= Seq::empty());
}

/// An update that leaves size, class and cluster as they are is admitted, where the size
/// is a quantity.
pub proof fn law_unchanged_is_admitted(old: OdooInstance, new: OdooInstance)
    requires
        size_of(new.spec.filestore) == size_of(old.spec.filestore),
        class_of(new.spec.filestore) == class_of(old.spec.filestore),
        cluster_text(new) == cluster_text(old),
        size_of(new.spec.filestore) matches Some(size) ==> size.len() == 0 || quantity(size) is Ok,
    ensures
        verdict(Some(new), Some(old)) is Allow,
{
    assert(class_text(new) == class_text(old)) by {
        match (new.spec.filestore, old.spec.filestore) {
            (Some(a), None) => {
                assert(a.storage_class is None);
            },
            (None, Some(b)) => {
                assert(b.storage_class is None);
            },
            _ => {},
        }
    }
}

/// An instance that is ephemeral already, without leftover values, draws no warning.
pub proof fn law_steady_ephemeral_is_quiet(old: OdooInstance, new: OdooInstance)
    requires
        is_empty_dir(old.spec.filestore),
        is_empty_dir(new.spec.filestore),
        size_of(new.spec.filestore) is None,
        class_of(new.spec.filestore) is None,
    ensures
        verdict(Some(new), Some(old)) matches Verdict::Allow { warnings } ==> warnings.len() == 0,
        cluster_denial(old, new) is None ==> verdict(Some(new), Some(old)) is Allow,
{
}

} // verus!
