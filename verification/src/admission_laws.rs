//! Which changes to an instance are admitted.

use vstd::prelude::*;

use crate::crd::odoo_instance::{FilestoreSpec, OdooInstance, OdooInstancePhase};
use crate::helpers::quantity;
use crate::text::{opt_text, texts};
use crate::webhook::{answers, verdict, AdmissionRequest, AdmissionResponse, Verdict};

verus! {

/// Whether the phase is recorded.
pub open spec fn is_in(i: OdooInstance, phase: OdooInstancePhase) -> bool {
    i.status matches Some(s) && s.phase == Some(phase)
}

/// Whether where the data of the instance lies may change: the instance is up, coming up or
/// stopped, was just created, is being set up, or its setup has failed.
pub open spec fn may_move(i: OdooInstance) -> bool {
    ||| i.status is None
    ||| i.status->0.phase is None
    ||| is_in(i, OdooInstancePhase::Provisioning)
    ||| is_in(i, OdooInstancePhase::Initializing)
    ||| is_in(i, OdooInstancePhase::InitFailed)
    ||| is_in(i, OdooInstancePhase::Starting)
    ||| is_in(i, OdooInstancePhase::Running)
    ||| is_in(i, OdooInstancePhase::Degraded)
    ||| is_in(i, OdooInstancePhase::Stopped)
    ||| is_in(i, OdooInstancePhase::CloningFromSource)
    ||| is_in(i, OdooInstancePhase::Error)
}

/// The storage class that an instance names.
pub open spec fn named_class(i: OdooInstance) -> Option<Seq<char>> {
    match i.spec.filestore {
        Some(f) => opt_text(f.storage_class),
        None => None,
    }
}

/// The storage size that an instance names.
pub open spec fn named_size(i: OdooInstance) -> Option<Seq<char>> {
    match i.spec.filestore {
        Some(f) => opt_text(f.storage_size),
        None => None,
    }
}

/// The cluster that an instance names.
pub open spec fn named_cluster(i: OdooInstance) -> Option<Seq<char>> {
    match i.spec.database {
        Some(d) => opt_text(d.cluster),
        None => None,
    }
}

/// Whether one name is replaced by another.
pub open spec fn is_replaced(old: Option<Seq<char>>, new: Option<Seq<char>>) -> bool {
    &&& old matches Some(a)
    &&& new matches Some(b)
    &&& a.len() > 0
    &&& b.len() > 0
    &&& a != b
}

/// Whether the storage is asked to become smaller, or what is asked for is no size.
pub open spec fn is_bad_size(old: Option<Seq<char>>, new: Option<Seq<char>>) -> bool {
    &&& old matches Some(a)
    &&& new matches Some(b)
    &&& a.len() > 0
    &&& b.len() > 0
    &&& (quantity(a) matches Ok(has) ==> (quantity(b) matches Ok(wants) ==> wants < has))
}

/// The class and the cluster of a lasting instance may change in these phases and in no other. The
/// one way that is open in any phase is the way back.
pub proof fn law_data_moves_in_safe_phases(old: OdooInstance, new: OdooInstance)
    requires
        new.spec.filestore matches Some(f) ==> !f.empty_dir,
        !is_bad_size(named_size(old), named_size(new)),
    ensures
        may_move(old) ==> verdict(Some(new), Some(old)) is Allow,
        !may_move(old) && is_replaced(named_cluster(old), named_cluster(new)) && opt_text(
            old.status->0.migration_previous_cluster,
        ) != named_cluster(new) ==> verdict(Some(new), Some(old)) is Deny,
        !may_move(old) && is_replaced(named_class(old), named_class(new)) && opt_text(
            old.status->0.migration_previous_storage_class,
        ) != named_class(new) ==> verdict(Some(new), Some(old)) is Deny,
        !is_replaced(named_cluster(old), named_cluster(new)) && !is_replaced(
            named_class(old),
            named_class(new),
        ) ==> verdict(Some(new), Some(old)) is Allow,
{
}

/// Storage never shrinks, in whatever phase, and a size that is none is refused.
pub proof fn law_storage_never_shrinks(old: OdooInstance, new: OdooInstance)
    requires
        is_bad_size(named_size(old), named_size(new)),
    ensures
        verdict(Some(new), Some(old)) is Deny,
{
}

/// Whether a filestore is ephemeral.
pub open spec fn is_fleeting(f: Option<FilestoreSpec>) -> bool {
    f matches Some(x) && x.empty_dir
}

/// An ephemeral filestore has neither size nor class: none may be set or changed on it, and what it
/// still has from before is warned of. The way into it is warned of too, and nothing else is.
pub proof fn law_ephemeral_filestore_has_no_size(old: Option<OdooInstance>, new: OdooInstance)
    requires
        old matches Some(o) ==> !is_bad_size(named_size(o), named_size(new)) && !is_replaced(
            named_cluster(o),
            named_cluster(new),
        ) && !is_replaced(named_class(o), named_class(new)),
    ensures
        ({
            let was = match old {
                Some(o) => o.spec.filestore,
                None => None,
            };
            let kept_size = old matches Some(o) && named_size(o) == named_size(new);
            let kept_class = old matches Some(o) && named_class(o) == named_class(new);
            let fleeting = is_fleeting(new.spec.filestore);
            let v = verdict(Some(new), old);
            &&& v is Deny <==> fleeting && ((named_size(new) is Some && !kept_size) || (named_class(
                new,
            ) is Some && !kept_class))
            &&& v matches Verdict::Deny { message } ==> ("spec.filestore: "@).is_prefix_of(message)
            &&& v matches Verdict::Allow { warnings } ==> warnings.len() == (if fleeting && (
            named_size(new) is Some || named_class(new) is Some) {
                1int
            } else {
                0
            }) + (if fleeting && !is_fleeting(was) {
                1int
            } else {
                0
            })
        }),
{
    let whole = "spec.filestore: storageSize/storageClass cannot be set together with emptyDir: true"@;
    reveal_strlit("spec.filestore: ");
    reveal_strlit(
        "spec.filestore: storageSize/storageClass cannot be set together with emptyDir: true",
    );
    assert("spec.filestore: "@.len() == 16);
    assert(whole.subrange(0, 16) =~= "spec.filestore: "@);
}

/// A refusal says which field it is about, and in which phase the change is refused.
pub proof fn law_refusal_names_the_field(old: OdooInstance, new: OdooInstance)
    requires
        verdict(Some(new), Some(old)) is Deny,
        new.spec.filestore matches Some(f) ==> !f.empty_dir,
        !is_bad_size(named_size(old), named_size(new)),
    ensures
        ({
            let message = verdict(Some(new), Some(old))->message;
            let told = old.status->0.phase->0.text() + " phase"@;
            &&& old.status is Some
            &&& old.status->0.phase is Some
            &&& ("spec.database.cluster: "@).is_prefix_of(message)
                || ("spec.filestore.storageClass: "@).is_prefix_of(message)
            &&& told.is_suffix_of(message)
            &&& !is_replaced(named_class(old), named_class(new)) ==> (
            "spec.database.cluster: "@).is_prefix_of(message)
            &&& !is_replaced(named_cluster(old), named_cluster(new)) ==> (
            "spec.filestore.storageClass: "@).is_prefix_of(message)
        }),
{
    let message = verdict(Some(new), Some(old))->message;
    let told = old.status->0.phase->0.text() + " phase"@;
    let cluster = "spec.database.cluster: cannot change cluster while instance is in "@;
    let class = "spec.filestore.storageClass: cannot change storage class while instance is in "@;
    reveal_strlit("spec.database.cluster: ");
    reveal_strlit("spec.filestore.storageClass: ");
    reveal_strlit("spec.database.cluster: cannot change cluster while instance is in ");
    reveal_strlit(
        "spec.filestore.storageClass: cannot change storage class while instance is in ",
    );
    assert("spec.database.cluster: "@.len() == 23);
    assert("spec.filestore.storageClass: "@.len() == 29);
    assert(cluster.subrange(0, 23) =~= "spec.database.cluster: "@);
    assert(class.subrange(0, 29) =~= "spec.filestore.storageClass: "@);
    if is_replaced(named_cluster(old), named_cluster(new)) && message == cluster
        + old.status->0.phase->0.text() + " phase"@ {
        assert(message =~= cluster + told);
        assert(message.subrange(0, 23) =~= cluster.subrange(0, 23));
        assert(message.subrange(message.len() - told.len(), message.len() as int) =~= told);
    } else {
        assert(message =~= class + told);
        assert(message.subrange(0, 29) =~= class.subrange(0, 29));
        assert(message.subrange(message.len() - told.len(), message.len() as int) =~= told);
    }
}

/// The answer is to the request, and says what was decided: a refusal has its message and no
/// warnings, and an admission has no message.
pub proof fn law_answer_says_what_was_decided(r: AdmissionResponse, req: AdmissionRequest)
    requires
        answers(r, req),
    ensures
        ({
            let v = verdict(req.object, req.old_object);
            &&& r.uid@ == req.uid@
            &&& r.allowed <==> v is Allow
            &&& r.message is Some <==> v is Deny
            &&& v matches Verdict::Deny { message } ==> opt_text(r.message) == Some(message)
            &&& v is Deny ==> r.warnings is None
            &&& v matches Verdict::Allow { warnings } ==> (warnings.len() > 0 ==> (
            r.warnings matches Some(w) && texts(w@) == warnings))
            &&& v matches Verdict::Allow { warnings } ==> (warnings.len() == 0 ==> r.warnings
                is None)
        }),
{
}

} // verus!
