//! The course of a staging refresh: that it gets on, and in which order.

use vstd::prelude::*;

use crate::controller::helpers::cron_name;
use crate::controller::states::cloning_from_source::{
    can_refresh_with_snapshot, clone_facts, created_by, failed_to_neutralize, image_hash,
    next_step, retry_candidate, settled_phase, step_after, CloneEvent, CloneFacts, CloneStep,
    CloningFromSource,
};
use crate::controller::states::init_failed::{InitFailed, InitFailedPlan};
use crate::crd::odoo_instance::OdooInstance;
use crate::crd::odoo_staging_refresh_job::{FilestoreMethod, OdooStagingRefreshJob};
use crate::crd::shared::Phase;
use crate::helpers::OperatorDefaults;
use crate::text::{opt_text, texts};

verus! {

// ── Facts ───────────────────────────────────────────────────────────────────

/// The facts of a refresh are what its resource says and records.
pub proof fn law_facts_are_what_is_recorded(
    target: &OdooInstance,
    refresh: OdooStagingRefreshJob,
    source: Option<&OdooInstance>,
    f: CloneFacts,
)
    requires
        call_ensures(clone_facts, (target, &Some(refresh), source), f),
    ensures
        ({
            &&& f.has_refresh
            &&& refresh.spec.source.instance_namespace is None ==> f.same_namespace
            &&& refresh.spec.source.instance_namespace matches Some(ns) ==> (f.same_namespace
                <==> ns@ == target.namespace())
            &&& f.skip_filestore <==> refresh.spec.skip_filestore || target.ephemeral()
            &&& refresh.status is None ==> !f.db_job_named && !f.filestore_job_named
                && !f.neutralize_job_named && !f.snapshot_recorded && !f.rollback_recorded
                && f.db_job_phase is None && f.filestore_phase is None && f.filestore_job_phase
                is None
            &&& refresh.status matches Some(s) ==> {
                &&& f.db_job_named <==> s.db_job_name is Some
                &&& f.db_job_phase == s.db_job_phase
                &&& f.filestore_job_named <==> s.filestore_job_name is Some
                &&& f.filestore_job_phase == s.filestore_job_phase
                &&& f.filestore_phase == s.filestore_phase
                &&& f.neutralize_job_named <==> s.neutralize_job_name is Some
                &&& f.rollback_recorded <==> s.rollback_snapshot is Some
                &&& f.snapshot_recorded <==> opt_text(s.source_snapshot) == Some(
                    refresh.metadata.any_name() + "-src"@,
                )
            }
        }),
{
}

/// Whether both instances ask for storage of one class.
pub open spec fn share_class(a: &OdooInstance, b: &OdooInstance) -> bool {
    &&& a.spec.filestore matches Some(x)
    &&& b.spec.filestore matches Some(y)
    &&& x.storage_class matches Some(p)
    &&& y.storage_class matches Some(q)
    &&& p@ == q@
}

/// A target can be cloned from a snapshot where both instances ask for storage of one class, and
/// only there.
pub proof fn law_snapshot_needs_one_class(source: &OdooInstance, target: &OdooInstance, r: bool)
    requires
        call_ensures(can_refresh_with_snapshot, (source, target), r),
    ensures
        r == share_class(source, target),
{
}

/// The filestore is cloned in the way that is asked for. Where that is left open, it is copied
/// unless both instances ask for storage of one class, and then it depends on the snapshot
/// classes. It does not matter which of the two asks first.
pub proof fn law_method_decides(
    target: &OdooInstance,
    refresh: OdooStagingRefreshJob,
    source: &OdooInstance,
    f: CloneFacts,
    back: CloneFacts,
)
    requires
        call_ensures(clone_facts, (target, &Some(refresh), Some(source)), f),
        call_ensures(clone_facts, (source, &Some(refresh), Some(target)), back),
    ensures
        ({
            &&& refresh.spec.filestore_method == FilestoreMethod::Copy ==> f.use_copy
                && !f.find_class
            &&& refresh.spec.filestore_method == FilestoreMethod::Snapshot ==> !f.use_copy
                && !f.find_class
            &&& refresh.spec.filestore_method == FilestoreMethod::Auto ==> f.use_copy
                == !share_class(source, target) && f.find_class == share_class(source, target)
            &&& back.use_copy == f.use_copy
            &&& back.find_class == f.find_class
        }),
{
}

// ── Steps ───────────────────────────────────────────────────────────────────

/// Whether the step after `step`, which came out as `event`, is `next`.
pub open spec fn leads(step: CloneStep, event: CloneEvent, f: CloneFacts, next: CloneStep) -> bool {
    forall|r: CloneStep| #[trigger] call_ensures(next_step, (step, event, f), r) ==> r == next
}

/// Whether the step after `step`, which came out as `event`, is not `next`.
pub open spec fn avoids(
    step: CloneStep,
    event: CloneEvent,
    f: CloneFacts,
    next: CloneStep,
) -> bool {
    forall|r: CloneStep| #[trigger] call_ensures(next_step, (step, event, f), r) ==> r != next
}

/// A reconcile goes by the facts of its refresh.
pub proof fn law_reconcile_goes_by_the_facts(
    state: &CloningFromSource,
    target: &OdooInstance,
    refresh: &Option<OdooStagingRefreshJob>,
    source: Option<&OdooInstance>,
    step: CloneStep,
    event: CloneEvent,
    f: CloneFacts,
    next: CloneStep,
    r: CloneStep,
)
    requires
        call_ensures(clone_facts, (target, refresh, source), f),
        call_ensures(next_step, (step, event, f), next),
        call_ensures(CloningFromSource::ensure, (state, target, refresh, source, step, event), r),
    ensures
        r == next,
{
}

/// All pods of the target are scaled down before anything else is done.
pub proof fn law_pods_go_down_first(event: CloneEvent, f: CloneFacts)
    ensures
        leads(CloneStep::Begin, event, f, CloneStep::ScaleWeb),
        leads(CloneStep::ScaleWeb, event, f, CloneStep::ScaleCron),
        !f.has_refresh ==> leads(CloneStep::ScaleCron, event, f, CloneStep::Finish),
        f.has_refresh && f.same_namespace ==> leads(
            CloneStep::ScaleCron,
            event,
            f,
            CloneStep::GetSource,
        ),
{
}

/// A source that is not found ends the refresh, with a word of explanation.
pub proof fn law_missing_source_is_refused(event: CloneEvent, f: CloneFacts)
    requires
        event != CloneEvent::SourceFound,
    ensures
        leads(CloneStep::GetSource, event, f, CloneStep::RefuseSource),
        leads(CloneStep::RefuseSource, event, f, CloneStep::FailSource),
{
}

/// What is created is recorded right after.
pub proof fn law_what_is_created_is_recorded(event: CloneEvent, f: CloneFacts)
    ensures
        leads(CloneStep::CreateDbJob, event, f, CloneStep::RecordDbJob),
        leads(CloneStep::CreateFilestoreJob, event, f, CloneStep::RecordFilestoreJob),
        event == CloneEvent::SnapshotCreated ==> leads(
            CloneStep::CreateSnapshot,
            event,
            f,
            CloneStep::RecordSnapshot,
        ),
        !f.snapshot_recorded ==> leads(
            CloneStep::CreateSnapshot,
            event,
            f,
            CloneStep::RecordSnapshot,
        ),
        leads(CloneStep::CreateRollback, event, f, CloneStep::RecordRollback),
        leads(CloneStep::CreateClaim, event, f, CloneStep::RecordClaim),
        leads(CloneStep::CreateNeutralizeJob, event, f, CloneStep::RecordNeutralizeJob),
{
}

/// A new refresh clones the database at once: the servers are looked at, the temporary database
/// is recorded, and the Job is created.
pub proof fn law_database_is_cloned_at_once(event: CloneEvent, f: CloneFacts)
    ensures
        !f.db_job_named ==> leads(
            CloneStep::GetSource,
            CloneEvent::SourceFound,
            f,
            CloneStep::DetectServers,
        ),
        leads(CloneStep::DetectServers, event, f, CloneStep::RecordTempDb),
        leads(CloneStep::RecordTempDb, event, f, CloneStep::CreateDbJob),
        f.db_job_named ==> step_after(CloneStep::GetSource, CloneEvent::SourceFound, f)
            == step_after(CloneStep::RecordDbJob, event, f),
{
}

/// The filestore step is started at once too, in the way that the facts say, unless it is left
/// alone or was started.
pub proof fn law_filestore_is_started_at_once(event: CloneEvent, f: CloneFacts)
    requires
        !f.skip_filestore,
        f.filestore_phase is None,
    ensures
        f.use_copy ==> leads(CloneStep::RecordDbJob, event, f, CloneStep::CreateFilestoreJob),
        !f.use_copy && f.find_class && !f.snapshot_recorded ==> leads(
            CloneStep::RecordDbJob,
            event,
            f,
            CloneStep::FindSnapshotClass,
        ),
        !f.use_copy && (!f.find_class || f.snapshot_recorded) ==> leads(
            CloneStep::RecordDbJob,
            event,
            f,
            CloneStep::CreateSnapshot,
        ),
        leads(CloneStep::FindSnapshotClass, CloneEvent::ClassCovered, f, CloneStep::CreateSnapshot),
        event != CloneEvent::ClassCovered ==> leads(
            CloneStep::FindSnapshotClass,
            event,
            f,
            CloneStep::CreateFilestoreJob,
        ),
{
}

/// A claim is replaced as soon as the snapshot of the source is ready and the old claim is out of
/// the way. Until then the reconcile ends, and nothing is lost.
pub proof fn law_claim_is_replaced_when_ready(event: CloneEvent, f: CloneFacts)
    ensures
        f.rollback_recorded ==> leads(CloneStep::RecordSnapshot, event, f, CloneStep::GetSnapshot),
        !f.rollback_recorded ==> leads(
            CloneStep::RecordSnapshot,
            event,
            f,
            CloneStep::CreateRollback,
        ),
        leads(CloneStep::RecordRollback, event, f, CloneStep::GetSnapshot),
        leads(CloneStep::GetSnapshot, CloneEvent::SnapshotReady, f, CloneStep::DeleteClaim),
        event != CloneEvent::SnapshotReady ==> leads(
            CloneStep::GetSnapshot,
            event,
            f,
            CloneStep::Finish,
        ),
        leads(CloneStep::DeleteClaim, event, f, CloneStep::GetClaim),
        leads(CloneStep::GetClaim, CloneEvent::ClaimTerminating, f, CloneStep::Finish),
        event != CloneEvent::ClaimTerminating ==> leads(
            CloneStep::GetClaim,
            event,
            f,
            CloneStep::CreateClaim,
        ),
{
}

/// A filestore step that runs is settled as soon as its end is known: from its Job where it has
/// one, else from the claim.
pub proof fn law_filestore_is_settled(event: CloneEvent, f: CloneFacts)
    requires
        f.filestore_phase == Some(Phase::Running),
        !f.skip_filestore,
    ensures
        f.filestore_job_named && (f.filestore_job_phase == Some(Phase::Completed)
            || f.filestore_job_phase == Some(Phase::Failed)) ==> leads(
                CloneStep::RecordDbJob,
                event,
                f,
                CloneStep::SettleFilestore,
            ),
        !f.filestore_job_named ==> leads(CloneStep::RecordDbJob, event, f, CloneStep::InspectClaim),
        leads(CloneStep::InspectClaim, CloneEvent::ClaimBound, f, CloneStep::SettleFilestore),
        event != CloneEvent::ClaimBound ==> avoids(
            CloneStep::InspectClaim,
            event,
            f,
            CloneStep::SettleFilestore,
        ),
{
}

/// The filestore step fails exactly where its Job has.
pub proof fn law_settled_as_its_job(f: CloneFacts, r: Phase)
    requires
        call_ensures(settled_phase, (f,), r),
    ensures
        f.filestore_job_named ==> (r == Phase::Failed <==> f.filestore_job_phase == Some(
            Phase::Failed,
        )),
        !f.filestore_job_named ==> r == Phase::Completed,
        r == Phase::Completed || r == Phase::Failed,
{
}

/// A clone that is complete is neutralized, or verified: where both steps are done and no Job for
/// it is named, the reconcile comes to creating it.
pub proof fn law_complete_clone_is_neutralized(event: CloneEvent, f: CloneFacts)
    requires
        f.db_job_named,
        f.skip_filestore || f.filestore_phase == Some(Phase::Completed),
        f.skip_filestore ==> f.filestore_phase != Some(Phase::Running),
        !f.neutralize_job_named,
    ensures
        f.db_job_phase == Some(Phase::Completed) ==> leads(
            CloneStep::GetSource,
            CloneEvent::SourceFound,
            f,
            CloneStep::CreateNeutralizeJob,
        ),
        f.db_job_phase != Some(Phase::Completed) ==> leads(
            CloneStep::GetSource,
            CloneEvent::SourceFound,
            f,
            CloneStep::GetDbJob,
        ),
        leads(CloneStep::GetDbJob, CloneEvent::DbJobSucceeded, f, CloneStep::CreateNeutralizeJob),
        event != CloneEvent::DbJobSucceeded ==> leads(
            CloneStep::GetDbJob,
            event,
            f,
            CloneStep::Finish,
        ),
{
}

// ── Retries ─────────────────────────────────────────────────────────────────

/// Of the refreshes of an instance whose neutralization failed, the youngest is looked at, of
/// several equally young ones the last. There is none only where none failed.
pub proof fn law_youngest_failure_counts(refreshes: Seq<OdooStagingRefreshJob>, name: Seq<char>)
    ensures
        match retry_candidate(refreshes, name) {
            Some(i) => {
                &&& 0 <= i < refreshes.len()
                &&& failed_to_neutralize(refreshes[i], name)
                &&& forall|j: int|
                    0 <= j < refreshes.len() && failed_to_neutralize(
                        #[trigger] refreshes[j],
                        name,
                    ) ==> created_by(
                        refreshes[j].metadata.creation_timestamp,
                        refreshes[i].metadata.creation_timestamp,
                    )
                &&& forall|j: int|
                    i < j < refreshes.len() && failed_to_neutralize(#[trigger] refreshes[j], name)
                        ==> !created_by(
                        refreshes[i].metadata.creation_timestamp,
                        refreshes[j].metadata.creation_timestamp,
                    )
            },
            None => forall|j: int|
                0 <= j < refreshes.len() ==> !failed_to_neutralize(#[trigger] refreshes[j], name),
        },
    decreases refreshes.len(),
{
    if refreshes.len() > 0 {
        let rest = refreshes.drop_last();
        law_youngest_failure_counts(rest, name);
        assert forall|j: int| 0 <= j < rest.len() implies #[trigger] refreshes[j] == rest[j] by {}
        match retry_candidate(rest, name) {
            Some(b) => {
                assert(refreshes[b] == rest[b]);
            },
            None => {},
        }
    }
}

/// A refresh counts as failed to neutralize only where that is recorded of it, for the instance
/// that it names.
pub proof fn law_failure_is_on_record(refresh: OdooStagingRefreshJob, name: Seq<char>)
    ensures
        failed_to_neutralize(refresh, name) <==> {
            &&& refresh.spec.odoo_instance_ref.name@ == name
            &&& refresh.status matches Some(s)
            &&& s.neutralize_job_phase == Some(Phase::Failed)
        },
{
}

/// An instance whose setup failed stays down. A neutralization is tried again exactly where the
/// youngest one that failed did not run the image that the instance has now, and then its own
/// refresh is reopened and its own Job deleted.
pub proof fn law_retry_needs_another_image(
    state: &InitFailed,
    plan: InitFailedPlan,
    instance: &OdooInstance,
    defaults: &OperatorDefaults,
    listed: &Vec<OdooStagingRefreshJob>,
    refreshes: Seq<OdooStagingRefreshJob>,
)
    requires
        call_ensures(InitFailed::ensure, (state, instance, defaults, listed), plan),
        refreshes == listed@,
        instance.spec.image is Some,
    ensures
        plan.retry is Some <==> (retry_candidate(refreshes, instance.name()) matches Some(i) && !(
        refreshes[i].status matches Some(s) && opt_text(s.neutralize_job_image_hash) == Some(
            image_hash(instance.spec.image->0@),
        ))),
        plan.retry matches Some(retry) ==> ({
            let i = retry_candidate(refreshes, instance.name())->0;
            &&& retry.refresh@ == refreshes[i].metadata.any_name()
            &&& refreshes[i].status is Some
            &&& opt_text(retry.delete_job) == opt_text(refreshes[i].status->0.neutralize_job_name)
        }),
        texts(plan.scale_down@).contains(instance.name()),
        texts(plan.scale_down@).contains(cron_name(instance)),
{
    law_youngest_failure_counts(refreshes, instance.name());
    let names = texts(plan.scale_down@);
    assert(names[0] == instance.name());
    assert(names[1] == cron_name(instance));
}

} // verus!
