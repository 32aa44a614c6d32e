//! What a snapshot shows of the work on an instance, told by what was seen of its Jobs.

use vstd::prelude::*;

use crate::controller::patches::{FieldText, RefreshStatusPatch};
use crate::controller::snapshot::{
    aggregate_refresh_sub_statuses, count_unfinished, db_step, filestore_step, first_unfinished,
    gather_stuck_mount_pods, is_stuck, job_names, neutralize_step, record_refresh_jobs,
    resolve_refresh, scheduled_moment, scheduled_time_reached_at, select_jobs, stuck_names,
    time_reached, ActiveJobs, EventObservation, Gathered, JobLookup, JobLookups, JobNames,
    JobResource, JobStatus, Observations, PodObservation, ReconcileSnapshot, RefreshRecords,
};
use crate::controller::states::cloning_from_source::is_patched;
use crate::crd::metadata::Moment;
use crate::crd::odoo_backup_job::OdooBackupJob;
use crate::crd::odoo_init_job::OdooInitJob;
use crate::crd::odoo_instance::OdooInstance;
use crate::crd::odoo_restore_job::OdooRestoreJob;
use crate::crd::odoo_staging_refresh_job::OdooStagingRefreshJob;
use crate::crd::odoo_upgrade_job::OdooUpgradeJob;
use crate::crd::shared::{JobRecord, Phase};
use crate::text::{opt_text, texts};

verus! {

// ── Job resources ───────────────────────────────────────────────────────────

/// Whether a record names a Job.
pub open spec fn names_job(status: Option<JobRecord>) -> bool {
    status matches Some(r) && r.job_name is Some
}

/// Whether a record tells of no end.
pub open spec fn has_not_ended(status: Option<JobRecord>) -> bool {
    status matches Some(r) ==> r.phase != Some(Phase::Completed) && r.phase != Some(Phase::Failed)
}

/// Whether a Job was seen to have succeeded.
pub open spec fn has_succeeded(lookup: JobLookup) -> bool {
    match lookup {
        JobLookup::Found(job) => job.succeeded matches Some(n) && n > 0,
        _ => false,
    }
}

/// Whether a pod of a Job was seen to have failed, and none to have succeeded.
pub open spec fn has_broken(lookup: JobLookup) -> bool {
    match lookup {
        JobLookup::Found(job) => !has_succeeded(lookup) && (job.failed matches Some(n) && n > 0),
        _ => false,
    }
}

/// Whether a Job was seen to have failed, or to be deleted before it has succeeded.
pub open spec fn has_failed(lookup: JobLookup) -> bool {
    match lookup {
        JobLookup::Found(job) => has_broken(lookup) || (job.deleting && !has_succeeded(lookup)),
        _ => false,
    }
}

/// Whether the status of a resource is right: without the resource there is no work; the work has
/// succeeded as soon as its Job has, and has failed where the Job has, or is gone; all else counts
/// as going on, also where the Job cannot be seen at the moment.
pub open spec fn is_right(
    status: JobStatus,
    present: bool,
    record: Option<JobRecord>,
    lookup: JobLookup,
) -> bool {
    &&& status == JobStatus::Absent <==> !present
    &&& status == JobStatus::Succeeded <==> present && names_job(record) && has_succeeded(lookup)
    &&& status == JobStatus::Failed <==> present && names_job(record) && (lookup is NotFound
        || has_failed(lookup))
}

/// Every kind of work has the status of its own resource and its own Job.
pub proof fn law_each_work_has_its_own_status(
    gathered: Gathered,
    s: ReconcileSnapshot,
    i: &OdooInstance,
    cluster: &str,
    active: ActiveJobs,
    lookups: &JobLookups,
    seen: &Observations,
)
    requires
        call_ensures(ReconcileSnapshot::gather, (i, cluster, active, lookups, seen), gathered),
        s == gathered.snapshot,
    ensures
        is_right(
            s.init_job,
            active.init is Some,
            match active.init {
                Some(j) => j.status,
                None => None,
            },
            lookups.init,
        ),
        is_right(
            s.restore_job,
            active.restore is Some,
            match active.restore {
                Some(j) => j.status,
                None => None,
            },
            lookups.restore,
        ),
        is_right(
            s.upgrade_job,
            active.upgrade is Some,
            match active.upgrade {
                Some(j) => j.status,
                None => None,
            },
            lookups.upgrade,
        ),
        is_right(
            s.backup_job,
            active.backup is Some,
            match active.backup {
                Some(j) => j.status,
                None => None,
            },
            lookups.backup,
        ),
        s.refresh_job == JobStatus::Absent <==> active.refresh is None,
        s.pending_backup_jobs == active.pending_backups,
        s.active_init_job == active.init,
        s.active_restore_job == active.restore,
        s.active_upgrade_job == active.upgrade,
        s.active_backup_job == active.backup,
        s.active_refresh_job == active.refresh,
        s.db_initialized <==> (i.status matches Some(status) && status.db_initialized),
{
}

/// A migration has the status of the Job that is recorded for it: it has failed only where the
/// Job has, and one whose Job is gone counts as not there.
pub proof fn law_migration_has_the_status_of_its_job(
    gathered: Gathered,
    s: ReconcileSnapshot,
    i: &OdooInstance,
    cluster: &str,
    active: ActiveJobs,
    lookups: &JobLookups,
    seen: &Observations,
)
    requires
        call_ensures(ReconcileSnapshot::gather, (i, cluster, active, lookups, seen), gathered),
        s == gathered.snapshot,
    ensures
        ({
            let named = i.status matches Some(status) && status.migration_job_name is Some;
            &&& s.migration_job == JobStatus::Absent <==> !named || lookups.migration is NotFound
            &&& s.migration_job == JobStatus::Succeeded <==> named && has_succeeded(
                lookups.migration,
            )
            &&& s.migration_job == JobStatus::Failed <==> named && has_broken(lookups.migration)
        }),
        ({
            let named = i.status matches Some(status) && status.db_migration_job_name is Some;
            &&& s.db_migration_job == JobStatus::Absent <==> !named
                || lookups.db_migration is NotFound
            &&& s.db_migration_job == JobStatus::Succeeded <==> named && has_succeeded(
                lookups.db_migration,
            )
            &&& s.db_migration_job == JobStatus::Failed <==> named && has_broken(
                lookups.db_migration,
            )
        }),
{
}

/// The data is to be moved where the instance asks for a place for it and it is known to lie
/// elsewhere, and only there. Of the pods only those count that the Deployment says are ready.
pub proof fn law_snapshot_compares_with_what_is_there(
    gathered: Gathered,
    s: ReconcileSnapshot,
    i: &OdooInstance,
    cluster: &str,
    active: ActiveJobs,
    lookups: &JobLookups,
    seen: &Observations,
)
    requires
        call_ensures(ReconcileSnapshot::gather, (i, cluster, active, lookups, seen), gathered),
        s == gathered.snapshot,
    ensures
        s.storage_class_mismatch <==> {
            &&& seen.claim matches Some(claim)
            &&& claim.storage_class matches Some(has)
            &&& i.spec.filestore matches Some(f)
            &&& f.storage_class matches Some(wants)
            &&& has@ != wants@
        },
        seen.claim matches Some(claim) ==> opt_text(s.actual_storage_class) == opt_text(
            claim.storage_class,
        ),
        s.cluster_mismatch <==> {
            &&& i.status matches Some(status)
            &&& status.active_cluster matches Some(has)
            &&& has@ != cluster@
        },
        seen.web is None ==> s.ready_replicas == 0 && s.deployment_replicas == 0,
        seen.web matches Some(d) ==> {
            &&& d.ready_replicas matches Some(n) ==> s.ready_replicas == n
            &&& d.ready_replicas is None ==> s.ready_replicas == 0
            &&& d.replicas matches Some(n) ==> s.deployment_replicas == n
            &&& d.replicas is None ==> s.deployment_replicas == 0
        },
        seen.cron matches Some(d) ==> {
            &&& d.ready_replicas matches Some(n) ==> s.cron_ready_replicas == n
            &&& d.replicas matches Some(n) ==> s.cron_deployment_replicas == n
        },
{
}

// ── Which resource is worked on ─────────────────────────────────────────────

/// Whether a resource asks for work on the instance `name` that has not ended.
pub open spec fn is_open<J: JobResource>(job: J, name: Seq<char>) -> bool {
    &&& job.target() == name
    &&& job.recorded() != Some(Phase::Completed)
    &&& job.recorded() != Some(Phase::Failed)
}

/// The work on an instance is the first that is open: it is for that instance, it has not ended,
/// and nothing before it is open. There is none only where none is open.
pub proof fn law_first_open_work_is_taken<J: JobResource>(jobs: Seq<J>, name: Seq<char>)
    ensures
        match first_unfinished(jobs, name) {
            Some(job) => exists|k: int|
                {
                    &&& 0 <= k < jobs.len()
                    &&& #[trigger] jobs[k] == job
                    &&& is_open(job, name)
                    &&& forall|j: int| 0 <= j < k ==> !is_open(#[trigger] jobs[j], name)
                },
            None => forall|j: int| 0 <= j < jobs.len() ==> !is_open(#[trigger] jobs[j], name),
        },
    decreases jobs.len(),
{
    if jobs.len() > 0 {
        if is_open(jobs[0], name) {
            assert(jobs[0] == first_unfinished(jobs, name)->0);
        } else {
            let rest = jobs.drop_first();
            law_first_open_work_is_taken(rest, name);
            match first_unfinished(rest, name) {
                Some(job) => {
                    let k = choose|k: int|
                        {
                            &&& 0 <= k < rest.len()
                            &&& #[trigger] rest[k] == job
                            &&& is_open(job, name)
                            &&& forall|j: int| 0 <= j < k ==> !is_open(#[trigger] rest[j], name)
                        };
                    assert(jobs[k + 1] == job);
                    assert forall|j: int| 0 <= j < k + 1 implies !is_open(
                        #[trigger] jobs[j],
                        name,
                    ) by {
                        if j > 0 {
                            assert(rest[j - 1] == jobs[j]);
                        }
                    }
                },
                None => {
                    assert forall|j: int| 0 <= j < jobs.len() implies !is_open(
                        #[trigger] jobs[j],
                        name,
                    ) by {
                        if j > 0 {
                            assert(rest[j - 1] == jobs[j]);
                        }
                    }
                },
            }
        }
    }
}

/// Another open resource is one more that is pending, and any other one is none.
pub proof fn law_pending_work_is_counted<J: JobResource>(jobs: Seq<J>, job: J, name: Seq<char>)
    ensures
        count_unfinished(jobs.push(job), name) == count_unfinished(jobs, name) + (if is_open(
            job,
            name,
        ) {
            1int
        } else {
            0
        }),
        count_unfinished(jobs, name) <= jobs.len(),
        count_unfinished(Seq::<J>::empty(), name) == 0,
{
    assert(jobs.push(job).drop_last() =~= jobs);
    lemma_count_bounded(jobs, name);
}

proof fn lemma_count_bounded<J: JobResource>(jobs: Seq<J>, name: Seq<char>)
    ensures
        count_unfinished(jobs, name) <= jobs.len(),
    decreases jobs.len(),
{
    if jobs.len() > 0 {
        lemma_count_bounded(jobs.drop_last(), name);
    }
}

/// The work on an instance is looked for under the instance's name, and each kind among its own:
/// what is taken up is for the instance that the resource names, and has not ended.
pub proof fn law_work_is_for_the_instance(
    active: ActiveJobs,
    name: &str,
    inits: Vec<OdooInitJob>,
    restores: Vec<OdooRestoreJob>,
    upgrades: Vec<OdooUpgradeJob>,
    refreshes: Vec<OdooStagingRefreshJob>,
    backups: Vec<OdooBackupJob>,
)
    requires
        call_ensures(select_jobs, (name, inits, restores, upgrades, refreshes, backups), active),
    ensures
        active.init matches Some(j) ==> {
            &&& inits@.contains(j)
            &&& j.spec.odoo_instance_ref.name@ == name@
            &&& has_not_ended(j.status)
        },
        active.restore matches Some(j) ==> {
            &&& restores@.contains(j)
            &&& j.spec.odoo_instance_ref.name@ == name@
            &&& has_not_ended(j.status)
        },
        active.upgrade matches Some(j) ==> {
            &&& upgrades@.contains(j)
            &&& j.spec.odoo_instance_ref.name@ == name@
            &&& has_not_ended(j.status)
        },
        active.backup matches Some(j) ==> {
            &&& backups@.contains(j)
            &&& j.spec.odoo_instance_ref.name@ == name@
            &&& has_not_ended(j.status)
        },
        active.refresh matches Some(j) ==> {
            &&& refreshes@.contains(j)
            &&& j.spec.odoo_instance_ref.name@ == name@
            &&& (j.status matches Some(r) ==> r.phase != Some(Phase::Completed) && r.phase != Some(
                Phase::Failed,
            ))
        },
        active.pending_backups > 0 <==> active.backup is Some,
        active.init is None ==> forall|k: int|
            0 <= k < inits@.len() ==> !is_open(#[trigger] inits@[k], name@),
        active.restore is None ==> forall|k: int|
            0 <= k < restores@.len() ==> !is_open(#[trigger] restores@[k], name@),
        active.upgrade is None ==> forall|k: int|
            0 <= k < upgrades@.len() ==> !is_open(#[trigger] upgrades@[k], name@),
        active.refresh is None ==> forall|k: int|
            0 <= k < refreshes@.len() ==> !is_open(#[trigger] refreshes@[k], name@),
        active.backup is None ==> forall|k: int|
            0 <= k < backups@.len() ==> !is_open(#[trigger] backups@[k], name@),
{
    law_first_open_work_is_taken(inits@, name@);
    law_first_open_work_is_taken(restores@, name@);
    law_first_open_work_is_taken(upgrades@, name@);
    law_first_open_work_is_taken(refreshes@, name@);
    law_first_open_work_is_taken(backups@, name@);
    crate::controller::snapshot::law_pending_means_active(backups@, name@);
}

// ── Staging refreshes ───────────────────────────────────────────────────────

/// Whether the status of a step of a refresh is right: what is recorded of its end stands, else
/// the step has succeeded or failed where its Job has, else it goes on, or has not begun where it
/// has no Job.
pub open spec fn is_right_step(
    status: JobStatus,
    recorded: Option<Phase>,
    named: bool,
    lookup: JobLookup,
) -> bool {
    let ended = recorded == Some(Phase::Completed) || recorded == Some(Phase::Failed);
    &&& status == JobStatus::Succeeded <==> recorded == Some(Phase::Completed) || (!ended && named
        && has_succeeded(lookup))
    &&& status == JobStatus::Failed <==> recorded == Some(Phase::Failed) || (!ended && named
        && has_failed(lookup))
    &&& status == JobStatus::Absent <==> !ended && !named
}

/// The steps of a refresh make its status: one that failed fails it, and all must succeed.
pub proof fn law_steps_make_the_status(statuses: &Vec<JobStatus>, r: JobStatus)
    requires
        call_ensures(aggregate_refresh_sub_statuses, (statuses,), r),
    ensures
        r == JobStatus::Failed <==> exists|k: int|
            0 <= k < statuses@.len() && #[trigger] statuses@[k] == JobStatus::Failed,
        r == JobStatus::Succeeded <==> forall|k: int|
            0 <= k < statuses@.len() ==> #[trigger] statuses@[k] == JobStatus::Succeeded,
        r != JobStatus::Absent,
{
    if exists|k: int| 0 <= k < statuses@.len() && #[trigger] statuses@[k] == JobStatus::Failed {
        let k = choose|k: int|
            0 <= k < statuses@.len() && #[trigger] statuses@[k] == JobStatus::Failed;
        assert(statuses@.contains(statuses@[k]));
    }
}

/// Every step of a refresh has the status of its own Job. A filestore that is left alone needs no
/// Job, and where the filestore step is settled, that counts before its Job.
pub proof fn law_refresh_steps_have_their_own_jobs(
    refresh: OdooStagingRefreshJob,
    i: &OdooInstance,
    lookup: JobLookup,
)
    ensures
        refresh.status is None ==> db_step(refresh, lookup) == JobStatus::Absent && neutralize_step(
            refresh,
            lookup,
        ) == JobStatus::Absent,
        refresh.status matches Some(r) ==> {
            &&& is_right_step(
                db_step(refresh, lookup),
                r.db_job_phase,
                r.db_job_name is Some,
                lookup,
            )
            &&& is_right_step(
                neutralize_step(refresh, lookup),
                r.neutralize_job_phase,
                r.neutralize_job_name is Some,
                lookup,
            )
            &&& !refresh.spec.skip_filestore && !i.ephemeral() ==> {
                &&& r.filestore_phase == Some(Phase::Completed) ==> filestore_step(
                    refresh,
                    i,
                    lookup,
                ) == JobStatus::Succeeded
                &&& r.filestore_phase == Some(Phase::Failed) ==> filestore_step(
                    refresh,
                    i,
                    lookup,
                ) == JobStatus::Failed
                &&& r.filestore_phase != Some(Phase::Completed) && r.filestore_phase != Some(
                    Phase::Failed,
                ) ==> is_right_step(
                    filestore_step(refresh, i, lookup),
                    r.filestore_job_phase,
                    r.filestore_job_name is Some,
                    lookup,
                )
            }
        },
        refresh.spec.skip_filestore || i.ephemeral() ==> filestore_step(refresh, i, lookup)
            == JobStatus::Succeeded,
{
}

/// The Jobs that are looked up are those that the resources name, and they are all that matters:
/// where no Job is looked up for a step of a refresh, nothing that could be seen changes its
/// status.
pub proof fn law_jobs_that_matter_are_looked_up(
    names: JobNames,
    i: &OdooInstance,
    active: &ActiveJobs,
    refresh: OdooStagingRefreshJob,
    one: JobLookup,
    other: JobLookup,
)
    requires
        call_ensures(job_names, (i, active), names),
        active.refresh == Some(refresh),
    ensures
        names.refresh_db is None ==> db_step(refresh, one) == db_step(refresh, other),
        names.refresh_filestore is None ==> filestore_step(refresh, i, one) == filestore_step(
            refresh,
            i,
            other,
        ),
        names.refresh_neutralize is None ==> neutralize_step(refresh, one) == neutralize_step(
            refresh,
            other,
        ),
        names.refresh_db is Some ==> refresh.status is Some && opt_text(names.refresh_db)
            == opt_text(refresh.status->0.db_job_name),
        names.refresh_filestore is Some ==> refresh.status is Some && opt_text(
            names.refresh_filestore,
        ) == opt_text(refresh.status->0.filestore_job_name),
        names.refresh_neutralize is Some ==> refresh.status is Some && opt_text(
            names.refresh_neutralize,
        ) == opt_text(refresh.status->0.neutralize_job_name),
        active.init matches Some(j) ==> names_job(j.status) == (names.init is Some) && (
        j.status matches Some(r) ==> opt_text(names.init) == opt_text(r.job_name)),
        active.restore matches Some(j) ==> names_job(j.status) == (names.restore is Some) && (
        j.status matches Some(r) ==> opt_text(names.restore) == opt_text(r.job_name)),
        active.upgrade matches Some(j) ==> names_job(j.status) == (names.upgrade is Some) && (
        j.status matches Some(r) ==> opt_text(names.upgrade) == opt_text(r.job_name)),
        active.backup matches Some(j) ==> names_job(j.status) == (names.backup is Some) && (
        j.status matches Some(r) ==> opt_text(names.backup) == opt_text(r.job_name)),
        i.status matches Some(r) ==> opt_text(names.migration) == opt_text(r.migration_job_name)
            && opt_text(names.db_migration) == opt_text(r.db_migration_job_name),
{
}

/// Once it is recorded how the Jobs of a refresh ended, they need not be seen any more: each step
/// that had ended has the status that it had, whatever is seen later. The temporary database is
/// taken off the record exactly when the database was seen to be cloned.
pub proof fn law_recorded_steps_stand(
    before: OdooStagingRefreshJob,
    after: OdooStagingRefreshJob,
    i: &OdooInstance,
    lookups: &JobLookups,
    later: JobLookup,
    resolved: (JobStatus, RefreshRecords),
    patch: RefreshStatusPatch,
)
    requires
        call_ensures(resolve_refresh, (&Some(before), i, lookups), resolved),
        call_ensures(record_refresh_jobs, (resolved.1,), Some(patch)),
        is_patched(after, before, patch@),
    ensures
        ({
            let db = db_step(before, lookups.refresh_db);
            let filestore = filestore_step(before, i, lookups.refresh_filestore);
            let neutralize = neutralize_step(before, lookups.refresh_neutralize);
            let change = patch@;
            let known = before.status is Some && before.status->0.db_job_phase == Some(
                Phase::Completed,
            );
            &&& db == JobStatus::Succeeded || db == JobStatus::Failed ==> db_step(after, later)
                == db
            &&& filestore == JobStatus::Succeeded || filestore == JobStatus::Failed
                ==> filestore_step(after, i, later) == filestore
            &&& neutralize == JobStatus::Succeeded || neutralize == JobStatus::Failed
                ==> neutralize_step(after, later) == neutralize
            &&& change.temp_db_name == FieldText::Clear <==> db == JobStatus::Succeeded && !known
            &&& change.temp_db_name == FieldText::Clear || change.temp_db_name == FieldText::Keep
            &&& change.phase is None
            &&& change.message == FieldText::Keep
            &&& change.source_snapshot == FieldText::Keep
            &&& change.rollback_snapshot == FieldText::Keep
            &&& change.db_job_name == FieldText::Keep
            &&& change.filestore_job_name == FieldText::Keep
            &&& change.neutralize_job_name == FieldText::Keep
        }),
{
}

/// Where nothing is recorded, nothing had ended that was not on record.
pub proof fn law_nothing_new_is_not_recorded(
    refresh: OdooStagingRefreshJob,
    i: &OdooInstance,
    lookups: &JobLookups,
    resolved: (JobStatus, RefreshRecords),
)
    requires
        call_ensures(resolve_refresh, (&Some(refresh), i, lookups), resolved),
        call_ensures(record_refresh_jobs, (resolved.1,), None),
    ensures
        ({
            let db = db_step(refresh, lookups.refresh_db);
            let neutralize = neutralize_step(refresh, lookups.refresh_neutralize);
            &&& db == JobStatus::Succeeded || db == JobStatus::Failed ==> refresh.status is Some
                && (refresh.status->0.db_job_phase == Some(Phase::Completed)
                || refresh.status->0.db_job_phase == Some(Phase::Failed))
            &&& neutralize == JobStatus::Succeeded || neutralize == JobStatus::Failed
                ==> refresh.status is Some && (refresh.status->0.neutralize_job_phase == Some(
                Phase::Completed,
            ) || refresh.status->0.neutralize_job_phase == Some(Phase::Failed))
        }),
{
}

// ── Scheduled times ─────────────────────────────────────────────────────────

/// A scheduled time is reached once and for all: from the scheduled moment on, and never before.
pub proof fn law_time_stays_reached(
    schedule: &Option<String>,
    scheduled: Option<Seq<char>>,
    now: Moment,
    later: Moment,
    reached: bool,
)
    requires
        scheduled == opt_text(*schedule),
        call_ensures(scheduled_time_reached_at, (schedule, now), reached),
    ensures
        reached == time_reached(scheduled, now),
        scheduled is None ==> time_reached(scheduled, now),
        scheduled matches Some(s) ==> (scheduled_moment(s) matches Some(t) ==> {
            &&& time_reached(scheduled, t)
            &&& now.secs < t.secs ==> !time_reached(scheduled, now)
            &&& now.secs == t.secs && now.nanos < t.nanos ==> !time_reached(scheduled, now)
            &&& now.secs > t.secs ==> time_reached(scheduled, now)
        }),
        time_reached(scheduled, now) && (now.secs < later.secs || (now.secs == later.secs
            && now.nanos <= later.nanos)) ==> time_reached(scheduled, later),
{
}

/// An upgrade is due exactly where there is one and nothing is scheduled, the schedule cannot be
/// read, or its moment has come.
pub proof fn law_upgrade_is_due_at_its_moment(s: &ReconcileSnapshot, now: Moment, due: bool)
    requires
        call_ensures(ReconcileSnapshot::upgrade_job_ready_at, (s, now), due),
    ensures
        due ==> s.upgrade_job != JobStatus::Absent,
        s.upgrade_job != JobStatus::Absent && s.active_upgrade_job is Some ==> (due
            <==> match s.active_upgrade_job->0.spec.scheduled_time {
            Some(text) => match scheduled_moment(text@) {
                Some(t) => t.secs < now.secs || (t.secs == now.secs && t.nanos <= now.nanos),
                None => true,
            },
            None => true,
        }),
{
}

// ── Pods that cannot mount their volumes ────────────────────────────────────

/// Whether an event tells of a failed mount of the pod, so many times.
pub open spec fn tells_of_mount(event: EventObservation, pod: Seq<char>, times: i32) -> bool {
    &&& opt_text(event.kind) == Some("Pod"@)
    &&& opt_text(event.name) == Some(pod)
    &&& opt_text(event.reason) == Some("FailedMount"@) || opt_text(event.reason) == Some(
        "FailedAttachVolume"@,
    ) || opt_text(event.reason) == Some("FailedAttach"@)
    &&& event.count == Some(times)
}

/// A failed mount that is told of once may pass. Told of more often, it makes the pod stuck, where
/// the pod is on a node and waits for a container to be created.
pub proof fn law_repeated_failure_makes_stuck(
    pod: PodObservation,
    events: Seq<EventObservation>,
    k: int,
    c: int,
    times: i32,
)
    requires
        0 <= k < events.len(),
        tells_of_mount(events[k], pod.name@, times),
        pod.waiting_reasons is Some,
        0 <= c < pod.waiting_reasons->0@.len(),
        opt_text(pod.waiting_reasons->0@[c]) == Some("ContainerCreating"@) || opt_text(
            pod.waiting_reasons->0@[c],
        ) == Some("PodInitializing"@),
    ensures
        times >= 2 && pod.node_name is Some ==> is_stuck(pod, events),
        times < 2 && events.len() == 1 ==> !is_stuck(pod, events),
        pod.node_name is None ==> !is_stuck(pod, events),
{
}

/// A pod whose containers are not waiting to be created is not stuck, nor is one of which no event
/// tells.
pub proof fn law_other_pods_are_not_stuck(pod: PodObservation, events: Seq<EventObservation>)
    requires
        (pod.waiting_reasons matches Some(reasons) ==> forall|c: int|
            0 <= c < reasons@.len() ==> opt_text(#[trigger] reasons@[c]) != Some(
                "ContainerCreating"@,
            ) && opt_text(reasons@[c]) != Some("PodInitializing"@)) || (forall|k: int|
            0 <= k < events.len() ==> opt_text((#[trigger] events[k]).name) != Some(pod.name@)
                || opt_text(events[k].kind) != Some("Pod"@)),
    ensures
        !is_stuck(pod, events),
{
}

/// The stuck pods are all those that are stuck, and no others.
pub proof fn law_stuck_pods_are_all_that_are_stuck(
    pods: &Option<Vec<PodObservation>>,
    events: &Option<Vec<EventObservation>>,
    name: Seq<char>,
    r: Vec<String>,
)
    requires
        call_ensures(gather_stuck_mount_pods, (pods, events), r),
    ensures
        texts(r@).contains(name) <==> {
            &&& *pods matches Some(p)
            &&& *events matches Some(e)
            &&& exists|k: int|
                0 <= k < p@.len() && (#[trigger] p@[k]).name@ == name && is_stuck(p@[k], e@)
        },
{
    if let (Some(p), Some(e)) = (*pods, *events) {
        lemma_stuck_names(p@, e@, name);
    }
}

proof fn lemma_stuck_names(
    pods: Seq<PodObservation>,
    events: Seq<EventObservation>,
    name: Seq<char>,
)
    ensures
        stuck_names(pods, events).contains(name) <==> exists|k: int|
            0 <= k < pods.len() && (#[trigger] pods[k]).name@ == name && is_stuck(pods[k], events),
    decreases pods.len(),
{
    if pods.len() > 0 {
        let rest = pods.drop_last();
        let last = pods.last();
        let before = stuck_names(rest, events);
        lemma_stuck_names(rest, events, name);
        if before.contains(name) {
            let k = choose|k: int|
                0 <= k < rest.len() && (#[trigger] rest[k]).name@ == name && is_stuck(
                    rest[k],
                    events,
                );
            assert(pods[k] == rest[k]);
            let at = choose|at: int| 0 <= at < before.len() && before[at] == name;
            assert(stuck_names(pods, events)[at] == name);
        }
        if is_stuck(last, events) && last.name@ == name {
            assert(stuck_names(pods, events)[before.len() as int] == name);
            assert(pods[pods.len() - 1] == last);
        }
        if exists|k: int|
            0 <= k < pods.len() && (#[trigger] pods[k]).name@ == name && is_stuck(pods[k], events) {
            let k = choose|k: int|
                0 <= k < pods.len() && (#[trigger] pods[k]).name@ == name && is_stuck(
                    pods[k],
                    events,
                );
            if k < rest.len() {
                assert(rest[k] == pods[k]);
            }
        }
        if stuck_names(pods, events).contains(name) {
            let at = choose|at: int|
                0 <= at < stuck_names(pods, events).len() && stuck_names(pods, events)[at] == name;
            if at < before.len() {
                assert(before[at] == name);
            }
        }
    } else {
        assert(stuck_names(pods, events).len() == 0);
    }
}

} // verus!
