//! The snapshot: what is observed of an instance and of the work on it, once per reconcile.

use vstd::prelude::*;

use crate::controller::child_resources::requested_class;
use crate::controller::patches::{
    no_refresh_change, FieldChange, FieldText, PhaseChange, RefreshStatusPatch, RefreshStatusText,
};
use crate::crd::metadata::Moment;
use crate::crd::odoo_backup_job::OdooBackupJob;
use crate::crd::odoo_init_job::OdooInitJob;
use crate::crd::odoo_instance::OdooInstance;
use crate::crd::odoo_restore_job::OdooRestoreJob;
use crate::crd::odoo_staging_refresh_job::OdooStagingRefreshJob;
use crate::crd::odoo_upgrade_job::OdooUpgradeJob;
use crate::crd::shared::{JobRecord, Phase};
use crate::helpers::{current_moment, is_clock_time};
use crate::outside::{parse_rfc3339, rfc3339_moment};
use crate::text::{opt_text, same_text, texts};

verus! {

broadcast use vstd::seq_lib::group_seq_properties;

// ── Job status ──────────────────────────────────────────────────────────────

/// Observed status of a job resource and of the Kubernetes Job behind it.
#[derive(Debug, Clone, Copy, PartialEq, Eq, Structural)]
pub enum JobStatus {
    /// There is no unfinished resource of this kind.
    Absent,
    /// There is an unfinished resource, and its Job has not ended.
    Active,
    /// The Job succeeded.
    Succeeded,
    /// The Job failed, or is gone.
    Failed,
}

impl JobStatus {
    /// Whether there is an unfinished resource.
    pub fn is_present(self) -> (r: bool)
        ensures
            r == (self != JobStatus::Absent),
    {
        self != JobStatus::Absent
    }
}

/// What is seen of a Kubernetes Job.
#[derive(Debug, Clone, Copy, PartialEq, Eq, Structural)]
pub struct JobObservation {
    pub succeeded: Option<i32>,
    pub failed: Option<i32>,
    pub deleting: bool,
}

/// The outcome of looking a Kubernetes Job up.
#[derive(Debug, Clone, Copy, PartialEq, Eq, Structural)]
pub enum JobLookup {
    Found(JobObservation),
    NotFound,
    /// The lookup failed for another reason.
    Failed,
}

/// Whether a count is there and positive.
pub open spec fn is_positive(count: Option<i32>) -> bool {
    count matches Some(n) && n > 0
}

fn positive(count: Option<i32>) -> (r: bool)
    ensures
        r == is_positive(count),
{
    match count {
        Some(n) => n > 0,
        None => false,
    }
}

/// The status of a job resource: absent where there is none, failed where its Job failed or is
/// gone, active where the Job is not yet created or cannot be seen.
pub open spec fn job_status(active: bool, named: bool, lookup: JobLookup) -> JobStatus {
    if !active {
        JobStatus::Absent
    } else if !named {
        JobStatus::Active
    } else {
        match lookup {
            JobLookup::Found(job) => if is_positive(job.succeeded) {
                JobStatus::Succeeded
            } else if is_positive(job.failed) || job.deleting {
                JobStatus::Failed
            } else {
                JobStatus::Active
            },
            JobLookup::NotFound => JobStatus::Failed,
            JobLookup::Failed => JobStatus::Active,
        }
    }
}

/// Combines the presence of a job resource with the outcome of its Kubernetes Job. `named` says
/// whether the resource names a Job; the lookup counts only where it does.
pub fn resolve_job_status(active: bool, named: bool, lookup: JobLookup) -> (r: JobStatus)
    ensures
        r == job_status(active, named, lookup),
{
    if !active {
        return JobStatus::Absent;
    }
    if !named {
        return JobStatus::Active;
    }
    match lookup {
        JobLookup::Found(job) => {
            if positive(job.succeeded) {
                JobStatus::Succeeded
            } else if positive(job.failed) || job.deleting {
                JobStatus::Failed
            } else {
                JobStatus::Active
            }
        },
        JobLookup::NotFound => JobStatus::Failed,
        JobLookup::Failed => JobStatus::Active,
    }
}

/// The status of a migration Job: absent where none is recorded or it is gone.
pub open spec fn migration_status(named: bool, lookup: JobLookup) -> JobStatus {
    if !named {
        JobStatus::Absent
    } else {
        match lookup {
            JobLookup::Found(job) => if is_positive(job.succeeded) {
                JobStatus::Succeeded
            } else if is_positive(job.failed) {
                JobStatus::Failed
            } else {
                JobStatus::Active
            },
            JobLookup::NotFound => JobStatus::Absent,
            JobLookup::Failed => JobStatus::Active,
        }
    }
}

/// The status of a migration Job.
pub fn resolve_migration_status(named: bool, lookup: JobLookup) -> (r: JobStatus)
    ensures
        r == migration_status(named, lookup),
{
    if !named {
        return JobStatus::Absent;
    }
    match lookup {
        JobLookup::Found(job) => {
            if positive(job.succeeded) {
                JobStatus::Succeeded
            } else if positive(job.failed) {
                JobStatus::Failed
            } else {
                JobStatus::Active
            }
        },
        JobLookup::NotFound => JobStatus::Absent,
        JobLookup::Failed => JobStatus::Active,
    }
}

/// The status of one Job of a staging refresh. What was recorded of its end counts before what
/// is seen, since the Job may be collected while its siblings run. A Job that is gone without a
/// record counts as active: missing evidence is no failure.
pub open spec fn sub_job_status(
    recorded: Option<Phase>,
    named: bool,
    lookup: JobLookup,
) -> JobStatus {
    match recorded {
        Some(Phase::Completed) => JobStatus::Succeeded,
        Some(Phase::Failed) => JobStatus::Failed,
        _ => if !named {
            JobStatus::Absent
        } else {
            match lookup {
                JobLookup::Found(job) => if is_positive(job.succeeded) {
                    JobStatus::Succeeded
                } else if is_positive(job.failed) || job.deleting {
                    JobStatus::Failed
                } else {
                    JobStatus::Active
                },
                _ => JobStatus::Active,
            }
        },
    }
}

/// What is to be recorded of the end of a Job: the phase that it was seen to end with, where
/// nothing is recorded yet.
pub open spec fn sub_job_record(
    recorded: Option<Phase>,
    named: bool,
    lookup: JobLookup,
) -> Option<Phase> {
    if recorded matches Some(p) && p.is_terminal() {
        None
    } else {
        match sub_job_status(recorded, named, lookup) {
            JobStatus::Succeeded => Some(Phase::Completed),
            JobStatus::Failed => Some(Phase::Failed),
            _ => None,
        }
    }
}

/// The status of one Job of a staging refresh, and what is to be recorded of its end.
pub fn resolve_refresh_sub_job_status(
    recorded: Option<Phase>,
    named: bool,
    lookup: JobLookup,
) -> (r: (JobStatus, Option<Phase>))
    ensures
        r.0 == sub_job_status(recorded, named, lookup),
        r.1 == sub_job_record(recorded, named, lookup),
{
    match recorded {
        Some(Phase::Completed) => return (JobStatus::Succeeded, None),
        Some(Phase::Failed) => return (JobStatus::Failed, None),
        _ => {},
    }
    if !named {
        return (JobStatus::Absent, None);
    }
    match lookup {
        JobLookup::Found(job) => {
            if positive(job.succeeded) {
                (JobStatus::Succeeded, Some(Phase::Completed))
            } else if positive(job.failed) || job.deleting {
                (JobStatus::Failed, Some(Phase::Failed))
            } else {
                (JobStatus::Active, None)
            }
        },
        _ => (JobStatus::Active, None),
    }
}

/// The status of a staging refresh: failed where one of its Jobs failed, succeeded where all
/// succeeded, else active.
pub open spec fn aggregate_status(statuses: Seq<JobStatus>) -> JobStatus {
    if statuses.contains(JobStatus::Failed) {
        JobStatus::Failed
    } else if forall|i: int|
        0 <= i < statuses.len() ==> #[trigger] statuses[i] == JobStatus::Succeeded {
        JobStatus::Succeeded
    } else {
        JobStatus::Active
    }
}

/// Rolls the statuses of the Jobs of a staging refresh up into one.
pub fn aggregate_refresh_sub_statuses(statuses: &Vec<JobStatus>) -> (r: JobStatus)
    ensures
        r == aggregate_status(statuses@),
{
    let mut all_succeeded: bool = true;
    let mut i: usize = 0;
    while i < statuses.len()
        invariant
            i <= statuses@.len(),
            forall|j: int| 0 <= j < i ==> #[trigger] statuses@[j] != JobStatus::Failed,
            all_succeeded == (forall|j: int|
                0 <= j < i ==> #[trigger] statuses@[j] == JobStatus::Succeeded),
        decreases statuses@.len() - i,
    {
        let status = statuses[i];
        if status == JobStatus::Failed {
            proof {
                assert(statuses@[i as int] == JobStatus::Failed);
                assert(statuses@.contains(JobStatus::Failed));
            }
            return JobStatus::Failed;
        }
        if status != JobStatus::Succeeded {
            all_succeeded = false;
        }
        i = i + 1;
    }
    if all_succeeded {
        JobStatus::Succeeded
    } else {
        JobStatus::Active
    }
}

// ── Scheduled times ─────────────────────────────────────────────────────────

/// The moment that a scheduled time stands for, where it can be read.
pub open spec fn scheduled_moment(scheduled: Seq<char>) -> Option<Moment> {
    match rfc3339_moment(scheduled) {
        Some(m) => Some(Moment { secs: m.0, nanos: m.1 }),
        None => None,
    }
}

/// Whether it is time: at once where nothing is scheduled or the schedule cannot be read, else
/// from the scheduled moment on.
pub open spec fn time_reached(scheduled: Option<Seq<char>>, now: Moment) -> bool {
    match scheduled {
        None => true,
        Some(s) => match scheduled_moment(s) {
            Some(t) => t.not_after(now),
            None => true,
        },
    }
}

/// Whether the scheduled time is reached at the moment `now`.
pub fn scheduled_time_reached_at(scheduled: &Option<String>, now: Moment) -> (r: bool)
    ensures
        r == time_reached(opt_text(*scheduled), now),
{
    match scheduled {
        None => true,
        Some(s) => match parse_rfc3339(s.as_str()) {
            Some((secs, nanos)) => {
                let target = Moment { secs, nanos };
                target.is_not_after(now)
            },
            None => true,
        },
    }
}

/// Whether the scheduled time is reached now.
pub fn scheduled_time_reached(scheduled: &Option<String>) -> (r: bool)
    ensures
        exists|now: Moment|
            is_clock_time(now) && r == #[trigger] time_reached(opt_text(*scheduled), now),
        scheduled is None ==> r,
{
    let now = current_moment();
    scheduled_time_reached_at(scheduled, now)
}

// ── Job resources of an instance ────────────────────────────────────────────

/// A resource that stands for work on an instance.
pub trait JobResource: Sized {
    /// The name of the instance.
    spec fn target(&self) -> Seq<char>;

    /// The recorded phase.
    spec fn recorded(&self) -> Option<Phase>;

    /// Whether the resource works on the instance `name`.
    fn works_on(&self, name: &str) -> (r: bool)
        ensures
            r == (self.target() == name@),
    ;

    /// The recorded phase.
    fn phase(&self) -> (r: Option<Phase>)
        ensures
            r == self.recorded(),
    ;
}

/// The recorded phase.
pub open spec fn record_phase(status: Option<JobRecord>) -> Option<Phase> {
    match status {
        Some(s) => s.phase,
        None => None,
    }
}

fn phase_of_record(status: &Option<JobRecord>) -> (r: Option<Phase>)
    ensures
        r == record_phase(*status),
{
    match status {
        Some(s) => s.phase,
        None => None,
    }
}

impl JobResource for OdooInitJob {
    open spec fn target(&self) -> Seq<char> {
        self.spec.odoo_instance_ref.name@
    }

    open spec fn recorded(&self) -> Option<Phase> {
        record_phase(self.status)
    }

    fn works_on(&self, name: &str) -> (r: bool) {
        same_text(self.spec.odoo_instance_ref.name.as_str(), name)
    }

    fn phase(&self) -> (r: Option<Phase>) {
        phase_of_record(&self.status)
    }
}

impl JobResource for OdooRestoreJob {
    open spec fn target(&self) -> Seq<char> {
        self.spec.odoo_instance_ref.name@
    }

    open spec fn recorded(&self) -> Option<Phase> {
        record_phase(self.status)
    }

    fn works_on(&self, name: &str) -> (r: bool) {
        same_text(self.spec.odoo_instance_ref.name.as_str(), name)
    }

    fn phase(&self) -> (r: Option<Phase>) {
        phase_of_record(&self.status)
    }
}

impl JobResource for OdooUpgradeJob {
    open spec fn target(&self) -> Seq<char> {
        self.spec.odoo_instance_ref.name@
    }

    open spec fn recorded(&self) -> Option<Phase> {
        record_phase(self.status)
    }

    fn works_on(&self, name: &str) -> (r: bool) {
        same_text(self.spec.odoo_instance_ref.name.as_str(), name)
    }

    fn phase(&self) -> (r: Option<Phase>) {
        phase_of_record(&self.status)
    }
}

impl JobResource for OdooBackupJob {
    open spec fn target(&self) -> Seq<char> {
        self.spec.odoo_instance_ref.name@
    }

    open spec fn recorded(&self) -> Option<Phase> {
        record_phase(self.status)
    }

    fn works_on(&self, name: &str) -> (r: bool) {
        same_text(self.spec.odoo_instance_ref.name.as_str(), name)
    }

    fn phase(&self) -> (r: Option<Phase>) {
        phase_of_record(&self.status)
    }
}

impl JobResource for OdooStagingRefreshJob {
    open spec fn target(&self) -> Seq<char> {
        self.spec.odoo_instance_ref.name@
    }

    open spec fn recorded(&self) -> Option<Phase> {
        match self.status {
            Some(s) => s.phase,
            None => None,
        }
    }

    fn works_on(&self, name: &str) -> (r: bool) {
        same_text(self.spec.odoo_instance_ref.name.as_str(), name)
    }

    fn phase(&self) -> (r: Option<Phase>) {
        match &self.status {
            Some(s) => s.phase,
            None => None,
        }
    }
}

/// Whether a resource is unfinished work on the instance `name`.
pub open spec fn is_unfinished<J: JobResource>(job: J, name: Seq<char>) -> bool {
    job.target() == name && !(job.recorded() matches Some(p) && p.is_terminal())
}

/// The first unfinished resource of the instance `name`.
pub open spec fn first_unfinished<J: JobResource>(jobs: Seq<J>, name: Seq<char>) -> Option<J>
    decreases jobs.len(),
{
    if jobs.len() == 0 {
        None
    } else if is_unfinished(jobs[0], name) {
        Some(jobs[0])
    } else {
        first_unfinished(jobs.drop_first(), name)
    }
}

/// The number of unfinished resources of the instance `name`.
pub open spec fn count_unfinished<J: JobResource>(jobs: Seq<J>, name: Seq<char>) -> nat
    decreases jobs.len(),
{
    if jobs.len() == 0 {
        0
    } else {
        count_unfinished(jobs.drop_last(), name) + if is_unfinished(jobs.last(), name) {
            1nat
        } else {
            0nat
        }
    }
}

fn unfinished<J: JobResource>(job: &J, name: &str) -> (r: bool)
    ensures
        r == is_unfinished(*job, name@),
{
    if !job.works_on(name) {
        return false;
    }
    match job.phase() {
        Some(Phase::Completed) => false,
        Some(Phase::Failed) => false,
        _ => true,
    }
}

/// The first unfinished resource of the instance `name`, and how many there are.
pub fn select_unfinished<J: JobResource>(jobs: Vec<J>, name: &str) -> (r: (Option<J>, usize))
    ensures
        r.0 == first_unfinished(jobs@, name@),
        r.1 == count_unfinished(jobs@, name@),
{
    let mut found: Option<usize> = None;
    let mut count: usize = 0;
    let mut i: usize = 0;
    proof {
        assert(jobs@.skip(0) =~= jobs@);
        assert(jobs@.take(0) =~= Seq::<J>::empty());
    }
    while i < jobs.len()
        invariant
            i <= jobs@.len(),
            count <= i,
            count == count_unfinished(jobs@.take(i as int), name@),
            found is None ==> first_unfinished(jobs@, name@) == first_unfinished(
                jobs@.skip(i as int),
                name@,
            ),
            found matches Some(at) ==> at < i && first_unfinished(jobs@, name@) == Some(
                jobs@[at as int],
            ),
        decreases jobs@.len() - i,
    {
        proof {
            assert(jobs@.skip(i as int).drop_first() =~= jobs@.skip(i + 1));
            assert(jobs@.take(i + 1).drop_last() =~= jobs@.take(i as int));
        }
        if unfinished(&jobs[i], name) {
            count = count + 1;
            if found.is_none() {
                found = Some(i);
            }
        }
        i = i + 1;
    }
    proof {
        assert(jobs@.take(jobs@.len() as int) =~= jobs@);
    }
    let mut jobs = jobs;
    match found {
        Some(at) => {
            let job = jobs.swap_remove(at);
            (Some(job), count)
        },
        None => (None, count),
    }
}

/// The unfinished work on an instance, one resource of each kind.
#[derive(Debug)]
pub struct ActiveJobs {
    pub init: Option<OdooInitJob>,
    pub restore: Option<OdooRestoreJob>,
    pub upgrade: Option<OdooUpgradeJob>,
    pub refresh: Option<OdooStagingRefreshJob>,
    pub backup: Option<OdooBackupJob>,
    /// How many backups are unfinished.
    pub pending_backups: usize,
}

/// Whether `r` is the unfinished work on the instance `name`.
pub open spec fn is_active_work(
    r: ActiveJobs,
    name: Seq<char>,
    inits: Seq<OdooInitJob>,
    restores: Seq<OdooRestoreJob>,
    upgrades: Seq<OdooUpgradeJob>,
    refreshes: Seq<OdooStagingRefreshJob>,
    backups: Seq<OdooBackupJob>,
) -> bool {
    &&& r.init == first_unfinished(inits, name)
    &&& r.restore == first_unfinished(restores, name)
    &&& r.upgrade == first_unfinished(upgrades, name)
    &&& r.refresh == first_unfinished(refreshes, name)
    &&& r.backup == first_unfinished(backups, name)
    &&& r.pending_backups == count_unfinished(backups, name)
}

/// The unfinished work on the instance `name`.
pub fn select_jobs(
    name: &str,
    inits: Vec<OdooInitJob>,
    restores: Vec<OdooRestoreJob>,
    upgrades: Vec<OdooUpgradeJob>,
    refreshes: Vec<OdooStagingRefreshJob>,
    backups: Vec<OdooBackupJob>,
) -> (r: ActiveJobs)
    ensures
        is_active_work(r, name@, inits@, restores@, upgrades@, refreshes@, backups@),
{
    let (init, _) = select_unfinished(inits, name);
    let (restore, _) = select_unfinished(restores, name);
    let (upgrade, _) = select_unfinished(upgrades, name);
    let (refresh, _) = select_unfinished(refreshes, name);
    let (backup, pending_backups) = select_unfinished(backups, name);
    ActiveJobs { init, restore, upgrade, refresh, backup, pending_backups }
}

// ── Kubernetes Jobs behind them ─────────────────────────────────────────────

/// The names of the Kubernetes Jobs whose state a snapshot needs.
#[derive(Debug)]
pub struct JobNames {
    pub init: Option<String>,
    pub restore: Option<String>,
    pub upgrade: Option<String>,
    pub backup: Option<String>,
    pub refresh_db: Option<String>,
    pub refresh_filestore: Option<String>,
    pub refresh_neutralize: Option<String>,
    pub migration: Option<String>,
    pub db_migration: Option<String>,
}

/// What was found of them. What stands beside a name that is not there does not count.
#[derive(Debug)]
pub struct JobLookups {
    pub init: JobLookup,
    pub restore: JobLookup,
    pub upgrade: JobLookup,
    pub backup: JobLookup,
    pub refresh_db: JobLookup,
    pub refresh_filestore: JobLookup,
    pub refresh_neutralize: JobLookup,
    pub migration: JobLookup,
    pub db_migration: JobLookup,
}

/// The Job that a job resource names.
pub open spec fn record_job(status: Option<JobRecord>) -> Option<Seq<char>> {
    match status {
        Some(s) => opt_text(s.job_name),
        None => None,
    }
}

fn job_of_record(status: &Option<JobRecord>) -> (r: Option<String>)
    ensures
        opt_text(r) == record_job(*status),
{
    match status {
        Some(s) => s.job_name.clone(),
        None => None,
    }
}

/// The Job that clones the database.
pub open spec fn db_job(refresh: OdooStagingRefreshJob) -> Option<Seq<char>> {
    match refresh.status {
        Some(s) => opt_text(s.db_job_name),
        None => None,
    }
}

/// How the Job that clones the database ended, where that is recorded.
pub open spec fn db_phase(refresh: OdooStagingRefreshJob) -> Option<Phase> {
    match refresh.status {
        Some(s) => s.db_job_phase,
        None => None,
    }
}

/// The Job that copies the filestore.
pub open spec fn filestore_job(refresh: OdooStagingRefreshJob) -> Option<Seq<char>> {
    match refresh.status {
        Some(s) => opt_text(s.filestore_job_name),
        None => None,
    }
}

/// How the Job that copies the filestore ended, where that is recorded.
pub open spec fn filestore_job_phase(refresh: OdooStagingRefreshJob) -> Option<Phase> {
    match refresh.status {
        Some(s) => s.filestore_job_phase,
        None => None,
    }
}

/// The phase of the filestore step.
pub open spec fn filestore_phase(refresh: OdooStagingRefreshJob) -> Option<Phase> {
    match refresh.status {
        Some(s) => s.filestore_phase,
        None => None,
    }
}

/// The Job that neutralizes the clone.
pub open spec fn neutralize_job(refresh: OdooStagingRefreshJob) -> Option<Seq<char>> {
    match refresh.status {
        Some(s) => opt_text(s.neutralize_job_name),
        None => None,
    }
}

/// How the Job that neutralizes the clone ended, where that is recorded.
pub open spec fn neutralize_phase(refresh: OdooStagingRefreshJob) -> Option<Phase> {
    match refresh.status {
        Some(s) => s.neutralize_job_phase,
        None => None,
    }
}

/// Whether a refresh leaves the filestore alone: it is told to, or the instance has none that
/// persists.
pub open spec fn skips_filestore(refresh: OdooStagingRefreshJob, instance: &OdooInstance) -> bool {
    refresh.spec.skip_filestore || instance.ephemeral()
}

/// `name`, unless the end of the Job is recorded already.
pub open spec fn unless_ended(recorded: Option<Phase>, name: Option<Seq<char>>) -> Option<
    Seq<char>,
> {
    if recorded matches Some(p) && p.is_terminal() {
        None
    } else {
        name
    }
}

/// The Job whose state the database step of a refresh needs.
pub open spec fn needed_db_job(refresh: Option<OdooStagingRefreshJob>) -> Option<Seq<char>> {
    match refresh {
        Some(r) => unless_ended(db_phase(r), db_job(r)),
        None => None,
    }
}

/// The Job whose state the filestore step of a refresh needs.
pub open spec fn needed_filestore_job(
    refresh: Option<OdooStagingRefreshJob>,
    instance: &OdooInstance,
) -> Option<Seq<char>> {
    match refresh {
        Some(r) => if skips_filestore(r, instance) {
            None
        } else {
            unless_ended(
                filestore_phase(r),
                unless_ended(filestore_job_phase(r), filestore_job(r)),
            )
        },
        None => None,
    }
}

/// The Job whose state the neutralize step of a refresh needs.
pub open spec fn needed_neutralize_job(refresh: Option<OdooStagingRefreshJob>) -> Option<
    Seq<char>,
> {
    match refresh {
        Some(r) => unless_ended(neutralize_phase(r), neutralize_job(r)),
        None => None,
    }
}

/// The Job of a filestore migration.
pub open spec fn migration_job(instance: &OdooInstance) -> Option<Seq<char>> {
    match instance.status {
        Some(s) => opt_text(s.migration_job_name),
        None => None,
    }
}

/// The Job of a database migration.
pub open spec fn db_migration_job(instance: &OdooInstance) -> Option<Seq<char>> {
    match instance.status {
        Some(s) => opt_text(s.db_migration_job_name),
        None => None,
    }
}

fn ended(recorded: Option<Phase>) -> (r: bool)
    ensures
        r == (recorded matches Some(p) && p.is_terminal()),
{
    match recorded {
        Some(Phase::Completed) => true,
        Some(Phase::Failed) => true,
        _ => false,
    }
}

/// Whether `r` are the names of the Kubernetes Jobs whose state a snapshot needs.
pub open spec fn are_job_names(r: JobNames, instance: &OdooInstance, active: ActiveJobs) -> bool {
    &&& opt_text(r.init) == (match active.init {
        Some(j) => record_job(j.status),
        None => None,
    })
    &&& opt_text(r.restore) == (match active.restore {
        Some(j) => record_job(j.status),
        None => None,
    })
    &&& opt_text(r.upgrade) == (match active.upgrade {
        Some(j) => record_job(j.status),
        None => None,
    })
    &&& opt_text(r.backup) == (match active.backup {
        Some(j) => record_job(j.status),
        None => None,
    })
    &&& opt_text(r.refresh_db) == needed_db_job(active.refresh)
    &&& opt_text(r.refresh_filestore) == needed_filestore_job(active.refresh, instance)
    &&& opt_text(r.refresh_neutralize) == needed_neutralize_job(active.refresh)
    &&& opt_text(r.migration) == migration_job(instance)
    &&& opt_text(r.db_migration) == db_migration_job(instance)
}

/// The names of the Kubernetes Jobs whose state a snapshot needs.
pub fn job_names(instance: &OdooInstance, active: &ActiveJobs) -> (r: JobNames)
    ensures
        are_job_names(r, instance, *active),
{
    let init = match &active.init {
        Some(j) => job_of_record(&j.status),
        None => None,
    };
    let restore = match &active.restore {
        Some(j) => job_of_record(&j.status),
        None => None,
    };
    let upgrade = match &active.upgrade {
        Some(j) => job_of_record(&j.status),
        None => None,
    };
    let backup = match &active.backup {
        Some(j) => job_of_record(&j.status),
        None => None,
    };
    let mut refresh_db: Option<String> = None;
    let mut refresh_filestore: Option<String> = None;
    let mut refresh_neutralize: Option<String> = None;
    if let Some(refresh) = &active.refresh {
        if let Some(status) = &refresh.status {
            if !ended(status.db_job_phase) {
                refresh_db = status.db_job_name.clone();
            }
            if !refresh.spec.skip_filestore && !instance.is_ephemeral() && !ended(
                status.filestore_phase,
            ) && !ended(status.filestore_job_phase) {
                refresh_filestore = status.filestore_job_name.clone();
            }
            if !ended(status.neutralize_job_phase) {
                refresh_neutralize = status.neutralize_job_name.clone();
            }
        }
    }
    let (migration, db_migration): (Option<String>, Option<String>) = match &instance.status {
        Some(s) => (s.migration_job_name.clone(), s.db_migration_job_name.clone()),
        None => (None, None),
    };
    JobNames {
        init,
        restore,
        upgrade,
        backup,
        refresh_db,
        refresh_filestore,
        refresh_neutralize,
        migration,
        db_migration,
    }
}

// ── The progress of a staging refresh ───────────────────────────────────────

/// The status of the database step.
pub open spec fn db_step(refresh: OdooStagingRefreshJob, lookup: JobLookup) -> JobStatus {
    sub_job_status(db_phase(refresh), db_job(refresh) is Some, lookup)
}

/// The status of the filestore step: done where it is skipped, else as recorded, else as its Job.
pub open spec fn filestore_step(
    refresh: OdooStagingRefreshJob,
    instance: &OdooInstance,
    lookup: JobLookup,
) -> JobStatus {
    if skips_filestore(refresh, instance) {
        JobStatus::Succeeded
    } else {
        match filestore_phase(refresh) {
            Some(Phase::Completed) => JobStatus::Succeeded,
            Some(Phase::Failed) => JobStatus::Failed,
            _ => sub_job_status(
                filestore_job_phase(refresh),
                filestore_job(refresh) is Some,
                lookup,
            ),
        }
    }
}

/// The status of the neutralize step.
pub open spec fn neutralize_step(refresh: OdooStagingRefreshJob, lookup: JobLookup) -> JobStatus {
    sub_job_status(neutralize_phase(refresh), neutralize_job(refresh) is Some, lookup)
}

/// The status of a staging refresh.
pub open spec fn refresh_status(
    refresh: Option<OdooStagingRefreshJob>,
    instance: &OdooInstance,
    lookups: JobLookups,
) -> JobStatus {
    match refresh {
        Some(r) => aggregate_status(
            seq![
                db_step(r, lookups.refresh_db),
                filestore_step(r, instance, lookups.refresh_filestore),
                neutralize_step(r, lookups.refresh_neutralize),
            ],
        ),
        None => JobStatus::Absent,
    }
}

/// How the Jobs of a staging refresh ended, as far as that is to be recorded.
#[derive(Debug, Clone, Copy, PartialEq, Eq, Structural)]
pub struct RefreshRecords {
    pub db: Option<Phase>,
    pub filestore: Option<Phase>,
    pub neutralize: Option<Phase>,
}

/// What is to be recorded of the Jobs of a staging refresh.
pub open spec fn refresh_records(
    refresh: Option<OdooStagingRefreshJob>,
    instance: &OdooInstance,
    lookups: JobLookups,
) -> RefreshRecords {
    match refresh {
        Some(r) => RefreshRecords {
            db: sub_job_record(db_phase(r), db_job(r) is Some, lookups.refresh_db),
            filestore: if skips_filestore(r, instance) || (filestore_phase(r) matches Some(p)
                && p.is_terminal()) {
                None
            } else {
                sub_job_record(
                    filestore_job_phase(r),
                    filestore_job(r) is Some,
                    lookups.refresh_filestore,
                )
            },
            neutralize: sub_job_record(
                neutralize_phase(r),
                neutralize_job(r) is Some,
                lookups.refresh_neutralize,
            ),
        },
        None => RefreshRecords { db: None, filestore: None, neutralize: None },
    }
}

/// The status of a staging refresh, and what is to be recorded of its Jobs.
pub fn resolve_refresh(
    refresh: &Option<OdooStagingRefreshJob>,
    instance: &OdooInstance,
    lookups: &JobLookups,
) -> (r: (JobStatus, RefreshRecords))
    ensures
        r.0 == refresh_status(*refresh, instance, *lookups),
        r.1 == refresh_records(*refresh, instance, *lookups),
{
    let job = match refresh {
        Some(job) => job,
        None => {
            return (
                JobStatus::Absent,
                RefreshRecords { db: None, filestore: None, neutralize: None },
            );
        },
    };
    let (db_named, db_recorded): (bool, Option<Phase>) = match &job.status {
        Some(s) => (s.db_job_name.is_some(), s.db_job_phase),
        None => (false, None),
    };
    let (copy_named, copy_recorded): (bool, Option<Phase>) = match &job.status {
        Some(s) => (s.filestore_job_name.is_some(), s.filestore_job_phase),
        None => (false, None),
    };
    let step: Option<Phase> = match &job.status {
        Some(s) => s.filestore_phase,
        None => None,
    };
    let (neut_named, neut_recorded): (bool, Option<Phase>) = match &job.status {
        Some(s) => (s.neutralize_job_name.is_some(), s.neutralize_job_phase),
        None => (false, None),
    };
    let (db, db_record) = resolve_refresh_sub_job_status(
        db_recorded,
        db_named,
        lookups.refresh_db,
    );
    let (filestore, filestore_record): (JobStatus, Option<Phase>) = if job.spec.skip_filestore
        || instance.is_ephemeral() {
        (JobStatus::Succeeded, None)
    } else {
        match step {
            Some(Phase::Completed) => (JobStatus::Succeeded, None),
            Some(Phase::Failed) => (JobStatus::Failed, None),
            _ => resolve_refresh_sub_job_status(
                copy_recorded,
                copy_named,
                lookups.refresh_filestore,
            ),
        }
    };
    let (neutralize, neutralize_record) = resolve_refresh_sub_job_status(
        neut_recorded,
        neut_named,
        lookups.refresh_neutralize,
    );
    let statuses = vec![db, filestore, neutralize];
    proof {
        assert(statuses@ =~= seq![
            db_step(*job, lookups.refresh_db),
            filestore_step(*job, instance, lookups.refresh_filestore),
            neutralize_step(*job, lookups.refresh_neutralize),
        ]);
    }
    let status = aggregate_refresh_sub_statuses(&statuses);
    (
        status,
        RefreshRecords { db: db_record, filestore: filestore_record, neutralize: neutralize_record },
    )
}

/// The change that records how a Job ended, if it did.
pub open spec fn recorded_end(end: Option<Phase>) -> PhaseChange {
    match end {
        Some(phase) => PhaseChange::To(phase),
        None => PhaseChange::Keep,
    }
}

/// The change that records how the Jobs of a staging refresh ended. With the database clone the
/// cutover has succeeded, and the temporary database is gone.
pub open spec fn records_change(records: RefreshRecords) -> RefreshStatusText {
    RefreshStatusText {
        temp_db_name: if records.db == Some(Phase::Completed) {
            FieldText::Clear
        } else {
            FieldText::Keep
        },
        db_job_phase: recorded_end(records.db),
        filestore_job_phase: recorded_end(records.filestore),
        neutralize_job_phase: recorded_end(records.neutralize),
        ..no_refresh_change()
    }
}

fn end_change(end: Option<Phase>) -> (r: PhaseChange)
    ensures
        r == recorded_end(end),
{
    match end {
        Some(phase) => PhaseChange::To(phase),
        None => PhaseChange::Keep,
    }
}

/// Records how the Jobs of a staging refresh ended, where one of them did.
pub fn record_refresh_jobs(records: RefreshRecords) -> (r: Option<RefreshStatusPatch>)
    ensures
        r is None <==> records.db is None && records.filestore is None && records.neutralize
            is None,
        r matches Some(patch) ==> patch@ == records_change(records),
{
    if records.db.is_none() && records.filestore.is_none() && records.neutralize.is_none() {
        return None;
    }
    let mut patch = RefreshStatusPatch::nothing();
    if let Some(Phase::Completed) = records.db {
        patch.temp_db_name = FieldChange::Clear;
    }
    patch.db_job_phase = end_change(records.db);
    patch.filestore_job_phase = end_change(records.filestore);
    patch.neutralize_job_phase = end_change(records.neutralize);
    Some(patch)
}

// ── Pods that cannot mount their volumes ────────────────────────────────────

/// What is seen of a pod.
#[derive(Debug)]
pub struct PodObservation {
    pub name: String,
    pub node_name: Option<String>,
    /// Why each container waits, where the pod has a status. A container that does not wait,
    /// or does not say why, has no reason.
    pub waiting_reasons: Option<Vec<Option<String>>>,
}

/// What is seen of an event.
#[derive(Debug)]
pub struct EventObservation {
    pub kind: Option<String>,
    pub name: Option<String>,
    pub reason: Option<String>,
    pub count: Option<i32>,
}

/// Whether a container is still being created.
pub open spec fn is_creating(reason: Option<String>) -> bool {
    opt_text(reason) == Some("ContainerCreating"@) || opt_text(reason) == Some("PodInitializing"@)
}

/// Whether an event says that a volume of the pod could not be mounted, more than once.
pub open spec fn is_mount_failure(event: EventObservation, pod: Seq<char>) -> bool {
    &&& opt_text(event.kind) == Some("Pod"@)
    &&& opt_text(event.name) == Some(pod)
    &&& {
        ||| opt_text(event.reason) == Some("FailedMount"@)
        ||| opt_text(event.reason) == Some("FailedAttachVolume"@)
        ||| opt_text(event.reason) == Some("FailedAttach"@)
    }
    &&& event.count matches Some(n) && n >= 2
}

/// Whether a pod is stuck: it is on a node, a container is still being created, and a volume
/// could not be mounted repeatedly. A pod without such an event is merely starting.
pub open spec fn is_stuck(pod: PodObservation, events: Seq<EventObservation>) -> bool {
    &&& pod.node_name is Some
    &&& pod.waiting_reasons matches Some(reasons)
    &&& exists|i: int| 0 <= i < reasons@.len() && is_creating(#[trigger] reasons@[i])
    &&& exists|j: int| 0 <= j < events.len() && is_mount_failure(#[trigger] events[j], pod.name@)
}

/// The names of the pods that are stuck.
pub open spec fn stuck_names(pods: Seq<PodObservation>, events: Seq<EventObservation>) -> Seq<
    Seq<char>,
>
    decreases pods.len(),
{
    if pods.len() == 0 {
        Seq::empty()
    } else {
        let before = stuck_names(pods.drop_last(), events);
        if is_stuck(pods.last(), events) {
            before.push(pods.last().name@)
        } else {
            before
        }
    }
}

/// The names of the stuck pods, none where pods or events could not be listed.
pub open spec fn stuck_pods(
    pods: Option<Vec<PodObservation>>,
    events: Option<Vec<EventObservation>>,
) -> Seq<Seq<char>> {
    match (pods, events) {
        (Some(p), Some(e)) => stuck_names(p@, e@),
        _ => Seq::empty(),
    }
}

fn says(text: &Option<String>, literal: &str) -> (r: bool)
    ensures
        r == (opt_text(*text) == Some(literal@)),
{
    match text {
        Some(t) => same_text(t.as_str(), literal),
        None => false,
    }
}

fn still_creating(reasons: &Vec<Option<String>>) -> (r: bool)
    ensures
        r == exists|i: int| 0 <= i < reasons@.len() && is_creating(#[trigger] reasons@[i]),
{
    let mut i: usize = 0;
    while i < reasons.len()
        invariant
            i <= reasons@.len(),
            forall|j: int| 0 <= j < i ==> !is_creating(#[trigger] reasons@[j]),
        decreases reasons@.len() - i,
    {
        if says(&reasons[i], "ContainerCreating") || says(&reasons[i], "PodInitializing") {
            proof {
                assert(is_creating(reasons@[i as int]));
            }
            return true;
        }
        i = i + 1;
    }
    false
}

fn mount_failed(events: &Vec<EventObservation>, pod: &String) -> (r: bool)
    ensures
        r == exists|j: int|
            0 <= j < events@.len() && is_mount_failure(#[trigger] events@[j], pod@),
{
    let mut i: usize = 0;
    while i < events.len()
        invariant
            i <= events@.len(),
            forall|j: int| 0 <= j < i ==> !is_mount_failure(#[trigger] events@[j], pod@),
        decreases events@.len() - i,
    {
        let event = &events[i];
        let repeated = match event.count {
            Some(n) => n >= 2,
            None => false,
        };
        if says(&event.kind, "Pod") && says(&event.name, pod.as_str()) && (says(
            &event.reason,
            "FailedMount",
        ) || says(&event.reason, "FailedAttachVolume") || says(&event.reason, "FailedAttach"))
            && repeated {
            proof {
                assert(is_mount_failure(events@[i as int], pod@));
            }
            return true;
        }
        i = i + 1;
    }
    false
}

/// The pods of an instance that are stuck because a volume cannot be mounted.
pub fn gather_stuck_mount_pods(
    pods: &Option<Vec<PodObservation>>,
    events: &Option<Vec<EventObservation>>,
) -> (r: Vec<String>)
    ensures
        texts(r@) == stuck_pods(*pods, *events),
{
    let mut stuck: Vec<String> = Vec::new();
    proof {
        assert(texts(stuck@) =~= Seq::<Seq<char>>::empty());
    }
    let (pods, events) = match (pods, events) {
        (Some(p), Some(e)) => (p, e),
        _ => return stuck,
    };
    let mut i: usize = 0;
    proof {
        assert(pods@.take(0) =~= Seq::<PodObservation>::empty());
    }
    while i < pods.len()
        invariant
            i <= pods@.len(),
            texts(stuck@) == stuck_names(pods@.take(i as int), events@),
        decreases pods@.len() - i,
    {
        let pod = &pods[i];
        proof {
            assert(pods@.take(i + 1).drop_last() =~= pods@.take(i as int));
        }
        let creating = match &pod.waiting_reasons {
            Some(reasons) => still_creating(reasons),
            None => false,
        };
        if pod.node_name.is_some() && creating && mount_failed(events, &pod.name) {
            let ghost before = stuck@;
            stuck.push(pod.name.clone());
            proof {
                assert(texts(stuck@) =~= texts(before).push(pod.name@));
            }
        }
        i = i + 1;
    }
    proof {
        assert(pods@.take(pods@.len() as int) =~= pods@);
    }
    stuck
}

// ── The snapshot ────────────────────────────────────────────────────────────

/// What is seen of a Deployment.
#[derive(Debug, Clone, Copy, PartialEq, Eq, Structural)]
pub struct DeploymentObservation {
    pub replicas: Option<i32>,
    pub ready_replicas: Option<i32>,
}

/// What is seen of the filestore claim.
#[derive(Debug)]
pub struct ClaimObservation {
    pub storage_class: Option<String>,
}

/// What is seen of the objects of an instance. What could not be read is missing.
#[derive(Debug)]
pub struct Observations {
    pub web: Option<DeploymentObservation>,
    pub cron: Option<DeploymentObservation>,
    pub claim: Option<ClaimObservation>,
    pub pods: Option<Vec<PodObservation>>,
    pub events: Option<Vec<EventObservation>>,
}

/// A point-in-time view of the world, gathered once per reconcile.
#[derive(Debug)]
pub struct ReconcileSnapshot {
    pub ready_replicas: i32,
    pub deployment_replicas: i32,
    pub cron_ready_replicas: i32,
    pub cron_deployment_replicas: i32,
    pub db_initialized: bool,
    pub init_job: JobStatus,
    pub restore_job: JobStatus,
    pub upgrade_job: JobStatus,
    pub backup_job: JobStatus,
    pub refresh_job: JobStatus,
    pub active_init_job: Option<OdooInitJob>,
    pub active_restore_job: Option<OdooRestoreJob>,
    pub active_upgrade_job: Option<OdooUpgradeJob>,
    pub active_backup_job: Option<OdooBackupJob>,
    pub active_refresh_job: Option<OdooStagingRefreshJob>,
    pub pending_backup_jobs: usize,
    pub storage_class_mismatch: bool,
    pub actual_storage_class: Option<String>,
    pub migration_job: JobStatus,
    pub cluster_mismatch: bool,
    pub db_migration_job: JobStatus,
    pub stuck_mount_pods: Vec<String>,
}

/// The replicas of a Deployment, wanted and ready, none where it cannot be read.
pub open spec fn replica_counts(d: Option<DeploymentObservation>) -> (i32, i32) {
    match d {
        Some(o) => (
            match o.replicas {
                Some(n) => n,
                None => 0,
            },
            match o.ready_replicas {
                Some(n) => n,
                None => 0,
            },
        ),
        None => (0, 0),
    }
}

fn replica_counts_of(d: &Option<DeploymentObservation>) -> (r: (i32, i32))
    ensures
        r == replica_counts(*d),
{
    match d {
        Some(o) => {
            let wanted: i32 = match o.replicas {
                Some(n) => n,
                None => 0,
            };
            let ready: i32 = match o.ready_replicas {
                Some(n) => n,
                None => 0,
            };
            (wanted, ready)
        },
        None => (0, 0),
    }
}

/// The storage class of the filestore claim.
pub open spec fn actual_class(claim: Option<ClaimObservation>) -> Option<Seq<char>> {
    match claim {
        Some(c) => opt_text(c.storage_class),
        None => None,
    }
}

/// Whether the filestore claim has another storage class than the instance asks for.
pub open spec fn class_differs(claim: Option<ClaimObservation>, instance: &OdooInstance) -> bool {
    match (actual_class(claim), requested_class(instance)) {
        (Some(actual), Some(desired)) => actual != desired,
        _ => false,
    }
}

/// Whether the instance is on another database cluster than it should be.
pub open spec fn cluster_differs(instance: &OdooInstance, desired: Seq<char>) -> bool {
    match instance.status {
        Some(s) => opt_text(s.active_cluster) matches Some(active) && active != desired,
        None => false,
    }
}

/// Whether the database is recorded as initialised. Old finished jobs do not count: a failed
/// restore drops the database, and clears the record.
pub open spec fn recorded_initialized(instance: &OdooInstance) -> bool {
    instance.status matches Some(s) && s.db_initialized
}

/// A snapshot, and how the Jobs of a staging refresh ended, as far as that is to be recorded.
#[derive(Debug)]
pub struct Gathered {
    pub snapshot: ReconcileSnapshot,
    pub records: RefreshRecords,
}

impl ReconcileSnapshot {
    /// Whether the snapshot shows what was observed.
    pub open spec fn shows(
        self,
        instance: &OdooInstance,
        desired_cluster: Seq<char>,
        active: ActiveJobs,
        lookups: JobLookups,
        seen: Observations,
    ) -> bool {
        &&& (self.deployment_replicas, self.ready_replicas) == replica_counts(seen.web)
        &&& (self.cron_deployment_replicas, self.cron_ready_replicas) == replica_counts(seen.cron)
        &&& self.db_initialized == recorded_initialized(instance)
        &&& self.init_job == job_status(
            active.init is Some,
            active.init matches Some(j) && record_job(j.status) is Some,
            lookups.init,
        )
        &&& self.restore_job == job_status(
            active.restore is Some,
            active.restore matches Some(j) && record_job(j.status) is Some,
            lookups.restore,
        )
        &&& self.upgrade_job == job_status(
            active.upgrade is Some,
            active.upgrade matches Some(j) && record_job(j.status) is Some,
            lookups.upgrade,
        )
        &&& self.backup_job == job_status(
            active.backup is Some,
            active.backup matches Some(j) && record_job(j.status) is Some,
            lookups.backup,
        )
        &&& self.refresh_job == refresh_status(active.refresh, instance, lookups)
        &&& self.active_init_job == active.init
        &&& self.active_restore_job == active.restore
        &&& self.active_upgrade_job == active.upgrade
        &&& self.active_backup_job == active.backup
        &&& self.active_refresh_job == active.refresh
        &&& self.pending_backup_jobs == active.pending_backups
        &&& self.storage_class_mismatch == class_differs(seen.claim, instance)
        &&& opt_text(self.actual_storage_class) == actual_class(seen.claim)
        &&& self.migration_job == migration_status(
            migration_job(instance) is Some,
            lookups.migration,
        )
        &&& self.cluster_mismatch == cluster_differs(instance, desired_cluster)
        &&& self.db_migration_job == migration_status(
            db_migration_job(instance) is Some,
            lookups.db_migration,
        )
        &&& texts(self.stuck_mount_pods@) == stuck_pods(seen.pods, seen.events)
    }

    /// Gathers the snapshot from what was observed.
    pub fn gather(
        instance: &OdooInstance,
        desired_cluster: &str,
        active: ActiveJobs,
        lookups: &JobLookups,
        seen: &Observations,
    ) -> (r: Gathered)
        ensures
            r.snapshot.shows(instance, desired_cluster@, active, *lookups, *seen),
            r.records == refresh_records(active.refresh, instance, *lookups),
    {
        let (deployment_replicas, ready_replicas) = replica_counts_of(&seen.web);
        let (cron_deployment_replicas, cron_ready_replicas) = replica_counts_of(&seen.cron);
        let db_initialized = match &instance.status {
            Some(s) => s.db_initialized,
            None => false,
        };
        let init_named = match &active.init {
            Some(j) => job_of_record(&j.status).is_some(),
            None => false,
        };
        let restore_named = match &active.restore {
            Some(j) => job_of_record(&j.status).is_some(),
            None => false,
        };
        let upgrade_named = match &active.upgrade {
            Some(j) => job_of_record(&j.status).is_some(),
            None => false,
        };
        let backup_named = match &active.backup {
            Some(j) => job_of_record(&j.status).is_some(),
            None => false,
        };
        let init_job = resolve_job_status(active.init.is_some(), init_named, lookups.init);
        let restore_job = resolve_job_status(
            active.restore.is_some(),
            restore_named,
            lookups.restore,
        );
        let upgrade_job = resolve_job_status(
            active.upgrade.is_some(),
            upgrade_named,
            lookups.upgrade,
        );
        let backup_job = resolve_job_status(active.backup.is_some(), backup_named, lookups.backup);
        let (refresh_job, records) = resolve_refresh(&active.refresh, instance, lookups);
        let stuck_mount_pods = gather_stuck_mount_pods(&seen.pods, &seen.events);
        let actual_storage_class = match &seen.claim {
            Some(c) => c.storage_class.clone(),
            None => None,
        };
        let storage_class_mismatch = match (&actual_storage_class, &instance.spec.filestore) {
            (Some(actual), Some(filestore)) => match &filestore.storage_class {
                Some(desired) => !same_text(actual.as_str(), desired.as_str()),
                None => false,
            },
            _ => false,
        };
        let (migration_named, db_migration_named): (bool, bool) = match &instance.status {
            Some(s) => (s.migration_job_name.is_some(), s.db_migration_job_name.is_some()),
            None => (false, false),
        };
        let migration_job = resolve_migration_status(migration_named, lookups.migration);
        let db_migration_job = resolve_migration_status(db_migration_named, lookups.db_migration);
        let cluster_mismatch = match &instance.status {
            Some(s) => match &s.active_cluster {
                Some(cluster) => !same_text(cluster.as_str(), desired_cluster),
                None => false,
            },
            None => false,
        };
        let snapshot = ReconcileSnapshot {
            ready_replicas,
            deployment_replicas,
            cron_ready_replicas,
            cron_deployment_replicas,
            db_initialized,
            init_job,
            restore_job,
            upgrade_job,
            backup_job,
            refresh_job,
            active_init_job: active.init,
            active_restore_job: active.restore,
            active_upgrade_job: active.upgrade,
            active_backup_job: active.backup,
            active_refresh_job: active.refresh,
            pending_backup_jobs: active.pending_backups,
            storage_class_mismatch,
            actual_storage_class,
            migration_job,
            cluster_mismatch,
            db_migration_job,
            stuck_mount_pods,
        };
        Gathered { snapshot, records }
    }

    /// The time that the unfinished upgrade is scheduled for.
    pub open spec fn upgrade_schedule(self) -> Option<Seq<char>> {
        match self.active_upgrade_job {
            Some(j) => opt_text(j.spec.scheduled_time),
            None => None,
        }
    }

    /// Whether an upgrade is due at the moment `now`.
    pub open spec fn upgrade_due(self, now: Moment) -> bool {
        self.upgrade_job != JobStatus::Absent && time_reached(self.upgrade_schedule(), now)
    }

    /// Whether an upgrade is due at the moment `now`.
    pub fn upgrade_job_ready_at(&self, now: Moment) -> (r: bool)
        ensures
            r == self.upgrade_due(now),
    {
        let reached = match &self.active_upgrade_job {
            Some(j) => scheduled_time_reached_at(&j.spec.scheduled_time, now),
            None => true,
        };
        self.upgrade_job.is_present() && reached
    }

    /// Whether an upgrade is due now: one is present, and its scheduled time is reached or was
    /// omitted.
    pub fn upgrade_job_ready(&self) -> (r: bool)
        ensures
            exists|now: Moment| is_clock_time(now) && r == #[trigger] self.upgrade_due(now),
            self.upgrade_job == JobStatus::Absent ==> !r,
            self.upgrade_job != JobStatus::Absent && self.upgrade_schedule() is None ==> r,
    {
        let now = current_moment();
        self.upgrade_job_ready_at(now)
    }
}

// ── Laws ────────────────────────────────────────────────────────────────────

/// How a Job of a staging refresh ended, once recorded, does not depend on whether the Job can
/// still be seen.
pub proof fn law_recorded_end_stands(
    recorded: Phase,
    named: bool,
    seen: JobLookup,
    named_later: bool,
    seen_later: JobLookup,
)
    requires
        recorded.is_terminal(),
    ensures
        sub_job_status(Some(recorded), named, seen) == sub_job_status(
            Some(recorded),
            named_later,
            seen_later,
        ),
        sub_job_record(Some(recorded), named, seen) is None,
{
}

/// What is recorded of the end of a Job is what was seen: from then on the status is the same,
/// even when the Job is collected.
pub proof fn law_record_keeps_status(
    recorded: Option<Phase>,
    named: bool,
    seen: JobLookup,
    named_later: bool,
    seen_later: JobLookup,
)
    ensures
        sub_job_record(recorded, named, seen) matches Some(p) ==> sub_job_status(
            Some(p),
            named_later,
            seen_later,
        ) == sub_job_status(recorded, named, seen),
{
}

/// A Job of a staging refresh that is gone, without a record of its end, is no failure.
pub proof fn law_missing_job_is_no_failure(named: bool)
    ensures
        sub_job_status(None, named, JobLookup::NotFound) != JobStatus::Failed,
        sub_job_status(None, named, JobLookup::Failed) != JobStatus::Failed,
{
}

/// A staging refresh has failed as soon as one of its steps has, has succeeded when all have,
/// and goes on otherwise.
pub proof fn law_refresh_follows_its_steps(
    refresh: OdooStagingRefreshJob,
    instance: &OdooInstance,
    lookups: JobLookups,
)
    ensures
        ({
            let db = db_step(refresh, lookups.refresh_db);
            let filestore = filestore_step(refresh, instance, lookups.refresh_filestore);
            let neutralize = neutralize_step(refresh, lookups.refresh_neutralize);
            let status = refresh_status(Some(refresh), instance, lookups);
            &&& status == JobStatus::Failed <==> (db == JobStatus::Failed || filestore
                == JobStatus::Failed || neutralize == JobStatus::Failed)
            &&& status == JobStatus::Succeeded <==> (db == JobStatus::Succeeded && filestore
                == JobStatus::Succeeded && neutralize == JobStatus::Succeeded)
            &&& status != JobStatus::Absent
        }),
{
    let db = db_step(refresh, lookups.refresh_db);
    let filestore = filestore_step(refresh, instance, lookups.refresh_filestore);
    let neutralize = neutralize_step(refresh, lookups.refresh_neutralize);
    let steps = seq![db, filestore, neutralize];
    assert(steps[0] == db && steps[1] == filestore && steps[2] == neutralize);
    if steps.contains(JobStatus::Failed) {
        let i = choose|i: int| 0 <= i < steps.len() && steps[i] == JobStatus::Failed;
        assert(steps[i] == JobStatus::Failed);
    }
}

/// A job resource counts as present exactly while it is unfinished.
pub proof fn law_present_means_unfinished(active: bool, named: bool, lookup: JobLookup)
    ensures
        job_status(active, named, lookup) == JobStatus::Absent <==> !active,
{
}

/// Nothing is pending exactly where nothing is active.
pub proof fn law_pending_means_active<J: JobResource>(jobs: Seq<J>, name: Seq<char>)
    ensures
        count_unfinished(jobs, name) == 0 <==> first_unfinished(jobs, name) is None,
    decreases jobs.len(),
{
    if jobs.len() > 0 {
        lemma_first_unfinished(jobs, name);
        lemma_count_unfinished(jobs, name);
    }
}

proof fn lemma_first_unfinished<J: JobResource>(jobs: Seq<J>, name: Seq<char>)
    ensures
        first_unfinished(jobs, name) is None <==> (forall|i: int|
            0 <= i < jobs.len() ==> !is_unfinished(#[trigger] jobs[i], name)),
    decreases jobs.len(),
{
    if jobs.len() > 0 {
        let rest = jobs.drop_first();
        lemma_first_unfinished(rest, name);
        if forall|i: int| 0 <= i < jobs.len() ==> !is_unfinished(#[trigger] jobs[i], name) {
            assert forall|i: int| 0 <= i < rest.len() implies !is_unfinished(
                #[trigger] rest[i],
                name,
            ) by {
                assert(rest[i] == jobs[i + 1]);
            }
        }
        if first_unfinished(jobs, name) is None {
            assert forall|i: int| 0 <= i < jobs.len() implies !is_unfinished(
                #[trigger] jobs[i],
                name,
            ) by {
                if i > 0 {
                    assert(rest[i - 1] == jobs[i]);
                }
            }
        }
    }
}

proof fn lemma_count_unfinished<J: JobResource>(jobs: Seq<J>, name: Seq<char>)
    ensures
        count_unfinished(jobs, name) == 0 <==> (forall|i: int|
            0 <= i < jobs.len() ==> !is_unfinished(#[trigger] jobs[i], name)),
    decreases jobs.len(),
{
    if jobs.len() > 0 {
        let rest = jobs.drop_last();
        lemma_count_unfinished(rest, name);
        if forall|i: int| 0 <= i < jobs.len() ==> !is_unfinished(#[trigger] jobs[i], name) {
            assert forall|i: int| 0 <= i < rest.len() implies !is_unfinished(
                #[trigger] rest[i],
                name,
            ) by {
                assert(rest[i] == jobs[i]);
            }
            assert(!is_unfinished(jobs[jobs.len() - 1], name));
        }
        if count_unfinished(jobs, name) == 0 {
            assert forall|i: int| 0 <= i < jobs.len() implies !is_unfinished(
                #[trigger] jobs[i],
                name,
            ) by {
                if i < rest.len() {
                    assert(rest[i] == jobs[i]);
                }
            }
        }
    }
}

} // verus!
