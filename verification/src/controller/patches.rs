//! Changes to the status of resources.
//!
//! A patch names the fields that it changes. What it does not name stays as it is.

use vstd::prelude::*;

use crate::crd::odoo_instance::OdooInstancePhase;
use crate::crd::shared::Phase;
use crate::text::opt_text;

verus! {

/// What becomes of an optional text.
#[derive(Debug)]
pub enum FieldChange {
    Keep,
    Clear,
    To(String),
}

/// What becomes of an optional text.
pub enum FieldText {
    Keep,
    Clear,
    To(Seq<char>),
}

impl View for FieldChange {
    type V = FieldText;

    open spec fn view(&self) -> FieldText {
        match *self {
            FieldChange::Keep => FieldText::Keep,
            FieldChange::Clear => FieldText::Clear,
            FieldChange::To(s) => FieldText::To(s@),
        }
    }
}

impl FieldText {
    /// The text after the change.
    pub open spec fn applied(self, before: Option<Seq<char>>) -> Option<Seq<char>> {
        match self {
            FieldText::Keep => before,
            FieldText::Clear => None,
            FieldText::To(s) => Some(s),
        }
    }
}

/// What becomes of an optional phase.
#[derive(Debug, Clone, Copy, PartialEq, Eq, Structural)]
pub enum PhaseChange {
    Keep,
    Clear,
    To(Phase),
}

impl PhaseChange {
    /// The phase after the change.
    pub open spec fn applied(self, before: Option<Phase>) -> Option<Phase> {
        match self {
            PhaseChange::Keep => before,
            PhaseChange::Clear => None,
            PhaseChange::To(p) => Some(p),
        }
    }
}

// ── Instances ───────────────────────────────────────────────────────────────

/// A change to the status of an instance.
#[derive(Debug)]
pub struct InstanceStatusPatch {
    pub phase: Option<OdooInstancePhase>,
    pub db_initialized: Option<bool>,
    pub message: FieldChange,
    pub migration_job_name: FieldChange,
    pub migration_pv_name: FieldChange,
    pub migration_previous_storage_class: FieldChange,
}

/// A change to the status of an instance.
pub struct InstanceStatusText {
    pub phase: Option<OdooInstancePhase>,
    pub db_initialized: Option<bool>,
    pub message: FieldText,
    pub migration_job_name: FieldText,
    pub migration_pv_name: FieldText,
    pub migration_previous_storage_class: FieldText,
}

impl View for InstanceStatusPatch {
    type V = InstanceStatusText;

    open spec fn view(&self) -> InstanceStatusText {
        InstanceStatusText {
            phase: self.phase,
            db_initialized: self.db_initialized,
            message: self.message@,
            migration_job_name: self.migration_job_name@,
            migration_pv_name: self.migration_pv_name@,
            migration_previous_storage_class: self.migration_previous_storage_class@,
        }
    }
}

/// The change that changes nothing.
pub open spec fn no_instance_change() -> InstanceStatusText {
    InstanceStatusText {
        phase: None,
        db_initialized: None,
        message: FieldText::Keep,
        migration_job_name: FieldText::Keep,
        migration_pv_name: FieldText::Keep,
        migration_previous_storage_class: FieldText::Keep,
    }
}

impl InstanceStatusPatch {
    /// The change that changes nothing.
    pub fn nothing() -> (r: InstanceStatusPatch)
        ensures
            r@ == no_instance_change(),
    {
        InstanceStatusPatch {
            phase: None,
            db_initialized: None,
            message: FieldChange::Keep,
            migration_job_name: FieldChange::Keep,
            migration_pv_name: FieldChange::Keep,
            migration_previous_storage_class: FieldChange::Keep,
        }
    }
}

// ── Staging refreshes ───────────────────────────────────────────────────────

/// A change to the status of a staging refresh.
#[derive(Debug)]
pub struct RefreshStatusPatch {
    pub phase: Option<Phase>,
    pub message: FieldChange,
    pub start_time: FieldChange,
    pub temp_db_name: FieldChange,
    pub source_snapshot: FieldChange,
    pub rollback_snapshot: FieldChange,
    pub db_job_name: FieldChange,
    pub db_job_phase: PhaseChange,
    pub filestore_job_name: FieldChange,
    pub filestore_job_phase: PhaseChange,
    pub filestore_phase: PhaseChange,
    pub neutralize_job_name: FieldChange,
    pub neutralize_job_phase: PhaseChange,
    pub neutralize_job_image_hash: FieldChange,
}

/// A change to the status of a staging refresh.
pub struct RefreshStatusText {
    pub phase: Option<Phase>,
    pub message: FieldText,
    pub start_time: FieldText,
    pub temp_db_name: FieldText,
    pub source_snapshot: FieldText,
    pub rollback_snapshot: FieldText,
    pub db_job_name: FieldText,
    pub db_job_phase: PhaseChange,
    pub filestore_job_name: FieldText,
    pub filestore_job_phase: PhaseChange,
    pub filestore_phase: PhaseChange,
    pub neutralize_job_name: FieldText,
    pub neutralize_job_phase: PhaseChange,
    pub neutralize_job_image_hash: FieldText,
}

impl View for RefreshStatusPatch {
    type V = RefreshStatusText;

    open spec fn view(&self) -> RefreshStatusText {
        RefreshStatusText {
            phase: self.phase,
            message: self.message@,
            start_time: self.start_time@,
            temp_db_name: self.temp_db_name@,
            source_snapshot: self.source_snapshot@,
            rollback_snapshot: self.rollback_snapshot@,
            db_job_name: self.db_job_name@,
            db_job_phase: self.db_job_phase,
            filestore_job_name: self.filestore_job_name@,
            filestore_job_phase: self.filestore_job_phase,
            filestore_phase: self.filestore_phase,
            neutralize_job_name: self.neutralize_job_name@,
            neutralize_job_phase: self.neutralize_job_phase,
            neutralize_job_image_hash: self.neutralize_job_image_hash@,
        }
    }
}

/// The change that changes nothing.
pub open spec fn no_refresh_change() -> RefreshStatusText {
    RefreshStatusText {
        phase: None,
        message: FieldText::Keep,
        start_time: FieldText::Keep,
        temp_db_name: FieldText::Keep,
        source_snapshot: FieldText::Keep,
        rollback_snapshot: FieldText::Keep,
        db_job_name: FieldText::Keep,
        db_job_phase: PhaseChange::Keep,
        filestore_job_name: FieldText::Keep,
        filestore_job_phase: PhaseChange::Keep,
        filestore_phase: PhaseChange::Keep,
        neutralize_job_name: FieldText::Keep,
        neutralize_job_phase: PhaseChange::Keep,
        neutralize_job_image_hash: FieldText::Keep,
    }
}

impl RefreshStatusPatch {
    /// The change that changes nothing.
    pub fn nothing() -> (r: RefreshStatusPatch)
        ensures
            r@ == no_refresh_change(),
    {
        RefreshStatusPatch {
            phase: None,
            message: FieldChange::Keep,
            start_time: FieldChange::Keep,
            temp_db_name: FieldChange::Keep,
            source_snapshot: FieldChange::Keep,
            rollback_snapshot: FieldChange::Keep,
            db_job_name: FieldChange::Keep,
            db_job_phase: PhaseChange::Keep,
            filestore_job_name: FieldChange::Keep,
            filestore_job_phase: PhaseChange::Keep,
            filestore_phase: PhaseChange::Keep,
            neutralize_job_name: FieldChange::Keep,
            neutralize_job_phase: PhaseChange::Keep,
            neutralize_job_image_hash: FieldChange::Keep,
        }
    }
}

// ── Jobs ────────────────────────────────────────────────────────────────────

/// A change to the status of a job resource.
#[derive(Debug)]
pub struct JobStatusPatch {
    pub phase: Phase,
    pub job_name: Option<String>,
    pub start_time: Option<String>,
    pub completion_time: Option<String>,
    pub message: Option<String>,
}

/// A change to the status of a job resource.
pub struct JobStatusText {
    pub phase: Phase,
    pub job_name: Option<Seq<char>>,
    pub start_time: Option<Seq<char>>,
    pub completion_time: Option<Seq<char>>,
    pub message: Option<Seq<char>>,
}

impl View for JobStatusPatch {
    type V = JobStatusText;

    open spec fn view(&self) -> JobStatusText {
        JobStatusText {
            phase: self.phase,
            job_name: opt_text(self.job_name),
            start_time: opt_text(self.start_time),
            completion_time: opt_text(self.completion_time),
            message: opt_text(self.message),
        }
    }
}

/// A job resource has started the Kubernetes Job `job_name`.
pub open spec fn started(job_name: Seq<char>, now: Seq<char>) -> JobStatusText {
    JobStatusText {
        phase: Phase::Running,
        job_name: Some(job_name),
        start_time: Some(now),
        completion_time: None,
        message: None,
    }
}

/// A job resource has started the Kubernetes Job `job_name`.
pub fn job_started(job_name: &str, now: &str) -> (r: JobStatusPatch)
    ensures
        r@ == started(job_name@, now@),
{
    JobStatusPatch {
        phase: Phase::Running,
        job_name: Some(job_name.to_owned()),
        start_time: Some(now.to_owned()),
        completion_time: None,
        message: None,
    }
}

/// A job resource has come to its end.
pub open spec fn finished(phase: Phase, now: Seq<char>, message: Option<Seq<char>>) -> JobStatusText {
    JobStatusText {
        phase,
        job_name: None,
        start_time: None,
        completion_time: Some(now),
        message,
    }
}

} // verus!
