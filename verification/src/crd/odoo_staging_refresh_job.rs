//! The staging refresh: a staging instance is populated from a live one.

use vstd::prelude::*;

use crate::crd::metadata::{ObjectMeta, Resource};
use crate::crd::odoo_instance::Condition;
use crate::crd::shared::{OdooInstanceRef, Phase, WebhookConfig};

verus! {

/// How the filestore is copied from source to target. `Auto` picks `Snapshot` where
/// the source volume can be cloned, and `Copy` otherwise.
#[derive(Debug, Clone, Copy, PartialEq, Eq, Structural)]
pub enum FilestoreMethod {
    Auto,
    Snapshot,
    Copy,
}

impl Default for FilestoreMethod {
    fn default() -> (r: FilestoreMethod)
        ensures
            r == FilestoreMethod::Auto,
    {
        FilestoreMethod::Auto
    }
}

/// The live instance whose database and filestore are cloned. The namespace is the
/// target's where it is omitted.
#[derive(Debug)]
pub struct StagingSource {
    pub instance_name: String,
    pub instance_namespace: Option<String>,
}

/// What a staging refresh shall do.
#[derive(Debug)]
pub struct OdooStagingRefreshJobSpec {
    pub odoo_instance_ref: OdooInstanceRef,
    pub source: StagingSource,
    pub filestore_method: FilestoreMethod,
    /// Refresh the database only.
    pub skip_filestore: bool,
    /// Whether to run `odoo neutralize` after the copy.
    pub neutralize: bool,
    pub webhook: Option<WebhookConfig>,
}

/// Progress of a staging refresh and of the Jobs behind it: one for the database
/// clone, one for the filestore unless that is skipped, one for neutralization.
///
/// The phase that a Job ended with is recorded here, since the Job itself may be
/// collected while its siblings still run.
#[derive(Debug)]
pub struct OdooStagingRefreshJobStatus {
    pub phase: Option<Phase>,
    /// Database that the clone is loaded into before it takes the live one's place.
    pub temp_db_name: Option<String>,
    /// Volume snapshot of the source filestore.
    pub source_snapshot: Option<String>,
    /// Volume snapshot of the target's filestore from before the refresh.
    pub rollback_snapshot: Option<String>,
    pub db_job_name: Option<String>,
    pub db_job_phase: Option<Phase>,
    pub filestore_job_name: Option<String>,
    pub filestore_job_phase: Option<Phase>,
    /// Phase of the filestore step, whichever way it is done.
    pub filestore_phase: Option<Phase>,
    pub neutralize_job_name: Option<String>,
    pub neutralize_job_phase: Option<Phase>,
    /// Hash of the image that the neutralize Job was created with.
    pub neutralize_job_image_hash: Option<String>,
    pub start_time: Option<String>,
    pub completion_time: Option<String>,
    pub message: Option<String>,
    pub conditions: Vec<Condition>,
}

impl Default for OdooStagingRefreshJobStatus {
    fn default() -> (r: OdooStagingRefreshJobStatus)
        ensures
            r.phase is None,
            r.temp_db_name is None,
            r.source_snapshot is None,
            r.rollback_snapshot is None,
            r.db_job_name is None,
            r.db_job_phase is None,
            r.filestore_job_name is None,
            r.filestore_job_phase is None,
            r.filestore_phase is None,
            r.neutralize_job_name is None,
            r.neutralize_job_phase is None,
            r.neutralize_job_image_hash is None,
            r.start_time is None,
            r.completion_time is None,
            r.message is None,
            r.conditions@.len() == 0,
    {
        OdooStagingRefreshJobStatus {
            phase: None,
            temp_db_name: None,
            source_snapshot: None,
            rollback_snapshot: None,
            db_job_name: None,
            db_job_phase: None,
            filestore_job_name: None,
            filestore_job_phase: None,
            filestore_phase: None,
            neutralize_job_name: None,
            neutralize_job_phase: None,
            neutralize_job_image_hash: None,
            start_time: None,
            completion_time: None,
            message: None,
            conditions: Vec::new(),
        }
    }
}

/// Populates or refreshes a staging instance from a live source instance.
#[derive(Debug)]
pub struct OdooStagingRefreshJob {
    pub metadata: ObjectMeta,
    pub spec: OdooStagingRefreshJobSpec,
    pub status: Option<OdooStagingRefreshJobStatus>,
}

impl Resource for OdooStagingRefreshJob {
    open spec fn kind_text(&self) -> Seq<char> {
        "OdooStagingRefreshJob"@
    }

    open spec fn metadata(&self) -> ObjectMeta {
        self.metadata
    }

    fn kind(&self) -> (r: &'static str) {
        "OdooStagingRefreshJob"
    }

    fn meta(&self) -> (r: &ObjectMeta) {
        &self.metadata
    }
}

} // verus!
