//! The backup job.

use vstd::prelude::*;

use crate::crd::metadata::{ObjectMeta, Resource};
use crate::crd::shared::{JobRecord, OdooInstanceRef, WebhookConfig};

verus! {

/// What a backup shall do.
#[derive(Debug)]
pub struct OdooBackupJobSpec {
    pub odoo_instance_ref: OdooInstanceRef,
    pub webhook: Option<WebhookConfig>,
}

/// Backs an instance up.
#[derive(Debug)]
pub struct OdooBackupJob {
    pub metadata: ObjectMeta,
    pub spec: OdooBackupJobSpec,
    pub status: Option<JobRecord>,
}

impl Resource for OdooBackupJob {
    open spec fn kind_text(&self) -> Seq<char> {
        "OdooBackupJob"@
    }

    open spec fn metadata(&self) -> ObjectMeta {
        self.metadata
    }

    fn kind(&self) -> (r: &'static str) {
        "OdooBackupJob"
    }

    fn meta(&self) -> (r: &ObjectMeta) {
        &self.metadata
    }
}

} // verus!
