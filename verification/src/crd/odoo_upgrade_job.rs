//! The upgrade job.

use vstd::prelude::*;

use crate::crd::metadata::{ObjectMeta, Resource};
use crate::crd::shared::{JobRecord, OdooInstanceRef, WebhookConfig};

verus! {

/// What an upgrade shall do.
#[derive(Debug)]
pub struct OdooUpgradeJobSpec {
    pub odoo_instance_ref: OdooInstanceRef,
    /// When to start, in RFC 3339. At once where it is omitted.
    pub scheduled_time: Option<String>,
    pub modules: Vec<String>,
    pub modules_install: Vec<String>,
    pub webhook: Option<WebhookConfig>,
}

/// Upgrades the modules of an instance.
#[derive(Debug)]
pub struct OdooUpgradeJob {
    pub metadata: ObjectMeta,
    pub spec: OdooUpgradeJobSpec,
    pub status: Option<JobRecord>,
}

impl Resource for OdooUpgradeJob {
    open spec fn kind_text(&self) -> Seq<char> {
        "OdooUpgradeJob"@
    }

    open spec fn metadata(&self) -> ObjectMeta {
        self.metadata
    }

    fn kind(&self) -> (r: &'static str) {
        "OdooUpgradeJob"
    }

    fn meta(&self) -> (r: &ObjectMeta) {
        &self.metadata
    }
}

} // verus!
