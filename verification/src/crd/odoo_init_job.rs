//! The initialisation job.

use vstd::prelude::*;

use crate::crd::metadata::{ObjectMeta, Resource};
use crate::crd::shared::{JobRecord, OdooInstanceRef, WebhookConfig};

verus! {

/// What an initialisation shall do.
#[derive(Debug)]
pub struct OdooInitJobSpec {
    pub odoo_instance_ref: OdooInstanceRef,
    pub modules: Vec<String>,
    pub demo: bool,
    pub webhook: Option<WebhookConfig>,
}

/// Initialises the database of an instance.
#[derive(Debug)]
pub struct OdooInitJob {
    pub metadata: ObjectMeta,
    pub spec: OdooInitJobSpec,
    pub status: Option<JobRecord>,
}

impl Resource for OdooInitJob {
    open spec fn kind_text(&self) -> Seq<char> {
        "OdooInitJob"@
    }

    open spec fn metadata(&self) -> ObjectMeta {
        self.metadata
    }

    fn kind(&self) -> (r: &'static str) {
        "OdooInitJob"
    }

    fn meta(&self) -> (r: &ObjectMeta) {
        &self.metadata
    }
}

} // verus!
