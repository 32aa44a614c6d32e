//! The restore job.

use vstd::prelude::*;

use crate::crd::metadata::{ObjectMeta, Resource};
use crate::crd::shared::{BackupFormat, JobRecord, OdooInstanceRef, WebhookConfig};

verus! {

/// Where the credentials of an object store are kept.
#[derive(Debug)]
pub struct SecretReference {
    pub name: Option<String>,
    pub namespace: Option<String>,
}

/// A backup artifact in an object store.
#[derive(Debug)]
pub struct S3Source {
    pub bucket: String,
    pub object_key: String,
    pub endpoint: String,
    pub insecure: bool,
    pub s3_credentials_secret_ref: Option<SecretReference>,
}

/// A running Odoo server that a backup is pulled from.
#[derive(Debug)]
pub struct OdooSource {
    pub url: String,
    pub source_database: Option<String>,
    pub master_password: Option<String>,
}

/// Kind of the place that a backup comes from.
#[derive(Debug, Clone, Copy, PartialEq, Eq, Structural)]
pub enum RestoreSourceType {
    S3,
    Odoo,
}

/// The place that a backup comes from.
#[derive(Debug)]
pub struct RestoreSource {
    pub source_type: RestoreSourceType,
    pub s3: Option<S3Source>,
    pub odoo: Option<OdooSource>,
}

/// What a restore shall do.
#[derive(Debug)]
pub struct OdooRestoreJobSpec {
    pub odoo_instance_ref: OdooInstanceRef,
    pub source: RestoreSource,
    pub format: BackupFormat,
    pub neutralize: bool,
    pub webhook: Option<WebhookConfig>,
}

/// Restores the database and filestore of an instance.
#[derive(Debug)]
pub struct OdooRestoreJob {
    pub metadata: ObjectMeta,
    pub spec: OdooRestoreJobSpec,
    pub status: Option<JobRecord>,
}

impl Resource for OdooRestoreJob {
    open spec fn kind_text(&self) -> Seq<char> {
        "OdooRestoreJob"@
    }

    open spec fn metadata(&self) -> ObjectMeta {
        self.metadata
    }

    fn kind(&self) -> (r: &'static str) {
        "OdooRestoreJob"
    }

    fn meta(&self) -> (r: &ObjectMeta) {
        &self.metadata
    }
}

} // verus!
