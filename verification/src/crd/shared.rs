//! Types that several custom resources share.

use vstd::prelude::*;

verus! {

/// Progress of a job resource.
#[derive(Debug, Clone, Copy, PartialEq, Eq, Structural)]
pub enum Phase {
    Pending,
    Running,
    Completed,
    Failed,
}

impl Phase {
    /// The name under which the phase is stored.
    pub open spec fn text(self) -> Seq<char> {
        match self {
            Phase::Pending => "Pending"@,
            Phase::Running => "Running"@,
            Phase::Completed => "Completed"@,
            Phase::Failed => "Failed"@,
        }
    }

    /// Whether the job has come to its end.
    pub open spec fn is_terminal(self) -> bool {
        self == Phase::Completed || self == Phase::Failed
    }

    /// The name under which the phase is stored.
    pub fn as_str(self) -> (r: &'static str)
        ensures
            r@ == self.text(),
    {
        match self {
            Phase::Pending => "Pending",
            Phase::Running => "Running",
            Phase::Completed => "Completed",
            Phase::Failed => "Failed",
        }
    }
}

/// What a job resource records of the Kubernetes Job that it runs.
#[derive(Debug)]
pub struct JobRecord {
    pub phase: Option<Phase>,
    pub job_name: Option<String>,
}

/// The instance that a job works on.
#[derive(Debug)]
pub struct OdooInstanceRef {
    pub name: String,
    pub namespace: Option<String>,
}

/// Where a job reports its progress.
#[derive(Debug)]
pub struct WebhookConfig {
    pub url: String,
}

impl Clone for WebhookConfig {
    fn clone(&self) -> (r: WebhookConfig)
        ensures
            r == *self,
    {
        WebhookConfig { url: self.url.clone() }
    }
}

/// Format of a backup artifact.
#[derive(Debug, Clone, Copy, PartialEq, Eq, Structural)]
pub enum BackupFormat {
    Zip,
    Sql,
    Dump,
}

} // verus!
