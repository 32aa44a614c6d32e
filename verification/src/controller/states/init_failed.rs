//! A failed initialisation.

use vstd::prelude::*;

use crate::controller::snapshot::neutralize_job;
use crate::controller::states::cloning_from_source::{
    maybe_retry_failed_neutralize, retry_candidate, retry_change, retry_due, NeutralizeRetry,
};
use crate::controller::states::{all_deployments, both_deployments, State};
use crate::crd::odoo_instance::{OdooInstance, OdooInstancePhase};
use crate::crd::odoo_staging_refresh_job::OdooStagingRefreshJob;
use crate::helpers::OperatorDefaults;
use crate::text::{opt_text, texts};

verus! {

/// The initialisation failed. The pods stay down.
#[derive(Debug)]
pub struct InitFailed;

impl State for InitFailed {
    open spec fn handled(&self) -> OdooInstancePhase {
        OdooInstancePhase::InitFailed
    }

    fn phase(&self) -> (r: OdooInstancePhase) {
        OdooInstancePhase::InitFailed
    }
}

/// What is ensured while the initialisation has failed.
#[derive(Debug)]
pub struct InitFailedPlan {
    /// The Deployments that are scaled to zero.
    pub scale_down: Vec<String>,
    /// A neutralization that is tried again.
    pub retry: Option<NeutralizeRetry>,
}

/// Whether `r` is what is ensured while the initialisation has failed.
pub open spec fn is_init_failed_plan(
    r: InitFailedPlan,
    instance: &OdooInstance,
    defaults: &OperatorDefaults,
    refreshes: Seq<OdooStagingRefreshJob>,
) -> bool {
    &&& texts(r.scale_down@) == all_deployments(instance)
    &&& r.retry is Some == retry_due(instance, defaults, refreshes)
    &&& r.retry matches Some(retry) ==> {
        let refresh = refreshes[retry_candidate(refreshes, instance.name())->0];
        &&& retry.refresh@ == refresh.metadata.any_name()
        &&& opt_text(retry.delete_job) == neutralize_job(refresh)
        &&& retry.patch@ == retry_change()
    }
}

impl InitFailed {
    /// All pods are down. A staging refresh whose neutralization failed is reopened once the
    /// image of the instance was corrected.
    pub fn ensure(
        &self,
        instance: &OdooInstance,
        defaults: &OperatorDefaults,
        refreshes: &Vec<OdooStagingRefreshJob>,
    ) -> (r: InitFailedPlan)
        ensures
            is_init_failed_plan(r, instance, defaults, refreshes@),
    {
        let retry = maybe_retry_failed_neutralize(instance, defaults, refreshes);
        InitFailedPlan { scale_down: both_deployments(instance), retry }
    }
}

} // verus!
