//! The upgrade of an instance's modules.

use vstd::prelude::*;

use crate::controller::child_resources::{or_fallback, string_or};
use crate::controller::helpers::{
    apply_extra_env, are_odoo_mounts, are_odoo_volumes, cron_depl_name, cron_name, has_extra_env,
    is_instance_job, job_pod, odoo_volume_mounts, OdooJobBuilder,
};
use crate::controller::snapshot::{record_job, ReconcileSnapshot};
use crate::controller::states::State;
use crate::crd::odoo_instance::{OdooInstance, OdooInstancePhase};
use crate::crd::odoo_upgrade_job::OdooUpgradeJob;
use crate::helpers::{database_name, db_name, OperatorDefaults};
use crate::objects::{Container, Job};
use crate::text::{join2, join_with, joined, opt_text, texts};

verus! {

broadcast use vstd::seq_lib::group_seq_properties;

/// Modules are being upgraded. The pods that run scheduled actions are down.
#[derive(Debug)]
pub struct Upgrading;

impl State for Upgrading {
    open spec fn handled(&self) -> OdooInstancePhase {
        OdooInstancePhase::Upgrading
    }

    fn phase(&self) -> (r: OdooInstancePhase) {
        OdooInstancePhase::Upgrading
    }
}

/// What is ensured while an instance is upgraded.
#[derive(Debug)]
pub struct UpgradePlan {
    /// The Deployments that are scaled to zero.
    pub scale_down: Vec<String>,
    /// The Job that is created.
    pub job: Option<Job>,
}

/// The image of the upgrade and of the step that neutralizes a restored database: that of the
/// instance, else the operator's.
pub open spec fn job_image(instance: &OdooInstance, defaults: &OperatorDefaults) -> Seq<char> {
    match instance.spec.image {
        Some(image) => image@,
        None => or_fallback(defaults.odoo_image@, "odoo:18.0"@),
    }
}

/// The image of the upgrade and of the step that neutralizes a restored database.
pub fn job_image_of(instance: &OdooInstance, defaults: &OperatorDefaults) -> (r: String)
    ensures
        r@ == job_image(instance, defaults),
{
    match &instance.spec.image {
        Some(image) => image.clone(),
        None => string_or(&defaults.odoo_image, "odoo:18.0"),
    }
}

/// The arguments of the upgrade: the modules to update and to install, or all of them to update
/// where none is named.
pub open spec fn upgrade_args(instance: &OdooInstance, job: &OdooUpgradeJob) -> Seq<Seq<char>> {
    let update = job.spec.modules@;
    let install = job.spec.modules_install@;
    seq!["-d"@, database_name(instance), "--no-http"@, "--stop-after-init"@] + (if update.len()
        > 0 {
        seq!["-u"@, joined(texts(update), ","@)]
    } else {
        Seq::empty()
    }) + (if install.len() > 0 {
        seq!["-i"@, joined(texts(install), ","@)]
    } else {
        Seq::empty()
    }) + (if update.len() == 0 && install.len() == 0 {
        seq!["-u"@, "all"@]
    } else {
        Seq::empty()
    })
}

fn upgrade_args_of(instance: &OdooInstance, job: &OdooUpgradeJob) -> (r: Vec<String>)
    ensures
        texts(r@) == upgrade_args(instance, job),
{
    let mut args = vec![
        "-d".to_owned(),
        db_name(instance),
        "--no-http".to_owned(),
        "--stop-after-init".to_owned(),
    ];
    if !job.spec.modules.is_empty() {
        args.push("-u".to_owned());
        args.push(join_with(&job.spec.modules, ","));
    }
    if !job.spec.modules_install.is_empty() {
        args.push("-i".to_owned());
        args.push(join_with(&job.spec.modules_install, ","));
    }
    if job.spec.modules.is_empty() && job.spec.modules_install.is_empty() {
        args.push("-u".to_owned());
        args.push("all".to_owned());
    }
    proof {
        assert(texts(args@) =~= upgrade_args(instance, job));
    }
    args
}

/// Whether `c` upgrades the modules, before the instance's environment is layered on.
pub open spec fn is_upgrade_container(
    c: Container,
    instance: &OdooInstance,
    job: &OdooUpgradeJob,
    defaults: &OperatorDefaults,
) -> bool {
    &&& c.name@ == "odoo-upgrade"@
    &&& opt_text(c.image) == Some(job_image(instance, defaults))
    &&& c.image_pull_policy is None
    &&& c.command matches Some(command)
    &&& texts(command@) == seq!["/entrypoint.sh"@, "odoo"@]
    &&& c.args matches Some(args)
    &&& texts(args@) == upgrade_args(instance, job)
    &&& c.ports is None
    &&& c.env is None
    &&& c.env_from is None
    &&& c.volume_mounts matches Some(mounts)
    &&& are_odoo_mounts(mounts@)
    &&& c.has_no_runtime_settings()
}

/// Whether `job` is the Job that upgrades an instance.
pub open spec fn is_upgrade_job(
    job: Job,
    instance: &OdooInstance,
    upgrade: &OdooUpgradeJob,
    defaults: &OperatorDefaults,
) -> bool {
    &&& is_instance_job(
        job,
        upgrade.metadata.any_name() + "-"@,
        instance.namespace(),
        upgrade,
        instance,
        0,
        3600,
    )
    &&& job_pod(job).volumes matches Some(volumes)
    &&& are_odoo_volumes(volumes@, instance.name(), instance.ephemeral())
    &&& job_pod(job).init_containers is None
    &&& job_pod(job).containers@.len() == 1
    &&& exists|base: Container|
        {
            &&& #[trigger] is_upgrade_container(base, instance, upgrade, defaults)
            &&& has_extra_env(job_pod(job).containers@[0], base, instance)
        }
}

/// The Job that upgrades an instance.
pub fn build_upgrade_job(
    instance: &OdooInstance,
    upgrade: &OdooUpgradeJob,
    defaults: &OperatorDefaults,
) -> (r: Job)
    ensures
        is_upgrade_job(r, instance, upgrade, defaults),
{
    let name = upgrade.metadata.name_any();
    let prefix = join2(name.as_str(), "-");
    let namespace = instance.metadata.namespace_or_empty();
    let command = vec!["/entrypoint.sh".to_owned(), "odoo".to_owned()];
    proof {
        assert(texts(command@) =~= seq!["/entrypoint.sh"@, "odoo"@]);
    }
    let base = Container {
        name: "odoo-upgrade".to_owned(),
        image: Some(job_image_of(instance, defaults)),
        image_pull_policy: None,
        command: Some(command),
        args: Some(upgrade_args_of(instance, upgrade)),
        ports: None,
        env: None,
        env_from: None,
        volume_mounts: Some(odoo_volume_mounts()),
        resources: None,
        startup_probe: None,
        liveness_probe: None,
        readiness_probe: None,
        security_context: None,
    };
    let ghost bare = base;
    let container = apply_extra_env(base, instance);
    let containers = vec![container];
    let builder = OdooJobBuilder::new(prefix.as_str(), namespace.as_str(), upgrade, instance);
    let ghost fresh = builder;
    let job = builder.active_deadline(3600).containers(containers).build();
    proof {
        assert(is_upgrade_container(bare, instance, upgrade, defaults));
        assert(fresh.standard_volumes@ + fresh.extra_volumes@ =~= fresh.standard_volumes@);
    }
    job
}

/// The Deployments that are down while the instance is upgraded.
pub open spec fn upgrade_scaled_down(instance: &OdooInstance) -> Seq<Seq<char>> {
    seq![cron_name(instance)]
}

/// Whether `r` is what is ensured while the instance is upgraded.
pub open spec fn is_upgrade_plan(
    r: UpgradePlan,
    instance: &OdooInstance,
    defaults: &OperatorDefaults,
    snapshot: &ReconcileSnapshot,
) -> bool {
    &&& texts(r.scale_down@) == upgrade_scaled_down(instance)
    &&& match snapshot.active_upgrade_job {
        Some(upgrade) => if record_job(upgrade.status) is Some {
            r.job is None
        } else {
            r.job matches Some(job) && is_upgrade_job(job, instance, &upgrade, defaults)
        },
        None => r.job is None,
    }
}

impl Upgrading {
    /// The pods that run scheduled actions are down, and the Job runs. A Job that the resource
    /// names already is not created again. The web pods stay up.
    pub fn ensure(
        &self,
        instance: &OdooInstance,
        defaults: &OperatorDefaults,
        snapshot: &ReconcileSnapshot,
    ) -> (r: UpgradePlan)
        ensures
            is_upgrade_plan(r, instance, defaults, snapshot),
    {
        let scale_down = vec![cron_depl_name(instance)];
        proof {
            assert(texts(scale_down@) =~= seq![cron_name(instance)]);
        }
        let job = match &snapshot.active_upgrade_job {
            Some(upgrade) => {
                let started = match &upgrade.status {
                    Some(s) => s.job_name.is_some(),
                    None => false,
                };
                if started {
                    None
                } else {
                    Some(build_upgrade_job(instance, upgrade, defaults))
                }
            },
            None => None,
        };
        UpgradePlan { scale_down, job }
    }
}

/// The event that tells of the Job.
pub open spec fn upgrade_note(job_name: Seq<char>) -> Seq<char> {
    "Created upgrade job "@ + job_name
}

/// The event that tells of the Job.
pub fn upgrade_started_note(job_name: &str) -> (r: String)
    ensures
        r@ == upgrade_note(job_name@),
{
    join2("Created upgrade job ", job_name)
}

} // verus!
