//! What an upgrade and a migration of the filestore do, told by what their Jobs find.

use vstd::prelude::*;

use crate::controller::child_resources::pod_container;
use crate::controller::helpers::{has_extra_env, job_pod, seq_or_empty, Scripts};
use crate::controller::made::{
    is_claim_of, is_cron_of, is_web_of, lemma_claim, lemma_web,
};
use crate::controller::missing_database::{react_to_missing_database, MissingDatabase};
use crate::controller::object_laws::{lemma_odoo_files, lemma_web_database};
use crate::controller::patches::{FieldText, InstanceStatusPatch};
use crate::controller::reading::{
    argument, claim_at, is_guarded, is_unnamed, map_at, mount_at, program_of, script_of, value_of,
    volume_named, writable_at,
};
use crate::controller::snapshot::ReconcileSnapshot;
use crate::controller::states::migrating_filestore::{
    begin_filestore_migration, record_filestore_migration, rollback_filestore_migration,
    BeginMigration, RollbackMigration,
};
use crate::controller::states::upgrading::{
    build_upgrade_job, is_upgrade_container, UpgradePlan, Upgrading,
};
use crate::controller::states::{all_deployments, both_deployments};
use crate::controller::words::{lemma_path_words, lemma_volume_words};
use crate::crd::odoo_instance::{DatabaseMissingPolicy, OdooInstance};
use crate::crd::odoo_upgrade_job::OdooUpgradeJob;
use crate::helpers::OperatorDefaults;
use crate::objects::{Container, Deployment, Job, PersistentVolumeClaim};
use crate::text::{joined, opt_text, texts};

verus! {

// ── Upgrade ─────────────────────────────────────────────────────────────────

/// Whether `value` stands behind `flag` among the arguments.
pub open spec fn has_argument(args: Seq<Seq<char>>, flag: Seq<char>, value: Seq<char>) -> bool {
    exists|i: int| 0 <= i < args.len() - 1 && #[trigger] args[i] == flag && args[i + 1] == value
}

/// The upgrade works on the database that the web pods open, so on the one that the instance
/// names where it names one. It runs the image of the pods where the instance or the operator
/// names one, with the files and the configuration of the pods. It updates and installs the
/// modules that are named, updates all where none is, and ends then, without serving requests.
pub proof fn law_upgrade_works_on_the_instance(
    job: Job,
    web: Deployment,
    instance: &OdooInstance,
    upgrade: &OdooUpgradeJob,
    defaults: &OperatorDefaults,
)
    requires
        call_ensures(build_upgrade_job, (instance, upgrade, defaults), job),
        is_web_of(web, instance, defaults),
        is_unnamed(instance.spec.extra_env@, "PGDATABASE"@),
    ensures
        ({
            let pod = job_pod(job);
            let c = pod.containers@[0];
            let args = texts(seq_or_empty(c.args));
            let update = upgrade.spec.modules@;
            let install = upgrade.spec.modules_install@;
            let web_pod = web.spec.template.spec->0;
            &&& pod.containers@.len() == 1
            &&& argument(args, "-d"@) == value_of(pod_container(web), "PGDATABASE"@)
            &&& instance.spec.database matches Some(d) ==> (d.name matches Some(n) ==> argument(
                args,
                "-d"@,
            ) == Some(n@))
            &&& texts(seq_or_empty(c.command)) == seq!["/entrypoint.sh"@, "odoo"@]
            &&& args.contains("--no-http"@)
            &&& args.contains("--stop-after-init"@)
            &&& update.len() > 0 ==> has_argument(args, "-u"@, joined(texts(update), ","@))
            &&& install.len() > 0 ==> has_argument(args, "-i"@, joined(texts(install), ","@))
            &&& update.len() == 0 && install.len() == 0 ==> has_argument(args, "-u"@, "all"@)
            &&& args.len() == 4 + (if update.len() > 0 {
                2int
            } else {
                0
            }) + (if install.len() > 0 {
                2int
            } else {
                0
            }) + (if update.len() == 0 && install.len() == 0 {
                2int
            } else {
                0
            })
            &&& instance.spec.image is Some || defaults.odoo_image@.len() > 0 ==> opt_text(c.image)
                == opt_text(pod_container(web).image)
            &&& claim_at(pod, c, "/var/lib/odoo"@) == claim_at(
                web_pod,
                pod_container(web),
                "/var/lib/odoo"@,
            )
            &&& writable_at(pod, c, "/var/lib/odoo"@)
            &&& map_at(pod, c, "/etc/odoo"@) is Some
            &&& map_at(pod, c, "/etc/odoo"@) == map_at(web_pod, pod_container(web), "/etc/odoo"@)
        }),
{
    let pod = job_pod(job);
    let c = pod.containers@[0];
    let base = choose|base: Container|
        {
            &&& #[trigger] is_upgrade_container(base, instance, upgrade, defaults)
            &&& has_extra_env(c, base, instance)
        };
    let args = texts(seq_or_empty(c.args));
    lemma_web(web, instance, defaults);
    lemma_web_database(pod_container(web), instance.name(), instance, defaults);
    lemma_odoo_files(pod, c, instance.name(), instance.ephemeral());
    lemma_odoo_files(
        web.spec.template.spec->0,
        pod_container(web),
        instance.name(),
        instance.ephemeral(),
    );
    reveal_with_fuel(argument, 2);
    assert(args[0] == "-d"@);
    assert(args[2] == "--no-http"@);
    assert(args[3] == "--stop-after-init"@);
    let update = upgrade.spec.modules@;
    let install = upgrade.spec.modules_install@;
    if update.len() > 0 {
        assert(args[4] == "-u"@ && args[5] == joined(texts(update), ","@));
        if install.len() > 0 {
            assert(args[6] == "-i"@ && args[7] == joined(texts(install), ","@));
        }
    } else if install.len() > 0 {
        assert(args[4] == "-i"@ && args[5] == joined(texts(install), ","@));
    } else {
        assert(args[4] == "-u"@ && args[5] == "all"@);
    }
}

/// While an instance is upgraded, the pods that run scheduled actions are down and the web pods
/// are not touched. The Job is created where the upgrade names none yet, and only there.
pub proof fn law_upgrade_leaves_the_web_pods(
    upgrading: &Upgrading,
    plan: UpgradePlan,
    web: Deployment,
    cron: Deployment,
    instance: &OdooInstance,
    defaults: &OperatorDefaults,
    snapshot: &ReconcileSnapshot,
)
    requires
        call_ensures(Upgrading::ensure, (upgrading, instance, defaults, snapshot), plan),
        is_web_of(web, instance, defaults),
        is_cron_of(cron, instance, defaults),
    ensures
        !texts(plan.scale_down@).contains(web.metadata.name->0@),
        texts(plan.scale_down@).contains(cron.metadata.name->0@),
        plan.job is Some <==> (snapshot.active_upgrade_job matches Some(u) && (
        u.status matches Some(s) ==> s.job_name is None)),
{
    lemma_web(web, instance, defaults);
    reveal_strlit("-cron");
    assert("-cron"@.len() == 5);
    let names = texts(plan.scale_down@);
    assert(names[0] == cron.metadata.name->0@);
    assert(names[0].len() == web.metadata.name->0@.len() + 5);
    if names.contains(web.metadata.name->0@) {
        assert(names[0] == web.metadata.name->0@);
    }
}

/// The Deployments that are scaled to zero while an instance is down are those that were created
/// for it.
pub proof fn law_all_pods_are_scaled_down(
    names: Vec<String>,
    web: Deployment,
    cron: Deployment,
    instance: &OdooInstance,
    defaults: &OperatorDefaults,
)
    requires
        call_ensures(both_deployments, (instance,), names),
        is_web_of(web, instance, defaults),
        is_cron_of(cron, instance, defaults),
    ensures
        texts(names@) == all_deployments(instance),
        all_deployments(instance).contains(web.metadata.name->0@),
        all_deployments(instance).contains(cron.metadata.name->0@),
        web.metadata.name->0@ != cron.metadata.name->0@,
{
    lemma_web(web, instance, defaults);
    reveal_strlit("-cron");
    assert("-cron"@.len() == 5);
    assert(all_deployments(instance)[0] == web.metadata.name->0@);
    assert(all_deployments(instance)[1] == cron.metadata.name->0@);
    assert(web.metadata.name->0@.len() + 5 == cron.metadata.name->0@.len());
}

// ── Migration ───────────────────────────────────────────────────────────────

/// The Job that migrates the filestore finds the instance's claim under the old path and cannot
/// write there, and finds the temporary claim under the new path and can. The two are different
/// claims, and the temporary one is of the class that the instance asks for and as large as the
/// old one. All pods are down meanwhile.
pub proof fn law_migration_copies_to_the_new_claim(
    begun: BeginMigration,
    claim: PersistentVolumeClaim,
    instance: &OdooInstance,
    defaults: &OperatorDefaults,
    requested: &Option<String>,
    scripts: &Scripts,
)
    requires
        call_ensures(
            begin_filestore_migration,
            (instance, defaults, requested, scripts),
            begun,
        ),
        is_claim_of(claim, instance, defaults),
    ensures
        ({
            let pod = job_pod(begun.job);
            let c = pod.containers@[0];
            &&& pod.containers@.len() == 1
            &&& claim.metadata.name is Some
            &&& claim_at(pod, c, "/mnt/old"@) == opt_text(claim.metadata.name)
            &&& !writable_at(pod, c, "/mnt/old"@)
            &&& is_guarded(pod, c, "/mnt/old"@)
            &&& begun.temp_claim.metadata.name is Some
            &&& claim_at(pod, c, "/mnt/new"@) == opt_text(begun.temp_claim.metadata.name)
            &&& writable_at(pod, c, "/mnt/new"@)
            &&& claim_at(pod, c, "/mnt/old"@) != claim_at(pod, c, "/mnt/new"@)
            &&& opt_text(begun.temp_claim.metadata.namespace) == opt_text(claim.metadata.namespace)
            &&& opt_text(begun.job.metadata.namespace) == opt_text(claim.metadata.namespace)
            &&& script_of(c) == Some(scripts.migrate_filestore@)
            &&& instance.spec.filestore matches Some(f) ==> (f.storage_class matches Some(class)
                ==> opt_text(begun.temp_claim.storage_class_name) == Some(class@))
            &&& (instance.spec.filestore matches Some(f) ==> f.storage_class is None) ==> opt_text(
                begun.temp_claim.storage_class_name,
            ) == Some(defaults.storage_class@)
            &&& *requested matches Some(size) ==> begun.temp_claim.storage@ == size@
            &&& *requested is None ==> begun.temp_claim.storage@ == "2Gi"@
            &&& texts(begun.temp_claim.access_modes@) == texts(claim.access_modes@)
            &&& begun.temp_claim.data_source_ref is None
            &&& opt_text(c.image) == Some("instrumentisto/rsync-ssh:latest"@)
            &&& program_of(c) == Some("/bin/sh"@)
            &&& c.resources is None
            &&& c.security_context is None
            &&& begun.job.spec->0.template.metadata matches Some(meta) && meta.labels matches Some(
                labels,
            ) && labels@["app"@] == instance.name()
            &&& texts(begun.scale_down@) == all_deployments(instance)
        }),
{
    let pod = job_pod(begun.job);
    let c = pod.containers@[0];
    lemma_claim(claim, instance, defaults);
    lemma_path_words();
    lemma_volume_words();
    reveal_with_fuel(mount_at, 3);
    reveal_with_fuel(volume_named, 3);
    reveal_strlit("-filestore-pvc");
    reveal_strlit("-filestore-pvc-temp");
    assert("-filestore-pvc"@.len() == 14);
    assert("-filestore-pvc-temp"@.len() == 19);
    let (a, b) = (claim.metadata.name->0@, begun.temp_claim.metadata.name->0@);
    assert(a.len() != b.len());
    reveal_strlit("-c");
    reveal_strlit("/bin/sh");
    assert("-c"@.len() == 2);
    assert("/bin/sh"@.len() == 7);
    reveal_with_fuel(argument, 3);
    let words = texts(seq_or_empty(c.command)) + texts(seq_or_empty(c.args));
    assert(words =~= seq!["/bin/sh"@, "-c"@, scripts.migrate_filestore@]);
    assert(words.drop_first()[0] == "-c"@);
    assert(words.drop_first()[1] == scripts.migrate_filestore@);
}

/// A migration that is rolled back leaves nothing behind: what it created is deleted, what it
/// recorded is wiped, and the class that the filestore had is put back where it was known.
pub proof fn law_rollback_undoes_the_migration(
    begun: BeginMigration,
    recorded: InstanceStatusPatch,
    rolled_back: RollbackMigration,
    before: &OdooInstance,
    instance: &OdooInstance,
    snapshot: &ReconcileSnapshot,
    defaults: &OperatorDefaults,
    requested: &Option<String>,
    scripts: &Scripts,
    job_name: &str,
)
    requires
        call_ensures(begin_filestore_migration, (before, defaults, requested, scripts), begun),
        call_ensures(record_filestore_migration, (before, snapshot, job_name), recorded),
        call_ensures(rollback_filestore_migration, (instance,), rolled_back),
        instance.metadata == before.metadata,
        instance.status matches Some(s) && opt_text(s.migration_job_name)
            == recorded@.migration_job_name.applied(None) && opt_text(
            s.migration_previous_storage_class,
        ) == recorded@.migration_previous_storage_class.applied(None),
    ensures
        Some(rolled_back.delete_claim@) == opt_text(begun.temp_claim.metadata.name),
        opt_text(rolled_back.delete_job) == Some(job_name@),
        snapshot.actual_storage_class matches Some(class) ==> class@ == "unknown"@ || opt_text(
            rolled_back.storage_class,
        ) == Some(class@),
        snapshot.actual_storage_class is None ==> rolled_back.storage_class is None,
        rolled_back.status@.migration_job_name.applied(Some(job_name@)) is None,
        forall|x: Option<Seq<char>>|
            (#[trigger] rolled_back.status@.migration_previous_storage_class.applied(x)) is None,
        forall|x: Option<Seq<char>>|
            (#[trigger] rolled_back.status@.migration_pv_name.applied(x)) is None,
        rolled_back.status@.phase is None,
        rolled_back.status@.db_initialized is None,
        recorded@.phase is None,
        recorded@.db_initialized is None,
        recorded@.migration_pv_name == FieldText::Keep,
        snapshot.actual_storage_class matches Some(from) ==> (
        before.spec.filestore matches Some(f) ==> (f.storage_class matches Some(to)
            ==> recorded@.message == FieldText::To(
            "Migrating filestore from "@ + from@ + " to "@ + to@,
        ))),
        snapshot.actual_storage_class matches Some(from) ==> rolled_back.status@.message
            == FieldText::To("Filestore migration rolled back to "@ + from@),
{
}

// ── A missing database ──────────────────────────────────────────────────────

/// A database is created again only where it is gone for certain, was initialised before and the
/// instance asks for that. Where it is gone and the instance does not, a human is told.
pub proof fn law_database_is_recreated_on_request(
    r: MissingDatabase,
    instance: &OdooInstance,
    found: Option<bool>,
)
    requires
        call_ensures(react_to_missing_database, (instance, found), r),
    ensures
        r is Recreate <==> {
            &&& found == Some(false)
            &&& instance.status matches Some(s)
            &&& s.db_initialized
            &&& instance.spec.database matches Some(d)
            &&& d.missing_policy == DatabaseMissingPolicy::Recreate
        },
        r is Warn <==> {
            &&& found == Some(false)
            &&& instance.status matches Some(s)
            &&& s.db_initialized
            &&& (instance.spec.database matches Some(d) ==> d.missing_policy
                == DatabaseMissingPolicy::Ignore)
        },
        r matches MissingDatabase::Recreate(patch) ==> patch@.db_initialized == Some(false)
            && patch@.phase is None,
{
}

} // verus!
