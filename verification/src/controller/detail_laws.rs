//! What is fixed of the objects of an instance: how they are called, what their configuration
//! says, and which variables win.

use vstd::prelude::*;

use crate::controller::child_resources::{
    are_ro_env, is_base_env, pod_container, ro_secret_name, user_secret_name,
};
use crate::controller::helpers::{
    controller_owner_ref, cron_depl_name, env_index, filestore_claim_name, has_extra_env, job_pod,
    law_merge_last_wins, lemma_env_index, merged_env, odoo_conf_name, put_env, seq_or_empty,
    Scripts,
};
use crate::controller::made::{is_cron_of, is_web_of, lemma_web};
use crate::controller::patches::{
    no_refresh_change, FieldText, RefreshStatusPatch, RefreshStatusText,
};
use crate::controller::reading::{env_of, lemma_variable, variable};
use crate::controller::restore_laws::{lemma_steps, step_of};
use crate::controller::snapshot::JobLookup;
use crate::controller::states::cloning_from_source::{
    db_job_event, deleted_claim_event, neutralize_image_hash, record_neutralize_job,
    recreated_claim_event, refuse_namespace, refuse_source, rollback_snapshot_name,
    snapshot_class_event, snapshot_event, source_snapshot_name, temp_db_name, tools_major,
    ClaimState, CloneEvent,
};
use crate::controller::states::restoring::{
    build_restore_job, restore_started_note, RestoreInputs,
};
use crate::controller::states::upgrading::{
    build_upgrade_job, is_upgrade_container, upgrade_started_note,
};
use crate::controller::watch_laws::has_succeeded;
use crate::controller::words::{lemma_connection_words, lemma_option_words};
use crate::crd::metadata::{OwnerReference, Resource};
use crate::crd::odoo_backup_job::OdooBackupJob;
use crate::crd::odoo_init_job::OdooInitJob;
use crate::crd::odoo_instance::{EnvVar, OdooInstance};
use crate::crd::odoo_restore_job::{OdooRestoreJob, RestoreSourceType};
use crate::crd::odoo_staging_refresh_job::OdooStagingRefreshJob;
use crate::crd::odoo_upgrade_job::OdooUpgradeJob;
use crate::helpers::{
    base_options, conf_options, database_name, full_addons_path, odoo_ro_username, odoo_username,
    sha256_text, OperatorDefaults,
};
use crate::objects::{Container, Deployment, Job, SecurityContext};
use crate::text::{int_text, nat_text, opt_text, texts};

verus! {

// ── Names ───────────────────────────────────────────────────────────────────

/// The objects of an instance are called after it, each with its own ending, so that they are found
/// by anyone who knows the instance.
pub proof fn law_objects_are_called_after_the_instance(
    instance: &OdooInstance,
    refresh: &OdooStagingRefreshJob,
    namespace: &str,
    name: &str,
    cron: String,
    claim: String,
    conf: String,
    user: String,
    ro_user: String,
    secret: String,
    ro_secret: String,
    snapshot: String,
    rollback: String,
)
    requires
        call_ensures(cron_depl_name, (instance,), cron),
        call_ensures(filestore_claim_name, (name,), claim),
        call_ensures(odoo_conf_name, (name,), conf),
        call_ensures(odoo_username, (namespace, name), user),
        call_ensures(odoo_ro_username, (namespace, name), ro_user),
        call_ensures(user_secret_name, (name,), secret),
        call_ensures(ro_secret_name, (name,), ro_secret),
        call_ensures(source_snapshot_name, (refresh,), snapshot),
        call_ensures(rollback_snapshot_name, (refresh,), rollback),
    ensures
        cron@ == instance.name() + "-cron"@,
        claim@ == name@ + "-filestore-pvc"@,
        conf@ == name@ + "-odoo-conf"@,
        secret@ == name@ + "-odoo-user"@,
        ro_secret@ == name@ + "-db-ro-password"@,
        snapshot@ == refresh.metadata.any_name() + "-src"@,
        rollback@ == refresh.metadata.any_name() + "-rollback"@,
        user@ == "odoo."@ + namespace@ + "."@ + name@,
        ro_user@ == user@ + "_ro"@,
        secret@ != ro_secret@,
{
    reveal_strlit("-odoo-user");
    reveal_strlit("-db-ro-password");
    assert(secret@.len() == name@.len() + 10);
    assert(ro_secret@.len() == name@.len() + 15);
}

/// An owner is named by its kind, its name and its UID, and controls what it owns.
pub proof fn law_owner_is_named<R: Resource>(oref: OwnerReference, owner: &R)
    requires
        call_ensures(controller_owner_ref::<R>, (owner,), oref),
    ensures
        oref.api_version@ == "bemade.org/v1alpha1"@,
        oref.kind@ == owner.kind_text(),
        owner.metadata().name matches Some(name) ==> oref.name@ == name@,
        owner.metadata().uid matches Some(uid) ==> oref.uid@ == uid@,
        oref.controller == Some(true),
        oref.block_owner_deletion == Some(true),
{
}

/// Each resource is of its own kind, and is owned under its own metadata.
pub proof fn law_resources_are_of_their_kind(
    instance: OdooInstance,
    init: OdooInitJob,
    restore: OdooRestoreJob,
    upgrade: OdooUpgradeJob,
    backup: OdooBackupJob,
    refresh: OdooStagingRefreshJob,
)
    ensures
        Resource::kind_text(&instance) == "OdooInstance"@,
        Resource::kind_text(&init) == "OdooInitJob"@,
        Resource::kind_text(&restore) == "OdooRestoreJob"@,
        Resource::kind_text(&upgrade) == "OdooUpgradeJob"@,
        Resource::kind_text(&backup) == "OdooBackupJob"@,
        Resource::kind_text(&refresh) == "OdooStagingRefreshJob"@,
        Resource::metadata(&instance) == instance.metadata,
        Resource::metadata(&init) == init.metadata,
        Resource::metadata(&restore) == restore.metadata,
        Resource::metadata(&upgrade) == upgrade.metadata,
        Resource::metadata(&backup) == backup.metadata,
        Resource::metadata(&refresh) == refresh.metadata,
{
}

/// A temporary database belongs to one refresh of one target: it is named after both, and two
/// refreshes with different hashes have different ones.
pub proof fn law_temporary_databases_are_told_apart(
    target: &OdooInstance,
    a: &OdooStagingRefreshJob,
    b: &OdooStagingRefreshJob,
    of_a: String,
    of_b: String,
)
    requires
        call_ensures(temp_db_name, (target, a), of_a),
        call_ensures(temp_db_name, (target, b), of_b),
        a.metadata.uid is Some,
        b.metadata.uid is Some,
        sha256_text(a.metadata.uid->0@).len() == 64,
        sha256_text(b.metadata.uid->0@).len() == 64,
        sha256_text(a.metadata.uid->0@).take(8) != sha256_text(b.metadata.uid->0@).take(8),
    ensures
        of_a@ != of_b@,
        database_name(target).is_prefix_of(of_a@),
        of_a@.len() == database_name(target).len() + 17,
{
    reveal_strlit("_refresh_");
    assert("_refresh_"@.len() == 9);
    let db = database_name(target);
    let (x, y) = (of_a@, of_b@);
    assert(x.subrange(0, db.len() as int) =~= db);
    assert(x.skip((db.len() + 9) as int) =~= sha256_text(a.metadata.uid->0@).take(8));
    assert(y.skip((db.len() + 9) as int) =~= sha256_text(b.metadata.uid->0@).take(8));
}

/// An image is recorded by the first sixteen digits of its hash.
pub proof fn law_image_is_recorded_by_its_hash(
    image: &str,
    job_name: &str,
    hash: String,
    record: RefreshStatusPatch,
)
    requires
        call_ensures(neutralize_image_hash, (image,), hash),
        call_ensures(record_neutralize_job, (job_name, image), record),
        sha256_text(image@).len() == 64,
    ensures
        hash@.len() == 16,
        hash@.is_prefix_of(sha256_text(image@)),
        record@.neutralize_job_image_hash.applied(None) == Some(hash@),
{
    assert(sha256_text(image@).subrange(0, 16) =~= hash@);
}

/// What is told of a Job names it, and says what it is for.
pub proof fn law_notes_name_the_job(job_name: &str, of_upgrade: String, of_restore: String)
    requires
        call_ensures(upgrade_started_note, (job_name,), of_upgrade),
        call_ensures(restore_started_note, (job_name,), of_restore),
    ensures
        of_upgrade@ == "Created upgrade job "@ + job_name@,
        of_restore@ == "Created restore job "@ + job_name@,
        of_upgrade@ != of_restore@,
{
    reveal_strlit("Created upgrade job ");
    reveal_strlit("Created restore job ");
    assert("Created upgrade job "@.len() == 20);
    assert("Created restore job "@.len() == 20);
    assert(of_upgrade@[8] == 'u');
    assert(of_restore@[8] == 'r');
}

/// A refusal is said in the message of the refresh and changes nothing else. Where the source was
/// not found, it names the source and the reason.
pub proof fn law_refusals_only_speak(
    refresh: &OdooStagingRefreshJob,
    error: &str,
    of_namespace: RefreshStatusPatch,
    of_source: RefreshStatusPatch,
)
    requires
        call_ensures(refuse_namespace, (), of_namespace),
        call_ensures(refuse_source, (refresh, error), of_source),
    ensures
        of_namespace@.message is To,
        of_namespace@ == (RefreshStatusText {
            message: of_namespace@.message,
            ..no_refresh_change()
        }),
        of_source@ == (RefreshStatusText { message: of_source@.message, ..no_refresh_change() }),
        of_source@.message == FieldText::To(
            "source OdooInstance "@ + refresh.spec.source.instance_name@ + " not found: "@ + error@,
        ),
        of_source@.message != of_namespace@.message,
{
    reveal_strlit(
        "cross-namespace staging refresh is not supported in v1 — source and target must share a namespace",
    );
    reveal_strlit("source OdooInstance ");
    assert("source OdooInstance "@.len() == 20);
    let said = of_namespace@.message->To_0;
    let other = of_source@.message->To_0;
    assert(said[0] == 'c');
    assert(other[0] == 's');
}

// ── What is seen ────────────────────────────────────────────────────────────

/// A claim is never both out of the way and in use: a claim that is terminating is not bound, and
/// what cannot be seen is not there.
pub proof fn law_claims_are_seen_as_they_are(
    claim: &Option<ClaimState>,
    deleted: CloneEvent,
    recreated: CloneEvent,
)
    requires
        call_ensures(deleted_claim_event, (claim,), deleted),
        call_ensures(recreated_claim_event, (claim,), recreated),
    ensures
        recreated == CloneEvent::ClaimBound ==> deleted == CloneEvent::ClaimGone,
        deleted == CloneEvent::ClaimTerminating <==> (*claim matches Some(c) && c.terminating),
        recreated == CloneEvent::ClaimBound <==> (*claim matches Some(c) && !c.terminating
            && opt_text(c.phase) == Some("Bound"@)),
        deleted == CloneEvent::ClaimTerminating || deleted == CloneEvent::ClaimGone,
        recreated == CloneEvent::ClaimBound || recreated == CloneEvent::ClaimUnbound,
{
}

/// A snapshot is ready where it says so, the database is cloned where its Job has succeeded, and a
/// class is covered where one of the drivers provisions it.
pub proof fn law_outcomes_are_seen_as_they_are(
    ready: Option<bool>,
    lookup: JobLookup,
    provisioner: &Option<String>,
    drivers: &Vec<String>,
    of_snapshot: CloneEvent,
    of_job: CloneEvent,
    of_class: CloneEvent,
)
    requires
        call_ensures(snapshot_event, (ready,), of_snapshot),
        call_ensures(db_job_event, (lookup,), of_job),
        call_ensures(snapshot_class_event, (provisioner, drivers), of_class),
    ensures
        of_snapshot == CloneEvent::SnapshotReady <==> ready == Some(true),
        of_snapshot == CloneEvent::SnapshotReady || of_snapshot == CloneEvent::SnapshotPending,
        of_job == CloneEvent::DbJobSucceeded <==> has_succeeded(lookup),
        of_job == CloneEvent::DbJobSucceeded || of_job == CloneEvent::DbJobUnfinished,
        of_class == CloneEvent::ClassCovered <==> (*provisioner matches Some(p) && exists|k: int|
            0 <= k < drivers@.len() && (#[trigger] drivers@[k])@ == p@),
        of_class == CloneEvent::ClassCovered || of_class == CloneEvent::ClassUncovered,
{
    if let Some(p) = *provisioner {
        if texts(drivers@).contains(p@) {
            let k = choose|k: int| 0 <= k < drivers@.len() && texts(drivers@)[k] == p@;
            assert(drivers@[k]@ == p@);
        }
        if exists|k: int| 0 <= k < drivers@.len() && (#[trigger] drivers@[k])@ == p@ {
            let k = choose|k: int| 0 <= k < drivers@.len() && (#[trigger] drivers@[k])@ == p@;
            assert(texts(drivers@)[k] == p@);
        }
    }
}

/// The database tools are as new as both servers, and no newer than one of them.
pub proof fn law_tools_fit_both_servers(source: i32, target: i32, r: i32)
    requires
        call_ensures(tools_major, (source, target), r),
    ensures
        r >= source,
        r >= target,
        r == source || r == target,
{
}

// ── odoo.conf ───────────────────────────────────────────────────────────────

/// What the operator sets in `odoo.conf`: the data lies where the claim is mounted, requests are
/// served on the port of the Service, the list of databases is closed, and proxies are trusted. The
/// admin password is set exactly where the instance has one. The addons of the image come in front
/// of the configured ones.
pub proof fn law_conf_fits_the_pods(
    user: Seq<char>,
    password: Seq<char>,
    host: Seq<char>,
    port: int,
    db: Seq<char>,
    admin: Seq<char>,
)
    ensures
        ({
            let base = base_options(user, password, host, port, db);
            let options = conf_options(base, admin, None);
            &&& options["data_dir"@] == "/var/lib/odoo"@
            &&& options["http_port"@] == int_text(8069)
            &&& options["http_interface"@] == "0.0.0.0"@
            &&& options["list_db"@] == "False"@
            &&& options["proxy_mode"@] == "True"@
            &&& options["log_level"@] == "info"@
            &&& options["logfile"@].len() == 0
            &&& options["max_cron_threads"@] == int_text(2)
            &&& options["addons_path"@]
                == "/opt/odoo/addons,/opt/odoo/odoo/addons"@ + ","@ + "/mnt/extra-addons"@
            &&& options["db_user"@] == user
            &&& options["db_password"@] == password
            &&& options["db_host"@] == host
            &&& options["db_name"@] == db
            &&& admin.len() > 0 ==> options.contains_key("admin_passwd"@)
                && options["admin_passwd"@] == admin
            &&& admin.len() == 0 ==> !options.contains_key("admin_passwd"@)
        }),
        full_addons_path(Seq::empty()) == "/opt/odoo/addons,/opt/odoo/odoo/addons"@,
{
    lemma_option_words();
    reveal_strlit("/mnt/extra-addons");
    assert("/mnt/extra-addons"@.len() == 17);
    reveal_strlit("8069");
    reveal_strlit("2");
    reveal_with_fuel(nat_text, 5);
    assert(int_text(8069) =~= "8069"@);
    assert(int_text(2) =~= "2"@);
}

// ── Variables ───────────────────────────────────────────────────────────────

/// Whether at most one variable is called `name`.
pub open spec fn is_single(env: Seq<EnvVar>, name: Seq<char>) -> bool {
    forall|i: int, j: int|
        0 <= i < j < env.len() && (#[trigger] env[i]).name@ == name ==> (#[trigger] env[j]).name@
            != name
}

proof fn lemma_put_keeps_single(env: Seq<EnvVar>, e: EnvVar, name: Seq<char>)
    requires
        is_single(env, name),
    ensures
        is_single(put_env(env, e), name),
{
    lemma_env_index(env, e.name@);
    let out = put_env(env, e);
    let at = env_index(env, e.name@);
    assert forall|i: int, j: int|
        0 <= i < j < out.len() && (#[trigger] out[i]).name@ == name implies (
    #[trigger] out[j]).name@ != name by {
        if at < env.len() {
            assert(out[i].name@ == env[i].name@);
            assert(out[j].name@ == env[j].name@);
        } else if j < env.len() {
            assert(out[i] == env[i] && out[j] == env[j]);
        } else {
            assert(out[i] == env[i]);
        }
    }
}

proof fn lemma_merge_keeps_single(base: Seq<EnvVar>, extra: Seq<EnvVar>, name: Seq<char>)
    requires
        is_single(base, name),
    ensures
        is_single(merged_env(base, extra), name),
    decreases extra.len(),
{
    if extra.len() > 0 {
        lemma_merge_keeps_single(base, extra.drop_last(), name);
        lemma_put_keeps_single(merged_env(base, extra.drop_last()), extra.last(), name);
    }
}

/// A variable that is merged in is the one that counts, of several with one name the last.
pub proof fn law_merged_variable_counts(base: Seq<EnvVar>, extra: Seq<EnvVar>, i: int)
    requires
        0 <= i < extra.len(),
        forall|j: int| i < j < extra.len() ==> (#[trigger] extra[j]).name@ != extra[i].name@,
        is_single(base, extra[i].name@),
    ensures
        variable(merged_env(base, extra), extra[i].name@) == Some(extra[i]),
{
    let name = extra[i].name@;
    let out = merged_env(base, extra);
    law_merge_last_wins(base, extra, i);
    lemma_merge_keeps_single(base, extra, name);
    lemma_env_index(out, name);
    let k = env_index(out, name);
    assert forall|j: int| k < j < out.len() implies (#[trigger] out[j]).name@ != name by {
        assert(out[k].name@ == name);
    }
    lemma_variable(out, k, name);
}

/// What an instance says of its environment counts in all its Odoo containers: in the web pods, in
/// those that run scheduled actions, and in the upgrade. Further sources of variables reach them
/// too.
pub proof fn law_environment_of_the_instance_counts(
    web_deployment: Deployment,
    cron_deployment: Deployment,
    web: Container,
    cron: Container,
    job: Job,
    instance: &OdooInstance,
    d: &OperatorDefaults,
    upgrade: &OdooUpgradeJob,
    i: int,
)
    requires
        is_web_of(web_deployment, instance, d),
        is_cron_of(cron_deployment, instance, d),
        web == pod_container(web_deployment),
        cron == pod_container(cron_deployment),
        call_ensures(build_upgrade_job, (instance, upgrade, d), job),
        0 <= i < instance.spec.extra_env@.len(),
        forall|j: int|
            i < j < instance.spec.extra_env@.len() ==> (
            #[trigger] instance.spec.extra_env@[j]).name@ != instance.spec.extra_env@[i].name@,
    ensures
        ({
            let e = instance.spec.extra_env@[i];
            let c = job_pod(job).containers@[0];
            &&& variable(env_of(web), e.name@) == Some(e)
            &&& variable(env_of(cron), e.name@) == Some(e)
            &&& variable(env_of(c), e.name@) == Some(e)
            &&& seq_or_empty(web.env_from) == instance.spec.extra_env_from@
            &&& seq_or_empty(cron.env_from) == instance.spec.extra_env_from@
            &&& seq_or_empty(c.env_from) == instance.spec.extra_env_from@
        }),
{
    let extra = instance.spec.extra_env@;
    let key = extra[i].name@;
    lemma_connection_words();
    lemma_web(web_deployment, instance, d);
    let (base, ro) = choose|base: Seq<EnvVar>, ro: Seq<EnvVar>|
        {
            &&& #[trigger] are_ro_env(ro, instance)
            &&& #[trigger] is_base_env(base, instance, ro)
            &&& env_of(web) == merged_env(base, extra)
        };
    assert forall|j: int| 1 <= j < base.len() implies #[trigger] base[j] == ro[j - 1] by {
        assert(base.skip(1)[j - 1] == base[j]);
    }
    assert(is_single(base, key));
    law_merged_variable_counts(base, extra, i);
    let alone = choose|base: Seq<EnvVar>|
        {
            &&& #[trigger] is_base_env(
                base,
                instance,
                Seq::empty(),
            )
            &&& env_of(cron) == merged_env(base, extra)
        };
    assert(is_single(alone, key));
    law_merged_variable_counts(alone, extra, i);
    let c = job_pod(job).containers@[0];
    let bare = choose|bare: Container|
        {
            &&& #[trigger] is_upgrade_container(bare, instance, upgrade, d)
            &&& has_extra_env(c, bare, instance)
        };
    assert(env_of(bare).len() == 0);
    law_merged_variable_counts(env_of(bare), extra, i);
    assert(seq_or_empty(c.env_from) =~= instance.spec.extra_env_from@);
}

// ── Restore ─────────────────────────────────────────────────────────────────

/// Each step of a restore has the tools that its script needs: a client of the object store, or one
/// that can reach a server, and the client of the database. Only the extraction installs its tools,
/// and so runs as root.
pub proof fn law_restore_steps_have_their_tools(
    job: Job,
    instance: &OdooInstance,
    restore: &OdooRestoreJob,
    d: &OperatorDefaults,
    inputs: &RestoreInputs,
    scripts: &Scripts,
)
    requires
        call_ensures(build_restore_job, (instance, restore, d, inputs, scripts), job),
    ensures
        ({
            let download = step_of(job, "download"@);
            let extract = step_of(job, "extract"@);
            let load = step_of(job, "load-db"@);
            let root = Some(SecurityContext { run_as_user: Some(0) });
            &&& download matches Some(c) ==> c.security_context is None && opt_text(c.image)
                == Some(
                if restore.spec.source.source_type == RestoreSourceType::S3 {
                    "quay.io/minio/mc:latest"@
                } else {
                    "curlimages/curl:latest"@
                },
            )
            &&& extract matches Some(c) ==> c.security_context == root && opt_text(c.image)
                == Some(
                "alpine:latest"@,
            )
            &&& load matches Some(c) && c.security_context is None && opt_text(c.image) == Some(
                inputs.pg_image@,
            )
        }),
{
    lemma_steps(job, instance, restore, d, inputs, scripts);
}

} // verus!
