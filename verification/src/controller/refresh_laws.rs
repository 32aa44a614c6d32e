//! What a staging refresh does, told by what its Jobs find: they read from the source and write
//! to the target, and never the other way round.

use vstd::prelude::*;

use crate::controller::child_resources::{pod_container, PostgresClusterConfig};
use crate::controller::helpers::{has_extra_env, is_cm_env, job_pod, Scripts};
use crate::controller::made::{
    is_claim_of, is_map_of, is_web_of, lemma_claim, lemma_map, lemma_web,
};
use crate::controller::object_laws::{lemma_odoo_files, lemma_web_database, own_options};
use crate::controller::patches::{FieldText, RefreshStatusPatch, RefreshStatusText};
use crate::controller::reading::{
    claim_at, env_of, is_guarded, is_unnamed, lemma_extra_env_keeps, lemma_script, lemma_variable, mount_at,
    program_of, script_of, value_from_map, value_of, variable, volume_named, writable_at,
};
use crate::controller::state_machine::recorded_snapshot;
use crate::controller::states::cloning_from_source::{
    build_db_clone_job, build_filestore_clone_job, build_neutralize_job, ensure_source_snapshot,
    expired_rollback, facts, is_clone_neutralize, is_patched, record_claim, record_db_job,
    record_filestore_job, record_filestore_phase, record_neutralize_job, record_rollback,
    record_snapshot, record_temp_db, recorded_rollback, rollback_snapshot, snapshot_data_source,
    CloneFacts, ExpiredRollback,
};
use crate::controller::words::{
    lemma_clone_words, lemma_connection_words, lemma_option_words, lemma_path_words,
    lemma_volume_words,
};
use crate::crd::metadata::Moment;
use crate::crd::odoo_instance::{EnvVar, OdooInstance};
use crate::crd::odoo_staging_refresh_job::OdooStagingRefreshJob;
use crate::crd::shared::Phase;
use crate::helpers::OperatorDefaults;
use crate::objects::{
    ConfigMap, Container, Deployment, Job, PersistentVolumeClaim, TypedObjectReference,
    VolumeSnapshot,
};
use crate::text::opt_text;

verus! {

/// A variable that names a key of a map is read from that map.
pub proof fn lemma_from_map(c: Container, i: int, name: Seq<char>, map: ConfigMap, key: Seq<char>)
    requires
        0 <= i < env_of(c).len(),
        map.metadata.name is Some,
        is_cm_env(env_of(c)[i], name, map.metadata.name->0@, key),
        map.data@.contains_key(key),
        forall|j: int| i < j < env_of(c).len() ==> (#[trigger] env_of(c)[j]).name@ != name,
    ensures
        value_from_map(c, name, map) == Some(map.data@[key]),
{
    lemma_variable(env_of(c), i, name);
}

// ── The database ────────────────────────────────────────────────────────────

/// The Job that clones the database loads the clone into the database that the web pods of the
/// target open, and reads the one that those of the source open. So the clone ends up in the
/// target's database, whatever that of the source is called, and the two are told apart wherever
/// they differ. Until it is complete, the clone is kept in a third database, named after the
/// target's and on record.
pub proof fn law_database_is_cloned_into_the_target(
    job: Job,
    target: &OdooInstance,
    source: &OdooInstance,
    refresh: &OdooStagingRefreshJob,
    image: &str,
    script: &str,
    temp_db: RefreshStatusPatch,
    defaults: &OperatorDefaults,
    target_web: Deployment,
    source_web: Deployment,
)
    requires
        call_ensures(build_db_clone_job, (target, source, refresh, image, script), job),
        call_ensures(record_temp_db, (target, refresh), temp_db),
        is_web_of(target_web, target, defaults),
        is_web_of(source_web, source, defaults),
        is_unnamed(target.spec.extra_env@, "PGDATABASE"@),
        is_unnamed(source.spec.extra_env@, "PGDATABASE"@),
    ensures
        ({
            let c = job_pod(job).containers@[0];
            let target_db = value_of(pod_container(target_web), "PGDATABASE"@);
            let source_db = value_of(pod_container(source_web), "PGDATABASE"@);
            &&& target_db is Some
            &&& value_of(c, "TGT_DB"@) == target_db
            &&& value_of(c, "SRC_DB"@) == source_db
            &&& source_db != target_db ==> value_of(c, "TGT_DB"@) != value_of(c, "SRC_DB"@)
            &&& target.spec.database matches Some(d) ==> (d.name matches Some(n) ==> value_of(
                c,
                "TGT_DB"@,
            ) == Some(n@))
            &&& source.spec.database matches Some(d) ==> (d.name matches Some(n) ==> value_of(
                c,
                "SRC_DB"@,
            ) == Some(n@))
            &&& value_of(c, "TEMP_DB"@) is Some
            &&& value_of(c, "TEMP_DB"@) == temp_db@.temp_db_name.applied(None)
            &&& (value_of(c, "TGT_DB"@)->0 + "_refresh_"@).is_prefix_of(
                value_of(c, "TEMP_DB"@)->0,
            )
            &&& value_of(c, "TEMP_DB"@) != value_of(c, "TGT_DB"@)
            &&& script_of(c) == Some(script@)
            &&& program_of(c) == Some("/bin/sh"@)
            &&& job_pod(job).containers@.len() == 1
            &&& job_pod(job).init_containers is None
            &&& opt_text(c.image) == Some(image@)
        }),
{
    let c = job_pod(job).containers@[0];
    lemma_clone_words();
    lemma_web(target_web, target, defaults);
    lemma_web(source_web, source, defaults);
    lemma_web_database(pod_container(target_web), target.name(), target, defaults);
    lemma_web_database(pod_container(source_web), source.name(), source, defaults);
    lemma_variable(env_of(c), 9, "TGT_DB"@);
    lemma_variable(env_of(c), 4, "SRC_DB"@);
    lemma_variable(env_of(c), 10, "TEMP_DB"@);
    reveal_strlit("/bin/sh");
    assert("/bin/sh"@.len() == 7);
    lemma_script(c, "/bin/sh"@, script@);
    reveal_strlit("_refresh_");
    assert("_refresh_"@.len() == 9);
    let tgt = value_of(c, "TGT_DB"@)->0;
    let temp = value_of(c, "TEMP_DB"@)->0;
    assert(temp.subrange(0, (tgt.len() + 9) as int) =~= tgt + "_refresh_"@);
}

/// The Job that clones the database reaches both servers as the pods of the two instances do: the
/// one with the target's data through the configuration of the target, the other through that of
/// the source, each with the user and password that belong to it.
pub proof fn law_clone_reaches_both_servers(
    job: Job,
    target: &OdooInstance,
    source: &OdooInstance,
    refresh: &OdooStagingRefreshJob,
    image: &str,
    script: &str,
    target_map: ConfigMap,
    target_pg: &PostgresClusterConfig,
    target_password: Seq<char>,
    source_map: ConfigMap,
    source_pg: &PostgresClusterConfig,
    source_password: Seq<char>,
)
    requires
        call_ensures(build_db_clone_job, (target, source, refresh, image, script), job),
        source.name() == refresh.spec.source.instance_name@,
        is_map_of(target_map, target, target_pg, target_password),
        is_map_of(source_map, source, source_pg, source_password),
    ensures
        ({
            let c = job_pod(job).containers@[0];
            &&& value_from_map(c, "TGT_HOST"@, target_map) == Some(target_pg.host@)
            &&& value_from_map(c, "TGT_PORT"@, target_map) == Some(target_map.data@["db_port"@])
            &&& value_from_map(c, "TGT_USER"@, target_map) == Some(target_map.data@["db_user"@])
            &&& value_from_map(c, "TGT_PASSWORD"@, target_map) == Some(target_password)
            &&& value_of(c, "TGT_DB"@) == Some(target_map.data@["db_name"@])
            &&& value_from_map(c, "SRC_HOST"@, source_map) == Some(source_pg.host@)
            &&& value_from_map(c, "SRC_PORT"@, source_map) == Some(source_map.data@["db_port"@])
            &&& value_from_map(c, "SRC_USER"@, source_map) == Some(source_map.data@["db_user"@])
            &&& value_from_map(c, "SRC_PASSWORD"@, source_map) == Some(source_password)
            &&& value_of(c, "SRC_DB"@) == Some(source_map.data@["db_name"@])
        }),
{
    let c = job_pod(job).containers@[0];
    lemma_clone_words();
    lemma_map(target_map, target, target_pg, target_password);
    lemma_map(source_map, source, source_pg, source_password);
    lemma_from_map(c, 0, "SRC_HOST"@, source_map, "db_host"@);
    lemma_from_map(c, 1, "SRC_PORT"@, source_map, "db_port"@);
    lemma_from_map(c, 2, "SRC_USER"@, source_map, "db_user"@);
    lemma_from_map(c, 3, "SRC_PASSWORD"@, source_map, "db_password"@);
    lemma_variable(env_of(c), 4, "SRC_DB"@);
    lemma_from_map(c, 5, "TGT_HOST"@, target_map, "db_host"@);
    lemma_from_map(c, 6, "TGT_PORT"@, target_map, "db_port"@);
    lemma_from_map(c, 7, "TGT_USER"@, target_map, "db_user"@);
    lemma_from_map(c, 8, "TGT_PASSWORD"@, target_map, "db_password"@);
    lemma_variable(env_of(c), 9, "TGT_DB"@);
}

// ── The filestore ───────────────────────────────────────────────────────────

/// The Job that copies the filestore finds the claim of the source where it copies from, and
/// cannot write there. It finds the claim of the target where it copies to: where the pods of the
/// target have their data. The data of an instance is kept by database, and the Job knows the
/// databases of both.
pub proof fn law_filestore_is_copied_into_the_target(
    job: Job,
    target: &OdooInstance,
    source: &OdooInstance,
    refresh: &OdooStagingRefreshJob,
    image: &str,
    script: &str,
    defaults: &OperatorDefaults,
    target_claim: PersistentVolumeClaim,
    source_claim: PersistentVolumeClaim,
    target_web: Deployment,
    source_web: Deployment,
    pg: &PostgresClusterConfig,
    password: Seq<char>,
)
    requires
        call_ensures(build_filestore_clone_job, (target, source, refresh, image, script), job),
        source.name() == refresh.spec.source.instance_name@,
        !target.ephemeral(),
        is_claim_of(target_claim, target, defaults),
        is_claim_of(source_claim, source, defaults),
        is_web_of(target_web, target, defaults),
        is_web_of(source_web, source, defaults),
        is_unnamed(target.spec.extra_env@, "PGDATABASE"@),
        is_unnamed(source.spec.extra_env@, "PGDATABASE"@),
    ensures
        ({
            let pod = job_pod(job);
            let c = pod.containers@[0];
            &&& value_of(c, "SRC_FILESTORE"@) is Some
            &&& claim_at(pod, c, value_of(c, "SRC_FILESTORE"@)->0) == opt_text(
                source_claim.metadata.name,
            )
            &&& !writable_at(pod, c, value_of(c, "SRC_FILESTORE"@)->0)
            &&& is_guarded(pod, c, value_of(c, "SRC_FILESTORE"@)->0)
            &&& value_of(c, "TGT_FILESTORE"@) is Some
            &&& claim_at(pod, c, value_of(c, "TGT_FILESTORE"@)->0) == opt_text(
                target_claim.metadata.name,
            )
            &&& writable_at(pod, c, value_of(c, "TGT_FILESTORE"@)->0)
            &&& value_of(c, "TGT_FILESTORE"@)->0 == own_options(
                target.namespace(),
                target.name(),
                target,
                pg,
                password,
            )["data_dir"@]
            &&& value_of(c, "TGT_DB"@) == value_of(pod_container(target_web), "PGDATABASE"@)
            &&& value_of(c, "SRC_DB"@) == value_of(pod_container(source_web), "PGDATABASE"@)
            &&& script_of(c) == Some(script@)
            &&& program_of(c) == Some("/bin/bash"@)
            &&& pod.containers@.len() == 1
            &&& pod.init_containers is None
            &&& opt_text(c.image) == Some(image@)
        }),
{
    let pod = job_pod(job);
    let c = pod.containers@[0];
    let volumes = pod.volumes->0@;
    let mounts = c.volume_mounts->0@;
    lemma_clone_words();
    lemma_path_words();
    lemma_volume_words();
    lemma_option_words();
    lemma_claim(target_claim, target, defaults);
    lemma_claim(source_claim, source, defaults);
    lemma_web(target_web, target, defaults);
    lemma_web(source_web, source, defaults);
    lemma_web_database(pod_container(target_web), target.name(), target, defaults);
    lemma_web_database(pod_container(source_web), source.name(), source, defaults);
    lemma_variable(env_of(c), 0, "SRC_FILESTORE"@);
    lemma_variable(env_of(c), 1, "TGT_FILESTORE"@);
    lemma_variable(env_of(c), 2, "SRC_DB"@);
    lemma_variable(env_of(c), 3, "TGT_DB"@);
    reveal_strlit("/bin/bash");
    assert("/bin/bash"@.len() == 9);
    lemma_script(c, "/bin/bash"@, script@);
    reveal_with_fuel(mount_at, 4);
    reveal_with_fuel(volume_named, 4);
    assert(volumes.take(2)[0] == volumes[0] && volumes.take(2)[1] == volumes[1]);
    assert(mounts.take(2)[0] == mounts[0] && mounts.take(2)[1] == mounts[1]);
    assert(mount_at(mounts, "/src"@) == Some(mounts[2]));
    assert(mount_at(mounts, "/var/lib/odoo"@) == Some(mounts[0]));
    assert(volume_named(volumes, "source-filestore"@) == Some(volumes[2]));
    assert(volume_named(volumes, "filestore"@) == Some(volumes[0]));
}

// ── Neutralization ──────────────────────────────────────────────────────────

/// The Job that neutralizes the clone, or verifies it, works on the database that the web pods of
/// the target open, reaches it through the configuration of the target, and finds the target's
/// filestore where the pods do. It neutralizes exactly where that is asked for, and it is told
/// where mail goes to.
pub proof fn law_clone_is_neutralized_in_place(
    job: Job,
    target: &OdooInstance,
    refresh: &OdooStagingRefreshJob,
    image: &str,
    mail_env: &Vec<EnvVar>,
    scripts: &Scripts,
    defaults: &OperatorDefaults,
    web: Deployment,
    map: ConfigMap,
    pg: &PostgresClusterConfig,
    password: Seq<char>,
)
    requires
        call_ensures(build_neutralize_job, (target, refresh, image, mail_env, scripts), job),
        is_web_of(web, target, defaults),
        is_map_of(map, target, pg, password),
        is_unnamed(target.spec.extra_env@, "PGDATABASE"@),
        forall|name: Seq<char>|
            name == "DB_NAME"@ || name == "HOST"@ || name == "PORT"@ || name == "USER"@ || name
                == "PASSWORD"@ ==> #[trigger] is_unnamed(target.spec.extra_env@, name)
                && is_unnamed(mail_env@, name),
    ensures
        ({
            let pod = job_pod(job);
            let c = pod.containers@[0];
            &&& value_of(c, "DB_NAME"@) == value_of(pod_container(web), "PGDATABASE"@)
            &&& value_from_map(c, "HOST"@, map) == Some(pg.host@)
            &&& value_from_map(c, "PORT"@, map) == Some(map.data@["db_port"@])
            &&& value_from_map(c, "USER"@, map) == Some(map.data@["db_user"@])
            &&& value_from_map(c, "PASSWORD"@, map) == Some(password)
            &&& refresh.spec.neutralize ==> script_of(c) == Some(scripts.neutralize@)
            &&& !refresh.spec.neutralize ==> script_of(c) == Some(scripts.verify_mail@)
            &&& program_of(c) == Some("/bin/bash"@)
            &&& pod.containers@.len() == 1
            &&& pod.init_containers is None
            &&& opt_text(c.image) == Some(image@)
            &&& !target.ephemeral() ==> claim_at(pod, c, "/var/lib/odoo"@) == Some(
                target.name() + "-filestore-pvc"@,
            )
            &&& forall|i: int|
                0 <= i < mail_env@.len() && is_unnamed(
                    target.spec.extra_env@,
                    (#[trigger] mail_env@[i]).name@,
                ) && (forall|j: int|
                    i < j < mail_env@.len() ==> (#[trigger] mail_env@[j]).name@ != mail_env@[i].name@)
                    ==> variable(env_of(c), mail_env@[i].name@) == Some(mail_env@[i])
        }),
{
    let pod = job_pod(job);
    let c = pod.containers@[0];
    let base = choose|base: Container|
        {
            &&& #[trigger] is_clone_neutralize(
                base,
                target,
                refresh.spec.neutralize,
                image@,
                mail_env@,
                scripts,
            )
            &&& has_extra_env(c, base, target)
        };
    let e = env_of(base);
    lemma_connection_words();
    lemma_web(web, target, defaults);
    lemma_web_database(pod_container(web), target.name(), target, defaults);
    lemma_map(map, target, pg, password);
    assert(is_unnamed(target.spec.extra_env@, "DB_NAME"@));
    assert(is_unnamed(target.spec.extra_env@, "HOST"@));
    assert(is_unnamed(target.spec.extra_env@, "PORT"@));
    assert(is_unnamed(target.spec.extra_env@, "USER"@));
    assert(is_unnamed(target.spec.extra_env@, "PASSWORD"@));
    assert forall|j: int| 5 <= j < e.len() implies #[trigger] e[j] == mail_env@[j - 5] by {
        assert(e.skip(5)[j - 5] == e[j]);
    }
    lemma_extra_env_keeps(c, base, target, "DB_NAME"@);
    lemma_extra_env_keeps(c, base, target, "HOST"@);
    lemma_extra_env_keeps(c, base, target, "PORT"@);
    lemma_extra_env_keeps(c, base, target, "USER"@);
    lemma_extra_env_keeps(c, base, target, "PASSWORD"@);
    lemma_variable(e, 0, "DB_NAME"@);
    lemma_from_map(base, 1, "HOST"@, map, "db_host"@);
    lemma_from_map(base, 2, "PORT"@, map, "db_port"@);
    lemma_from_map(base, 3, "USER"@, map, "db_user"@);
    lemma_from_map(base, 4, "PASSWORD"@, map, "db_password"@);
    reveal_strlit("/bin/bash");
    assert("/bin/bash"@.len() == 9);
    lemma_script(
        c,
        "/bin/bash"@,
        if refresh.spec.neutralize {
            scripts.neutralize@
        } else {
            scripts.verify_mail@
        },
    );
    lemma_odoo_files(pod, c, target.name(), target.ephemeral());
    assert forall|i: int|
        0 <= i < mail_env@.len() && is_unnamed(
            target.spec.extra_env@,
            (#[trigger] mail_env@[i]).name@,
        ) && (forall|j: int|
            i < j < mail_env@.len() ==> (#[trigger] mail_env@[j]).name@ != mail_env@[i].name@)
        implies variable(env_of(c), mail_env@[i].name@) == Some(mail_env@[i]) by {
        lemma_extra_env_keeps(c, base, target, mail_env@[i].name@);
        assert(e[i + 5] == mail_env@[i]);
        lemma_variable(e, i + 5, mail_env@[i].name@);
    }
}

// ── Snapshots ───────────────────────────────────────────────────────────────

/// The snapshots of a refresh are what they are used as. The one of the source is taken of the
/// source's claim, and the target's new claim is filled from it. The one of the target is taken
/// of the target's claim. They have different names, under which they are on record, and the one
/// that is given up after a day is the one of the target.
pub proof fn law_snapshots_are_told_apart(
    refresh: &OdooStagingRefreshJob,
    target: &OdooInstance,
    source: &OdooInstance,
    defaults: &OperatorDefaults,
    of_source: VolumeSnapshot,
    of_target: VolumeSnapshot,
    fill: TypedObjectReference,
    source_record: RefreshStatusPatch,
    target_record: RefreshStatusPatch,
    source_claim: PersistentVolumeClaim,
    target_claim: PersistentVolumeClaim,
)
    requires
        source.name() == refresh.spec.source.instance_name@,
        call_ensures(ensure_source_snapshot, (refresh,), of_source),
        call_ensures(rollback_snapshot, (target, refresh), of_target),
        call_ensures(snapshot_data_source, (refresh,), fill),
        call_ensures(record_snapshot, (refresh,), source_record),
        call_ensures(record_rollback, (refresh,), target_record),
        is_claim_of(source_claim, source, defaults),
        is_claim_of(target_claim, target, defaults),
    ensures
        of_source.metadata.name is Some,
        of_target.metadata.name is Some,
        opt_text(of_source.metadata.name) != opt_text(of_target.metadata.name),
        Some(of_source.source_claim@) == opt_text(source_claim.metadata.name),
        Some(of_target.source_claim@) == opt_text(target_claim.metadata.name),
        Some(fill.name@) == opt_text(of_source.metadata.name),
        fill.kind@ == "VolumeSnapshot"@,
        source_record@.source_snapshot.applied(None) == opt_text(of_source.metadata.name),
        target_record@.rollback_snapshot.applied(None) == opt_text(of_target.metadata.name),
        opt_text(of_source.metadata.namespace) == opt_text(of_target.metadata.namespace),
        of_source.metadata.owner_references matches Some(owners) && owners@.len() == 1
            && owners@[0].name@ == refresh.metadata.any_name(),
        of_target.metadata.owner_references matches Some(owners) && owners@.len() == 1
            && owners@[0].name@ == refresh.metadata.any_name(),
{
    lemma_claim(source_claim, source, defaults);
    lemma_claim(target_claim, target, defaults);
    reveal_strlit("-src");
    reveal_strlit("-rollback");
    assert("-src"@.len() == 4);
    assert("-rollback"@.len() == 9);
    let (a, b) = (of_source.metadata.name->0@, of_target.metadata.name->0@);
    assert(a.len() != b.len());
}

/// The snapshot of the target is given up exactly when the refresh is over and a day has passed
/// since it was taken. Then it is deleted under the name on record, and taken off the record; the
/// rest of the record stays.
pub proof fn law_rollback_is_given_up_after_a_day(
    refresh: &OdooStagingRefreshJob,
    taken: Option<Moment>,
    now: Moment,
    expired: Option<ExpiredRollback>,
)
    requires
        call_ensures(expired_rollback, (refresh, taken, now), expired),
    ensures
        expired is Some <==> {
            &&& taken matches Some(t)
            &&& now.secs - t.secs >= 24 * 60 * 60
            &&& refresh.status matches Some(s)
            &&& s.rollback_snapshot is Some
            &&& s.phase == Some(Phase::Completed) || s.phase == Some(Phase::Failed)
        },
        expired matches Some(x) ==> {
            &&& Some(x.snapshot@) == opt_text(refresh.status->0.rollback_snapshot)
            &&& x.patch@.rollback_snapshot.applied(Some(x.snapshot@)) is None
            &&& x.patch@.phase is None
            &&& x.patch@.source_snapshot == FieldText::Keep
            &&& x.patch@.message == FieldText::Keep
        },
{
}

// ── Records ─────────────────────────────────────────────────────────────────

/// Whether `after` is the refresh `before` with the patch applied.
pub open spec fn is_recorded(
    after: OdooStagingRefreshJob,
    before: OdooStagingRefreshJob,
    patch: RefreshStatusText,
) -> bool {
    &&& is_patched(after, before, patch)
    &&& recorded_snapshot(after) == patch.source_snapshot.applied(recorded_snapshot(before))
    &&& recorded_rollback(after) == patch.rollback_snapshot.applied(recorded_rollback(before))
}

/// Whether the facts are `f` once the patch is applied to `before`, which makes it `after`.
pub open spec fn leads_to(
    before: OdooStagingRefreshJob,
    after: OdooStagingRefreshJob,
    patch: RefreshStatusPatch,
    target: &OdooInstance,
    source: &OdooInstance,
    f: CloneFacts,
) -> bool {
    is_recorded(after, before, patch@) ==> facts(target, Some(after), Some(source)) == f
}

/// What a refresh has recorded, it does not do again: the next reconcile goes on behind it, and
/// everything else that is on record stays.
pub proof fn law_what_is_recorded_is_done(
    target: &OdooInstance,
    source: &OdooInstance,
    before: OdooStagingRefreshJob,
    after: OdooStagingRefreshJob,
    patch: RefreshStatusPatch,
    job_name: &str,
    image: &str,
    now: &str,
    phase: Phase,
)
    ensures
        ({
            let f = facts(target, Some(before), Some(source));
            &&& call_ensures(record_db_job, (job_name, now), patch) ==> leads_to(
                before,
                after,
                patch,
                target,
                source,
                CloneFacts { db_job_named: true, ..f },
            ) && patch@.db_job_name.applied(None) == Some(job_name@) && patch@.phase == Some(
                Phase::Running,
            ) && patch@.start_time.applied(None) == Some(now@)
            &&& call_ensures(record_filestore_job, (job_name,), patch) ==> leads_to(
                before,
                after,
                patch,
                target,
                source,
                CloneFacts {
                    filestore_job_named: true,
                    filestore_phase: Some(Phase::Running),
                    ..f
                },
            ) && patch@.filestore_job_name.applied(None) == Some(job_name@)
            &&& call_ensures(record_snapshot, (&before,), patch) ==> leads_to(
                before,
                after,
                patch,
                target,
                source,
                CloneFacts { snapshot_recorded: true, ..f },
            )
            &&& call_ensures(record_rollback, (&before,), patch) ==> leads_to(
                before,
                after,
                patch,
                target,
                source,
                CloneFacts { rollback_recorded: true, ..f },
            )
            &&& call_ensures(record_claim, (), patch) ==> leads_to(
                before,
                after,
                patch,
                target,
                source,
                CloneFacts { filestore_phase: Some(Phase::Running), ..f },
            )
            &&& call_ensures(record_filestore_phase, (phase,), patch) ==> leads_to(
                before,
                after,
                patch,
                target,
                source,
                CloneFacts { filestore_phase: Some(phase), ..f },
            )
            &&& call_ensures(record_neutralize_job, (job_name, image), patch) ==> leads_to(
                before,
                after,
                patch,
                target,
                source,
                CloneFacts { neutralize_job_named: true, ..f },
            ) && patch@.neutralize_job_name.applied(None) == Some(job_name@)
            &&& call_ensures(record_temp_db, (target, &before), patch) ==> leads_to(
                before,
                after,
                patch,
                target,
                source,
                f,
            )
        }),
{
}

} // verus!
