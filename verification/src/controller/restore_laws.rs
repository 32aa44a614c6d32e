//! What a restore does, told by what its steps find: each finds what the step before it left, and
//! the last one loads the database that the instance opens.

use vstd::prelude::*;

use crate::controller::child_resources::{pod_container, PostgresClusterConfig};
use crate::controller::helpers::{cron_name, has_extra_env, job_pod, seq_or_empty, Scripts};
use crate::controller::made::{
    is_claim_of, is_map_of, is_web_of, lemma_claim, lemma_map, lemma_web,
};
use crate::controller::object_laws::lemma_web_database;
use crate::controller::reading::{
    claim_at, env_of, is_unnamed, lemma_extra_env_keeps, lemma_script, lemma_unnamed,
    lemma_variable, mount_at, program_of, scratch_at, script_of, value_from_map, value_of,
    variable, volume_at, volume_named, writable_at,
};
use crate::controller::refresh_laws::lemma_from_map;
use crate::controller::snapshot::ReconcileSnapshot;
use crate::controller::states::restoring::{
    build_restore_job, has_download, is_download, is_extract, is_load_db, is_neutralize,
    is_restore_job, RestoreInputs, RestorePlan, Restoring,
};
use crate::controller::words::{
    lemma_connection_words, lemma_download_words, lemma_format_words, lemma_path_words,
    lemma_step_words, lemma_volume_words,
};
use crate::crd::odoo_instance::OdooInstance;
use crate::crd::odoo_restore_job::{OdooRestoreJob, RestoreSourceType};
use crate::crd::shared::BackupFormat;
use crate::helpers::OperatorDefaults;
use crate::objects::{ConfigMap, Container, Deployment, Job, PersistentVolumeClaim};
use crate::text::{opt_text, texts};

verus! {

/// The step called `name`.
pub open spec fn step_named(steps: Seq<Container>, name: Seq<char>) -> Option<Container>
    decreases steps.len(),
{
    if steps.len() == 0 {
        None
    } else if steps[0].name@ == name {
        Some(steps[0])
    } else {
        step_named(steps.drop_first(), name)
    }
}

/// A step of a Job in front of its last one.
pub open spec fn step_of(job: Job, name: Seq<char>) -> Option<Container> {
    step_named(seq_or_empty(job_pod(job).init_containers), name)
}

/// Which steps a restore has, and that nothing else stands among them.
pub proof fn lemma_steps(
    job: Job,
    instance: &OdooInstance,
    restore: &OdooRestoreJob,
    defaults: &OperatorDefaults,
    inputs: &RestoreInputs,
    scripts: &Scripts,
)
    requires
        is_restore_job(job, instance, restore, defaults, inputs, scripts),
    ensures
        ({
            let steps = seq_or_empty(job_pod(job).init_containers);
            &&& if has_download(restore.spec.source) {
                step_of(job, "download"@) == Some(steps[0]) && is_download(
                    steps[0],
                    restore.spec.source,
                    restore.spec.format,
                    inputs.credentials,
                    scripts,
                )
            } else {
                step_of(job, "download"@) is None
            }
            &&& if restore.spec.format == BackupFormat::Zip {
                step_of(job, "extract"@) matches Some(x) && is_extract(
                    x,
                    instance,
                    scripts.restore_extract@,
                )
            } else {
                step_of(job, "extract"@) is None
            }
            &&& step_of(job, "load-db"@) == Some(steps.last())
            &&& is_load_db(
                steps.last(),
                instance,
                restore.spec.format,
                inputs.pg_image@,
                scripts.restore_load_db@,
            )
        }),
{
    lemma_step_words();
    reveal_with_fuel(step_named, 4);
}

/// The steps of a restore agree on the format. An archive is asked for and extracted where the
/// backup is an archive; else an Odoo server is asked for a dump, and nothing is extracted. What
/// the download writes is what the next step reads: the extraction its input, or the loading the
/// dump of its format. All this happens in one scratch directory that the steps share.
pub proof fn law_restore_steps_fit_together(
    job: Job,
    instance: &OdooInstance,
    restore: &OdooRestoreJob,
    defaults: &OperatorDefaults,
    inputs: &RestoreInputs,
    scripts: &Scripts,
)
    requires
        call_ensures(build_restore_job, (instance, restore, defaults, inputs, scripts), job),
    ensures
        ({
            let pod = job_pod(job);
            let download = step_of(job, "download"@);
            let extract = step_of(job, "extract"@);
            let load = step_of(job, "load-db"@);
            let from_odoo = restore.spec.source.source_type == RestoreSourceType::Odoo;
            let steps = seq_or_empty(pod.init_containers);
            &&& extract is Some <==> restore.spec.format == BackupFormat::Zip
            &&& load is Some
            &&& steps.last() == load->0
            &&& download is Some ==> steps[0] == download->0
            &&& steps.len() == (if download is Some {
                1int
            } else {
                0
            }) + (if extract is Some {
                1int
            } else {
                0
            }) + 1
            &&& download matches Some(d) ==> {
                &&& from_odoo ==> value_of(d, "BACKUP_FORMAT"@) == Some(
                    if extract is Some {
                        "zip"@
                    } else {
                        "dump"@
                    },
                )
                &&& value_of(d, "OUTPUT_FILE"@) is Some
                &&& extract matches Some(x) ==> value_of(x, "INPUT_FILE"@) == value_of(
                    d,
                    "OUTPUT_FILE"@,
                )
                &&& extract is None ==> value_of(d, "OUTPUT_FILE"@)->0 == "/workspace/dump."@
                    + value_of(load->0, "BACKUP_FORMAT"@)->0
                &&& scratch_at(pod, d, "/workspace"@)
                &&& writable_at(pod, d, "/workspace"@)
                &&& volume_at(pod, d, "/workspace"@) == volume_at(pod, load->0, "/workspace"@)
            }
            &&& extract matches Some(x) ==> volume_at(pod, x, "/workspace"@) == volume_at(
                pod,
                load->0,
                "/workspace"@,
            ) && writable_at(pod, x, "/workspace"@)
            &&& scratch_at(pod, load->0, "/workspace"@)
            &&& extract is Some <==> value_of(load->0, "BACKUP_FORMAT"@) == Some("zip"@)
            &&& restore.spec.format == BackupFormat::Sql <==> value_of(load->0, "BACKUP_FORMAT"@)
                == Some("sql"@)
            &&& restore.spec.format == BackupFormat::Dump <==> value_of(load->0, "BACKUP_FORMAT"@)
                == Some("dump"@)
        }),
{
    let pod = job_pod(job);
    lemma_steps(job, instance, restore, defaults, inputs, scripts);
    lemma_download_words();
    lemma_connection_words();
    lemma_format_words();
    lemma_path_words();
    lemma_volume_words();
    reveal_with_fuel(mount_at, 3);
    reveal_with_fuel(volume_named, 3);
    let load = step_of(job, "load-db"@)->0;
    lemma_variable(env_of(load), 5, "BACKUP_FORMAT"@);
    if step_of(job, "extract"@) is Some {
        let x = step_of(job, "extract"@)->0;
        lemma_variable(env_of(x), 1, "INPUT_FILE"@);
    }
    if step_of(job, "download"@) is Some {
        let d = step_of(job, "download"@)->0;
        if restore.spec.source.source_type == RestoreSourceType::Odoo {
            lemma_variable(env_of(d), 3, "BACKUP_FORMAT"@);
            lemma_variable(env_of(d), 4, "OUTPUT_FILE"@);
        } else {
            lemma_variable(env_of(d), 4, "OUTPUT_FILE"@);
        }
    }
    reveal_strlit("/workspace/dump.");
    reveal_strlit("/workspace/dump.dump");
    reveal_strlit("/workspace/dump.sql");
    reveal_strlit("dump");
    reveal_strlit("sql");
    assert("/workspace/dump."@ + "dump"@ =~= "/workspace/dump.dump"@);
    assert("/workspace/dump."@ + "sql"@ =~= "/workspace/dump.sql"@);
}

/// The download asks for what the restore names: the object in its bucket, or the database of the
/// server, with the credentials that go with it. Each kind of source is read by its own script.
pub proof fn law_download_asks_for_the_source(
    job: Job,
    instance: &OdooInstance,
    restore: &OdooRestoreJob,
    defaults: &OperatorDefaults,
    inputs: &RestoreInputs,
    scripts: &Scripts,
)
    requires
        call_ensures(build_restore_job, (instance, restore, defaults, inputs, scripts), job),
    ensures
        ({
            let source = restore.spec.source;
            let download = step_of(job, "download"@);
            &&& download is Some <==> match source.source_type {
                RestoreSourceType::S3 => source.s3 is Some,
                RestoreSourceType::Odoo => source.odoo is Some,
            }
            &&& (download matches Some(d) && source.source_type == RestoreSourceType::S3) ==> {
                let d = download->0;
                let s3 = source.s3->0;
                &&& script_of(d) == Some(scripts.s3_download@)
                &&& program_of(d) == Some("/bin/sh"@)
                &&& value_of(d, "MC_CONFIG_DIR"@) == Some("/tmp/.mc"@)
                &&& value_of(d, "S3_BUCKET"@) == Some(s3.bucket@)
                &&& value_of(d, "S3_KEY"@) == Some(s3.object_key@)
                &&& value_of(d, "S3_ENDPOINT"@) == Some(s3.endpoint@)
                &&& value_of(d, "S3_INSECURE"@) == Some(
                    if s3.insecure {
                        "true"@
                    } else {
                        "false"@
                    },
                )
                &&& variable(env_of(d), "AWS_ACCESS_KEY_ID"@) is Some <==> (
                s3.s3_credentials_secret_ref is Some && inputs.credentials is Some)
                &&& variable(env_of(d), "AWS_SECRET_ACCESS_KEY"@) is Some <==> (
                s3.s3_credentials_secret_ref is Some && inputs.credentials is Some)
                &&& variable(env_of(d), "AWS_ACCESS_KEY_ID"@) is Some ==> value_of(
                    d,
                    "AWS_ACCESS_KEY_ID"@,
                ) == Some((inputs.credentials->0).0@)
                &&& variable(env_of(d), "AWS_SECRET_ACCESS_KEY"@) is Some ==> value_of(
                    d,
                    "AWS_SECRET_ACCESS_KEY"@,
                ) == Some((inputs.credentials->0).1@)
            }
            &&& (download matches Some(d) && source.source_type == RestoreSourceType::Odoo) ==> {
                let d = download->0;
                let odoo = source.odoo->0;
                &&& script_of(d) == Some(scripts.odoo_download@)
                &&& program_of(d) == Some("/bin/sh"@)
                &&& odoo.source_database is None ==> value_of(d, "SOURCE_DB"@) == Some(
                    Seq::<char>::empty(),
                )
                &&& odoo.master_password is None ==> value_of(d, "MASTER_PASSWORD"@) == Some(
                    Seq::<char>::empty(),
                )
                &&& value_of(d, "ODOO_URL"@) == Some(odoo.url@)
                &&& odoo.source_database matches Some(db) ==> value_of(d, "SOURCE_DB"@) == Some(db@)
                &&& odoo.master_password matches Some(p) ==> value_of(d, "MASTER_PASSWORD"@)
                    == Some(p@)
            }
        }),
{
    lemma_steps(job, instance, restore, defaults, inputs, scripts);
    lemma_download_words();
    reveal_strlit("/bin/sh");
    assert("/bin/sh"@.len() == 7);
    if step_of(job, "download"@) is Some {
        let d = step_of(job, "download"@)->0;
        let e = env_of(d);
        if restore.spec.source.source_type == RestoreSourceType::Odoo {
            lemma_script(d, "/bin/sh"@, scripts.odoo_download@);
            lemma_variable(e, 0, "ODOO_URL"@);
            lemma_variable(e, 1, "SOURCE_DB"@);
            lemma_variable(e, 2, "MASTER_PASSWORD"@);
        } else {
            lemma_script(d, "/bin/sh"@, scripts.s3_download@);
            lemma_variable(e, 0, "S3_BUCKET"@);
            lemma_variable(e, 1, "S3_KEY"@);
            lemma_variable(e, 2, "S3_ENDPOINT"@);
            lemma_variable(e, 3, "S3_INSECURE"@);
            lemma_variable(e, 5, "MC_CONFIG_DIR"@);
            if e.len() == 8 {
                lemma_variable(e, 6, "AWS_ACCESS_KEY_ID"@);
                lemma_variable(e, 7, "AWS_SECRET_ACCESS_KEY"@);
            } else {
                lemma_unnamed(e, "AWS_ACCESS_KEY_ID"@);
                lemma_unnamed(e, "AWS_SECRET_ACCESS_KEY"@);
            }
        }
    }
}

/// The credentials that are read before a restore are those that its download is handed: they are
/// looked for only where the source names a secret, in the namespace that it names, else in that
/// of the instance. All pods are down meanwhile.
pub proof fn law_restore_reads_its_credentials(
    restoring: &Restoring,
    plan: RestorePlan,
    job: Job,
    instance: &OdooInstance,
    snapshot: &ReconcileSnapshot,
    restore: &OdooRestoreJob,
    defaults: &OperatorDefaults,
    inputs: &RestoreInputs,
    scripts: &Scripts,
)
    requires
        call_ensures(Restoring::ensure, (restoring, instance, snapshot), plan),
        snapshot.active_restore_job == Some(*restore),
        plan.start,
        call_ensures(build_restore_job, (instance, restore, defaults, inputs, scripts), job),
        inputs.credentials is Some == plan.credentials is Some,
    ensures
        restore.status matches Some(s) ==> s.job_name is None,
        plan.credentials is Some ==> restore.spec.source.source_type == RestoreSourceType::S3,
        plan.credentials is Some && step_of(job, "download"@) is Some ==> {
            let d = step_of(job, "download"@)->0;
            let secret = restore.spec.source.s3->0.s3_credentials_secret_ref->0;
            &&& value_of(d, "AWS_ACCESS_KEY_ID"@) == Some((inputs.credentials->0).0@)
            &&& value_of(d, "AWS_SECRET_ACCESS_KEY"@) == Some((inputs.credentials->0).1@)
            &&& opt_text(secret.namespace) is Some ==> opt_text(secret.namespace) == Some(
                (plan.credentials->0).0@,
            )
            &&& secret.namespace is None ==> (plan.credentials->0).0@ == instance.namespace()
            &&& opt_text(secret.name) is Some ==> opt_text(secret.name) == Some(
                (plan.credentials->0).1@,
            )
        },
        plan.credentials is None && step_of(job, "download"@) is Some
            && restore.spec.source.source_type == RestoreSourceType::S3 ==> variable(
            env_of(step_of(job, "download"@)->0),
            "AWS_ACCESS_KEY_ID"@,
        ) is None,
        texts(plan.scale_down@).contains(instance.name()),
        texts(plan.scale_down@).contains(cron_name(instance)),
{
    law_download_asks_for_the_source(job, instance, restore, defaults, inputs, scripts);
    assert(texts(plan.scale_down@)[0] == instance.name());
    assert(texts(plan.scale_down@)[1] == cron_name(instance));
}

/// What is restored is what the instance uses. The database is loaded under the name that the web
/// pods open, through the configuration of the instance, and the files are extracted into the
/// claim that the pods mount, under the path at which they do, for that database. An ephemeral
/// instance has no claim, and its files go to scratch.
pub proof fn law_restore_fills_the_instance(
    job: Job,
    instance: &OdooInstance,
    restore: &OdooRestoreJob,
    defaults: &OperatorDefaults,
    inputs: &RestoreInputs,
    scripts: &Scripts,
    web: Deployment,
    map: ConfigMap,
    claim: PersistentVolumeClaim,
    pg: &PostgresClusterConfig,
    password: Seq<char>,
)
    requires
        call_ensures(build_restore_job, (instance, restore, defaults, inputs, scripts), job),
        is_web_of(web, instance, defaults),
        is_map_of(map, instance, pg, password),
        !instance.ephemeral() ==> is_claim_of(claim, instance, defaults),
        is_unnamed(instance.spec.extra_env@, "PGDATABASE"@),
    ensures
        ({
            let pod = job_pod(job);
            let extract = step_of(job, "extract"@);
            let load = step_of(job, "load-db"@)->0;
            &&& value_of(load, "DB_NAME"@) == value_of(pod_container(web), "PGDATABASE"@)
            &&& value_from_map(load, "HOST"@, map) == Some(pg.host@)
            &&& value_from_map(load, "PORT"@, map) == Some(map.data@["db_port"@])
            &&& value_from_map(load, "USER"@, map) == Some(map.data@["db_user"@])
            &&& value_from_map(load, "PASSWORD"@, map) == Some(password)
            &&& script_of(load) == Some(scripts.restore_load_db@)
            &&& program_of(load) == Some("/bin/sh"@)
            &&& opt_text(load.image) == Some(inputs.pg_image@)
            &&& extract matches Some(x) ==> {
                &&& value_of(x, "DB_NAME"@) == value_of(pod_container(web), "PGDATABASE"@)
                &&& script_of(x) == Some(scripts.restore_extract@)
                &&& program_of(x) == Some("/bin/sh"@)
                &&& !instance.ephemeral() ==> claim_at(pod, x, "/var/lib/odoo"@) == opt_text(
                    claim.metadata.name,
                )
                &&& instance.ephemeral() ==> scratch_at(pod, x, "/var/lib/odoo"@)
                &&& writable_at(pod, x, "/var/lib/odoo"@)
            }
        }),
{
    let pod = job_pod(job);
    lemma_steps(job, instance, restore, defaults, inputs, scripts);
    lemma_connection_words();
    lemma_path_words();
    lemma_volume_words();
    lemma_web(web, instance, defaults);
    lemma_web_database(pod_container(web), instance.name(), instance, defaults);
    lemma_map(map, instance, pg, password);
    if !instance.ephemeral() {
        lemma_claim(claim, instance, defaults);
    }
    reveal_with_fuel(mount_at, 3);
    reveal_with_fuel(volume_named, 3);
    reveal_strlit("/bin/sh");
    assert("/bin/sh"@.len() == 7);
    let load = step_of(job, "load-db"@)->0;
    lemma_script(load, "/bin/sh"@, scripts.restore_load_db@);
    lemma_from_map(load, 0, "HOST"@, map, "db_host"@);
    lemma_from_map(load, 1, "PORT"@, map, "db_port"@);
    lemma_from_map(load, 2, "USER"@, map, "db_user"@);
    lemma_from_map(load, 3, "PASSWORD"@, map, "db_password"@);
    lemma_variable(env_of(load), 4, "DB_NAME"@);
    if step_of(job, "extract"@) is Some {
        let x = step_of(job, "extract"@)->0;
        lemma_script(x, "/bin/sh"@, scripts.restore_extract@);
        lemma_variable(env_of(x), 0, "DB_NAME"@);
    }
}

/// A restored database is neutralized exactly where that is asked for, as the last thing, in the
/// database that was loaded, with the image that the pods run where the instance or the operator
/// names one, and with the settings for mail. Where it is not asked for, the last container does
/// nothing.
pub proof fn law_restore_neutralizes_on_request(
    job: Job,
    instance: &OdooInstance,
    restore: &OdooRestoreJob,
    defaults: &OperatorDefaults,
    inputs: &RestoreInputs,
    scripts: &Scripts,
    web: Deployment,
    map: ConfigMap,
    pg: &PostgresClusterConfig,
    password: Seq<char>,
)
    requires
        call_ensures(build_restore_job, (instance, restore, defaults, inputs, scripts), job),
        is_web_of(web, instance, defaults),
        is_map_of(map, instance, pg, password),
        forall|name: Seq<char>|
            name == "DB_NAME"@ || name == "HOST"@ || name == "PORT"@ || name == "USER"@ || name
                == "PASSWORD"@ ==> #[trigger] is_unnamed(instance.spec.extra_env@, name)
                && is_unnamed(inputs.mail_env@, name),
    ensures
        ({
            let c = job_pod(job).containers@[0];
            let load = step_of(job, "load-db"@)->0;
            let mail_env = inputs.mail_env@;
            &&& job_pod(job).containers@.len() == 1
            &&& restore.spec.neutralize ==> {
                &&& script_of(c) == Some(scripts.restore_neutralize@)
                &&& program_of(c) == Some("/bin/sh"@)
                &&& value_of(c, "DB_NAME"@) is Some
                &&& value_of(c, "DB_NAME"@) == value_of(load, "DB_NAME"@)
                &&& value_from_map(c, "HOST"@, map) == Some(pg.host@)
                &&& value_from_map(c, "PORT"@, map) == Some(map.data@["db_port"@])
                &&& value_from_map(c, "USER"@, map) == Some(map.data@["db_user"@])
                &&& value_from_map(c, "PASSWORD"@, map) == Some(password)
                &&& instance.spec.image is Some || defaults.odoo_image@.len() > 0 ==> opt_text(
                    c.image,
                ) == opt_text(pod_container(web).image)
                &&& forall|i: int|
                    0 <= i < mail_env.len() && is_unnamed(
                        instance.spec.extra_env@,
                        (#[trigger] mail_env[i]).name@,
                    ) && (forall|j: int|
                        i < j < mail_env.len() ==> (#[trigger] mail_env[j]).name@
                            != mail_env[i].name@) ==> variable(env_of(c), mail_env[i].name@)
                        == Some(mail_env[i])
            }
            &&& !restore.spec.neutralize ==> {
                &&& texts(seq_or_empty(c.command)) == seq!["/bin/true"@]
                &&& c.args is None
                &&& env_of(c).len() == 0
            }
        }),
{
    let c = job_pod(job).containers@[0];
    lemma_steps(job, instance, restore, defaults, inputs, scripts);
    lemma_connection_words();
    lemma_web(web, instance, defaults);
    lemma_map(map, instance, pg, password);
    let load = step_of(job, "load-db"@)->0;
    lemma_variable(env_of(load), 4, "DB_NAME"@);
    if restore.spec.neutralize {
        let mail_env = inputs.mail_env@;
        let base = choose|base: Container|
            {
                &&& #[trigger] is_neutralize(
                    base,
                    instance,
                    defaults,
                    inputs.mail_env@,
                    scripts.restore_neutralize@,
                )
                &&& has_extra_env(c, base, instance)
            };
        let e = env_of(base);
        reveal_strlit("/bin/sh");
        assert("/bin/sh"@.len() == 7);
        lemma_script(c, "/bin/sh"@, scripts.restore_neutralize@);
        assert(is_unnamed(instance.spec.extra_env@, "DB_NAME"@));
        assert(is_unnamed(instance.spec.extra_env@, "HOST"@));
        assert(is_unnamed(instance.spec.extra_env@, "PORT"@));
        assert(is_unnamed(instance.spec.extra_env@, "USER"@));
        assert(is_unnamed(instance.spec.extra_env@, "PASSWORD"@));
        assert forall|j: int| 5 <= j < e.len() implies #[trigger] e[j] == mail_env[j - 5] by {
            assert(e.skip(5)[j - 5] == e[j]);
        }
        lemma_extra_env_keeps(c, base, instance, "DB_NAME"@);
        lemma_extra_env_keeps(c, base, instance, "HOST"@);
        lemma_extra_env_keeps(c, base, instance, "PORT"@);
        lemma_extra_env_keeps(c, base, instance, "USER"@);
        lemma_extra_env_keeps(c, base, instance, "PASSWORD"@);
        lemma_from_map(base, 0, "HOST"@, map, "db_host"@);
        lemma_from_map(base, 1, "PORT"@, map, "db_port"@);
        lemma_from_map(base, 2, "USER"@, map, "db_user"@);
        lemma_from_map(base, 3, "PASSWORD"@, map, "db_password"@);
        lemma_variable(e, 4, "DB_NAME"@);
        assert forall|i: int|
            0 <= i < mail_env.len() && is_unnamed(
                instance.spec.extra_env@,
                (#[trigger] mail_env[i]).name@,
            ) && (forall|j: int|
                i < j < mail_env.len() ==> (#[trigger] mail_env[j]).name@ != mail_env[i].name@)
            implies variable(env_of(c), mail_env[i].name@) == Some(mail_env[i]) by {
            lemma_extra_env_keeps(c, base, instance, mail_env[i].name@);
            assert(e[i + 5] == mail_env[i]);
            lemma_variable(e, i + 5, mail_env[i].name@);
        }
    }
}

} // verus!
