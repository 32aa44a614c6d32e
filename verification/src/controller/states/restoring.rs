//! The restore of an instance from a backup.

use vstd::prelude::*;

use crate::controller::helpers::{
    apply_extra_env, cm_env, conf_name, env, filestore_volume, has_extra_env, is_cm_env,
    is_env, is_filestore_claim, is_instance_job, is_mount, is_scratch, job_pod, mount,
    odoo_conf_name, runs_script, scratch_volume, script_command, OdooJobBuilder, Scripts,
};
use crate::controller::snapshot::{record_job, ReconcileSnapshot};
use crate::controller::states::upgrading::{job_image, job_image_of};
use crate::controller::states::{all_deployments, both_deployments, State};
use crate::crd::metadata::{or_empty, text_or_empty};
use crate::crd::odoo_instance::{EnvVar, OdooInstance, OdooInstancePhase};
use crate::crd::odoo_restore_job::{
    OdooRestoreJob, OdooSource, RestoreSource, RestoreSourceType, S3Source,
};
use crate::crd::shared::BackupFormat;
use crate::helpers::{database_name, db_name, OperatorDefaults};
use crate::objects::{Container, Job, SecurityContext, Volume, VolumeMount};
use crate::text::{join2, opt_text, texts};

verus! {

broadcast use vstd::seq_lib::group_seq_properties;

/// A backup is being restored. The pods are down.
#[derive(Debug)]
pub struct Restoring;

impl State for Restoring {
    open spec fn handled(&self) -> OdooInstancePhase {
        OdooInstancePhase::Restoring
    }

    fn phase(&self) -> (r: OdooInstancePhase) {
        OdooInstancePhase::Restoring
    }
}

/// What is ensured while an instance is restored.
#[derive(Debug)]
pub struct RestorePlan {
    /// The Deployments that are scaled to zero.
    pub scale_down: Vec<String>,
    /// Whether the Job is to be created.
    pub start: bool,
    /// The secret with the credentials of the object store that the Job reads from, its
    /// namespace and its name.
    pub credentials: Option<(String, String)>,
}

/// The namespace and the name of the secret with the credentials of the object store.
pub open spec fn credentials_secret(restore: &OdooRestoreJob, namespace: Seq<char>) -> Option<
    (Seq<char>, Seq<char>),
> {
    match (restore.spec.source.source_type, restore.spec.source.s3) {
        (RestoreSourceType::S3, Some(s3)) => match s3.s3_credentials_secret_ref {
            Some(secret) => Some(
                (
                    match secret.namespace {
                        Some(ns) => ns@,
                        None => namespace,
                    },
                    text_or_empty(secret.name),
                ),
            ),
            None => None,
        },
        _ => None,
    }
}

fn credentials_secret_of(restore: &OdooRestoreJob, namespace: &String) -> (r: Option<
    (String, String),
>)
    ensures
        match credentials_secret(restore, namespace@) {
            Some(secret) => r matches Some(s) && s.0@ == secret.0 && s.1@ == secret.1,
            None => r is None,
        },
{
    match restore.spec.source.source_type {
        RestoreSourceType::S3 => match &restore.spec.source.s3 {
            Some(s3) => match &s3.s3_credentials_secret_ref {
                Some(secret) => {
                    let ns = match &secret.namespace {
                        Some(ns) => ns.clone(),
                        None => namespace.clone(),
                    };
                    Some((ns, or_empty(&secret.name)))
                },
                None => None,
            },
            None => None,
        },
        RestoreSourceType::Odoo => None,
    }
}

/// Whether `r` is what is ensured while the instance is restored.
pub open spec fn is_restore_plan(
    r: RestorePlan,
    instance: &OdooInstance,
    snapshot: &ReconcileSnapshot,
) -> bool {
    &&& texts(r.scale_down@) == all_deployments(instance)
    &&& r.start == (snapshot.active_restore_job matches Some(job) && record_job(job.status) is None)
    &&& match snapshot.active_restore_job {
        Some(restore) => match credentials_secret(&restore, instance.namespace()) {
            Some(secret) => if r.start {
                r.credentials matches Some(s) && s.0@ == secret.0 && s.1@ == secret.1
            } else {
                r.credentials is None
            },
            None => r.credentials is None,
        },
        None => r.credentials is None,
    }
}

impl Restoring {
    /// All pods are down, and the Job runs. A Job that the resource names already is not created
    /// again.
    pub fn ensure(&self, instance: &OdooInstance, snapshot: &ReconcileSnapshot) -> (r: RestorePlan)
        ensures
            is_restore_plan(r, instance, snapshot),
    {
        let scale_down = both_deployments(instance);
        let namespace = instance.metadata.namespace_or_empty();
        match &snapshot.active_restore_job {
            Some(restore) => {
                let started = match &restore.status {
                    Some(s) => s.job_name.is_some(),
                    None => false,
                };
                if started {
                    RestorePlan { scale_down, start: false, credentials: None }
                } else {
                    let credentials = credentials_secret_of(restore, &namespace);
                    RestorePlan { scale_down, start: true, credentials }
                }
            },
            None => RestorePlan { scale_down, start: false, credentials: None },
        }
    }
}

// ── Download ────────────────────────────────────────────────────────────────

/// The name of a format, as the scripts know it.
pub open spec fn format_text(format: BackupFormat) -> Seq<char> {
    match format {
        BackupFormat::Dump => "dump"@,
        BackupFormat::Sql => "sql"@,
        BackupFormat::Zip => "zip"@,
    }
}

fn format_name(format: BackupFormat) -> (r: &'static str)
    ensures
        r@ == format_text(format),
{
    match format {
        BackupFormat::Dump => "dump",
        BackupFormat::Sql => "sql",
        BackupFormat::Zip => "zip",
    }
}

/// Where the download is written: an archive to be extracted, or the file that is loaded.
pub open spec fn output_file(format: BackupFormat) -> Seq<char> {
    match format {
        BackupFormat::Dump => "/workspace/dump.dump"@,
        BackupFormat::Sql => "/workspace/dump.sql"@,
        BackupFormat::Zip => "/workspace/artifact"@,
    }
}

fn output_file_of(format: BackupFormat) -> (r: &'static str)
    ensures
        r@ == output_file(format),
{
    match format {
        BackupFormat::Dump => "/workspace/dump.dump",
        BackupFormat::Sql => "/workspace/dump.sql",
        BackupFormat::Zip => "/workspace/artifact",
    }
}

/// The format that an Odoo server is asked for. It delivers archives and dumps only.
pub open spec fn requested_format(format: BackupFormat) -> Seq<char> {
    if format == BackupFormat::Zip {
        "zip"@
    } else {
        "dump"@
    }
}

/// Whether the container sees the workspace and nothing else.
pub open spec fn sees_workspace(c: Container) -> bool {
    &&& c.volume_mounts matches Some(mounts)
    &&& mounts@.len() == 1
    &&& is_mount(mounts@[0], "workspace"@, "/workspace"@)
}

/// Whether nothing is set beside name, image, command, environment, mounts and privileges.
pub open spec fn is_plain_step(c: Container) -> bool {
    &&& c.image_pull_policy is None
    &&& c.args is None
    &&& c.ports is None
    &&& c.env_from is None
    &&& c.resources is None
    &&& c.startup_probe is None
    &&& c.liveness_probe is None
    &&& c.readiness_probe is None
}

/// Whether `c` downloads an artifact from an object store.
pub open spec fn is_s3_download(
    c: Container,
    s3: S3Source,
    format: BackupFormat,
    credentials: Option<(String, String)>,
    script: Seq<char>,
) -> bool {
    &&& is_plain_step(c)
    &&& c.security_context is None
    &&& c.name@ == "download"@
    &&& opt_text(c.image) == Some("quay.io/minio/mc:latest"@)
    &&& runs_script(c, "/bin/sh"@, script)
    &&& sees_workspace(c)
    &&& c.env matches Some(e)
    &&& is_env(e@[0], "S3_BUCKET"@, s3.bucket@)
    &&& is_env(e@[1], "S3_KEY"@, s3.object_key@)
    &&& is_env(e@[2], "S3_ENDPOINT"@, s3.endpoint@)
    &&& is_env(
        e@[3],
        "S3_INSECURE"@,
        if s3.insecure {
            "true"@
        } else {
            "false"@
        },
    )
    &&& is_env(e@[4], "OUTPUT_FILE"@, output_file(format))
    &&& is_env(e@[5], "MC_CONFIG_DIR"@, "/tmp/.mc"@)
    &&& match (s3.s3_credentials_secret_ref, credentials) {
        (Some(_), Some(keys)) => {
            &&& e@.len() == 8
            &&& is_env(e@[6], "AWS_ACCESS_KEY_ID"@, keys.0@)
            &&& is_env(e@[7], "AWS_SECRET_ACCESS_KEY"@, keys.1@)
        },
        _ => e@.len() == 6,
    }
}

fn workspace_mounts() -> (r: Option<Vec<VolumeMount>>)
    ensures
        r matches Some(mounts) && mounts@.len() == 1 && is_mount(
            mounts@[0],
            "workspace"@,
            "/workspace"@,
        ),
{
    Some(vec![mount("workspace", "/workspace")])
}

fn s3_download(
    s3: &S3Source,
    format: BackupFormat,
    credentials: &Option<(String, String)>,
    script: &String,
) -> (r: Container)
    ensures
        is_s3_download(r, *s3, format, *credentials, script@),
{
    let insecure = if s3.insecure {
        "true"
    } else {
        "false"
    };
    let mut variables = vec![
        env("S3_BUCKET", s3.bucket.clone()),
        env("S3_KEY", s3.object_key.clone()),
        env("S3_ENDPOINT", s3.endpoint.clone()),
        env("S3_INSECURE", insecure),
        env("OUTPUT_FILE", output_file_of(format)),
        env("MC_CONFIG_DIR", "/tmp/.mc"),
    ];
    if s3.s3_credentials_secret_ref.is_some() {
        if let Some(keys) = credentials {
            variables.push(env("AWS_ACCESS_KEY_ID", keys.0.clone()));
            variables.push(env("AWS_SECRET_ACCESS_KEY", keys.1.clone()));
        }
    }
    let mut c = Container::default();
    c.name = "download".to_owned();
    c.image = Some("quay.io/minio/mc:latest".to_owned());
    c.command = script_command("/bin/sh", script.as_str());
    c.env = Some(variables);
    c.volume_mounts = workspace_mounts();
    c
}

/// Whether `c` downloads a backup from a running Odoo server.
pub open spec fn is_odoo_download(
    c: Container,
    source: OdooSource,
    format: BackupFormat,
    script: Seq<char>,
) -> bool {
    &&& is_plain_step(c)
    &&& c.security_context is None
    &&& c.name@ == "download"@
    &&& opt_text(c.image) == Some("curlimages/curl:latest"@)
    &&& runs_script(c, "/bin/sh"@, script)
    &&& sees_workspace(c)
    &&& c.env matches Some(e)
    &&& e@.len() == 5
    &&& is_env(e@[0], "ODOO_URL"@, source.url@)
    &&& is_env(e@[1], "SOURCE_DB"@, text_or_empty(source.source_database))
    &&& is_env(e@[2], "MASTER_PASSWORD"@, text_or_empty(source.master_password))
    &&& is_env(e@[3], "BACKUP_FORMAT"@, requested_format(format))
    &&& is_env(e@[4], "OUTPUT_FILE"@, output_file(format))
}

fn odoo_download(source: &OdooSource, format: BackupFormat, script: &String) -> (r: Container)
    ensures
        is_odoo_download(r, *source, format, script@),
{
    let requested = if format == BackupFormat::Zip {
        "zip"
    } else {
        "dump"
    };
    let variables = vec![
        env("ODOO_URL", source.url.clone()),
        env("SOURCE_DB", or_empty(&source.source_database)),
        env("MASTER_PASSWORD", or_empty(&source.master_password)),
        env("BACKUP_FORMAT", requested),
        env("OUTPUT_FILE", output_file_of(format)),
    ];
    let mut c = Container::default();
    c.name = "download".to_owned();
    c.image = Some("curlimages/curl:latest".to_owned());
    c.command = script_command("/bin/sh", script.as_str());
    c.env = Some(variables);
    c.volume_mounts = workspace_mounts();
    c
}

/// Whether the source says where to download from.
pub open spec fn has_download(source: RestoreSource) -> bool {
    match source.source_type {
        RestoreSourceType::S3 => source.s3 is Some,
        RestoreSourceType::Odoo => source.odoo is Some,
    }
}

/// Whether `c` downloads from the source.
pub open spec fn is_download(
    c: Container,
    source: RestoreSource,
    format: BackupFormat,
    credentials: Option<(String, String)>,
    scripts: &Scripts,
) -> bool {
    match source.source_type {
        RestoreSourceType::S3 => is_s3_download(
            c,
            source.s3->0,
            format,
            credentials,
            scripts.s3_download@,
        ),
        RestoreSourceType::Odoo => is_odoo_download(
            c,
            source.odoo->0,
            format,
            scripts.odoo_download@,
        ),
    }
}

fn download(
    source: &RestoreSource,
    format: BackupFormat,
    credentials: &Option<(String, String)>,
    scripts: &Scripts,
) -> (r: Option<Container>)
    ensures
        r is Some == has_download(*source),
        r matches Some(c) ==> is_download(c, *source, format, *credentials, scripts),
{
    match source.source_type {
        RestoreSourceType::S3 => match &source.s3 {
            Some(s3) => Some(s3_download(s3, format, credentials, &scripts.s3_download)),
            None => None,
        },
        RestoreSourceType::Odoo => match &source.odoo {
            Some(odoo) => Some(odoo_download(odoo, format, &scripts.odoo_download)),
            None => None,
        },
    }
}

// ── Extract, load, neutralize ───────────────────────────────────────────────

/// Whether `c` extracts an archive. It installs its tools, and so runs as root.
pub open spec fn is_extract(c: Container, instance: &OdooInstance, script: Seq<char>) -> bool {
    &&& is_plain_step(c)
    &&& c.security_context == Some(SecurityContext { run_as_user: Some(0) })
    &&& c.name@ == "extract"@
    &&& opt_text(c.image) == Some("alpine:latest"@)
    &&& runs_script(c, "/bin/sh"@, script)
    &&& c.env matches Some(e)
    &&& e@.len() == 2
    &&& is_env(e@[0], "DB_NAME"@, database_name(instance))
    &&& is_env(e@[1], "INPUT_FILE"@, "/workspace/artifact"@)
    &&& c.volume_mounts matches Some(mounts)
    &&& mounts@.len() == 2
    &&& is_mount(mounts@[0], "workspace"@, "/workspace"@)
    &&& is_mount(mounts@[1], "filestore"@, "/var/lib/odoo"@)
}

fn extract(instance: &OdooInstance, script: &String) -> (r: Container)
    ensures
        is_extract(r, instance, script@),
{
    let mut c = Container::default();
    c.name = "extract".to_owned();
    c.image = Some("alpine:latest".to_owned());
    c.command = script_command("/bin/sh", script.as_str());
    c.env = Some(
        vec![env("DB_NAME", db_name(instance)), env("INPUT_FILE", "/workspace/artifact")],
    );
    c.volume_mounts = Some(
        vec![mount("workspace", "/workspace"), mount("filestore", "/var/lib/odoo")],
    );
    c.security_context = Some(SecurityContext { run_as_user: Some(0) });
    c
}

/// Whether `env` begins with how the database of the instance is reached.
pub open spec fn has_connection_env(env: Seq<EnvVar>, instance: &OdooInstance) -> bool {
    let map = conf_name(instance.name());
    &&& env.len() >= 5
    &&& is_cm_env(env[0], "HOST"@, map, "db_host"@)
    &&& is_cm_env(env[1], "PORT"@, map, "db_port"@)
    &&& is_cm_env(env[2], "USER"@, map, "db_user"@)
    &&& is_cm_env(env[3], "PASSWORD"@, map, "db_password"@)
    &&& is_env(env[4], "DB_NAME"@, database_name(instance))
}

fn connection_env(instance: &OdooInstance) -> (r: Vec<EnvVar>)
    ensures
        r@.len() == 5,
        has_connection_env(r@, instance),
{
    let name = instance.metadata.name_any();
    let map = odoo_conf_name(name.as_str());
    vec![
        cm_env("HOST", map.as_str(), "db_host"),
        cm_env("PORT", map.as_str(), "db_port"),
        cm_env("USER", map.as_str(), "db_user"),
        cm_env("PASSWORD", map.as_str(), "db_password"),
        env("DB_NAME", db_name(instance)),
    ]
}

/// Whether `c` loads the database.
pub open spec fn is_load_db(
    c: Container,
    instance: &OdooInstance,
    format: BackupFormat,
    image: Seq<char>,
    script: Seq<char>,
) -> bool {
    &&& is_plain_step(c)
    &&& c.security_context is None
    &&& c.name@ == "load-db"@
    &&& opt_text(c.image) == Some(image)
    &&& runs_script(c, "/bin/sh"@, script)
    &&& sees_workspace(c)
    &&& c.env matches Some(e)
    &&& e@.len() == 6
    &&& has_connection_env(e@, instance)
    &&& is_env(e@[5], "BACKUP_FORMAT"@, format_text(format))
}

fn load_db(instance: &OdooInstance, format: BackupFormat, image: &str, script: &String) -> (r:
    Container)
    ensures
        is_load_db(r, instance, format, image@, script@),
{
    let mut variables = connection_env(instance);
    variables.push(env("BACKUP_FORMAT", format_name(format)));
    let mut c = Container::default();
    c.name = "load-db".to_owned();
    c.image = Some(image.to_owned());
    c.command = script_command("/bin/sh", script.as_str());
    c.env = Some(variables);
    c.volume_mounts = workspace_mounts();
    c
}

/// Whether `c` neutralizes the restored database, before the instance's environment is layered
/// on. `mail_env` tells it where a staging instance sends its mail.
pub open spec fn is_neutralize(
    c: Container,
    instance: &OdooInstance,
    defaults: &OperatorDefaults,
    mail_env: Seq<EnvVar>,
    script: Seq<char>,
) -> bool {
    &&& is_plain_step(c)
    &&& c.security_context is None
    &&& c.name@ == "neutralize"@
    &&& opt_text(c.image) == Some(job_image(instance, defaults))
    &&& runs_script(c, "/bin/sh"@, script)
    &&& c.volume_mounts is None
    &&& c.env matches Some(e)
    &&& e@.len() == 5 + mail_env.len()
    &&& has_connection_env(e@, instance)
    &&& e@.skip(5) == mail_env
}

fn neutralize(
    instance: &OdooInstance,
    defaults: &OperatorDefaults,
    mail_env: &Vec<EnvVar>,
    script: &String,
) -> (r: Container)
    ensures
        is_neutralize(r, instance, defaults, mail_env@, script@),
{
    let mut variables = connection_env(instance);
    let mut mail = mail_env.clone();
    proof {
        assert(mail@ =~= mail_env@);
    }
    variables.append(&mut mail);
    proof {
        assert(variables@.skip(5) =~= mail_env@);
    }
    let mut c = Container::default();
    c.name = "neutralize".to_owned();
    c.image = Some(job_image_of(instance, defaults));
    c.command = script_command("/bin/sh", script.as_str());
    c.env = Some(variables);
    c
}

/// Whether `c` does nothing.
pub open spec fn is_noop(c: Container) -> bool {
    &&& c.is_bare()
    &&& c.name@ == "noop"@
    &&& opt_text(c.image) == Some("alpine:latest"@)
    &&& c.command matches Some(command)
    &&& texts(command@) == seq!["/bin/true"@]
    &&& c.env is None
}

fn noop() -> (r: Container)
    ensures
        is_noop(r),
{
    let command = vec!["/bin/true".to_owned()];
    proof {
        assert(texts(command@) =~= seq!["/bin/true"@]);
    }
    let mut c = Container::default();
    c.name = "noop".to_owned();
    c.image = Some("alpine:latest".to_owned());
    c.command = Some(command);
    c
}

// ── The Job ─────────────────────────────────────────────────────────────────

/// What a restore needs from outside: the client image for the database server, the credentials
/// of the object store where they could be read, and where a staging instance sends its mail.
#[derive(Debug)]
pub struct RestoreInputs {
    pub pg_image: String,
    pub credentials: Option<(String, String)>,
    pub mail_env: Vec<EnvVar>,
}

/// Whether `steps` are the steps in front of the last one: download where the source says from
/// where, extract an archive, load the database.
pub open spec fn are_restore_steps(
    steps: Seq<Container>,
    instance: &OdooInstance,
    restore: &OdooRestoreJob,
    inputs: &RestoreInputs,
    scripts: &Scripts,
) -> bool {
    let format = restore.spec.format;
    let downloads: int = if has_download(restore.spec.source) {
        1
    } else {
        0
    };
    let extracts: int = if format == BackupFormat::Zip {
        1
    } else {
        0
    };
    &&& steps.len() == downloads + extracts + 1
    &&& downloads == 1 ==> is_download(
        steps[0],
        restore.spec.source,
        format,
        inputs.credentials,
        scripts,
    )
    &&& extracts == 1 ==> is_extract(steps[downloads], instance, scripts.restore_extract@)
    &&& is_load_db(
        steps.last(),
        instance,
        format,
        inputs.pg_image@,
        scripts.restore_load_db@,
    )
}

/// Whether `volumes` are the workspace and the filestore. The filestore of an ephemeral instance
/// is not restored: what is extracted goes to scratch.
pub open spec fn are_restore_volumes(volumes: Seq<Volume>, instance: &OdooInstance) -> bool {
    &&& volumes.len() == 2
    &&& is_scratch(volumes[0], "workspace"@)
    &&& if instance.ephemeral() {
        is_scratch(volumes[1], "filestore"@)
    } else {
        is_filestore_claim(volumes[1], instance.name(), Some(false))
    }
}

/// Whether `job` is the Job that restores an instance.
pub open spec fn is_restore_job(
    job: Job,
    instance: &OdooInstance,
    restore: &OdooRestoreJob,
    defaults: &OperatorDefaults,
    inputs: &RestoreInputs,
    scripts: &Scripts,
) -> bool {
    &&& is_instance_job(
        job,
        restore.metadata.any_name() + "-"@,
        instance.namespace(),
        restore,
        instance,
        0,
        3600,
    )
    &&& job_pod(job).volumes matches Some(volumes)
    &&& are_restore_volumes(volumes@, instance)
    &&& job_pod(job).init_containers matches Some(steps)
    &&& are_restore_steps(steps@, instance, restore, inputs, scripts)
    &&& job_pod(job).containers@.len() == 1
    &&& if restore.spec.neutralize {
        exists|base: Container|
            {
                &&& #[trigger] is_neutralize(
                    base,
                    instance,
                    defaults,
                    inputs.mail_env@,
                    scripts.restore_neutralize@,
                )
                &&& has_extra_env(job_pod(job).containers@[0], base, instance)
            }
    } else {
        is_noop(job_pod(job).containers@[0])
    }
}

/// The Job that restores an instance.
pub fn build_restore_job(
    instance: &OdooInstance,
    restore: &OdooRestoreJob,
    defaults: &OperatorDefaults,
    inputs: &RestoreInputs,
    scripts: &Scripts,
) -> (r: Job)
    ensures
        is_restore_job(r, instance, restore, defaults, inputs, scripts),
{
    let format = restore.spec.format;
    let mut steps: Vec<Container> = Vec::new();
    if let Some(c) = download(&restore.spec.source, format, &inputs.credentials, scripts) {
        steps.push(c);
    }
    if format == BackupFormat::Zip {
        steps.push(extract(instance, &scripts.restore_extract));
    }
    steps.push(
        load_db(instance, format, inputs.pg_image.as_str(), &scripts.restore_load_db),
    );
    let ghost steps_seq = steps@;
    proof {
        assert(are_restore_steps(steps@, instance, restore, inputs, scripts));
    }
    let ghost base: Container = arbitrary();
    let main = if restore.spec.neutralize {
        let bare = neutralize(instance, defaults, &inputs.mail_env, &scripts.restore_neutralize);
        proof {
            base = bare;
        }
        apply_extra_env(bare, instance)
    } else {
        noop()
    };
    let ghost main_container = main;
    let containers = vec![main];
    let name = instance.metadata.name_any();
    let filestore = if instance.is_ephemeral() {
        scratch_volume("filestore")
    } else {
        filestore_volume(name.as_str(), Some(false))
    };
    let volumes = vec![scratch_volume("workspace"), filestore];
    let ghost volumes_seq = volumes@;
    let resource = restore.metadata.name_any();
    let prefix = join2(resource.as_str(), "-");
    let namespace = instance.metadata.namespace_or_empty();
    let builder = OdooJobBuilder::new(prefix.as_str(), namespace.as_str(), restore, instance);
    let job = builder.active_deadline(3600).without_standard_volumes().extra_volumes(
        volumes,
    ).init_containers(steps).containers(containers).build();
    proof {
        assert(Seq::<Volume>::empty() + volumes_seq =~= volumes_seq);
        assert(are_restore_volumes(volumes_seq, instance));
        assert(job_pod(job).volumes->0@ =~= volumes_seq);
        assert(job_pod(job).containers@[0] == main_container);
        if restore.spec.neutralize {
            assert(is_neutralize(
                base,
                instance,
                defaults,
                inputs.mail_env@,
                scripts.restore_neutralize@,
            ));
        }
    }
    job
}

/// The event that tells of the Job.
pub open spec fn restore_note(job_name: Seq<char>) -> Seq<char> {
    "Created restore job "@ + job_name
}

/// The event that tells of the Job.
pub fn restore_started_note(job_name: &str) -> (r: String)
    ensures
        r@ == restore_note(job_name@),
{
    join2("Created restore job ", job_name)
}

} // verus!
