//! What the objects of an instance have in common: names, owner references, volumes,
//! environment variables, and the builder of its Jobs.

use vstd::prelude::*;

use crate::crd::metadata::{or_empty, text_or_empty, ObjectMeta, OwnerReference, Resource};
use crate::crd::odoo_instance::{EnvVar, EnvVarSource, KeySelector, OdooInstance};
use crate::objects::{
    ConfigMapVolumeSource, Container, EmptyDirVolumeSource, Job, JobSpec, LocalObjectReference,
    PersistentVolumeClaimVolumeSource, PodSecurityContext, PodSpec, PodTemplateSpec, Volume,
    VolumeMount,
};
use crate::string_map::StringMap;
use crate::text::{join2, same_text, texts};

verus! {

/// The name under which the operator applies its changes.
pub const FIELD_MANAGER: &'static str = "odoo-operator";

// ── Names and labels ────────────────────────────────────────────────────────

/// The name of the Deployment that runs scheduled actions.
pub open spec fn cron_name(instance: &OdooInstance) -> Seq<char> {
    instance.name() + "-cron"@
}

/// The name of the Deployment that runs scheduled actions.
pub fn cron_depl_name(instance: &OdooInstance) -> (r: String)
    ensures
        r@ == cron_name(instance),
{
    let name = instance.metadata.name_any();
    join2(name.as_str(), "-cron")
}

/// The name of the claim that holds the filestore of the instance `name`.
pub open spec fn claim_name(name: Seq<char>) -> Seq<char> {
    name + "-filestore-pvc"@
}

/// The name of the claim that holds the filestore of the instance `name`.
pub fn filestore_claim_name(name: &str) -> (r: String)
    ensures
        r@ == claim_name(name@),
{
    join2(name, "-filestore-pvc")
}

/// The name of the ConfigMap that holds `odoo.conf` of the instance `name`.
pub open spec fn conf_name(name: Seq<char>) -> Seq<char> {
    name + "-odoo-conf"@
}

/// The name of the ConfigMap that holds `odoo.conf` of the instance `name`.
pub fn odoo_conf_name(name: &str) -> (r: String)
    ensures
        r@ == conf_name(name@),
{
    join2(name, "-odoo-conf")
}

/// The labels by which network policies tell staging from production.
pub open spec fn labels_of(instance: &OdooInstance) -> Map<Seq<char>, Seq<char>> {
    Map::<Seq<char>, Seq<char>>::empty().insert(
        "bemade.org/environment"@,
        match instance.spec.environment {
            crate::crd::odoo_instance::Environment::Staging => "staging"@,
            crate::crd::odoo_instance::Environment::Production => "production"@,
        },
    )
}

/// The labels by which network policies tell staging from production.
pub fn instance_labels(instance: &OdooInstance) -> (r: StringMap)
    ensures
        r@ == labels_of(instance),
{
    let mut labels = StringMap::new();
    labels.insert(
        "bemade.org/environment".to_owned(),
        instance.spec.environment.as_label().to_owned(),
    );
    labels
}

// ── Owners ──────────────────────────────────────────────────────────────────

/// Whether `oref` makes `owner` the controller of an object.
pub open spec fn is_controller_ref<R: Resource>(oref: OwnerReference, owner: &R) -> bool {
    &&& oref.api_version@ == "bemade.org/v1alpha1"@
    &&& oref.kind@ == owner.kind_text()
    &&& oref.name@ == owner.metadata().any_name()
    &&& oref.uid@ == text_or_empty(owner.metadata().uid)
    &&& oref.controller == Some(true)
    &&& oref.block_owner_deletion == Some(true)
}

/// A reference that makes `owner` the controller of an object.
pub fn controller_owner_ref<R: Resource>(owner: &R) -> (r: OwnerReference)
    ensures
        is_controller_ref(r, owner),
{
    let meta = owner.meta();
    OwnerReference {
        api_version: "bemade.org/v1alpha1".to_owned(),
        kind: owner.kind().to_owned(),
        name: meta.name_any(),
        uid: or_empty(&meta.uid),
        controller: Some(true),
        block_owner_deletion: Some(true),
    }
}

// ── Pods ────────────────────────────────────────────────────────────────────

/// The user and groups that Odoo runs as.
pub fn odoo_security_context() -> (r: PodSecurityContext)
    ensures
        r == (PodSecurityContext {
            run_as_user: Some(100),
            run_as_group: Some(101),
            fs_group: Some(101),
        }),
{
    PodSecurityContext { run_as_user: Some(100), run_as_group: Some(101), fs_group: Some(101) }
}

/// Whether `v` is the claim on the filestore of the instance `name`.
pub open spec fn is_filestore_claim(v: Volume, name: Seq<char>, read_only: Option<bool>) -> bool {
    &&& v.name@ == "filestore"@
    &&& v.persistent_volume_claim matches Some(claim)
    &&& claim.claim_name@ == claim_name(name)
    &&& claim.read_only == read_only
    &&& v.config_map is None
    &&& v.empty_dir is None
}

/// Whether `v` is a scratch directory called `name`.
pub open spec fn is_scratch(v: Volume, name: Seq<char>) -> bool {
    &&& v.name@ == name
    &&& v.persistent_volume_claim is None
    &&& v.config_map is None
    &&& v.empty_dir is Some
}

/// Whether `v` is the configuration of the instance `name`.
pub open spec fn is_conf_volume(v: Volume, name: Seq<char>) -> bool {
    &&& v.name@ == "odoo-conf"@
    &&& v.persistent_volume_claim is None
    &&& v.config_map matches Some(map)
    &&& map.name@ == conf_name(name)
    &&& v.empty_dir is None
}

/// Whether `volumes` are the filestore and the configuration of the instance `name`, with
/// the filestore in a scratch directory where it is ephemeral.
pub open spec fn are_odoo_volumes(volumes: Seq<Volume>, name: Seq<char>, ephemeral: bool) -> bool {
    &&& volumes.len() == 2
    &&& if ephemeral {
        is_scratch(volumes[0], "filestore"@)
    } else {
        is_filestore_claim(volumes[0], name, None)
    }
    &&& is_conf_volume(volumes[1], name)
}

/// A scratch directory.
pub fn scratch_volume(name: &str) -> (r: Volume)
    ensures
        is_scratch(r, name@),
{
    Volume {
        name: name.to_owned(),
        persistent_volume_claim: None,
        config_map: None,
        empty_dir: Some(EmptyDirVolumeSource {  }),
    }
}

/// A claim on the filestore of the instance `name`.
pub fn filestore_volume(name: &str, read_only: Option<bool>) -> (r: Volume)
    ensures
        is_filestore_claim(r, name@, read_only),
{
    Volume {
        name: "filestore".to_owned(),
        persistent_volume_claim: Some(
            PersistentVolumeClaimVolumeSource { claim_name: filestore_claim_name(name), read_only },
        ),
        config_map: None,
        empty_dir: None,
    }
}

fn conf_volume(name: &str) -> (r: Volume)
    ensures
        is_conf_volume(r, name@),
{
    Volume {
        name: "odoo-conf".to_owned(),
        persistent_volume_claim: None,
        config_map: Some(ConfigMapVolumeSource { name: odoo_conf_name(name) }),
        empty_dir: None,
    }
}

/// The volumes of the instance `name` with a persistent filestore.
pub fn odoo_volumes(name: &str) -> (r: Vec<Volume>)
    ensures
        are_odoo_volumes(r@, name@, false),
{
    vec![filestore_volume(name, None), conf_volume(name)]
}

/// The volumes of the pods of the instance `name`.
pub fn pod_volumes(name: &str, ephemeral: bool) -> (r: Vec<Volume>)
    ensures
        are_odoo_volumes(r@, name@, ephemeral),
{
    if ephemeral {
        vec![scratch_volume("filestore"), conf_volume(name)]
    } else {
        odoo_volumes(name)
    }
}

/// Whether `m` mounts a volume, writable.
pub open spec fn is_mount(m: VolumeMount, name: Seq<char>, path: Seq<char>) -> bool {
    &&& m.name@ == name
    &&& m.mount_path@ == path
    &&& m.read_only is None
}

/// Mounts a volume.
pub fn mount(name: &str, path: &str) -> (r: VolumeMount)
    ensures
        is_mount(r, name@, path@),
{
    VolumeMount { name: name.to_owned(), mount_path: path.to_owned(), read_only: None }
}

/// Whether `mounts` are those of an Odoo container.
pub open spec fn are_odoo_mounts(mounts: Seq<VolumeMount>) -> bool {
    &&& mounts.len() == 2
    &&& is_mount(mounts[0], "filestore"@, "/var/lib/odoo"@)
    &&& is_mount(mounts[1], "odoo-conf"@, "/etc/odoo"@)
}

/// Where an Odoo container sees the volumes of its instance.
pub fn odoo_volume_mounts() -> (r: Vec<VolumeMount>)
    ensures
        are_odoo_mounts(r@),
{
    vec![mount("filestore", "/var/lib/odoo"), mount("odoo-conf", "/etc/odoo")]
}

/// The secret with which images are pulled, where one is configured.
pub open spec fn pull_secret(instance: &OdooInstance) -> Option<Seq<char>> {
    match instance.spec.image_pull_secret {
        Some(name) => if name@.len() > 0 {
            Some(name@)
        } else {
            None
        },
        None => None,
    }
}

/// Whether `secrets` names the secret of the instance, where it has one.
pub open spec fn are_pull_secrets(
    secrets: Option<Vec<LocalObjectReference>>,
    instance: &OdooInstance,
) -> bool {
    match pull_secret(instance) {
        Some(name) => secrets matches Some(list) && list@.len() == 1 && list@[0].name@ == name,
        None => secrets is None,
    }
}

/// The secrets with which the images of an instance are pulled.
pub fn image_pull_secrets(instance: &OdooInstance) -> (r: Option<Vec<LocalObjectReference>>)
    ensures
        are_pull_secrets(r, instance),
{
    match &instance.spec.image_pull_secret {
        Some(name) => {
            if name.as_str().is_empty() {
                None
            } else {
                Some(vec![LocalObjectReference { name: name.clone() }])
            }
        },
        None => None,
    }
}

// ── Environment variables ───────────────────────────────────────────────────

/// A string, borrowed or owned.
pub trait Text: Sized {
    /// The characters.
    spec fn chars(self) -> Seq<char>;

    /// The string.
    fn into_text(self) -> (r: String)
        ensures
            r@ == self.chars(),
    ;
}

impl Text for &str {
    open spec fn chars(self) -> Seq<char> {
        self@
    }

    fn into_text(self) -> (r: String) {
        self.to_owned()
    }
}

impl Text for String {
    open spec fn chars(self) -> Seq<char> {
        self@
    }

    fn into_text(self) -> (r: String) {
        self
    }
}

/// Whether `e` is a variable with a plain value.
pub open spec fn is_env(e: EnvVar, name: Seq<char>, value: Seq<char>) -> bool {
    &&& e.name@ == name
    &&& e.value matches Some(v)
    &&& v@ == value
    &&& e.value_from is None
}

/// A variable with a plain value.
pub fn env<T: Text>(name: &str, value: T) -> (r: EnvVar)
    ensures
        is_env(r, name@, value.chars()),
{
    EnvVar { name: name.to_owned(), value: Some(value.into_text()), value_from: None }
}

/// Whether `e` is a variable whose value is a key of a ConfigMap.
pub open spec fn is_cm_env(e: EnvVar, name: Seq<char>, map: Seq<char>, key: Seq<char>) -> bool {
    &&& e.name@ == name
    &&& e.value is None
    &&& e.value_from matches Some(from)
    &&& from.config_map_key_ref matches Some(selector)
    &&& selector.name@ == map
    &&& selector.key@ == key
    &&& selector.optional is None
    &&& from.field_ref is None
    &&& from.resource_field_ref is None
    &&& from.secret_key_ref is None
}

/// A variable whose value is a key of a ConfigMap.
pub fn cm_env(name: &str, map: &str, key: &str) -> (r: EnvVar)
    ensures
        is_cm_env(r, name@, map@, key@),
{
    EnvVar {
        name: name.to_owned(),
        value: None,
        value_from: Some(
            EnvVarSource {
                config_map_key_ref: Some(
                    KeySelector { name: map.to_owned(), key: key.to_owned(), optional: None },
                ),
                field_ref: None,
                resource_field_ref: None,
                secret_key_ref: None,
            },
        ),
    }
}

/// Whether `e` is a variable whose value is a key of a Secret.
pub open spec fn is_secret_env(e: EnvVar, name: Seq<char>, secret: Seq<char>, key: Seq<char>) -> bool {
    &&& e.name@ == name
    &&& e.value is None
    &&& e.value_from matches Some(from)
    &&& from.secret_key_ref matches Some(selector)
    &&& selector.name@ == secret
    &&& selector.key@ == key
    &&& selector.optional is None
    &&& from.config_map_key_ref is None
    &&& from.field_ref is None
    &&& from.resource_field_ref is None
}

/// A variable whose value is a key of a Secret.
pub fn secret_env(name: &str, secret: &str, key: &str) -> (r: EnvVar)
    ensures
        is_secret_env(r, name@, secret@, key@),
{
    EnvVar {
        name: name.to_owned(),
        value: None,
        value_from: Some(
            EnvVarSource {
                config_map_key_ref: None,
                field_ref: None,
                resource_field_ref: None,
                secret_key_ref: Some(
                    KeySelector { name: secret.to_owned(), key: key.to_owned(), optional: None },
                ),
            },
        ),
    }
}

/// The position of the first variable called `name`, or the length where there is none.
pub open spec fn env_index(env: Seq<EnvVar>, name: Seq<char>) -> int
    decreases env.len(),
{
    if env.len() == 0 || env[0].name@ == name {
        0
    } else {
        1 + env_index(env.drop_first(), name)
    }
}

/// `env` with `e` in the place of the first variable of its name, or at the end.
pub open spec fn put_env(env: Seq<EnvVar>, e: EnvVar) -> Seq<EnvVar> {
    let i = env_index(env, e.name@);
    if i < env.len() {
        env.update(i, e)
    } else {
        env.push(e)
    }
}

/// `base` with each variable of `extra` put into it in turn.
pub open spec fn merged_env(base: Seq<EnvVar>, extra: Seq<EnvVar>) -> Seq<EnvVar>
    decreases extra.len(),
{
    if extra.len() == 0 {
        base
    } else {
        put_env(merged_env(base, extra.drop_last()), extra.last())
    }
}

/// What is known of the position of a variable.
pub proof fn lemma_env_index(env: Seq<EnvVar>, name: Seq<char>)
    ensures
        0 <= env_index(env, name) <= env.len(),
        env_index(env, name) < env.len() ==> env[env_index(env, name)].name@ == name,
        forall|i: int| 0 <= i < env_index(env, name) ==> (#[trigger] env[i]).name@ != name,
    decreases env.len(),
{
    if env.len() > 0 && env[0].name@ != name {
        let tail = env.drop_first();
        lemma_env_index(tail, name);
        assert forall|i: int| 0 <= i < env_index(env, name) implies (#[trigger] env[i]).name@
            != name by {
            if i > 0 {
                assert(tail[i - 1] == env[i]);
            }
        }
    }
}

/// The position of a variable, from what is known of it.
proof fn lemma_env_index_at(env: Seq<EnvVar>, name: Seq<char>, i: int)
    requires
        0 <= i <= env.len(),
        i < env.len() ==> env[i].name@ == name,
        forall|j: int| 0 <= j < i ==> (#[trigger] env[j]).name@ != name,
    ensures
        env_index(env, name) == i,
{
    lemma_env_index(env, name);
    let k = env_index(env, name);
    if k < i {
        assert(env[k].name@ != name);
    }
    if i < k {
        assert(env[i].name@ != name);
    }
}

fn find_env(env: &Vec<EnvVar>, name: &String) -> (r: usize)
    ensures
        r == env_index(env@, name@),
{
    let mut i: usize = 0;
    while i < env.len() && !same_text(env[i].name.as_str(), name.as_str())
        invariant
            i <= env@.len(),
            forall|j: int| 0 <= j < i ==> (#[trigger] env@[j]).name@ != name@,
        decreases env@.len() - i,
    {
        i = i + 1;
    }
    proof {
        lemma_env_index_at(env@, name@, i as int);
    }
    i
}

/// The variables of `base`, with those of `extra` in the place of the ones of the same name
/// and the new ones at the end. Of several with one name the last wins.
pub fn merge_extra_env(base: &Vec<EnvVar>, extra: &Vec<EnvVar>) -> (r: Vec<EnvVar>)
    ensures
        r@ == merged_env(base@, extra@),
{
    let mut out: Vec<EnvVar> = base.clone();
    proof {
        assert(out@ =~= base@);
        assert(extra@.take(0) =~= Seq::<EnvVar>::empty());
    }
    let mut i: usize = 0;
    while i < extra.len()
        invariant
            i <= extra@.len(),
            out@ == merged_env(base@, extra@.take(i as int)),
        decreases extra@.len() - i,
    {
        let at = find_env(&out, &extra[i].name);
        let e = extra[i].clone();
        proof {
            assert(extra@.take(i + 1).drop_last() =~= extra@.take(i as int));
        }
        if at < out.len() {
            out.set(at, e);
        } else {
            out.push(e);
        }
        i = i + 1;
    }
    proof {
        assert(extra@.take(extra@.len() as int) =~= extra@);
    }
    out
}

/// The elements of an optional list, none where there is no list.
pub open spec fn seq_or_empty<T>(v: Option<Vec<T>>) -> Seq<T> {
    match v {
        Some(list) => list@,
        None => Seq::empty(),
    }
}

/// Whether `r` is `container` with the environment of the instance layered on.
pub open spec fn has_extra_env(r: Container, container: Container, instance: &OdooInstance) -> bool {
    let extra = instance.spec.extra_env@;
    let extra_from = instance.spec.extra_env_from@;
    &&& r == Container { env: r.env, env_from: r.env_from, ..container }
    &&& if extra.len() == 0 {
        r.env == container.env
    } else {
        r.env matches Some(env) && env@ == merged_env(seq_or_empty(container.env), extra)
    }
    &&& if extra_from.len() == 0 {
        r.env_from == container.env_from
    } else {
        r.env_from matches Some(from) && from@ == seq_or_empty(container.env_from) + extra_from
    }
}

/// Layers the extra environment of an instance on one of its Odoo containers.
pub fn apply_extra_env(container: Container, instance: &OdooInstance) -> (r: Container)
    ensures
        has_extra_env(r, container, instance),
{
    let mut out = container;
    if !instance.spec.extra_env.is_empty() {
        let base: Vec<EnvVar> = match out.env {
            Some(env) => env,
            None => Vec::new(),
        };
        out.env = Some(merge_extra_env(&base, &instance.spec.extra_env));
    }
    if !instance.spec.extra_env_from.is_empty() {
        let mut from: Vec<k8s_openapi::api::core::v1::EnvFromSource> = match out.env_from {
            Some(list) => list,
            None => Vec::new(),
        };
        let mut extra = instance.spec.extra_env_from.clone();
        proof {
            assert(extra@ =~= instance.spec.extra_env_from@);
        }
        from.append(&mut extra);
        out.env_from = Some(from);
    }
    out
}

// ── Jobs ────────────────────────────────────────────────────────────────────

/// Builds the Jobs of an instance.
#[derive(Debug)]
pub struct OdooJobBuilder {
    pub generate_name: String,
    pub namespace: String,
    pub owner: OwnerReference,
    pub image_pull_secrets: Option<Vec<LocalObjectReference>>,
    pub backoff_limit: i32,
    pub active_deadline: Option<i64>,
    pub affinity: Option<k8s_openapi::api::core::v1::Affinity>,
    pub standard_volumes: Vec<Volume>,
    pub extra_volumes: Vec<Volume>,
    pub init_containers: Vec<Container>,
    pub containers: Vec<Container>,
}

/// A list, none where it is empty.
pub open spec fn is_nonempty_list<T>(v: Option<Vec<T>>, items: Seq<T>) -> bool {
    if items.len() == 0 {
        v is None
    } else {
        v matches Some(list) && list@ == items
    }
}

fn nonempty_list<T>(v: Vec<T>) -> (r: Option<Vec<T>>)
    ensures
        is_nonempty_list(r, v@),
{
    if v.is_empty() {
        None
    } else {
        Some(v)
    }
}

/// Whether `meta` names nothing but a name prefix, a namespace and an owner.
pub open spec fn is_generated_meta(
    meta: ObjectMeta,
    prefix: Seq<char>,
    namespace: Seq<char>,
    owner: OwnerReference,
) -> bool {
    &&& meta.name is None
    &&& meta.generate_name matches Some(g)
    &&& g@ == prefix
    &&& meta.namespace matches Some(n)
    &&& n@ == namespace
    &&& meta.uid is None
    &&& meta.creation_timestamp is None
    &&& meta.labels is None
    &&& meta.annotations is None
    &&& meta.owner_references matches Some(owners)
    &&& owners@ == seq![owner]
}

impl OdooJobBuilder {
    /// Whether the builder is as `new` makes it.
    pub open spec fn is_fresh<R: Resource>(
        self,
        generate_name: Seq<char>,
        namespace: Seq<char>,
        owner: &R,
        instance: &OdooInstance,
    ) -> bool {
        &&& self.generate_name@ == generate_name
        &&& self.namespace@ == namespace
        &&& is_controller_ref(self.owner, owner)
        &&& are_pull_secrets(self.image_pull_secrets, instance)
        &&& self.backoff_limit == 0
        &&& self.active_deadline is None
        &&& self.affinity is None
        &&& are_odoo_volumes(self.standard_volumes@, instance.name(), instance.ephemeral())
        &&& self.extra_volumes@.len() == 0
        &&& self.init_containers@.len() == 0
        &&& self.containers@.len() == 0
    }

    /// Whether `job` is what the builder describes: one pod that is not restarted, kept for
    /// fifteen minutes after its end.
    pub open spec fn describes(self, job: Job) -> bool {
        &&& is_generated_meta(
            job.metadata,
            self.generate_name@,
            self.namespace@,
            self.owner,
        )
        &&& job.spec matches Some(spec)
        &&& spec.backoff_limit == Some(self.backoff_limit)
        &&& spec.active_deadline_seconds == self.active_deadline
        &&& spec.ttl_seconds_after_finished == Some(900i32)
        &&& spec.template.metadata is None
        &&& spec.template.spec matches Some(pod)
        &&& pod.restart_policy matches Some(policy)
        &&& policy@ == "Never"@
        &&& pod.image_pull_secrets == self.image_pull_secrets
        &&& pod.affinity == self.affinity
        &&& pod.tolerations is None
        &&& pod.security_context == Some(
            PodSecurityContext {
                run_as_user: Some(100),
                run_as_group: Some(101),
                fs_group: Some(101),
            },
        )
        &&& is_nonempty_list(pod.volumes, self.standard_volumes@ + self.extra_volumes@)
        &&& is_nonempty_list(pod.init_containers, self.init_containers@)
        &&& pod.containers@ == self.containers@
    }

    /// A builder of a Job that `owner` controls and that works for `instance`.
    pub fn new<R: Resource>(
        generate_name: &str,
        namespace: &str,
        owner: &R,
        instance: &OdooInstance,
    ) -> (r: OdooJobBuilder)
        ensures
            r.is_fresh(generate_name@, namespace@, owner, instance),
    {
        let name = instance.metadata.name_any();
        OdooJobBuilder {
            generate_name: generate_name.to_owned(),
            namespace: namespace.to_owned(),
            owner: controller_owner_ref(owner),
            image_pull_secrets: image_pull_secrets(instance),
            backoff_limit: 0,
            active_deadline: None,
            affinity: None,
            standard_volumes: pod_volumes(name.as_str(), instance.is_ephemeral()),
            extra_volumes: Vec::new(),
            init_containers: Vec::new(),
            containers: Vec::new(),
        }
    }

    /// Ends the Job after so many seconds.
    pub fn active_deadline(self, seconds: i64) -> (r: OdooJobBuilder)
        ensures
            r == (OdooJobBuilder { active_deadline: Some(seconds), ..self }),
    {
        OdooJobBuilder { active_deadline: Some(seconds), ..self }
    }

    /// Tries again so many times.
    pub fn backoff_limit(self, limit: i32) -> (r: OdooJobBuilder)
        ensures
            r == (OdooJobBuilder { backoff_limit: limit, ..self }),
    {
        OdooJobBuilder { backoff_limit: limit, ..self }
    }

    /// Leaves out the volumes of the instance.
    pub fn without_standard_volumes(self) -> (r: OdooJobBuilder)
        ensures
            r.standard_volumes@.len() == 0,
            r == (OdooJobBuilder { standard_volumes: r.standard_volumes, ..self }),
    {
        OdooJobBuilder { standard_volumes: Vec::new(), ..self }
    }

    /// Adds volumes to those of the instance.
    pub fn extra_volumes(self, volumes: Vec<Volume>) -> (r: OdooJobBuilder)
        ensures
            r == (OdooJobBuilder { extra_volumes: volumes, ..self }),
    {
        OdooJobBuilder { extra_volumes: volumes, ..self }
    }

    /// Constrains where the pod is scheduled.
    pub fn affinity(self, affinity: k8s_openapi::api::core::v1::Affinity) -> (r: OdooJobBuilder)
        ensures
            r == (OdooJobBuilder { affinity: Some(affinity), ..self }),
    {
        OdooJobBuilder { affinity: Some(affinity), ..self }
    }

    /// Runs these containers first, one after the other.
    pub fn init_containers(self, containers: Vec<Container>) -> (r: OdooJobBuilder)
        ensures
            r == (OdooJobBuilder { init_containers: containers, ..self }),
    {
        OdooJobBuilder { init_containers: containers, ..self }
    }

    /// Runs these containers.
    pub fn containers(self, containers: Vec<Container>) -> (r: OdooJobBuilder)
        ensures
            r == (OdooJobBuilder { containers, ..self }),
    {
        OdooJobBuilder { containers, ..self }
    }

    /// The Job.
    pub fn build(self) -> (r: Job)
        ensures
            self.describes(r),
    {
        let mut volumes = self.standard_volumes;
        let mut extra = self.extra_volumes;
        volumes.append(&mut extra);
        let owners = vec![self.owner];
        proof {
            assert(owners@ =~= seq![self.owner]);
        }
        Job {
            metadata: ObjectMeta {
                name: None,
                generate_name: Some(self.generate_name),
                namespace: Some(self.namespace),
                uid: None,
                creation_timestamp: None,
                labels: None,
                annotations: None,
                owner_references: Some(owners),
            },
            spec: Some(
                JobSpec {
                    backoff_limit: Some(self.backoff_limit),
                    active_deadline_seconds: self.active_deadline,
                    ttl_seconds_after_finished: Some(900),
                    template: PodTemplateSpec {
                        metadata: None,
                        spec: Some(
                            PodSpec {
                                restart_policy: Some("Never".to_owned()),
                                image_pull_secrets: self.image_pull_secrets,
                                affinity: self.affinity,
                                tolerations: None,
                                security_context: Some(odoo_security_context()),
                                volumes: nonempty_list(volumes),
                                init_containers: nonempty_list(self.init_containers),
                                containers: self.containers,
                            },
                        ),
                    },
                },
            ),
        }
    }
}

/// The pod of a Job.
pub open spec fn job_pod(job: Job) -> PodSpec {
    job.spec->0.template.spec->0
}

/// Whether `job` is a Job that `owner` controls and that works for `instance`: one pod that is
/// not restarted, with the instance's registry secret, under Odoo's user.
pub open spec fn is_instance_job<R: Resource>(
    job: Job,
    prefix: Seq<char>,
    namespace: Seq<char>,
    owner: &R,
    instance: &OdooInstance,
    backoff_limit: i32,
    deadline: i64,
) -> bool {
    &&& exists|oref: OwnerReference|
        {
            &&& #[trigger] is_controller_ref(oref, owner)
            &&& is_generated_meta(job.metadata, prefix, namespace, oref)
        }
    &&& job.spec matches Some(spec)
    &&& spec.backoff_limit == Some(backoff_limit)
    &&& spec.active_deadline_seconds == Some(deadline)
    &&& spec.ttl_seconds_after_finished == Some(900i32)
    &&& spec.template.metadata is None
    &&& spec.template.spec matches Some(pod)
    &&& pod.restart_policy matches Some(policy)
    &&& policy@ == "Never"@
    &&& are_pull_secrets(pod.image_pull_secrets, instance)
    &&& pod.affinity is None
    &&& pod.tolerations is None
    &&& pod.security_context == Some(
        PodSecurityContext { run_as_user: Some(100), run_as_group: Some(101), fs_group: Some(101) },
    )
}

/// Whether the command of a container is to run `script` in `shell`.
pub open spec fn runs_script(c: Container, shell: Seq<char>, script: Seq<char>) -> bool {
    c.command matches Some(command) && texts(command@) == seq![shell, "-c"@, script]
}

/// The command that runs `script` in `shell`.
pub fn script_command(shell: &str, script: &str) -> (r: Option<Vec<String>>)
    ensures
        r matches Some(command) && texts(command@) == seq![shell@, "-c"@, script@],
{
    let command = vec![shell.to_owned(), "-c".to_owned(), script.to_owned()];
    proof {
        assert(texts(command@) =~= seq![shell@, "-c"@, script@]);
    }
    Some(command)
}

/// The scripts that the Jobs of an instance run, and the checks of its cron pods.
#[derive(Debug)]
pub struct Scripts {
    pub clone_db: String,
    pub clone_filestore: String,
    pub neutralize: String,
    /// Fails where a mail server with a real host is still active.
    pub verify_mail: String,
    pub s3_download: String,
    pub odoo_download: String,
    pub restore_extract: String,
    pub restore_load_db: String,
    pub restore_neutralize: String,
    pub migrate_filestore: String,
    pub cron_startup_probe: String,
    pub cron_liveness_probe: String,
}

// ── Laws ────────────────────────────────────────────────────────────────────

/// Merging keeps the variables of the base in their places: each keeps its position and its
/// name, and what is new comes behind.
pub proof fn law_merge_keeps_order(base: Seq<EnvVar>, extra: Seq<EnvVar>)
    ensures
        merged_env(base, extra).len() >= base.len(),
        forall|i: int|
            0 <= i < base.len() ==> (#[trigger] merged_env(base, extra)[i]).name@ == base[i].name@,
    decreases extra.len(),
{
    if extra.len() > 0 {
        let before = merged_env(base, extra.drop_last());
        law_merge_keeps_order(base, extra.drop_last());
        lemma_env_index(before, extra.last().name@);
    }
}

/// What is not named in `extra` is as it was in `base`.
pub proof fn law_merge_leaves_others(base: Seq<EnvVar>, extra: Seq<EnvVar>, i: int)
    requires
        0 <= i < base.len(),
        forall|j: int| 0 <= j < extra.len() ==> (#[trigger] extra[j]).name@ != base[i].name@,
    ensures
        merged_env(base, extra)[i] == base[i],
    decreases extra.len(),
{
    if extra.len() > 0 {
        let rest = extra.drop_last();
        assert forall|j: int| 0 <= j < rest.len() implies (#[trigger] rest[j]).name@
            != base[i].name@ by {
            assert(rest[j] == extra[j]);
        }
        law_merge_leaves_others(base, rest, i);
        law_merge_keeps_order(base, rest);
        let before = merged_env(base, rest);
        lemma_env_index(before, extra.last().name@);
        assert(extra[extra.len() - 1] == extra.last());
    }
}

/// The last variable of a name in `extra` wins: it is the first of that name in the result.
pub proof fn law_merge_last_wins(base: Seq<EnvVar>, extra: Seq<EnvVar>, i: int)
    requires
        0 <= i < extra.len(),
        forall|j: int| i < j < extra.len() ==> (#[trigger] extra[j]).name@ != extra[i].name@,
    ensures
        env_index(merged_env(base, extra), extra[i].name@) < merged_env(base, extra).len(),
        merged_env(base, extra)[env_index(merged_env(base, extra), extra[i].name@)] == extra[i],
    decreases extra.len(),
{
    let rest = extra.drop_last();
    let before = merged_env(base, rest);
    let after = merged_env(base, extra);
    let e = extra.last();
    let name = extra[i].name@;
    lemma_env_index(before, e.name@);
    let at = env_index(before, e.name@);
    if i == extra.len() - 1 {
        lemma_env_index_at(after, name, at);
    } else {
        assert forall|j: int| i < j < rest.len() implies (#[trigger] rest[j]).name@
            != rest[i].name@ by {
            assert(rest[j] == extra[j]);
        }
        law_merge_last_wins(base, rest, i);
        assert(extra[extra.len() - 1].name@ != name);
        lemma_env_index(before, name);
        let k = env_index(before, name);
        assert forall|j: int| 0 <= j < k implies (#[trigger] after[j]).name@ != name by {
            if j != at {
                assert(after[j] == before[j]);
            }
        }
        lemma_env_index_at(after, name, k);
    }
}

/// Merging nothing changes nothing.
pub proof fn law_merge_nothing(base: Seq<EnvVar>)
    ensures
        merged_env(base, Seq::empty()) == base,
{
}

} // verus!
