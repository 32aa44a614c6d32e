//! The objects that every instance has, whatever its phase: credentials, filestore claim,
//! configuration, Service, routing and Deployments.

use vstd::prelude::*;

use crate::controller::helpers::{
    are_odoo_mounts, are_odoo_volumes, are_pull_secrets, claim_name, conf_name, cron_depl_name,
    cron_name, env, filestore_claim_name, image_pull_secrets, instance_labels, is_env,
    is_nonempty_list, is_secret_env, labels_of, merge_extra_env, merged_env, odoo_conf_name,
    odoo_security_context, odoo_volume_mounts, pod_volumes, secret_env,
};
use crate::crd::metadata::{ObjectMeta, OwnerReference};
use crate::crd::odoo_instance::{
    default_25_percent, DeploymentStrategyType, EnvVar, Environment, GatewayRef, OdooInstance,
};
use crate::helpers::{
    base_options, build_odoo_conf, conf_options, conf_text, database_name, db_name,
    generate_password, odoo_username, parse_quantity, quantity, sha256_hex, sha256_text, username,
    OperatorDefaults,
};
use crate::objects::{
    ConfigMap, Container, ContainerPort, Deployment, DeploymentSpec, DeploymentStrategy, ExecAction,
    HTTPGetAction, HTTPIngressPath, HTTPRoute, HTTPRouteParentRef, HTTPRouteRule, Ingress,
    IngressRule, IngressTLS, PersistentVolumeClaim, PodSecurityContext, PodSpec, PodTemplateSpec,
    Probe, RollingUpdateDeployment, Secret, Service, ServicePort, TypedObjectReference,
};
use crate::outside::{hex_text, lossy_text, text_from_bytes};
use crate::string_map::StringMap;
use crate::text::{decimal, int_text, join2, opt_text, same_opt_text, same_text, texts};

verus! {

broadcast use vstd::seq_lib::group_seq_properties;

// ── Metadata ────────────────────────────────────────────────────────────────

/// The content of an optional map.
pub open spec fn opt_map(m: Option<StringMap>) -> Option<Map<Seq<char>, Seq<char>>> {
    match m {
        Some(map) => Some(map@),
        None => None,
    }
}

/// Whether `meta` says this and no more.
pub open spec fn is_named_meta(
    meta: ObjectMeta,
    name: Seq<char>,
    namespace: Seq<char>,
    labels: Option<Map<Seq<char>, Seq<char>>>,
    annotations: Option<Map<Seq<char>, Seq<char>>>,
    owners: Seq<OwnerReference>,
) -> bool {
    &&& opt_text(meta.name) == Some(name)
    &&& meta.generate_name is None
    &&& opt_text(meta.namespace) == Some(namespace)
    &&& meta.uid is None
    &&& meta.creation_timestamp is None
    &&& opt_map(meta.labels) == labels
    &&& opt_map(meta.annotations) == annotations
    &&& is_nonempty_list(meta.owner_references, owners)
}

fn named_meta(
    name: &str,
    namespace: &str,
    labels: Option<StringMap>,
    annotations: Option<StringMap>,
    owner: &OwnerReference,
) -> (r: ObjectMeta)
    ensures
        is_named_meta(r, name@, namespace@, opt_map(labels), opt_map(annotations), seq![*owner]),
{
    let owners = vec![owner.clone()];
    proof {
        assert(owners@ =~= seq![*owner]);
    }
    ObjectMeta {
        name: Some(name.to_owned()),
        generate_name: None,
        namespace: Some(namespace.to_owned()),
        uid: None,
        creation_timestamp: None,
        labels,
        annotations,
        owner_references: Some(owners),
    }
}

/// The map with one entry.
pub open spec fn one_entry(key: Seq<char>, value: Seq<char>) -> Map<Seq<char>, Seq<char>> {
    Map::<Seq<char>, Seq<char>>::empty().insert(key, value)
}

fn one_entry_map(key: &str, value: &str) -> (r: StringMap)
    ensures
        r@ == one_entry(key@, value@),
{
    let mut map = StringMap::new();
    map.insert(key.to_owned(), value.to_owned());
    map
}

// ── Defaults ────────────────────────────────────────────────────────────────

/// The fields of an instance's spec that the operator fills in.
#[derive(Debug)]
pub struct SpecPatch {
    pub image: Option<String>,
    pub storage_class: Option<String>,
    pub storage_size: Option<String>,
    pub ingress_issuer: Option<String>,
    pub ingress_class: Option<String>,
    pub gateway_ref: Option<GatewayRef>,
    pub resources: Option<k8s_openapi::api::core::v1::ResourceRequirements>,
    pub affinity: Option<k8s_openapi::api::core::v1::Affinity>,
    pub tolerations: Option<Vec<k8s_openapi::api::core::v1::Toleration>>,
    pub cron_resources: Option<k8s_openapi::api::core::v1::ResourceRequirements>,
}

/// `configured`, or `fallback` where nothing is configured.
pub open spec fn or_fallback(configured: Seq<char>, fallback: Seq<char>) -> Seq<char> {
    if configured.len() == 0 {
        fallback
    } else {
        configured
    }
}

/// The image that is filled in, if one is missing.
pub open spec fn default_image(i: &OdooInstance, d: &OperatorDefaults) -> Option<Seq<char>> {
    if i.spec.image is None {
        Some(or_fallback(d.odoo_image@, "odoo:18.0"@))
    } else {
        None
    }
}

/// The storage class that is filled in, if one is missing. An ephemeral filestore has none.
pub open spec fn default_storage_class(i: &OdooInstance, d: &OperatorDefaults) -> Option<Seq<char>> {
    if !i.ephemeral() && (i.spec.filestore matches Some(f) ==> f.storage_class is None) {
        Some(or_fallback(d.storage_class@, "standard"@))
    } else {
        None
    }
}

/// The storage size that is filled in, if one is missing. An ephemeral filestore has none.
pub open spec fn default_storage_size(i: &OdooInstance, d: &OperatorDefaults) -> Option<Seq<char>> {
    if !i.ephemeral() && (i.spec.filestore matches Some(f) ==> f.storage_size is None) {
        Some(or_fallback(d.storage_size@, "2Gi"@))
    } else {
        None
    }
}

/// The certificate issuer that is filled in, if one is missing and one is configured.
pub open spec fn default_issuer(i: &OdooInstance, d: &OperatorDefaults) -> Option<Seq<char>> {
    if i.spec.ingress.issuer is None && d.ingress_issuer@.len() > 0 {
        Some(d.ingress_issuer@)
    } else {
        None
    }
}

/// The ingress class that is filled in, if one is missing and one is configured.
pub open spec fn default_class(i: &OdooInstance, d: &OperatorDefaults) -> Option<Seq<char>> {
    if i.spec.ingress.class is None && d.ingress_class@.len() > 0 {
        Some(d.ingress_class@)
    } else {
        None
    }
}

/// The name and namespace of the Gateway that is filled in, if one is missing and one is
/// configured.
pub open spec fn default_gateway(i: &OdooInstance, d: &OperatorDefaults) -> Option<
    (Seq<char>, Seq<char>),
> {
    if i.spec.ingress.gateway_ref is None && d.gateway_ref_name@.len() > 0
        && d.gateway_ref_namespace@.len() > 0 {
        Some((d.gateway_ref_name@, d.gateway_ref_namespace@))
    } else {
        None
    }
}

/// The name and namespace of a Gateway.
pub open spec fn gateway_text(g: Option<GatewayRef>) -> Option<(Seq<char>, Seq<char>)> {
    match g {
        Some(gateway) => Some((gateway.name@, gateway.namespace@)),
        None => None,
    }
}

/// The elements of an optional list.
pub open spec fn opt_seq<T>(v: Option<Vec<T>>) -> Option<Seq<T>> {
    match v {
        Some(list) => Some(list@),
        None => None,
    }
}

impl SpecPatch {
    /// Whether the patch fills in what the instance leaves open, and nothing else.
    pub open spec fn fills(self, i: &OdooInstance, d: &OperatorDefaults) -> bool {
        &&& opt_text(self.image) == default_image(i, d)
        &&& opt_text(self.storage_class) == default_storage_class(i, d)
        &&& opt_text(self.storage_size) == default_storage_size(i, d)
        &&& opt_text(self.ingress_issuer) == default_issuer(i, d)
        &&& opt_text(self.ingress_class) == default_class(i, d)
        &&& gateway_text(self.gateway_ref) == default_gateway(i, d)
        &&& self.resources == if i.spec.resources is None {
            d.resources
        } else {
            None
        }
        &&& self.affinity == if i.spec.affinity is None {
            d.affinity
        } else {
            None
        }
        &&& opt_seq(self.tolerations) == if i.spec.tolerations@.len() == 0
            && d.tolerations@.len() > 0 {
            Some(d.tolerations@)
        } else {
            None
        }
        &&& self.cron_resources == if i.spec.cron.resources is None && i.spec.resources is None {
            d.resources
        } else {
            None
        }
    }

    /// Whether the patch changes nothing.
    pub open spec fn is_empty(self) -> bool {
        &&& self.image is None
        &&& self.storage_class is None
        &&& self.storage_size is None
        &&& self.ingress_issuer is None
        &&& self.ingress_class is None
        &&& self.gateway_ref is None
        &&& self.resources is None
        &&& self.affinity is None
        &&& self.tolerations is None
        &&& self.cron_resources is None
    }
}

/// Whether the instance leaves nothing open that the operator would fill in.
pub open spec fn is_settled(i: &OdooInstance, d: &OperatorDefaults) -> bool {
    &&& default_image(i, d) is None
    &&& default_storage_class(i, d) is None
    &&& default_storage_size(i, d) is None
    &&& default_issuer(i, d) is None
    &&& default_class(i, d) is None
    &&& default_gateway(i, d) is None
    &&& i.spec.resources is None ==> d.resources is None
    &&& i.spec.affinity is None ==> d.affinity is None
    &&& i.spec.tolerations@.len() == 0 ==> d.tolerations@.len() == 0
}

/// `configured`, or `fallback` where nothing is configured.
pub(crate) fn string_or(configured: &String, fallback: &str) -> (r: String)
    ensures
        r@ == or_fallback(configured@, fallback@),
{
    if configured.as_str().is_empty() {
        fallback.to_owned()
    } else {
        configured.clone()
    }
}

/// What the operator fills into the spec of an instance, if anything.
pub fn apply_defaults(instance: &OdooInstance, defaults: &OperatorDefaults) -> (r: Option<SpecPatch>)
    ensures
        r is None == is_settled(instance, defaults),
        r matches Some(patch) ==> patch.fills(instance, defaults) && !patch.is_empty(),
{
    let image = match &instance.spec.image {
        Some(_) => None,
        None => Some(string_or(&defaults.odoo_image, "odoo:18.0")),
    };
    let (has_class, has_size): (bool, bool) = match &instance.spec.filestore {
        Some(f) => (f.storage_class.is_some(), f.storage_size.is_some()),
        None => (false, false),
    };
    let ephemeral = instance.is_ephemeral();
    let storage_class = if !ephemeral && !has_class {
        Some(string_or(&defaults.storage_class, "standard"))
    } else {
        None
    };
    let storage_size = if !ephemeral && !has_size {
        Some(string_or(&defaults.storage_size, "2Gi"))
    } else {
        None
    };
    let ingress_issuer = if instance.spec.ingress.issuer.is_none()
        && !defaults.ingress_issuer.as_str().is_empty() {
        Some(defaults.ingress_issuer.clone())
    } else {
        None
    };
    let ingress_class = if instance.spec.ingress.class.is_none()
        && !defaults.ingress_class.as_str().is_empty() {
        Some(defaults.ingress_class.clone())
    } else {
        None
    };
    let gateway_ref = if instance.spec.ingress.gateway_ref.is_none()
        && !defaults.gateway_ref_name.as_str().is_empty()
        && !defaults.gateway_ref_namespace.as_str().is_empty() {
        Some(
            GatewayRef {
                name: defaults.gateway_ref_name.clone(),
                namespace: defaults.gateway_ref_namespace.clone(),
            },
        )
    } else {
        None
    };
    let resources = if instance.spec.resources.is_none() {
        defaults.resources.clone()
    } else {
        None
    };
    let affinity = if instance.spec.affinity.is_none() {
        defaults.affinity.clone()
    } else {
        None
    };
    let tolerations = if instance.spec.tolerations.is_empty() && !defaults.tolerations.is_empty() {
        let copied = defaults.tolerations.clone();
        proof {
            assert(copied@ =~= defaults.tolerations@);
        }
        Some(copied)
    } else {
        None
    };
    let cron_resources = if instance.spec.cron.resources.is_none()
        && instance.spec.resources.is_none() {
        defaults.resources.clone()
    } else {
        None
    };
    let nothing = image.is_none() && storage_class.is_none() && storage_size.is_none()
        && ingress_issuer.is_none() && ingress_class.is_none() && gateway_ref.is_none()
        && resources.is_none() && affinity.is_none() && tolerations.is_none()
        && cron_resources.is_none();
    if nothing {
        return None;
    }
    Some(
        SpecPatch {
            image,
            storage_class,
            storage_size,
            ingress_issuer,
            ingress_class,
            gateway_ref,
            resources,
            affinity,
            tolerations,
            cron_resources,
        },
    )
}

// ── Credentials ─────────────────────────────────────────────────────────────

/// The next step in bringing a registry secret into an instance's namespace.
#[derive(Debug)]
pub enum PullSecretStep {
    /// There is nothing more to do.
    Done,
    /// Look for the secret of this name in the instance's namespace.
    FindTarget(String),
    /// Read the secret of this name in the operator's namespace, and mirror it.
    ReadSource(String),
}

/// Whether `r` is the next step in bringing the registry secret into an instance's namespace.
pub open spec fn is_pull_secret_step(
    r: PullSecretStep,
    instance: &OdooInstance,
    found: Option<bool>,
) -> bool {
    match (crate::controller::helpers::pull_secret(instance), found) {
        (None, _) => r is Done,
        (Some(name), None) => r matches PullSecretStep::FindTarget(n) && n@ == name,
        (Some(_), Some(true)) => r is Done,
        (Some(name), Some(false)) => r matches PullSecretStep::ReadSource(n) && n@ == name,
    }
}

/// Brings the registry secret of an instance into its namespace, unless it is there.
/// `found` says whether it is, once that was looked up.
pub fn ensure_image_pull_secret(instance: &OdooInstance, found: Option<bool>) -> (r: PullSecretStep)
    ensures
        is_pull_secret_step(r, instance, found),
{
    match &instance.spec.image_pull_secret {
        Some(name) => {
            if name.as_str().is_empty() {
                return PullSecretStep::Done;
            }
            match found {
                None => PullSecretStep::FindTarget(name.clone()),
                Some(true) => PullSecretStep::Done,
                Some(false) => PullSecretStep::ReadSource(name.clone()),
            }
        },
        None => PullSecretStep::Done,
    }
}

/// The metadata of the mirrored registry secret. It has no owner: it outlives the instance,
/// since others in the namespace may share it.
pub fn mirrored_secret_meta(namespace: &str, name: &str) -> (r: ObjectMeta)
    ensures
        is_named_meta(r, name@, namespace@, None, None, Seq::empty()),
{
    ObjectMeta {
        name: Some(name.to_owned()),
        generate_name: None,
        namespace: Some(namespace.to_owned()),
        uid: None,
        creation_timestamp: None,
        labels: None,
        annotations: None,
        owner_references: None,
    }
}

/// The outcome of looking an object up.
#[derive(Debug, Clone, Copy, PartialEq, Eq, Structural)]
pub enum Lookup {
    Found,
    NotFound,
    /// The lookup failed for another reason.
    Failed,
}

/// Whether what was to be deleted is gone: the deletion was accepted, or there was nothing to
/// delete.
pub fn is_deleted(outcome: Lookup) -> (r: bool)
    ensures
        r == (outcome != Lookup::Failed),
{
    outcome != Lookup::Failed
}

/// What to do about the database credentials of an instance.
#[derive(Debug)]
pub enum UserSecretStep {
    Keep,
    Create(Secret),
    Fail,
}

/// The name of the secret that holds the database credentials of the instance `name`.
pub open spec fn user_secret_text(name: Seq<char>) -> Seq<char> {
    name + "-odoo-user"@
}

/// The name of the secret that holds the database credentials of the instance `name`.
pub fn user_secret_name(name: &str) -> (r: String)
    ensures
        r@ == user_secret_text(name@),
{
    join2(name, "-odoo-user")
}

/// Whether `secret` holds the database credentials of the instance `name`.
pub open spec fn is_user_secret(
    secret: Secret,
    namespace: Seq<char>,
    name: Seq<char>,
    oref: OwnerReference,
    password: Seq<char>,
) -> bool {
    &&& is_named_meta(secret.metadata, user_secret_text(name), namespace, None, None, seq![oref])
    &&& secret.string_data@ == one_entry("username"@, username(namespace, name)).insert(
        "password"@,
        password,
    )
}

/// The secret that holds the database credentials of the instance `name`.
pub fn user_secret(namespace: &str, name: &str, oref: &OwnerReference, password: String) -> (r:
    Secret)
    ensures
        is_user_secret(r, namespace@, name@, *oref, password@),
{
    let user = odoo_username(namespace, name);
    let secret_name = user_secret_name(name);
    let mut string_data = one_entry_map("username", user.as_str());
    string_data.insert("password".to_owned(), password);
    Secret {
        metadata: named_meta(secret_name.as_str(), namespace, None, None, oref),
        string_data,
    }
}

/// Whether `r` is what to do about the database credentials of an instance.
pub open spec fn is_user_secret_step(
    r: UserSecretStep,
    namespace: Seq<char>,
    name: Seq<char>,
    oref: OwnerReference,
    found: Lookup,
) -> bool {
    match found {
        Lookup::Found => r is Keep,
        Lookup::NotFound => r matches UserSecretStep::Create(secret) && exists|bytes: Seq<u8>|
            bytes.len() == 24 && #[trigger] is_user_secret(
                secret,
                namespace,
                name,
                oref,
                hex_text(bytes),
            ),
        Lookup::Failed => r is Fail,
    }
}

/// Creates the database credentials of an instance where there are none. They are generated
/// once and kept.
pub fn ensure_odoo_user_secret(
    namespace: &str,
    name: &str,
    oref: &OwnerReference,
    found: Lookup,
) -> (r: UserSecretStep)
    ensures
        is_user_secret_step(r, namespace@, name@, *oref, found),
{
    match found {
        Lookup::Found => UserSecretStep::Keep,
        Lookup::NotFound => {
            let password = generate_password();
            let secret = user_secret(namespace, name, oref, password);
            proof {
                let bytes = choose|bytes: Seq<u8>|
                    bytes.len() == 24 && password@ == hex_text(bytes);
                assert(is_user_secret(secret, namespace@, name@, *oref, hex_text(bytes)));
            }
            UserSecretStep::Create(secret)
        },
        Lookup::Failed => UserSecretStep::Fail,
    }
}

/// A key of a stored secret, and its bytes.
#[derive(Debug)]
pub struct SecretEntry {
    pub key: String,
    pub value: Vec<u8>,
}

/// The text under `key` in a stored secret, empty where there is no such key.
pub open spec fn secret_text(data: Seq<SecretEntry>, key: Seq<char>) -> Seq<char>
    decreases data.len(),
{
    if data.len() == 0 {
        Seq::empty()
    } else if data[0].key@ == key {
        lossy_text(data[0].value@)
    } else {
        secret_text(data.drop_first(), key)
    }
}

/// The text under `key` in a stored secret, empty where there is no such key.
pub fn read_secret_text(data: &Vec<SecretEntry>, key: &str) -> (r: String)
    ensures
        r@ == secret_text(data@, key@),
{
    let mut i: usize = 0;
    proof {
        assert(data@.skip(0) =~= data@);
    }
    while i < data.len()
        invariant
            i <= data@.len(),
            secret_text(data@, key@) == secret_text(data@.skip(i as int), key@),
        decreases data@.len() - i,
    {
        proof {
            assert(data@.skip(i as int).drop_first() =~= data@.skip(i + 1));
        }
        if same_text(data[i].key.as_str(), key) {
            return text_from_bytes(&data[i].value);
        }
        i = i + 1;
    }
    String::new()
}

/// The database user and password in a stored secret.
pub open spec fn stored_credentials(data: Seq<SecretEntry>) -> (Seq<char>, Seq<char>) {
    (secret_text(data, "username"@), secret_text(data, "password"@))
}

/// The database user and password in a stored secret.
pub fn read_odoo_credentials(data: &Vec<SecretEntry>) -> (r: (String, String))
    ensures
        (r.0@, r.1@) == stored_credentials(data@),
{
    (read_secret_text(data, "username"), read_secret_text(data, "password"))
}

/// The name of the secret with the read-only database credentials of the instance `name`.
pub open spec fn ro_secret_text(name: Seq<char>) -> Seq<char> {
    name + "-db-ro-password"@
}

/// The name of the secret with the read-only database credentials of the instance `name`.
pub fn ro_secret_name(name: &str) -> (r: String)
    ensures
        r@ == ro_secret_text(name@),
{
    join2(name, "-db-ro-password")
}

/// Whether the instance has a read-only database role.
pub open spec fn ro_enabled(instance: &OdooInstance) -> bool {
    instance.spec.read_only_sql_access matches Some(ro) && ro.enabled
}

/// Whether `env` are the variables that hand the read-only credentials to the web pod.
pub open spec fn are_ro_env(env: Seq<EnvVar>, instance: &OdooInstance) -> bool {
    if ro_enabled(instance) {
        &&& env.len() == 2
        &&& is_secret_env(
            env[0],
            "ODOO_RO_DB_USER"@,
            ro_secret_text(instance.name()),
            "username"@,
        )
        &&& is_secret_env(
            env[1],
            "ODOO_RO_DB_PASSWORD"@,
            ro_secret_text(instance.name()),
            "password"@,
        )
    } else {
        env.len() == 0
    }
}

/// The variables that hand the read-only credentials to the web pod, where the instance has
/// a read-only role.
pub fn readonly_sql_env(instance: &OdooInstance) -> (r: Vec<EnvVar>)
    ensures
        are_ro_env(r@, instance),
{
    let enabled = match &instance.spec.read_only_sql_access {
        Some(ro) => ro.enabled,
        None => false,
    };
    if !enabled {
        return Vec::new();
    }
    let name = instance.metadata.name_any();
    let secret = ro_secret_name(name.as_str());
    vec![
        secret_env("ODOO_RO_DB_USER", secret.as_str(), "username"),
        secret_env("ODOO_RO_DB_PASSWORD", secret.as_str(), "password"),
    ]
}

// ── Filestore ───────────────────────────────────────────────────────────────

/// The storage size of an instance.
pub open spec fn storage_size_text(i: &OdooInstance, d: &OperatorDefaults) -> Seq<char> {
    match i.spec.filestore {
        Some(f) => match f.storage_size {
            Some(size) => size@,
            None => d.storage_size@,
        },
        None => d.storage_size@,
    }
}

/// The storage class of an instance.
pub open spec fn storage_class_text(i: &OdooInstance, d: &OperatorDefaults) -> Seq<char> {
    match i.spec.filestore {
        Some(f) => match f.storage_class {
            Some(class) => class@,
            None => d.storage_class@,
        },
        None => d.storage_class@,
    }
}

/// The bytes of a quantity, none where it is no quantity.
pub open spec fn bytes_or_zero(s: Seq<char>) -> nat {
    match quantity(s) {
        Ok(bytes) => bytes,
        Err(_) => 0,
    }
}

fn quantity_bytes(s: &str) -> (r: u64)
    ensures
        r == bytes_or_zero(s@),
{
    match parse_quantity(s) {
        Ok(bytes) => bytes,
        Err(_) => 0,
    }
}

/// What to do about the filestore claim of an instance.
#[derive(Debug)]
pub enum ClaimPlan {
    /// Leave it as it is.
    Leave,
    /// Request more storage from it.
    Expand { storage: String },
    /// Create it.
    Create(PersistentVolumeClaim),
}

/// The namespace and the name of the claim that a staging instance may be cloned from.
pub open spec fn production_claim_text(namespace: Seq<char>, instance: &OdooInstance) -> Option<
    (Seq<char>, Seq<char>),
> {
    match (instance.spec.environment, instance.spec.production_instance_ref) {
        (Environment::Staging, Some(production)) => Some(
            (
                match production.namespace {
                    Some(ns) => ns@,
                    None => namespace,
                },
                claim_name(production.name@),
            ),
        ),
        _ => None,
    }
}

/// The claim that a staging instance may be cloned from: its namespace and its name.
pub fn production_claim(namespace: &str, instance: &OdooInstance) -> (r: Option<(String, String)>)
    ensures
        match production_claim_text(namespace@, instance) {
            Some(claim) => r matches Some(c) && c.0@ == claim.0 && c.1@ == claim.1,
            None => r is None,
        },
{
    match instance.spec.environment {
        Environment::Staging => match &instance.spec.production_instance_ref {
            Some(production) => {
                let ns = match &production.namespace {
                    Some(ns) => ns.clone(),
                    None => namespace.to_owned(),
                };
                Some((ns, filestore_claim_name(production.name.as_str())))
            },
            None => None,
        },
        Environment::Production => None,
    }
}

/// The storage class that the filestore of an instance asks for.
pub open spec fn requested_class(instance: &OdooInstance) -> Option<Seq<char>> {
    match instance.spec.filestore {
        Some(f) => opt_text(f.storage_class),
        None => None,
    }
}

/// Whether `source` refers to the claim `claim` from `namespace`. The namespace is named only
/// where it is another one: naming it otherwise makes the API server drop the reference.
pub open spec fn is_claim_source(
    source: TypedObjectReference,
    namespace: Seq<char>,
    claim: (Seq<char>, Seq<char>),
) -> bool {
    &&& source.api_group is None
    &&& source.kind@ == "PersistentVolumeClaim"@
    &&& source.name@ == claim.1
    &&& opt_text(source.namespace) == if claim.0 == namespace {
        None
    } else {
        Some(claim.0)
    }
}

/// Whether `source` is the production claim, where a staging instance can be cloned from it:
/// the claim was found, and its storage class is the one that the instance asks for.
pub open spec fn is_pvc_source(
    source: Option<TypedObjectReference>,
    namespace: Seq<char>,
    instance: &OdooInstance,
    production_class: Option<Option<String>>,
) -> bool {
    match (production_claim_text(namespace, instance), production_class) {
        (Some(claim), Some(class)) => if requested_class(instance) == opt_text(class) {
            source matches Some(s) && is_claim_source(s, namespace, claim)
        } else {
            source is None
        },
        _ => source is None,
    }
}

/// The production claim as the source of a new claim, where a staging instance can be cloned
/// from it. `production_class` is the storage class of the production claim, where that claim
/// was found.
pub fn get_pvc_source(
    namespace: &str,
    instance: &OdooInstance,
    production_class: &Option<Option<String>>,
) -> (r: Option<TypedObjectReference>)
    ensures
        is_pvc_source(r, namespace@, instance, *production_class),
{
    let (claim_namespace, claim) = match production_claim(namespace, instance) {
        Some(c) => c,
        None => return None,
    };
    let found = match production_class {
        Some(class) => class,
        None => return None,
    };
    let same_class = match &instance.spec.filestore {
        Some(f) => same_opt_text(&f.storage_class, found),
        None => found.is_none(),
    };
    if !same_class {
        return None;
    }
    let source_namespace = if same_text(claim_namespace.as_str(), namespace) {
        None
    } else {
        Some(claim_namespace)
    };
    Some(
        TypedObjectReference {
            api_group: None,
            kind: "PersistentVolumeClaim".to_owned(),
            name: claim,
            namespace: source_namespace,
        },
    )
}

/// Whether `claim` is the filestore claim of the instance `name`.
pub open spec fn is_filestore_pvc(
    claim: PersistentVolumeClaim,
    namespace: Seq<char>,
    name: Seq<char>,
    instance: &OdooInstance,
    defaults: &OperatorDefaults,
    oref: OwnerReference,
) -> bool {
    &&& is_named_meta(claim.metadata, claim_name(name), namespace, None, None, seq![oref])
    &&& texts(claim.access_modes@) == seq!["ReadWriteMany"@]
    &&& claim.storage@ == storage_size_text(instance, defaults)
    &&& opt_text(claim.storage_class_name) == Some(storage_class_text(instance, defaults))
}

/// Whether `r` is what to do about the filestore claim of an instance.
pub open spec fn is_claim_plan(
    r: ClaimPlan,
    namespace: Seq<char>,
    name: Seq<char>,
    instance: &OdooInstance,
    defaults: &OperatorDefaults,
    oref: OwnerReference,
    existing: Option<String>,
    explicit_source: Option<TypedObjectReference>,
    production_class: Option<Option<String>>,
) -> bool {
    if instance.ephemeral() {
        r is Leave
    } else {
        match existing {
            Some(current) => if bytes_or_zero(storage_size_text(instance, defaults))
                > bytes_or_zero(current@) {
                r matches ClaimPlan::Expand { storage } && storage@ == storage_size_text(
                    instance,
                    defaults,
                )
            } else {
                r is Leave
            },
            None => r matches ClaimPlan::Create(claim) && is_filestore_pvc(
                claim,
                namespace,
                name,
                instance,
                defaults,
                oref,
            ) && if explicit_source is Some {
                claim.data_source_ref == explicit_source
            } else {
                is_pvc_source(claim.data_source_ref, namespace, instance, production_class)
            },
        }
    }
}

/// Creates the filestore claim of an instance, or expands it where the instance asks for more
/// than it has. A claim never shrinks, and an ephemeral instance has none.
///
/// `existing` is the storage that the claim requests, where it exists. A new claim is filled
/// from `explicit_source` where that is given, else from the production claim where that is
/// possible (see `get_pvc_source`).
pub fn ensure_filestore_pvc(
    namespace: &str,
    name: &str,
    instance: &OdooInstance,
    defaults: &OperatorDefaults,
    oref: &OwnerReference,
    existing: &Option<String>,
    explicit_source: Option<TypedObjectReference>,
    production_class: &Option<Option<String>>,
) -> (r: ClaimPlan)
    ensures
        is_claim_plan(
            r,
            namespace@,
            name@,
            instance,
            defaults,
            *oref,
            *existing,
            explicit_source,
            *production_class,
        ),
{
    if instance.is_ephemeral() {
        return ClaimPlan::Leave;
    }
    let (size, class): (String, String) = match &instance.spec.filestore {
        Some(f) => {
            let size = match &f.storage_size {
                Some(s) => s.clone(),
                None => defaults.storage_size.clone(),
            };
            let class = match &f.storage_class {
                Some(c) => c.clone(),
                None => defaults.storage_class.clone(),
            };
            (size, class)
        },
        None => (defaults.storage_size.clone(), defaults.storage_class.clone()),
    };
    if let Some(current) = existing {
        let desired_bytes = quantity_bytes(size.as_str());
        let current_bytes = quantity_bytes(current.as_str());
        if desired_bytes > current_bytes {
            return ClaimPlan::Expand { storage: size };
        }
        return ClaimPlan::Leave;
    }
    let source = match explicit_source {
        Some(s) => Some(s),
        None => get_pvc_source(namespace, instance, production_class),
    };
    let claim = filestore_claim_name(name);
    let access_modes = vec!["ReadWriteMany".to_owned()];
    proof {
        assert(texts(access_modes@) =~= seq!["ReadWriteMany"@]);
    }
    ClaimPlan::Create(
        PersistentVolumeClaim {
            metadata: named_meta(claim.as_str(), namespace, None, None, oref),
            access_modes,
            data_source_ref: source,
            storage: size,
            storage_class_name: Some(class),
        },
    )
}

// ── Configuration ───────────────────────────────────────────────────────────

/// The PostgreSQL cluster that an instance is connected to.
#[derive(Debug)]
pub struct PostgresClusterConfig {
    pub host: String,
    pub port: i32,
}

/// The content of `odoo.conf` of an instance.
pub open spec fn instance_conf(
    namespace: Seq<char>,
    name: Seq<char>,
    instance: &OdooInstance,
    pg: &PostgresClusterConfig,
    password: Seq<char>,
) -> Seq<char> {
    conf_text(
        conf_options(
            base_options(
                username(namespace, name),
                password,
                pg.host@,
                pg.port as int,
                database_name(instance),
            ),
            instance.spec.admin_password@,
            opt_map(instance.spec.config_options),
        ),
    )
}

/// Whether `map` is the configuration of an instance: `odoo.conf`, and beside it how the
/// database is reached.
pub open spec fn is_config_map(
    map: ConfigMap,
    namespace: Seq<char>,
    name: Seq<char>,
    instance: &OdooInstance,
    pg: &PostgresClusterConfig,
    oref: OwnerReference,
    password: Seq<char>,
) -> bool {
    &&& is_named_meta(map.metadata, conf_name(name), namespace, None, None, seq![oref])
    &&& map.data@ == one_entry(
        "odoo.conf"@,
        instance_conf(namespace, name, instance, pg, password),
    ).insert("db_host"@, pg.host@).insert("db_port"@, int_text(pg.port as int)).insert(
        "db_name"@,
        database_name(instance),
    ).insert("db_user"@, username(namespace, name)).insert("db_password"@, password)
}

/// Whether `map` is the configuration of an instance, with the password in its secret.
pub open spec fn is_configured_with(
    map: ConfigMap,
    namespace: Seq<char>,
    name: Seq<char>,
    instance: &OdooInstance,
    pg: &PostgresClusterConfig,
    oref: OwnerReference,
    credentials: Seq<SecretEntry>,
) -> bool {
    is_config_map(
        map,
        namespace,
        name,
        instance,
        pg,
        oref,
        secret_text(credentials, "password"@),
    )
}

/// The configuration of an instance. `credentials` is its secret with the database password.
pub fn ensure_config_map(
    namespace: &str,
    name: &str,
    instance: &OdooInstance,
    pg: &PostgresClusterConfig,
    oref: &OwnerReference,
    credentials: &Vec<SecretEntry>,
) -> (r: ConfigMap)
    ensures
        is_configured_with(r, namespace@, name@, instance, pg, *oref, credentials@),
{
    let user = odoo_username(namespace, name);
    let db = db_name(instance);
    let password = read_secret_text(credentials, "password");
    let conf = build_odoo_conf(
        user.as_str(),
        password.as_str(),
        instance.spec.admin_password.as_str(),
        pg.host.as_str(),
        pg.port,
        db.as_str(),
        &instance.spec.config_options,
    );
    let map_name = odoo_conf_name(name);
    let mut data = one_entry_map("odoo.conf", conf.as_str());
    data.insert("db_host".to_owned(), pg.host.clone());
    data.insert("db_port".to_owned(), decimal(pg.port));
    data.insert("db_name".to_owned(), db);
    data.insert("db_user".to_owned(), user);
    data.insert("db_password".to_owned(), password);
    ConfigMap { metadata: named_meta(map_name.as_str(), namespace, None, None, oref), data }
}

// ── Routing ─────────────────────────────────────────────────────────────────

/// Whether `p` is the port of that name and number.
pub open spec fn is_service_port(p: ServicePort, name: Seq<char>, port: i32) -> bool {
    &&& p.name@ == name
    &&& p.port == port
    &&& p.target_port == port
    &&& p.protocol@ == "TCP"@
}

fn service_port(name: &str, port: i32) -> (r: ServicePort)
    ensures
        is_service_port(r, name@, port),
{
    ServicePort { name: name.to_owned(), port, target_port: port, protocol: "TCP".to_owned() }
}

/// Whether `s` is the Service in front of the web pods of the instance `name`.
pub open spec fn is_service(
    s: Service,
    namespace: Seq<char>,
    name: Seq<char>,
    oref: OwnerReference,
) -> bool {
    &&& is_named_meta(
        s.metadata,
        name,
        namespace,
        Some(one_entry("app"@, name)),
        None,
        seq![oref],
    )
    &&& s.type_@ == "ClusterIP"@
    &&& s.selector@ == one_entry("app"@, name)
    &&& s.ports@.len() == 2
    &&& is_service_port(s.ports@[0], "http"@, 8069)
    &&& is_service_port(s.ports@[1], "websocket"@, 8072)
}

/// The Service in front of the web pods of the instance `name`.
pub fn ensure_service(namespace: &str, name: &str, oref: &OwnerReference) -> (r: Service)
    ensures
        is_service(r, namespace@, name@, *oref),
{
    Service {
        metadata: named_meta(name, namespace, Some(one_entry_map("app", name)), None, oref),
        type_: "ClusterIP".to_owned(),
        selector: one_entry_map("app", name),
        ports: vec![service_port("http", 8069), service_port("websocket", 8072)],
    }
}

/// Whether `p` routes a path prefix to a port of the instance `name`.
pub open spec fn is_ingress_path(
    p: HTTPIngressPath,
    path: Seq<char>,
    name: Seq<char>,
    port: i32,
) -> bool {
    &&& p.path@ == path
    &&& p.path_type@ == "Prefix"@
    &&& p.service_name@ == name
    &&& p.service_port == port
}

fn ingress_path(path: &str, name: &str, port: i32) -> (r: HTTPIngressPath)
    ensures
        is_ingress_path(r, path@, name@, port),
{
    HTTPIngressPath {
        path: path.to_owned(),
        path_type: "Prefix".to_owned(),
        service_name: name.to_owned(),
        service_port: port,
    }
}

/// Whether `rule` routes a host to the instance `name`, websockets apart.
pub open spec fn is_ingress_rule(rule: IngressRule, host: Seq<char>, name: Seq<char>) -> bool {
    &&& rule.host@ == host
    &&& rule.paths@.len() == 2
    &&& is_ingress_path(rule.paths@[0], "/websocket"@, name, 8072)
    &&& is_ingress_path(rule.paths@[1], "/"@, name, 8069)
}

/// The annotations of an instance's Ingress: the certificate issuer, where there is one.
pub open spec fn ingress_annotations(instance: &OdooInstance) -> Map<Seq<char>, Seq<char>> {
    match instance.spec.ingress.issuer {
        Some(issuer) => one_entry("cert-manager.io/cluster-issuer"@, issuer@),
        None => Map::empty(),
    }
}

/// Whether `ingress` routes every host of the instance to it, and has a certificate for them.
pub open spec fn is_ingress(
    ingress: Ingress,
    namespace: Seq<char>,
    name: Seq<char>,
    instance: &OdooInstance,
    oref: OwnerReference,
) -> bool {
    let hosts = instance.spec.ingress.hosts@;
    &&& is_named_meta(
        ingress.metadata,
        name,
        namespace,
        None,
        Some(ingress_annotations(instance)),
        seq![oref],
    )
    &&& opt_text(ingress.ingress_class_name) == opt_text(instance.spec.ingress.class)
    &&& ingress.rules@.len() == hosts.len()
    &&& forall|i: int|
        0 <= i < hosts.len() ==> is_ingress_rule(#[trigger] ingress.rules@[i], hosts[i]@, name)
    &&& ingress.tls@.len() == 1
    &&& texts(ingress.tls@[0].hosts@) == texts(hosts)
    &&& ingress.tls@[0].secret_name@ == name + "-tls"@
}

fn copy_texts(v: &Vec<String>) -> (r: Vec<String>)
    ensures
        texts(r@) == texts(v@),
{
    let out = v.clone();
    proof {
        assert(texts(out@) =~= texts(v@));
    }
    out
}

/// The Ingress of an instance.
pub fn ensure_ingress(
    namespace: &str,
    name: &str,
    instance: &OdooInstance,
    oref: &OwnerReference,
) -> (r: Ingress)
    ensures
        is_ingress(r, namespace@, name@, instance, *oref),
{
    let annotations = match &instance.spec.ingress.issuer {
        Some(issuer) => one_entry_map("cert-manager.io/cluster-issuer", issuer.as_str()),
        None => StringMap::new(),
    };
    let hosts = &instance.spec.ingress.hosts;
    let mut rules: Vec<IngressRule> = Vec::new();
    let mut i: usize = 0;
    while i < hosts.len()
        invariant
            i <= hosts@.len(),
            rules@.len() == i,
            forall|j: int| 0 <= j < i ==> is_ingress_rule(#[trigger] rules@[j], hosts@[j]@, name@),
        decreases hosts@.len() - i,
    {
        let rule = IngressRule {
            host: hosts[i].clone(),
            paths: vec![ingress_path("/websocket", name, 8072), ingress_path("/", name, 8069)],
        };
        rules.push(rule);
        i = i + 1;
    }
    let certificate = IngressTLS { hosts: copy_texts(hosts), secret_name: join2(name, "-tls") };
    Ingress {
        metadata: named_meta(name, namespace, None, Some(annotations), oref),
        ingress_class_name: instance.spec.ingress.class.clone(),
        rules,
        tls: vec![certificate],
    }
}

/// Whether `rule` routes a path prefix to a port of the instance `name`.
pub open spec fn is_route_rule(
    rule: HTTPRouteRule,
    path: Seq<char>,
    name: Seq<char>,
    port: i32,
) -> bool {
    &&& rule.path_prefix@ == path
    &&& rule.backend_kind@ == "Service"@
    &&& rule.backend_name@ == name
    &&& rule.backend_port == port
}

fn route_rule(path: &str, name: &str, port: i32) -> (r: HTTPRouteRule)
    ensures
        is_route_rule(r, path@, name@, port),
{
    HTTPRouteRule {
        path_prefix: path.to_owned(),
        backend_kind: "Service".to_owned(),
        backend_name: name.to_owned(),
        backend_port: port,
    }
}

/// Whether `route` routes every host of the instance from the Gateway to it.
pub open spec fn is_http_route(
    route: HTTPRoute,
    namespace: Seq<char>,
    name: Seq<char>,
    instance: &OdooInstance,
    gateway: &GatewayRef,
    oref: OwnerReference,
) -> bool {
    &&& is_named_meta(route.metadata, name, namespace, None, None, seq![oref])
    &&& route.parent_refs@.len() == 1
    &&& route.parent_refs@[0].group@ == "gateway.networking.k8s.io"@
    &&& route.parent_refs@[0].kind@ == "Gateway"@
    &&& route.parent_refs@[0].namespace@ == gateway.namespace@
    &&& route.parent_refs@[0].name@ == gateway.name@
    &&& texts(route.hostnames@) == texts(instance.spec.ingress.hosts@)
    &&& route.rules@.len() == 2
    &&& is_route_rule(route.rules@[0], "/websocket"@, name, 8072)
    &&& is_route_rule(route.rules@[1], "/"@, name, 8069)
}

/// The route of an instance behind a Gateway.
pub fn ensure_http_route(
    namespace: &str,
    name: &str,
    instance: &OdooInstance,
    gateway_ref: &GatewayRef,
    oref: &OwnerReference,
) -> (r: HTTPRoute)
    ensures
        is_http_route(r, namespace@, name@, instance, gateway_ref, *oref),
{
    let parent = HTTPRouteParentRef {
        group: "gateway.networking.k8s.io".to_owned(),
        kind: "Gateway".to_owned(),
        namespace: gateway_ref.namespace.clone(),
        name: gateway_ref.name.clone(),
    };
    HTTPRoute {
        metadata: named_meta(name, namespace, None, None, oref),
        parent_refs: vec![parent],
        hostnames: copy_texts(&instance.spec.ingress.hosts),
        rules: vec![route_rule("/websocket", name, 8072), route_rule("/", name, 8069)],
    }
}

/// How an instance is exposed. What the other way would have created is deleted.
#[derive(Debug)]
pub enum Routing {
    /// Apply the route, and delete an Ingress of the same name where there is one.
    Gateway(HTTPRoute),
    /// Apply the Ingress, and delete a route of the same name where there is one.
    Ingress(Ingress),
}

/// Whether `r` is how an instance is exposed.
pub open spec fn is_routing(
    r: Routing,
    namespace: Seq<char>,
    name: Seq<char>,
    instance: &OdooInstance,
    oref: OwnerReference,
) -> bool {
    match instance.spec.ingress.gateway_ref {
        Some(gateway) => r matches Routing::Gateway(route) && is_http_route(
            route,
            namespace,
            name,
            instance,
            &gateway,
            oref,
        ),
        None => r matches Routing::Ingress(ingress) && is_ingress(
            ingress,
            namespace,
            name,
            instance,
            oref,
        ),
    }
}

/// How an instance is exposed: through a Gateway where it names one, else by an Ingress.
pub fn ensure_routing(
    namespace: &str,
    name: &str,
    instance: &OdooInstance,
    oref: &OwnerReference,
) -> (r: Routing)
    ensures
        is_routing(r, namespace@, name@, instance, *oref),
{
    match &instance.spec.ingress.gateway_ref {
        Some(gateway) => Routing::Gateway(
            ensure_http_route(namespace, name, instance, gateway, oref),
        ),
        None => Routing::Ingress(ensure_ingress(namespace, name, instance, oref)),
    }
}

// ── Deployments ─────────────────────────────────────────────────────────────

/// The image of an instance's Odoo containers.
pub open spec fn image_text(i: &OdooInstance, d: &OperatorDefaults) -> Seq<char> {
    match i.spec.image {
        Some(image) => image@,
        None => d.odoo_image@,
    }
}

/// The image of an instance's Odoo containers.
pub fn image_of(instance: &OdooInstance, defaults: &OperatorDefaults) -> (r: String)
    ensures
        r@ == image_text(instance, defaults),
{
    match &instance.spec.image {
        Some(image) => image.clone(),
        None => defaults.odoo_image.clone(),
    }
}

/// Whether `s` is the update strategy that the instance asks for. Where nothing is said, the
/// pods are recreated, and a rolling update takes down and adds a quarter of them.
pub open spec fn is_strategy(s: DeploymentStrategy, instance: &OdooInstance) -> bool {
    match instance.spec.strategy {
        Some(wanted) => match wanted.strategy_type {
            DeploymentStrategyType::Recreate => {
                &&& opt_text(s.type_) == Some("Recreate"@)
                &&& s.rolling_update is None
            },
            DeploymentStrategyType::RollingUpdate => {
                &&& opt_text(s.type_) == Some("RollingUpdate"@)
                &&& s.rolling_update matches Some(rolling)
                &&& opt_text(rolling.max_unavailable) == Some(
                    match wanted.rolling_update {
                        Some(r) => r.max_unavailable@,
                        None => "25%"@,
                    },
                )
                &&& opt_text(rolling.max_surge) == Some(
                    match wanted.rolling_update {
                        Some(r) => r.max_surge@,
                        None => "25%"@,
                    },
                )
            },
        },
        None => {
            &&& opt_text(s.type_) == Some("Recreate"@)
            &&& s.rolling_update is None
        },
    }
}

fn strategy_of(instance: &OdooInstance) -> (r: DeploymentStrategy)
    ensures
        is_strategy(r, instance),
{
    if let Some(wanted) = &instance.spec.strategy {
        match wanted.strategy_type {
            DeploymentStrategyType::RollingUpdate => {
                let rolling = match &wanted.rolling_update {
                    Some(r) => RollingUpdateDeployment {
                        max_unavailable: Some(r.max_unavailable.clone()),
                        max_surge: Some(r.max_surge.clone()),
                    },
                    None => RollingUpdateDeployment {
                        max_unavailable: Some(default_25_percent()),
                        max_surge: Some(default_25_percent()),
                    },
                };
                return DeploymentStrategy {
                    type_: Some("RollingUpdate".to_owned()),
                    rolling_update: Some(rolling),
                };
            },
            DeploymentStrategyType::Recreate => {},
        }
    }
    DeploymentStrategy { type_: Some("Recreate".to_owned()), rolling_update: None }
}

/// The labels of a Deployment and its pods.
pub open spec fn deployment_labels(app: Seq<char>, instance: &OdooInstance) -> Map<
    Seq<char>,
    Seq<char>,
> {
    one_entry("app"@, app).union_prefer_right(labels_of(instance))
}

fn labels_for(app: &str, instance: &OdooInstance) -> (r: StringMap)
    ensures
        r@ == deployment_labels(app@, instance),
{
    let mut labels = one_entry_map("app", app);
    labels.extend(&instance_labels(instance));
    labels
}

/// Whether `env` are the operator's variables: the database, which the environment overrides
/// in the configuration file, and what follows it in `more`.
pub open spec fn is_base_env(env: Seq<EnvVar>, instance: &OdooInstance, more: Seq<EnvVar>) -> bool {
    &&& env.len() == 1 + more.len()
    &&& is_env(env[0], "PGDATABASE"@, database_name(instance))
    &&& env.skip(1) == more
}

/// Whether `spec` is the pod of a Deployment of the instance: what web and cron pods share.
pub open spec fn is_odoo_pod(spec: PodSpec, name: Seq<char>, instance: &OdooInstance) -> bool {
    &&& spec.restart_policy is None
    &&& are_pull_secrets(spec.image_pull_secrets, instance)
    &&& spec.affinity == instance.spec.affinity
    &&& is_nonempty_list(spec.tolerations, instance.spec.tolerations@)
    &&& spec.security_context == Some(
        PodSecurityContext { run_as_user: Some(100), run_as_group: Some(101), fs_group: Some(101) },
    )
    &&& spec.volumes matches Some(volumes)
    &&& are_odoo_volumes(volumes@, name, instance.ephemeral())
    &&& spec.init_containers is None
    &&& spec.containers@.len() == 1
}

/// The container that a Deployment runs.
pub open spec fn pod_container(d: Deployment) -> Container {
    d.spec.template.spec->0.containers@[0]
}

/// Whether `d` runs one container as the Deployment `app` of the instance `name`. The selector
/// stays on the label `app` alone, since it cannot change later. A change of the configuration
/// changes the pod's annotation, and so rolls the pods.
pub open spec fn is_odoo_deployment(
    d: Deployment,
    namespace: Seq<char>,
    app: Seq<char>,
    name: Seq<char>,
    instance: &OdooInstance,
    oref: OwnerReference,
    replicas: i32,
    conf: Seq<char>,
) -> bool {
    &&& is_named_meta(
        d.metadata,
        app,
        namespace,
        Some(deployment_labels(app, instance)),
        None,
        seq![oref],
    )
    &&& d.spec.replicas == Some(replicas)
    &&& d.spec.match_labels@ == one_entry("app"@, app)
    &&& is_strategy(d.spec.strategy, instance)
    &&& d.spec.template.metadata matches Some(meta)
    &&& meta.name is None
    &&& meta.generate_name is None
    &&& meta.namespace is None
    &&& meta.uid is None
    &&& meta.creation_timestamp is None
    &&& opt_map(meta.labels) == Some(deployment_labels(app, instance))
    &&& opt_map(meta.annotations) == Some(one_entry("bemade.org/odoo-conf-hash"@, sha256_text(conf)))
    &&& meta.owner_references is None
    &&& d.spec.template.spec matches Some(pod)
    &&& is_odoo_pod(pod, name, instance)
}

fn copy_tolerations(v: &Vec<k8s_openapi::api::core::v1::Toleration>) -> (r: Option<
    Vec<k8s_openapi::api::core::v1::Toleration>,
>)
    ensures
        is_nonempty_list(r, v@),
{
    if v.is_empty() {
        None
    } else {
        let out = v.clone();
        proof {
            assert(out@ =~= v@);
        }
        Some(out)
    }
}

fn copy_env_from(v: &Vec<k8s_openapi::api::core::v1::EnvFromSource>) -> (r: Option<
    Vec<k8s_openapi::api::core::v1::EnvFromSource>,
>)
    ensures
        is_nonempty_list(r, v@),
{
    if v.is_empty() {
        None
    } else {
        let out = v.clone();
        proof {
            assert(out@ =~= v@);
        }
        Some(out)
    }
}

fn odoo_deployment(
    namespace: &str,
    app: &str,
    name: &str,
    instance: &OdooInstance,
    oref: &OwnerReference,
    replicas: i32,
    conf: &str,
    container: Container,
) -> (r: Deployment)
    ensures
        is_odoo_deployment(r, namespace@, app@, name@, instance, *oref, replicas, conf@),
        pod_container(r) == container,
{
    let hash = sha256_hex(conf);
    Deployment {
        metadata: named_meta(app, namespace, Some(labels_for(app, instance)), None, oref),
        spec: DeploymentSpec {
            replicas: Some(replicas),
            match_labels: one_entry_map("app", app),
            strategy: strategy_of(instance),
            template: PodTemplateSpec {
                metadata: Some(
                    ObjectMeta {
                        name: None,
                        generate_name: None,
                        namespace: None,
                        uid: None,
                        creation_timestamp: None,
                        labels: Some(labels_for(app, instance)),
                        annotations: Some(
                            one_entry_map("bemade.org/odoo-conf-hash", hash.as_str()),
                        ),
                        owner_references: None,
                    },
                ),
                spec: Some(
                    PodSpec {
                        restart_policy: None,
                        image_pull_secrets: image_pull_secrets(instance),
                        affinity: instance.spec.affinity.clone(),
                        tolerations: copy_tolerations(&instance.spec.tolerations),
                        security_context: Some(odoo_security_context()),
                        volumes: Some(pod_volumes(name, instance.is_ephemeral())),
                        init_containers: None,
                        containers: vec![container],
                    },
                ),
            },
        },
    }
}

/// Whether `p` requests a path of the web port.
pub open spec fn is_http_probe(
    p: Option<Probe>,
    path: Seq<char>,
    initial_delay: Option<i32>,
    period: i32,
    failures: i32,
) -> bool {
    &&& p matches Some(probe)
    &&& probe.http_get matches Some(get)
    &&& opt_text(get.path) == Some(path)
    &&& get.port == 8069
    &&& probe.exec_action is None
    &&& probe.initial_delay_seconds == initial_delay
    &&& probe.period_seconds == Some(period)
    &&& probe.timeout_seconds == Some(5i32)
    &&& probe.failure_threshold == Some(failures)
}

fn http_probe(path: String, initial_delay: Option<i32>, period: i32, failures: i32) -> (r: Option<
    Probe,
>)
    ensures
        is_http_probe(r, path@, initial_delay, period, failures),
{
    Some(
        Probe {
            http_get: Some(HTTPGetAction { path: Some(path), port: 8069 }),
            exec_action: None,
            initial_delay_seconds: initial_delay,
            period_seconds: Some(period),
            timeout_seconds: Some(5),
            failure_threshold: Some(failures),
        },
    )
}

/// Whether `p` runs a Python script.
pub open spec fn is_script_probe(
    p: Option<Probe>,
    script: Seq<char>,
    initial_delay: i32,
    period: i32,
    failures: i32,
) -> bool {
    &&& p matches Some(probe)
    &&& probe.http_get is None
    &&& probe.exec_action matches Some(action)
    &&& action.command matches Some(command)
    &&& texts(command@) == seq!["python3"@, "-c"@, script]
    &&& probe.initial_delay_seconds == Some(initial_delay)
    &&& probe.period_seconds == Some(period)
    &&& probe.timeout_seconds == Some(5i32)
    &&& probe.failure_threshold == Some(failures)
}

fn script_probe(script: &str, initial_delay: i32, period: i32, failures: i32) -> (r: Option<Probe>)
    ensures
        is_script_probe(r, script@, initial_delay, period, failures),
{
    let command = vec!["python3".to_owned(), "-c".to_owned(), script.to_owned()];
    proof {
        assert(texts(command@) =~= seq!["python3"@, "-c"@, script@]);
    }
    Some(
        Probe {
            http_get: None,
            exec_action: Some(ExecAction { command: Some(command) }),
            initial_delay_seconds: Some(initial_delay),
            period_seconds: Some(period),
            timeout_seconds: Some(5),
            failure_threshold: Some(failures),
        },
    )
}

/// The paths of the startup, liveness and readiness checks.
pub open spec fn probe_paths(instance: &OdooInstance) -> (Seq<char>, Seq<char>, Seq<char>) {
    match instance.spec.probes {
        Some(p) => (p.startup_path@, p.liveness_path@, p.readiness_path@),
        None => ("/web/health"@, "/web/health"@, "/web/health"@),
    }
}

fn probe_paths_of(instance: &OdooInstance) -> (r: (String, String, String))
    ensures
        (r.0@, r.1@, r.2@) == probe_paths(instance),
{
    match &instance.spec.probes {
        Some(p) => (p.startup_path.clone(), p.liveness_path.clone(), p.readiness_path.clone()),
        None => (
            "/web/health".to_owned(),
            "/web/health".to_owned(),
            "/web/health".to_owned(),
        ),
    }
}

/// Whether `p` is a port of that name and number.
pub open spec fn is_container_port(p: ContainerPort, name: Seq<char>, port: i32) -> bool {
    &&& opt_text(p.name) == Some(name)
    &&& p.container_port == port
}

/// Whether `c` is the web container of the instance `name`. It serves HTTP and runs no
/// scheduled actions. Its environment is the database, the read-only credentials where the
/// instance has them, and the instance's own variables over these.
pub open spec fn is_web_container(
    c: Container,
    name: Seq<char>,
    instance: &OdooInstance,
    defaults: &OperatorDefaults,
) -> bool {
    &&& c.name@ == "odoo-"@ + name
    &&& opt_text(c.image) == Some(image_text(instance, defaults))
    &&& opt_text(c.image_pull_policy) == Some("IfNotPresent"@)
    &&& c.command matches Some(command)
    &&& texts(command@) == seq!["/entrypoint.sh"@, "odoo"@, "--max-cron-threads"@, "0"@]
    &&& c.args is None
    &&& c.ports matches Some(ports)
    &&& ports@.len() == 2
    &&& is_container_port(ports@[0], "http"@, 8069)
    &&& is_container_port(ports@[1], "websocket"@, 8072)
    &&& c.env matches Some(env)
    &&& exists|base: Seq<EnvVar>, ro: Seq<EnvVar>|
        {
            &&& #[trigger] are_ro_env(ro, instance)
            &&& #[trigger] is_base_env(base, instance, ro)
            &&& env@ == merged_env(base, instance.spec.extra_env@)
        }
    &&& is_nonempty_list(c.env_from, instance.spec.extra_env_from@)
    &&& c.volume_mounts matches Some(mounts)
    &&& are_odoo_mounts(mounts@)
    &&& c.resources == instance.spec.resources
    &&& is_http_probe(c.startup_probe, probe_paths(instance).0, Some(5i32), 10, 30)
    &&& is_http_probe(c.liveness_probe, probe_paths(instance).1, None, 15, 3)
    &&& is_http_probe(c.readiness_probe, probe_paths(instance).2, None, 10, 3)
    &&& c.security_context is None
}

/// The resources of the pods that run scheduled actions: their own, else those of the web pods.
pub open spec fn cron_resources_of(instance: &OdooInstance) -> Option<
    k8s_openapi::api::core::v1::ResourceRequirements,
> {
    if instance.spec.cron.resources is Some {
        instance.spec.cron.resources
    } else {
        instance.spec.resources
    }
}

/// Whether `c` is the container of the instance `name` that runs scheduled actions. It serves
/// no HTTP, so its health is checked by scripts that query the database.
pub open spec fn is_cron_container(
    c: Container,
    name: Seq<char>,
    instance: &OdooInstance,
    defaults: &OperatorDefaults,
    startup_script: Seq<char>,
    liveness_script: Seq<char>,
) -> bool {
    &&& c.name@ == "odoo-cron-"@ + name
    &&& opt_text(c.image) == Some(image_text(instance, defaults))
    &&& opt_text(c.image_pull_policy) == Some("IfNotPresent"@)
    &&& c.command matches Some(command)
    &&& texts(command@) == seq!["/entrypoint.sh"@, "odoo"@, "--workers"@, "0"@, "--no-http"@]
    &&& c.args is None
    &&& c.ports is None
    &&& c.env matches Some(env)
    &&& exists|base: Seq<EnvVar>|
        {
            &&& #[trigger] is_base_env(base, instance, Seq::empty())
            &&& env@ == merged_env(base, instance.spec.extra_env@)
        }
    &&& is_nonempty_list(c.env_from, instance.spec.extra_env_from@)
    &&& c.volume_mounts matches Some(mounts)
    &&& are_odoo_mounts(mounts@)
    &&& c.resources == cron_resources_of(instance)
    &&& is_script_probe(c.startup_probe, startup_script, 5, 10, 30)
    &&& is_script_probe(c.liveness_probe, liveness_script, 300, 30, 3)
    &&& c.readiness_probe is None
    &&& c.security_context is None
}

/// The number of replicas that a Deployment has, none where it does not exist or does not say.
pub open spec fn kept_replicas(current: Option<i32>) -> i32 {
    match current {
        Some(n) => n,
        None => 0,
    }
}

/// Whether `d` is the web Deployment of an instance, with the replicas that it has.
pub open spec fn is_web_deployment(
    d: Deployment,
    namespace: Seq<char>,
    name: Seq<char>,
    instance: &OdooInstance,
    defaults: &OperatorDefaults,
    oref: OwnerReference,
    current_replicas: Option<i32>,
    conf: Seq<char>,
) -> bool {
    &&& is_odoo_deployment(
        d,
        namespace,
        name,
        name,
        instance,
        oref,
        kept_replicas(current_replicas),
        conf,
    )
    &&& is_web_container(pod_container(d), name, instance, defaults)
}

/// Whether `d` is the Deployment of an instance that runs scheduled actions, with the replicas that
/// it has.
pub open spec fn is_cron_deployment(
    d: Deployment,
    namespace: Seq<char>,
    name: Seq<char>,
    instance: &OdooInstance,
    defaults: &OperatorDefaults,
    oref: OwnerReference,
    current_replicas: Option<i32>,
    conf: Seq<char>,
    startup_script: Seq<char>,
    liveness_script: Seq<char>,
) -> bool {
    &&& is_odoo_deployment(
        d,
        namespace,
        cron_name(instance),
        name,
        instance,
        oref,
        kept_replicas(current_replicas),
        conf,
    )
    &&& is_cron_container(
        pod_container(d),
        name,
        instance,
        defaults,
        startup_script,
        liveness_script,
    )
}

/// The web Deployment of an instance. It keeps its replicas, which the state machine sets.
/// `conf` is the content of `odoo.conf`.
pub fn ensure_deployment(
    namespace: &str,
    name: &str,
    instance: &OdooInstance,
    defaults: &OperatorDefaults,
    oref: &OwnerReference,
    current_replicas: Option<i32>,
    conf: &str,
) -> (r: Deployment)
    ensures
        is_web_deployment(
            r,
            namespace@,
            name@,
            instance,
            defaults,
            *oref,
            current_replicas,
            conf@,
        ),
{
    let replicas: i32 = match current_replicas {
        Some(n) => n,
        None => 0,
    };
    let db = db_name(instance);
    let mut base = vec![env("PGDATABASE", db)];
    let mut ro = readonly_sql_env(instance);
    let ghost ro_env = ro@;
    base.append(&mut ro);
    proof {
        assert(base@.skip(1) =~= ro_env);
        assert(is_base_env(base@, instance, ro_env));
    }
    let (startup, liveness, readiness) = probe_paths_of(instance);
    let command = vec![
        "/entrypoint.sh".to_owned(),
        "odoo".to_owned(),
        "--max-cron-threads".to_owned(),
        "0".to_owned(),
    ];
    proof {
        assert(texts(command@) =~= seq![
            "/entrypoint.sh"@,
            "odoo"@,
            "--max-cron-threads"@,
            "0"@,
        ]);
    }
    let http = ContainerPort { name: Some("http".to_owned()), container_port: 8069 };
    let websocket = ContainerPort { name: Some("websocket".to_owned()), container_port: 8072 };
    let container = Container {
        name: join2("odoo-", name),
        image: Some(image_of(instance, defaults)),
        image_pull_policy: Some("IfNotPresent".to_owned()),
        command: Some(command),
        args: None,
        ports: Some(vec![http, websocket]),
        env: Some(merge_extra_env(&base, &instance.spec.extra_env)),
        env_from: copy_env_from(&instance.spec.extra_env_from),
        volume_mounts: Some(odoo_volume_mounts()),
        resources: instance.spec.resources.clone(),
        startup_probe: http_probe(startup, Some(5), 10, 30),
        liveness_probe: http_probe(liveness, None, 15, 3),
        readiness_probe: http_probe(readiness, None, 10, 3),
        security_context: None,
    };
    proof {
        assert(is_web_container(container, name@, instance, defaults));
    }
    odoo_deployment(namespace, name, name, instance, oref, replicas, conf, container)
}

/// The Deployment of an instance that runs scheduled actions. It keeps its replicas, which the
/// state machine sets. `conf` is the content of `odoo.conf`.
pub fn ensure_cron_deployment(
    namespace: &str,
    name: &str,
    instance: &OdooInstance,
    defaults: &OperatorDefaults,
    oref: &OwnerReference,
    current_replicas: Option<i32>,
    conf: &str,
    startup_script: &str,
    liveness_script: &str,
) -> (r: Deployment)
    ensures
        is_cron_deployment(
            r,
            namespace@,
            name@,
            instance,
            defaults,
            *oref,
            current_replicas,
            conf@,
            startup_script@,
            liveness_script@,
        ),
{
    let replicas: i32 = match current_replicas {
        Some(n) => n,
        None => 0,
    };
    let app = cron_depl_name(instance);
    let db = db_name(instance);
    let base = vec![env("PGDATABASE", db)];
    proof {
        assert(base@.skip(1) =~= Seq::empty());
        assert(is_base_env(base@, instance, Seq::empty()));
    }
    let command = vec![
        "/entrypoint.sh".to_owned(),
        "odoo".to_owned(),
        "--workers".to_owned(),
        "0".to_owned(),
        "--no-http".to_owned(),
    ];
    proof {
        assert(texts(command@) =~= seq![
            "/entrypoint.sh"@,
            "odoo"@,
            "--workers"@,
            "0"@,
            "--no-http"@,
        ]);
    }
    let resources = if instance.spec.cron.resources.is_some() {
        instance.spec.cron.resources.clone()
    } else {
        instance.spec.resources.clone()
    };
    let container = Container {
        name: join2("odoo-cron-", name),
        image: Some(image_of(instance, defaults)),
        image_pull_policy: Some("IfNotPresent".to_owned()),
        command: Some(command),
        args: None,
        ports: None,
        env: Some(merge_extra_env(&base, &instance.spec.extra_env)),
        env_from: copy_env_from(&instance.spec.extra_env_from),
        volume_mounts: Some(odoo_volume_mounts()),
        resources,
        startup_probe: script_probe(startup_script, 5, 10, 30),
        liveness_probe: script_probe(liveness_script, 300, 30, 3),
        readiness_probe: None,
        security_context: None,
    };
    proof {
        assert(is_cron_container(
            container,
            name@,
            instance,
            defaults,
            startup_script@,
            liveness_script@,
        ));
    }
    odoo_deployment(namespace, app.as_str(), name, instance, oref, replicas, conf, container)
}

// ── Laws ────────────────────────────────────────────────────────────────────

/// Whether `after` is `before` with the patch merged into its spec.
pub open spec fn is_patched(after: &OdooInstance, before: &OdooInstance, patch: SpecPatch) -> bool {
    &&& opt_text(after.spec.image) == if patch.image is Some {
        opt_text(patch.image)
    } else {
        opt_text(before.spec.image)
    }
    &&& if patch.storage_class is None && patch.storage_size is None {
        after.spec.filestore == before.spec.filestore
    } else {
        &&& after.spec.filestore matches Some(f)
        &&& f.empty_dir == before.ephemeral()
        &&& opt_text(f.storage_class) == if patch.storage_class is Some {
            opt_text(patch.storage_class)
        } else {
            requested_class(before)
        }
        &&& opt_text(f.storage_size) == if patch.storage_size is Some {
            opt_text(patch.storage_size)
        } else {
            match before.spec.filestore {
                Some(b) => opt_text(b.storage_size),
                None => None,
            }
        }
    }
    &&& opt_text(after.spec.ingress.issuer) == if patch.ingress_issuer is Some {
        opt_text(patch.ingress_issuer)
    } else {
        opt_text(before.spec.ingress.issuer)
    }
    &&& opt_text(after.spec.ingress.class) == if patch.ingress_class is Some {
        opt_text(patch.ingress_class)
    } else {
        opt_text(before.spec.ingress.class)
    }
    &&& gateway_text(after.spec.ingress.gateway_ref) == if patch.gateway_ref is Some {
        gateway_text(patch.gateway_ref)
    } else {
        gateway_text(before.spec.ingress.gateway_ref)
    }
    &&& after.spec.resources == if patch.resources is Some {
        patch.resources
    } else {
        before.spec.resources
    }
    &&& after.spec.affinity == if patch.affinity is Some {
        patch.affinity
    } else {
        before.spec.affinity
    }
    &&& after.spec.tolerations@ == match patch.tolerations {
        Some(list) => list@,
        None => before.spec.tolerations@,
    }
    &&& after.spec.cron.resources == if patch.cron_resources is Some {
        patch.cron_resources
    } else {
        before.spec.cron.resources
    }
}

/// Defaulting settles: once what was missing is filled in, nothing is missing.
pub proof fn law_defaults_settle(
    before: &OdooInstance,
    after: &OdooInstance,
    defaults: &OperatorDefaults,
    patch: SpecPatch,
)
    requires
        patch.fills(before, defaults),
        is_patched(after, before, patch),
    ensures
        is_settled(after, defaults),
{
}

/// Defaulting leaves alone what an instance says: the patch holds no field that is set.
pub proof fn law_defaults_override_nothing(
    instance: &OdooInstance,
    defaults: &OperatorDefaults,
    patch: SpecPatch,
)
    requires
        patch.fills(instance, defaults),
    ensures
        instance.spec.image is Some ==> patch.image is None,
        instance.spec.filestore matches Some(f) ==> (f.storage_class is Some
            ==> patch.storage_class is None) && (f.storage_size is Some
            ==> patch.storage_size is None),
        instance.ephemeral() ==> patch.storage_class is None && patch.storage_size is None,
        instance.spec.ingress.issuer is Some ==> patch.ingress_issuer is None,
        instance.spec.ingress.class is Some ==> patch.ingress_class is None,
        instance.spec.ingress.gateway_ref is Some ==> patch.gateway_ref is None,
        instance.spec.resources is Some ==> patch.resources is None,
        instance.spec.affinity is Some ==> patch.affinity is None,
        instance.spec.tolerations@.len() > 0 ==> patch.tolerations is None,
        instance.spec.cron.resources is Some ==> patch.cron_resources is None,
{
}

} // verus!
