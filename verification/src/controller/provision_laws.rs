//! What an instance is given: what is filled in where it leaves something open, its storage, its
//! secrets, and how its pods are run.

use vstd::prelude::*;

use crate::controller::child_resources::{
    apply_defaults, ensure_cron_deployment, ensure_deployment, ensure_filestore_pvc,
    ensure_image_pull_secret, ensure_odoo_user_secret, ensure_routing, get_pvc_source, image_of,
    is_deleted, is_patched, mirrored_secret_meta, pod_container, read_odoo_credentials,
    secret_text, storage_class_text, storage_size_text, user_secret, ClaimPlan, Lookup,
    PullSecretStep, Routing, SecretEntry, SpecPatch, UserSecretStep,
};
use crate::controller::helpers::{
    is_controller_ref, is_generated_meta, is_instance_job, job_pod, seq_or_empty, Scripts,
};
use crate::controller::made::{
    is_claim_of, is_cron_of, is_web_of, lemma_claim, lemma_web,
};
use crate::controller::reading::secret_value;
use crate::controller::states::cloning_from_source::{
    build_db_clone_job, build_filestore_clone_job, build_neutralize_job,
};
use crate::controller::states::migrating_filestore::{build_rsync_job, target_class};
use crate::controller::states::restoring::{build_restore_job, RestoreInputs};
use crate::controller::states::upgrading::{build_upgrade_job, job_image_of};
use crate::controller::work_laws::has_argument;
use crate::crd::metadata::{ObjectMeta, OwnerReference, Resource};
use crate::crd::odoo_instance::{DeploymentStrategyType, EnvVar, Environment, OdooInstance};
use crate::crd::odoo_restore_job::OdooRestoreJob;
use crate::crd::odoo_staging_refresh_job::OdooStagingRefreshJob;
use crate::crd::odoo_upgrade_job::OdooUpgradeJob;
use crate::helpers::{quantity, sha256_text, OperatorDefaults};
use crate::objects::{
    Container, Deployment, Job, PersistentVolumeClaim, PodSpec, Probe, Secret,
    TypedObjectReference,
};
use crate::outside::lossy_text;
use crate::text::{opt_text, texts};

verus! {

// ── Defaults ────────────────────────────────────────────────────────────────

/// What an instance leaves open is filled in from the operator's settings, each field from its
/// own, and from a fixed value where an instance cannot do without.
pub proof fn law_gaps_are_filled_from_the_settings(
    before: &OdooInstance,
    after: &OdooInstance,
    d: &OperatorDefaults,
    patch: SpecPatch,
)
    requires
        call_ensures(apply_defaults, (before, d), Some(patch)),
        is_patched(after, before, patch),
    ensures
        before.spec.image matches Some(image) ==> opt_text(after.spec.image) == Some(image@),
        before.spec.image is None && d.odoo_image@.len() > 0 ==> opt_text(after.spec.image) == Some(
            d.odoo_image@,
        ),
        before.spec.image is None && d.odoo_image@.len() == 0 ==> opt_text(after.spec.image)
            == Some("odoo:18.0"@),
        !before.ephemeral() ==> after.spec.filestore is Some,
        !before.ephemeral() ==> after.spec.filestore->0.storage_class is Some
            && after.spec.filestore->0.storage_size is Some,
        !before.ephemeral() && before.spec.filestore is None ==> {
            let f = after.spec.filestore->0;
            &&& d.storage_class@.len() > 0 ==> opt_text(f.storage_class) == Some(d.storage_class@)
            &&& d.storage_class@.len() == 0 ==> opt_text(f.storage_class) == Some("standard"@)
            &&& d.storage_size@.len() > 0 ==> opt_text(f.storage_size) == Some(d.storage_size@)
            &&& d.storage_size@.len() == 0 ==> opt_text(f.storage_size) == Some("2Gi"@)
        },
        before.spec.filestore matches Some(b) ==> {
            &&& b.storage_class matches Some(class) ==> (after.spec.filestore matches Some(f)
                && opt_text(f.storage_class) == Some(class@))
            &&& b.storage_size matches Some(size) ==> (after.spec.filestore matches Some(f)
                && opt_text(f.storage_size) == Some(size@))
        },
        before.spec.ingress.issuer is None && d.ingress_issuer@.len() > 0 ==> opt_text(
            after.spec.ingress.issuer,
        ) == Some(d.ingress_issuer@),
        before.spec.ingress.issuer is None && d.ingress_issuer@.len() == 0
            ==> after.spec.ingress.issuer is None,
        before.spec.ingress.class is None && d.ingress_class@.len() > 0 ==> opt_text(
            after.spec.ingress.class,
        ) == Some(d.ingress_class@),
        before.spec.ingress.class is None && d.ingress_class@.len() == 0
            ==> after.spec.ingress.class is None,
        before.spec.ingress.gateway_ref is None && d.gateway_ref_name@.len() > 0
            && d.gateway_ref_namespace@.len() > 0 ==> (
        after.spec.ingress.gateway_ref matches Some(g) && g.name@ == d.gateway_ref_name@
            && g.namespace@ == d.gateway_ref_namespace@),
        before.spec.ingress.gateway_ref is None && (d.gateway_ref_name@.len() == 0
            || d.gateway_ref_namespace@.len() == 0) ==> after.spec.ingress.gateway_ref is None,
        before.spec.resources is None ==> after.spec.resources == d.resources,
        before.spec.affinity is None ==> after.spec.affinity == d.affinity,
        before.spec.tolerations@.len() == 0 ==> after.spec.tolerations@ == d.tolerations@,
        before.spec.cron.resources is None && before.spec.resources is None
            ==> after.spec.cron.resources == d.resources,
        before.spec.cron.resources is None && before.spec.resources is Some
            ==> after.spec.cron.resources is None,
{
}

/// Once an instance leaves nothing open, everything that is made for it agrees: the pods and the
/// Jobs run one image, and the claim and the one that it is moved to are of one class.
pub proof fn law_settled_instance_is_consistent(
    instance: &OdooInstance,
    d: &OperatorDefaults,
    pod_image: String,
    work_image: String,
)
    requires
        call_ensures(apply_defaults, (instance, d), None),
        call_ensures(image_of, (instance, d), pod_image),
        call_ensures(job_image_of, (instance, d), work_image),
    ensures
        instance.spec.image is Some,
        work_image@ == pod_image@,
        Some(pod_image@) == opt_text(instance.spec.image),
        !instance.ephemeral() ==> {
            let f = instance.spec.filestore->0;
            &&& instance.spec.filestore is Some
            &&& target_class(instance, d) == storage_class_text(instance, d)
            &&& Some(storage_class_text(instance, d)) == opt_text(f.storage_class)
            &&& Some(storage_size_text(instance, d)) == opt_text(f.storage_size)
        },
{
}

// ── Storage ─────────────────────────────────────────────────────────────────

/// A claim is created exactly where a lasting instance has none, and grows exactly where the
/// instance asks for more than it has. It never shrinks.
pub proof fn law_claims_only_grow(
    plan: ClaimPlan,
    namespace: &str,
    name: &str,
    instance: &OdooInstance,
    d: &OperatorDefaults,
    oref: &OwnerReference,
    existing: &Option<String>,
    source: Option<TypedObjectReference>,
    production_class: &Option<Option<String>>,
)
    requires
        call_ensures(
            ensure_filestore_pvc,
            (namespace, name, instance, d, oref, existing, source, production_class),
            plan,
        ),
    ensures
        plan is Create <==> !instance.ephemeral() && existing is None,
        plan is Expand ==> !instance.ephemeral(),
        plan matches ClaimPlan::Expand { storage } ==> quantity(storage@) is Ok && (
        *existing matches Some(current) && (quantity(current@) matches Ok(has) ==> has < quantity(
            storage@,
        )->Ok_0)),
        plan is Expand && instance.spec.filestore is Some
            && instance.spec.filestore->0.storage_size is Some ==> plan->storage@
            == instance.spec.filestore->0.storage_size->0@,
        plan is Leave && !instance.ephemeral() ==> existing is Some,
        plan is Leave && !instance.ephemeral() && instance.spec.filestore is Some
            && instance.spec.filestore->0.storage_size is Some ==> {
            let size = instance.spec.filestore->0.storage_size->0@;
            quantity(size) matches Ok(wanted) ==> wanted == 0 || (quantity(existing->0@) matches Ok(
                has,
            ) && wanted <= has)
        },
        plan matches ClaimPlan::Create(claim) ==> {
            &&& instance.spec.filestore matches Some(f) ==> {
                &&& f.storage_size matches Some(size) ==> claim.storage@ == size@
                &&& f.storage_size is None ==> claim.storage@ == d.storage_size@
                &&& f.storage_class matches Some(class) ==> opt_text(claim.storage_class_name)
                    == Some(class@)
                &&& f.storage_class is None ==> opt_text(claim.storage_class_name) == Some(
                    d.storage_class@,
                )
            }
            &&& texts(claim.access_modes@).contains("ReadWriteMany"@)
            &&& source is Some ==> claim.data_source_ref == source
        },
{
    if let ClaimPlan::Create(claim) = plan {
        assert(texts(claim.access_modes@)[0] == "ReadWriteMany"@);
    }
}

/// What was done about a claim is done: with the storage that was created or asked for, the claim
/// is left as it is.
pub proof fn law_claim_plan_settles(
    plan: ClaimPlan,
    next: ClaimPlan,
    namespace: &str,
    name: &str,
    instance: &OdooInstance,
    d: &OperatorDefaults,
    oref: &OwnerReference,
    existing: &Option<String>,
    after: String,
    source: Option<TypedObjectReference>,
    production_class: &Option<Option<String>>,
)
    requires
        call_ensures(
            ensure_filestore_pvc,
            (namespace, name, instance, d, oref, existing, source, production_class),
            plan,
        ),
        call_ensures(
            ensure_filestore_pvc,
            (namespace, name, instance, d, oref, &Some(after), source, production_class),
            next,
        ),
        match plan {
            ClaimPlan::Expand { storage } => after@ == storage@,
            ClaimPlan::Create(claim) => after@ == claim.storage@,
            ClaimPlan::Leave => existing is Some && after@ == existing->0@,
        },
    ensures
        next is Leave,
{
}

/// A staging instance is filled from the claim of the production instance that it names, where
/// that claim is there and of the class that the instance asks for. A production instance is
/// filled from nothing.
pub proof fn law_staging_is_filled_from_production(
    source: Option<TypedObjectReference>,
    namespace: &str,
    instance: &OdooInstance,
    production: &OdooInstance,
    production_claim: PersistentVolumeClaim,
    looked_up: Option<(String, String)>,
    d: &OperatorDefaults,
    class: &Option<Option<String>>,
)
    requires
        call_ensures(get_pvc_source, (namespace, instance, class), source),
        call_ensures(
            crate::controller::child_resources::production_claim,
            (namespace, instance),
            looked_up,
        ),
        instance.spec.production_instance_ref matches Some(p) ==> p.name@ == production.name() && (
        p.namespace matches Some(ns) ==> ns@ == production.namespace()) && (p.namespace is None
            ==> production.namespace() == namespace@),
        is_claim_of(production_claim, production, d),
    ensures
        source is Some <==> {
            &&& instance.spec.environment == Environment::Staging
            &&& instance.spec.production_instance_ref is Some
            &&& *class matches Some(found)
            &&& opt_text(found) == match instance.spec.filestore {
                Some(f) => opt_text(f.storage_class),
                None => None,
            }
        },
        source matches Some(s) ==> {
            &&& s.kind@ == "PersistentVolumeClaim"@
            &&& Some(s.name@) == opt_text(production_claim.metadata.name)
            &&& s.namespace is Some <==> production.namespace() != namespace@
            &&& s.namespace matches Some(ns) ==> ns@ == production.namespace()
        },
        looked_up is Some <==> instance.spec.environment == Environment::Staging
            && instance.spec.production_instance_ref is Some,
        looked_up matches Some(at) ==> Some(at.0@) == opt_text(production_claim.metadata.namespace)
            && Some(at.1@) == opt_text(production_claim.metadata.name),
{
    lemma_claim(production_claim, production, d);
}

// ── Secrets ─────────────────────────────────────────────────────────────────

/// The registry secret that is brought into the namespace is the one that the pods name: it is
/// looked for first, and mirrored only where it is not there. Without one nothing is done.
pub proof fn law_pods_find_their_registry_secret(
    first: PullSecretStep,
    second: PullSecretStep,
    there: bool,
    web: Deployment,
    instance: &OdooInstance,
    d: &OperatorDefaults,
)
    requires
        call_ensures(ensure_image_pull_secret, (instance, None), first),
        call_ensures(ensure_image_pull_secret, (instance, Some(there)), second),
        is_web_of(web, instance, d),
    ensures
        ({
            let named = web.spec.template.spec->0.image_pull_secrets;
            &&& first is Done <==> named is None
            &&& first matches PullSecretStep::FindTarget(name) ==> named is Some && named->0@.len()
                == 1 && named->0@[0].name@ == name@
            &&& !(first is ReadSource)
            &&& second is Done <==> there || named is None
            &&& second matches PullSecretStep::ReadSource(name) ==> named is Some
                && named->0@[0].name@ == name@
            &&& !(second is FindTarget)
            &&& instance.spec.image_pull_secret matches Some(name) ==> name@.len() > 0 ==> named
                is Some && named->0@[0].name@ == name@
        }),
{
    lemma_web(web, instance, d);
}

/// The mirrored registry secret has the name that the pods look for, in their namespace, and no
/// owner.
pub proof fn law_mirrored_secret_is_found(namespace: &str, name: &str, meta: ObjectMeta)
    requires
        call_ensures(mirrored_secret_meta, (namespace, name), meta),
    ensures
        opt_text(meta.name) == Some(name@),
        opt_text(meta.namespace) == Some(namespace@),
        meta.owner_references is None,
{
}

/// What is not there need not be deleted, and what may still be there was not.
pub proof fn law_deletion_is_done_when_nothing_is_left(outcome: Lookup, r: bool)
    requires
        call_ensures(is_deleted, (outcome,), r),
    ensures
        outcome == Lookup::Found ==> r,
        outcome == Lookup::NotFound ==> r,
        outcome == Lookup::Failed ==> !r,
{
}

/// Database credentials are made once: where they are there they are kept, and where it is not
/// known whether they are, nothing is overwritten.
pub proof fn law_credentials_are_made_once(
    step: UserSecretStep,
    namespace: &str,
    name: &str,
    oref: &OwnerReference,
    found: Lookup,
)
    requires
        call_ensures(ensure_odoo_user_secret, (namespace, name, oref, found), step),
    ensures
        step is Create <==> found == Lookup::NotFound,
        step is Keep <==> found == Lookup::Found,
        step is Fail <==> found == Lookup::Failed,
        step matches UserSecretStep::Create(secret) ==> secret_value(secret, "password"@) is Some
            && secret_value(secret, "password"@)->0.len() == 48 && secret_value(
            secret,
            "username"@,
        ) is Some && opt_text(secret.metadata.name) == Some(name@ + "-odoo-user"@) && opt_text(
            secret.metadata.namespace,
        ) == Some(namespace@),
{
    assert("username"@ != "password"@) by {
        reveal_strlit("username");
        reveal_strlit("password");
        assert("username"@[0] != "password"@[0]);
    }
}

/// The text of the only entry under a key is found.
pub proof fn lemma_secret_text(data: Seq<SecretEntry>, i: int)
    requires
        0 <= i < data.len(),
        forall|j: int| 0 <= j < data.len() && j != i ==> (#[trigger] data[j]).key@ != data[i].key@,
    ensures
        secret_text(data, data[i].key@) == lossy_text(data[i].value@),
    decreases data.len(),
{
    if i > 0 {
        let rest = data.drop_first();
        assert(data[0].key@ != data[i].key@);
        assert(rest[i - 1] == data[i]);
        assert forall|j: int| 0 <= j < rest.len() && j != i - 1 implies (#[trigger] rest[j]).key@
            != rest[i - 1].key@ by {
            assert(rest[j] == data[j + 1]);
        }
        lemma_secret_text(rest, i - 1);
    }
}

/// Credentials that are read back are those that were made: the user is what the secret holds
/// under its user, the password what it holds under its password.
pub proof fn law_credentials_are_read_back(
    secret: Secret,
    namespace: &str,
    name: &str,
    oref: &OwnerReference,
    password: String,
    stored: &Vec<SecretEntry>,
    data: Seq<SecretEntry>,
    user_at: int,
    password_at: int,
    read: (String, String),
)
    requires
        call_ensures(user_secret, (namespace, name, oref, password), secret),
        call_ensures(read_odoo_credentials, (stored,), read),
        data == stored@,
        0 <= user_at < data.len(),
        0 <= password_at < data.len(),
        data[user_at].key@ == "username"@,
        data[password_at].key@ == "password"@,
        forall|i: int, j: int|
            0 <= i < data.len() && 0 <= j < data.len() && i != j ==> (#[trigger] data[i]).key@ != (
            #[trigger] data[j]).key@,
        forall|i: int|
            0 <= i < data.len() ==> secret_value(secret, (#[trigger] data[i]).key@) == Some(
                lossy_text(data[i].value@),
            ),
    ensures
        Some(read.0@) == secret_value(secret, "username"@),
        Some(read.1@) == secret_value(secret, "password"@),
        read.1@ == password@,
        read.0@ == "odoo."@ + namespace@ + "."@ + name@,
{
    lemma_secret_text(data, user_at);
    lemma_secret_text(data, password_at);
    assert("username"@ != "password"@) by {
        reveal_strlit("username");
        reveal_strlit("password");
        assert("username"@[0] != "password"@[0]);
    }
}

// ── Routing ─────────────────────────────────────────────────────────────────

/// An instance is exposed in one way: through the Gateway that it names, else by an Ingress of its
/// class, with a certificate from its issuer.
pub proof fn law_instance_is_exposed_in_one_way(
    routing: Routing,
    namespace: &str,
    name: &str,
    instance: &OdooInstance,
    oref: &OwnerReference,
)
    requires
        call_ensures(ensure_routing, (namespace, name, instance, oref), routing),
    ensures
        routing is Gateway <==> instance.spec.ingress.gateway_ref is Some,
        routing matches Routing::Gateway(route) ==> opt_text(route.metadata.name) == Some(name@)
            && opt_text(route.metadata.namespace) == Some(namespace@) && texts(route.hostnames@)
            == texts(instance.spec.ingress.hosts@),
        routing matches Routing::Gateway(route) ==> route.parent_refs@.len() == 1
            && route.parent_refs@[0].name@ == instance.spec.ingress.gateway_ref->0.name@
            && route.parent_refs@[0].namespace@ == instance.spec.ingress.gateway_ref->0.namespace@,
        routing matches Routing::Ingress(ingress) ==> {
            &&& opt_text(ingress.metadata.name) == Some(name@)
            &&& opt_text(ingress.metadata.namespace) == Some(namespace@)
            &&& ingress.rules@.len() == instance.spec.ingress.hosts@.len()
            &&& opt_text(ingress.ingress_class_name) == opt_text(instance.spec.ingress.class)
            &&& instance.spec.ingress.issuer matches Some(issuer) ==> {
                &&& ingress.metadata.annotations matches Some(notes)
                &&& notes@.contains_key("cert-manager.io/cluster-issuer"@)
                &&& notes@["cert-manager.io/cluster-issuer"@] == issuer@
            }
        },
{
}

// ── Pods ────────────────────────────────────────────────────────────────────

/// Whether a health check asks for a path.
pub open spec fn asks_for(p: Option<Probe>, path: Seq<char>) -> bool {
    p matches Some(probe) && probe.http_get matches Some(get) && opt_text(get.path) == Some(path)
}

/// Whether a health check runs a script.
pub open spec fn checks_by(p: Option<Probe>, script: Seq<char>) -> bool {
    &&& p matches Some(probe)
    &&& probe.http_get is None
    &&& probe.exec_action matches Some(action)
    &&& has_argument(texts(seq_or_empty(action.command)), "-c"@, script)
}

/// How long a container may fail its check, in seconds, before something is done about it.
pub open spec fn patience(p: Option<Probe>) -> int {
    match p {
        Some(probe) => (match probe.period_seconds {
            Some(n) => n as int,
            None => 10,
        }) * (match probe.failure_threshold {
            Some(n) => n as int,
            None => 3,
        }),
        None => 0,
    }
}

/// The web pods serve requests and run no scheduled actions, the others run scheduled actions and
/// serve no requests. Each has its checks: the paths that the instance names for the web pods, and
/// a script each for the others. A starting container is given longer than a running one. Both run
/// one image.
pub proof fn law_web_and_cron_share_the_work(
    web_deployment: Deployment,
    cron_deployment: Deployment,
    web: Container,
    cron: Container,
    namespace: &str,
    name: &str,
    instance: &OdooInstance,
    d: &OperatorDefaults,
    oref: &OwnerReference,
    current: Option<i32>,
    cron_current: Option<i32>,
    conf: &str,
    startup: &str,
    liveness: &str,
)
    requires
        call_ensures(
            ensure_deployment,
            (namespace, name, instance, d, oref, current, conf),
            web_deployment,
        ),
        call_ensures(
            ensure_cron_deployment,
            (namespace, name, instance, d, oref, cron_current, conf, startup, liveness),
            cron_deployment,
        ),
        web == pod_container(web_deployment),
        cron == pod_container(cron_deployment),
    ensures
        has_argument(texts(seq_or_empty(web.command)), "--max-cron-threads"@, "0"@),
        !texts(seq_or_empty(web.command)).contains("--no-http"@),
        texts(seq_or_empty(cron.command)).contains("--no-http"@),
        !texts(seq_or_empty(cron.command)).contains("--max-cron-threads"@),
        cron.ports is None,
        opt_text(web.image) == opt_text(cron.image),
        instance.spec.image matches Some(image) ==> opt_text(web.image) == Some(image@),
        instance.spec.image is None ==> opt_text(web.image) == Some(d.odoo_image@),
        instance.spec.probes matches Some(p) ==> {
            &&& asks_for(web.startup_probe, p.startup_path@)
            &&& asks_for(web.liveness_probe, p.liveness_path@)
            &&& asks_for(web.readiness_probe, p.readiness_path@)
        },
        instance.spec.probes is None ==> {
            &&& asks_for(web.startup_probe, "/web/health"@)
            &&& asks_for(web.liveness_probe, "/web/health"@)
            &&& asks_for(web.readiness_probe, "/web/health"@)
        },
        checks_by(cron.startup_probe, startup@),
        checks_by(cron.liveness_probe, liveness@),
        patience(web.startup_probe) > patience(web.liveness_probe),
        patience(cron.startup_probe) > patience(cron.liveness_probe),
        patience(web.startup_probe) == 300,
        patience(web.liveness_probe) == 45,
        patience(web.readiness_probe) == 30,
        patience(cron.startup_probe) == 300,
        patience(cron.liveness_probe) == 90,
        cron.readiness_probe is None,
        forall|p: Option<Probe>|
            (p == web.startup_probe || p == web.liveness_probe || p == web.readiness_probe || p
                == cron.startup_probe || p == cron.liveness_probe) ==> (
            #[trigger] p->0.timeout_seconds) == Some(5i32),
        cron.liveness_probe->0.initial_delay_seconds == Some(300i32),
        web.startup_probe->0.initial_delay_seconds == Some(5i32),
        cron.startup_probe->0.initial_delay_seconds == Some(5i32),
        texts(seq_or_empty(web.command)).take(2) == seq!["/entrypoint.sh"@, "odoo"@],
        texts(seq_or_empty(cron.command)).take(2) == seq!["/entrypoint.sh"@, "odoo"@],
        has_argument(texts(seq_or_empty(cron.command)), "--workers"@, "0"@),
        web.name@ == "odoo-"@ + name@,
        cron.name@ == "odoo-cron-"@ + name@,
        web.resources == instance.spec.resources,
        instance.spec.cron.resources is Some ==> cron.resources == instance.spec.cron.resources,
        instance.spec.cron.resources is None ==> cron.resources == web.resources,
{
    reveal_strlit("--no-http");
    reveal_strlit("--max-cron-threads");
    reveal_strlit("/entrypoint.sh");
    reveal_strlit("odoo");
    reveal_strlit("--workers");
    reveal_strlit("0");
    assert("--no-http"@.len() == 9);
    assert("--max-cron-threads"@.len() == 18);
    assert("/entrypoint.sh"@.len() == 14);
    assert("odoo"@.len() == 4);
    assert("--workers"@.len() == 9);
    assert("--workers"@[2] != "--no-http"@[2]);
    assert("0"@.len() == 1);
    assert(patience(web.startup_probe) == 10 * 30);
    assert(patience(web.liveness_probe) == 15 * 3);
    assert(patience(cron.startup_probe) == 10 * 30);
    assert(patience(cron.liveness_probe) == 30 * 3);
    let w = texts(seq_or_empty(web.command));
    let c = texts(seq_or_empty(cron.command));
    assert(w[2] == "--max-cron-threads"@);
    assert(w[3] == "0"@);
    assert(c[4] == "--no-http"@);
    assert(c[2] == "--workers"@);
    assert(c[3] == "0"@);
    assert(patience(web.readiness_probe) == 10 * 3);
    assert(!w.contains("--no-http"@)) by {
        if w.contains("--no-http"@) {
            let k = choose|k: int| 0 <= k < w.len() && w[k] == "--no-http"@;
            assert(w[k] == "--no-http"@);
        }
    }
    assert(!c.contains("--max-cron-threads"@)) by {
        if c.contains("--max-cron-threads"@) {
            let k = choose|k: int| 0 <= k < c.len() && c[k] == "--max-cron-threads"@;
            assert(c[k] == "--max-cron-threads"@);
        }
    }
    let sc = texts(seq_or_empty(cron.startup_probe->0.exec_action->0.command));
    let lc = texts(seq_or_empty(cron.liveness_probe->0.exec_action->0.command));
    assert(sc[1] == "-c"@ && sc[2] == startup@);
    assert(lc[1] == "-c"@ && lc[2] == liveness@);
}

/// Both Deployments keep the replicas that they have, begin with none, and roll their pods with
/// the configuration: pods of one configuration carry one hash. All their objects belong to the
/// instance, and their pods say whether they are of a staging instance.
pub proof fn law_deployments_keep_and_roll(
    web: Deployment,
    cron: Deployment,
    namespace: &str,
    name: &str,
    instance: &OdooInstance,
    d: &OperatorDefaults,
    oref: &OwnerReference,
    current: Option<i32>,
    cron_current: Option<i32>,
    conf: &str,
    startup: &str,
    liveness: &str,
)
    requires
        call_ensures(
            ensure_deployment,
            (namespace, name, instance, d, oref, current, conf),
            web,
        ),
        call_ensures(
            ensure_cron_deployment,
            (namespace, name, instance, d, oref, cron_current, conf, startup, liveness),
            cron,
        ),
    ensures
        current is Some ==> web.spec.replicas == current,
        current is None ==> web.spec.replicas == Some(0i32),
        cron_current is Some ==> cron.spec.replicas == cron_current,
        cron_current is None ==> cron.spec.replicas == Some(0i32),
        web.spec.template.metadata->0.annotations is Some,
        cron.spec.template.metadata->0.annotations is Some,
        web.spec.template.metadata->0.annotations->0@
            == cron.spec.template.metadata->0.annotations->0@,
        web.spec.template.metadata->0.annotations->0@.contains_key("bemade.org/odoo-conf-hash"@),
        web.spec.template.metadata->0.annotations->0@["bemade.org/odoo-conf-hash"@]
            == sha256_text(conf@),
        web.metadata.owner_references is Some,
        seq_or_empty(web.metadata.owner_references).contains(*oref),
        seq_or_empty(cron.metadata.owner_references).contains(*oref),
        ({
            let labels = web.spec.template.metadata->0.labels->0@;
            let cron_labels = cron.spec.template.metadata->0.labels->0@;
            let said = if instance.spec.environment == Environment::Staging {
                "staging"@
            } else {
                "production"@
            };
            &&& labels.contains_key("bemade.org/environment"@)
            &&& labels["bemade.org/environment"@] == said
            &&& cron_labels.contains_key("bemade.org/environment"@)
            &&& cron_labels["bemade.org/environment"@] == said
        }),
        runs_as_odoo(web.spec.template.spec->0, instance),
        runs_as_odoo(cron.spec.template.spec->0, instance),
        web.spec.template.spec->0.affinity == instance.spec.affinity,
        cron.spec.template.spec->0.affinity == instance.spec.affinity,
        seq_or_empty(web.spec.template.spec->0.tolerations) == instance.spec.tolerations@,
        seq_or_empty(cron.spec.template.spec->0.tolerations) == instance.spec.tolerations@,
{
    assert(seq_or_empty(web.metadata.owner_references)[0] == *oref);
    assert(seq_or_empty(cron.metadata.owner_references)[0] == *oref);
}

/// Pods are recreated unless the instance asks for a rolling update. Then it says how many may be
/// down and how many may be added, a quarter each where it does not.
pub proof fn law_pods_are_rolled_on_request(
    web: Deployment,
    instance: &OdooInstance,
    d: &OperatorDefaults,
)
    requires
        is_web_of(web, instance, d) || is_cron_of(web, instance, d),
    ensures
        ({
            let s = web.spec.strategy;
            let rolling = instance.spec.strategy matches Some(wanted) && wanted.strategy_type
                == DeploymentStrategyType::RollingUpdate;
            &&& s.rolling_update is Some <==> rolling
            &&& rolling ==> opt_text(s.type_) == Some("RollingUpdate"@)
            &&& !rolling ==> opt_text(s.type_) == Some("Recreate"@)
            &&& rolling && instance.spec.strategy->0.rolling_update is None ==> opt_text(
                s.rolling_update->0.max_unavailable,
            ) == Some("25%"@) && opt_text(s.rolling_update->0.max_surge) == Some("25%"@)
            &&& rolling && instance.spec.strategy->0.rolling_update is Some ==> opt_text(
                s.rolling_update->0.max_unavailable,
            ) == Some(instance.spec.strategy->0.rolling_update->0.max_unavailable@) && opt_text(
                s.rolling_update->0.max_surge,
            ) == Some(instance.spec.strategy->0.rolling_update->0.max_surge@)
        }),
{
}

// ── Jobs ────────────────────────────────────────────────────────────────────

/// Whether a Job belongs to a resource and is limited: its name begins with that of the resource,
/// it is deleted with it, it ends in time and is kept for a while then, and its pod is not
/// restarted. It runs as the pods of the instance do.
pub open spec fn is_limited<R: Resource>(
    job: Job,
    owner: &R,
    instance: &OdooInstance,
    seconds: i64,
    retries: i32,
) -> bool {
    &&& job.metadata.generate_name matches Some(g)
    &&& owner.metadata().any_name().is_prefix_of(g@)
    &&& job.metadata.name is None
    &&& opt_text(job.metadata.namespace) == Some(instance.namespace())
    &&& job.metadata.owner_references matches Some(owners)
    &&& owners@.len() == 1
    &&& owners@[0].name@ == owner.metadata().any_name()
    &&& owners@[0].kind@ == owner.kind_text()
    &&& owner.metadata().uid matches Some(uid) ==> owners@[0].uid@ == uid@
    &&& owners@[0].controller == Some(true)
    &&& job.spec matches Some(spec)
    &&& spec.active_deadline_seconds == Some(seconds)
    &&& spec.backoff_limit == Some(retries)
    &&& spec.ttl_seconds_after_finished == Some(900i32)
    &&& opt_text(job_pod(job).restart_policy) == Some("Never"@)
    &&& runs_as_odoo(job_pod(job), instance)
}

/// Whether a pod runs under Odoo's user and group, and pulls its images with the secret of the
/// instance.
pub open spec fn runs_as_odoo(pod: PodSpec, instance: &OdooInstance) -> bool {
    &&& pod.security_context matches Some(c)
    &&& c.run_as_user == Some(100i64)
    &&& c.run_as_group == Some(101i64)
    &&& c.fs_group == Some(101i64)
    &&& match instance.spec.image_pull_secret {
        Some(secret) => if secret@.len() > 0 {
            pod.image_pull_secrets matches Some(list) && list@.len() == 1 && list@[0].name@
                == secret@
        } else {
            pod.image_pull_secrets is None
        },
        None => pod.image_pull_secrets is None,
    }
}

/// A Job of an instance belongs to the resource that it was made for.
pub proof fn lemma_instance_job_is_limited<R: Resource>(
    job: Job,
    prefix: Seq<char>,
    suffix: Seq<char>,
    namespace: Seq<char>,
    owner: &R,
    instance: &OdooInstance,
    retries: i32,
    seconds: i64,
)
    requires
        namespace == instance.namespace(),
        is_instance_job(job, prefix, namespace, owner, instance, retries, seconds),
        prefix == owner.metadata().any_name() + suffix,
    ensures
        is_limited(job, owner, instance, seconds, retries),
{
    let name = owner.metadata().any_name();
    assert(prefix.subrange(0, name.len() as int) =~= name);
    let oref = choose|oref: OwnerReference|
        {
            &&& #[trigger] is_controller_ref(oref, owner)
            &&& is_generated_meta(job.metadata, prefix, namespace, oref)
        };
    assert(job.metadata.owner_references->0@[0] == oref);
}

/// Every Job belongs to its resource, in the namespace of the instance, and ends in time: copying a
/// filestore has two hours, all else an hour, and the neutralization five minutes, in which a pod
/// that fails is tried again.
pub proof fn law_jobs_are_limited(
    upgrade_job: Job,
    upgrade: &OdooUpgradeJob,
    restore_job: Job,
    restore: &OdooRestoreJob,
    inputs: &RestoreInputs,
    db_job: Job,
    filestore_job: Job,
    neutralize_job: Job,
    refresh: &OdooStagingRefreshJob,
    instance: &OdooInstance,
    source: &OdooInstance,
    d: &OperatorDefaults,
    image: &str,
    script: &str,
    mail_env: &Vec<EnvVar>,
    scripts: &Scripts,
)
    requires
        call_ensures(build_upgrade_job, (instance, upgrade, d), upgrade_job),
        call_ensures(build_restore_job, (instance, restore, d, inputs, scripts), restore_job),
        call_ensures(build_db_clone_job, (instance, source, refresh, image, script), db_job),
        call_ensures(
            build_filestore_clone_job,
            (instance, source, refresh, image, script),
            filestore_job,
        ),
        call_ensures(
            build_neutralize_job,
            (instance, refresh, image, mail_env, scripts),
            neutralize_job,
        ),
    ensures
        is_limited(upgrade_job, upgrade, instance, 3600, 0),
        is_limited(restore_job, restore, instance, 3600, 0),
        is_limited(db_job, refresh, instance, 3600, 0),
        is_limited(filestore_job, refresh, instance, 7200, 0),
        is_limited(neutralize_job, refresh, instance, 300, 5),
{
    let ns = instance.namespace();
    lemma_instance_job_is_limited(
        upgrade_job,
        upgrade.metadata.any_name() + "-"@,
        "-"@,
        ns,
        upgrade,
        instance,
        0,
        3600,
    );
    lemma_instance_job_is_limited(
        restore_job,
        restore.metadata.any_name() + "-"@,
        "-"@,
        ns,
        restore,
        instance,
        0,
        3600,
    );
    lemma_instance_job_is_limited(
        db_job,
        refresh.metadata.any_name() + "-db-"@,
        "-db-"@,
        ns,
        refresh,
        instance,
        0,
        3600,
    );
    lemma_instance_job_is_limited(
        filestore_job,
        refresh.metadata.any_name() + "-fs-"@,
        "-fs-"@,
        ns,
        refresh,
        instance,
        0,
        7200,
    );
    let suffix = if refresh.spec.neutralize {
        "-neut-"@
    } else {
        "-verify-"@
    };
    lemma_instance_job_is_limited(
        neutralize_job,
        refresh.metadata.any_name() + suffix,
        suffix,
        ns,
        refresh,
        instance,
        5,
        300,
    );
}

/// The Job that migrates the filestore is named after the instance, and no resource owns it. It
/// ends in two hours, and a pod that fails is tried again.
pub proof fn law_migration_job_is_limited(
    job: Job,
    name: &str,
    namespace: &str,
    instance: &OdooInstance,
    script: &String,
)
    requires
        call_ensures(build_rsync_job, (name, namespace, instance, script), job),
    ensures
        job.spec matches Some(spec) && spec.active_deadline_seconds == Some(7200i64)
            && spec.backoff_limit == Some(3i32) && spec.ttl_seconds_after_finished == Some(300i32),
        job.metadata.owner_references is None,
        job.metadata.generate_name matches Some(g) && name@.is_prefix_of(g@),
        opt_text(job.metadata.namespace) == Some(namespace@),
        opt_text(job_pod(job).restart_policy) == Some("Never"@),
        runs_as_odoo(job_pod(job), instance),
{
    let g = job.metadata.generate_name->0@;
    assert(g.subrange(0, name@.len() as int) =~= name@);
}

} // verus!
