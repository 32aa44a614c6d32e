//! The objects that are made for an instance, as results of the functions that make them.

use vstd::prelude::*;

use crate::controller::child_resources::{
    ensure_config_map, ensure_cron_deployment, ensure_deployment, ensure_filestore_pvc,
    is_odoo_pod, is_web_container, pod_container, stored_credentials, ClaimPlan,
    PostgresClusterConfig, SecretEntry,
};
use crate::controller::object_laws::lemma_map_keys;
use crate::crd::metadata::OwnerReference;
use crate::crd::odoo_instance::OdooInstance;
use crate::helpers::{database_name, OperatorDefaults};
use crate::objects::{ConfigMap, Deployment, PersistentVolumeClaim, TypedObjectReference};
use crate::text::{int_text, opt_text, texts};

verus! {

/// Whether `web` is the web Deployment that is made for an instance.
pub open spec fn is_web_of(
    web: Deployment,
    instance: &OdooInstance,
    defaults: &OperatorDefaults,
) -> bool {
    exists|
        namespace: &str,
        name: &str,
        oref: &OwnerReference,
        current: Option<i32>,
        conf: &str,
    |
        {
            &&& namespace@ == instance.namespace()
            &&& name@ == instance.name()
            &&& #[trigger] call_ensures(
                ensure_deployment,
                (namespace, name, instance, defaults, oref, current, conf),
                web,
            )
        }
}

/// Whether `cron` is the Deployment that is made for the scheduled actions of an instance.
pub open spec fn is_cron_of(
    cron: Deployment,
    instance: &OdooInstance,
    defaults: &OperatorDefaults,
) -> bool {
    exists|
        namespace: &str,
        name: &str,
        oref: &OwnerReference,
        current: Option<i32>,
        conf: &str,
        startup: &str,
        liveness: &str,
    |
        {
            &&& namespace@ == instance.namespace()
            &&& name@ == instance.name()
            &&& #[trigger] call_ensures(
                ensure_cron_deployment,
                (namespace, name, instance, defaults, oref, current, conf, startup, liveness),
                cron,
            )
        }
}

/// Whether `map` is the configuration that is made for an instance on a cluster, with that
/// password.
pub open spec fn is_map_of(
    map: ConfigMap,
    instance: &OdooInstance,
    pg: &PostgresClusterConfig,
    password: Seq<char>,
) -> bool {
    exists|namespace: &str, name: &str, oref: &OwnerReference, credentials: &Vec<SecretEntry>|
        {
            &&& namespace@ == instance.namespace()
            &&& name@ == instance.name()
            &&& password == stored_credentials(credentials@).1
            &&& #[trigger] call_ensures(
                ensure_config_map,
                (namespace, name, instance, pg, oref, credentials),
                map,
            )
        }
}

/// Whether `claim` is the filestore claim that is made for an instance.
pub open spec fn is_claim_of(
    claim: PersistentVolumeClaim,
    instance: &OdooInstance,
    defaults: &OperatorDefaults,
) -> bool {
    exists|
        namespace: &str,
        name: &str,
        oref: &OwnerReference,
        existing: &Option<String>,
        source: Option<TypedObjectReference>,
        production_class: &Option<Option<String>>,
    |
        {
            &&& namespace@ == instance.namespace()
            &&& name@ == instance.name()
            &&& #[trigger] call_ensures(
                ensure_filestore_pvc,
                (namespace, name, instance, defaults, oref, existing, source, production_class),
                ClaimPlan::Create(claim),
            )
        }
}

/// What is known of the web Deployment of an instance.
pub proof fn lemma_web(web: Deployment, instance: &OdooInstance, defaults: &OperatorDefaults)
    requires
        is_web_of(web, instance, defaults),
    ensures
        is_web_container(pod_container(web), instance.name(), instance, defaults),
        web.spec.template.spec matches Some(pod) && is_odoo_pod(pod, instance.name(), instance),
        opt_text(web.metadata.name) == Some(instance.name()),
{
}

/// What is known of the configuration of an instance.
pub proof fn lemma_map(
    map: ConfigMap,
    instance: &OdooInstance,
    pg: &PostgresClusterConfig,
    password: Seq<char>,
)
    requires
        is_map_of(map, instance, pg, password),
    ensures
        opt_text(map.metadata.name) == Some(instance.name() + "-odoo-conf"@),
        map.data@.contains_key("db_host"@),
        map.data@["db_host"@] == pg.host@,
        map.data@.contains_key("db_port"@),
        map.data@["db_port"@] == int_text(pg.port as int),
        map.data@.contains_key("db_name"@),
        map.data@["db_name"@] == database_name(instance),
        map.data@.contains_key("db_user"@),
        map.data@.contains_key("db_password"@),
        map.data@["db_password"@] == password,
{
    let (namespace, name, oref, credentials) = choose|
        namespace: &str,
        name: &str,
        oref: &OwnerReference,
        credentials: &Vec<SecretEntry>,
    |
        {
            &&& namespace@ == instance.namespace()
            &&& name@ == instance.name()
            &&& password == stored_credentials(credentials@).1
            &&& #[trigger] call_ensures(
                ensure_config_map,
                (namespace, name, instance, pg, oref, credentials),
                map,
            )
        };
    lemma_map_keys(map, namespace@, name@, instance, pg, *oref, password);
}

/// What is known of the filestore claim of an instance.
pub proof fn lemma_claim(
    claim: PersistentVolumeClaim,
    instance: &OdooInstance,
    defaults: &OperatorDefaults,
)
    requires
        is_claim_of(claim, instance, defaults),
    ensures
        opt_text(claim.metadata.name) == Some(instance.name() + "-filestore-pvc"@),
        opt_text(claim.metadata.namespace) == Some(instance.namespace()),
        texts(claim.access_modes@) == seq!["ReadWriteMany"@],
{
}

} // verus!
