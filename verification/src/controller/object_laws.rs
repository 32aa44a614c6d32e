//! What the objects of an instance have to do with each other: the pods open the database that
//! the configuration names, mount the claim and the map that are created for them, and are
//! reached through the Service.

use vstd::prelude::*;

use crate::controller::child_resources::{
    are_ro_env, ensure_config_map, ensure_cron_deployment, ensure_deployment,
    ensure_filestore_pvc, ensure_http_route, ensure_ingress, ensure_service, instance_conf,
    is_base_env, is_config_map, is_cron_container, is_web_container, opt_map, pod_container,
    stored_credentials, user_secret, ClaimPlan, PostgresClusterConfig, SecretEntry,
};
use crate::controller::helpers::{are_odoo_mounts, are_odoo_volumes, merged_env};
use crate::controller::reading::{
    claim_at, env_of, is_unnamed, lemma_merged_keeps, lemma_unnamed, lemma_variable, map_at,
    mount_at, scratch_at, secret_key_of, secret_value, value_of, variable, volume_named,
    writable_at,
};
use crate::controller::words::{
    lemma_connection_words, lemma_label_words, lemma_option_words, lemma_path_words,
    lemma_volume_words,
};
use crate::crd::metadata::{ObjectMeta, OwnerReference};
use crate::crd::odoo_instance::{EnvVar, GatewayRef, OdooInstance};
use crate::helpers::{
    base_options, conf_options, conf_text, custom_db_name, database_name, is_plain, sanitised,
    username, OperatorDefaults,
};
use crate::objects::{
    ConfigMap, Container, Deployment, HTTPRoute, Ingress, PersistentVolumeClaim, PodSpec, Secret,
    Service, TypedObjectReference,
};
use crate::text::{int_text, opt_text, texts};

verus! {

// ── Databases ───────────────────────────────────────────────────────────────

/// The web pods open the database of their instance, unless the instance itself says otherwise.
pub proof fn lemma_web_database(
    c: Container,
    name: Seq<char>,
    instance: &OdooInstance,
    defaults: &OperatorDefaults,
)
    requires
        is_web_container(c, name, instance, defaults),
        is_unnamed(instance.spec.extra_env@, "PGDATABASE"@),
    ensures
        value_of(c, "PGDATABASE"@) == Some(database_name(instance)),
{
    let (base, ro) = choose|base: Seq<EnvVar>, ro: Seq<EnvVar>|
        {
            &&& #[trigger] are_ro_env(ro, instance)
            &&& #[trigger] is_base_env(base, instance, ro)
            &&& env_of(c) == merged_env(base, instance.spec.extra_env@)
        };
    lemma_connection_words();
    lemma_merged_keeps(base, instance.spec.extra_env@, "PGDATABASE"@);
    assert forall|j: int| 0 < j < base.len() implies (#[trigger] base[j]).name@
        != "PGDATABASE"@ by {
        assert(base.skip(1)[j - 1] == base[j]);
        assert(ro[j - 1] == base[j]);
    }
    lemma_variable(base, 0, "PGDATABASE"@);
}

/// The pods that run scheduled actions open the database of their instance, unless the instance
/// itself says otherwise.
pub proof fn lemma_cron_database(
    c: Container,
    name: Seq<char>,
    instance: &OdooInstance,
    defaults: &OperatorDefaults,
    startup: Seq<char>,
    liveness: Seq<char>,
)
    requires
        is_cron_container(c, name, instance, defaults, startup, liveness),
        is_unnamed(instance.spec.extra_env@, "PGDATABASE"@),
    ensures
        value_of(c, "PGDATABASE"@) == Some(database_name(instance)),
{
    let base = choose|base: Seq<EnvVar>|
        {
            &&& #[trigger] is_base_env(base, instance, Seq::empty())
            &&& env_of(c) == merged_env(base, instance.spec.extra_env@)
        };
    lemma_merged_keeps(base, instance.spec.extra_env@, "PGDATABASE"@);
    lemma_variable(base, 0, "PGDATABASE"@);
}

/// All pods of an instance open one database: the one that the instance asks for where it asks
/// for one, and the one that its configuration names in any case. The variable overrides the
/// configuration, so the two must agree.
pub proof fn law_pods_open_one_database(
    web: Deployment,
    cron: Deployment,
    map: ConfigMap,
    namespace: &str,
    name: &str,
    instance: &OdooInstance,
    defaults: &OperatorDefaults,
    current: Option<i32>,
    cron_current: Option<i32>,
    conf: &str,
    startup: &str,
    liveness: &str,
    pg: &PostgresClusterConfig,
    oref: &OwnerReference,
    credentials: &Vec<SecretEntry>,
)
    requires
        call_ensures(
            ensure_deployment,
            (namespace, name, instance, defaults, oref, current, conf),
            web,
        ),
        call_ensures(
            ensure_cron_deployment,
            (namespace, name, instance, defaults, oref, cron_current, conf, startup, liveness),
            cron,
        ),
        call_ensures(
            ensure_config_map,
            (namespace, name, instance, pg, oref, credentials),
            map,
        ),
        is_unnamed(instance.spec.extra_env@, "PGDATABASE"@),
    ensures
        ({
            let opened = value_of(pod_container(web), "PGDATABASE"@);
            &&& opened is Some
            &&& value_of(pod_container(cron), "PGDATABASE"@) == opened
            &&& map.data@.contains_key("db_name"@)
            &&& opened == Some(map.data@["db_name"@])
            &&& instance.spec.database matches Some(d) ==> (d.name matches Some(n) ==> opened
                == Some(n@))
        }),
        map.data@["db_password"@] == stored_credentials(credentials@).1,
{
    let password = stored_credentials(credentials@).1;
    lemma_web_database(pod_container(web), name@, instance, defaults);
    lemma_cron_database(pod_container(cron), name@, instance, defaults, startup@, liveness@);
    lemma_map_keys(map, namespace@, name@, instance, pg, *oref, password);
}

/// Two instances that do not name their databases have different ones, where their UIDs are
/// different UUIDs.
pub proof fn law_databases_are_told_apart_by_uid(a: &OdooInstance, b: &OdooInstance)
    requires
        custom_db_name(a) is None,
        custom_db_name(b) is None,
        a.metadata.uid is Some,
        b.metadata.uid is Some,
        a.metadata.uid->0@ != b.metadata.uid->0@,
        forall|i: int|
            0 <= i < a.metadata.uid->0@.len() ==> is_plain(#[trigger] a.metadata.uid->0@[i])
                || a.metadata.uid->0@[i] == '-',
        forall|i: int|
            0 <= i < b.metadata.uid->0@.len() ==> is_plain(#[trigger] b.metadata.uid->0@[i])
                || b.metadata.uid->0@[i] == '-',
    ensures
        database_name(a) != database_name(b),
{
    let (x, y) = (a.metadata.uid->0@, b.metadata.uid->0@);
    if database_name(a) == database_name(b) {
        let (p, q) = (database_name(a), database_name(b));
        assert(p.skip("odoo_"@.len() as int) =~= sanitised(x));
        assert(q.skip("odoo_"@.len() as int) =~= sanitised(y));
        assert(x.len() == y.len());
        assert forall|i: int| 0 <= i < x.len() implies x[i] == y[i] by {
            assert(sanitised(x)[i] == sanitised(y)[i]);
            assert(is_plain(x[i]) || x[i] == '-');
            assert(is_plain(y[i]) || y[i] == '-');
        }
        assert(x =~= y);
    }
}

/// What each key of the configuration holds.
pub proof fn lemma_map_keys(
    map: ConfigMap,
    namespace: Seq<char>,
    name: Seq<char>,
    instance: &OdooInstance,
    pg: &PostgresClusterConfig,
    oref: OwnerReference,
    password: Seq<char>,
)
    requires
        is_config_map(map, namespace, name, instance, pg, oref, password),
    ensures
        map.data@.contains_key("odoo.conf"@),
        map.data@["odoo.conf"@] == instance_conf(namespace, name, instance, pg, password),
        map.data@.contains_key("db_host"@),
        map.data@["db_host"@] == pg.host@,
        map.data@.contains_key("db_port"@),
        map.data@["db_port"@] == int_text(pg.port as int),
        map.data@.contains_key("db_name"@),
        map.data@["db_name"@] == database_name(instance),
        map.data@.contains_key("db_user"@),
        map.data@["db_user"@] == username(namespace, name),
        map.data@.contains_key("db_password"@),
        map.data@["db_password"@] == password,
{
    lemma_option_words();
}

/// The configuration tells one story: `odoo.conf` and the keys beside it name the same server,
/// port, database, user and password, where the instance does not override them, and these are
/// those of the cluster and of the secret that is created for the instance.
pub proof fn law_configuration_tells_one_story(
    map: ConfigMap,
    secret: Secret,
    namespace: &str,
    name: &str,
    instance: &OdooInstance,
    pg: &PostgresClusterConfig,
    oref: &OwnerReference,
    password: String,
    credentials: &Vec<SecretEntry>,
    key: Seq<char>,
)
    requires
        call_ensures(
            ensure_config_map,
            (namespace, name, instance, pg, oref, credentials),
            map,
        ),
        call_ensures(user_secret, (namespace, name, oref, password), secret),
        stored_credentials(credentials@).1 == password@,
        key == "db_host"@ || key == "db_port"@ || key == "db_name"@ || key == "db_user"@ || key
            == "db_password"@,
        instance.spec.config_options matches Some(options) ==> !options@.contains_key(key),
    ensures
        exists|options: Map<Seq<char>, Seq<char>>|
            {
                &&& map.data@["odoo.conf"@] == #[trigger] conf_text(options)
                &&& options.contains_key(key)
                &&& map.data@.contains_key(key)
                &&& options[key] == map.data@[key]
            },
        map.data@["db_host"@] == pg.host@,
        map.data@["db_port"@] == int_text(pg.port as int),
        Some(map.data@["db_user"@]) == secret_value(secret, "username"@),
        Some(map.data@["db_password"@]) == secret_value(secret, "password"@),
{
    lemma_map_keys(map, namespace@, name@, instance, pg, *oref, password@);
    let options = conf_options(
        base_options(
            username(namespace@, name@),
            password@,
            pg.host@,
            pg.port as int,
            database_name(instance),
        ),
        instance.spec.admin_password@,
        opt_map(instance.spec.config_options),
    );
    assert(map.data@["odoo.conf"@] == conf_text(options));
    lemma_option_words();
    assert("username"@ != "password"@) by {
        reveal_strlit("username");
        reveal_strlit("password");
        assert("username"@[0] != "password"@[0]);
    }
    assert(options.contains_key(key) && options[key] == map.data@[key]);
}

/// The options of an instance's configuration file, before the instance overrides them.
pub open spec fn own_options(
    namespace: Seq<char>,
    name: Seq<char>,
    instance: &OdooInstance,
    pg: &PostgresClusterConfig,
    password: Seq<char>,
) -> Map<Seq<char>, Seq<char>> {
    base_options(
        username(namespace, name),
        password,
        pg.host@,
        pg.port as int,
        database_name(instance),
    )
}

// ── Volumes ─────────────────────────────────────────────────────────────────

/// What a container of an instance finds in its file system.
pub proof fn lemma_odoo_files(pod: PodSpec, c: Container, name: Seq<char>, ephemeral: bool)
    requires
        pod.volumes matches Some(volumes) && are_odoo_volumes(volumes@, name, ephemeral),
        c.volume_mounts matches Some(mounts) && are_odoo_mounts(mounts@),
    ensures
        !ephemeral ==> claim_at(pod, c, "/var/lib/odoo"@) == Some(name + "-filestore-pvc"@),
        ephemeral ==> claim_at(pod, c, "/var/lib/odoo"@) is None && scratch_at(
            pod,
            c,
            "/var/lib/odoo"@,
        ),
        writable_at(pod, c, "/var/lib/odoo"@),
        map_at(pod, c, "/etc/odoo"@) == Some(name + "-odoo-conf"@),
{
    lemma_path_words();
    lemma_volume_words();
    reveal_with_fuel(mount_at, 3);
    reveal_with_fuel(volume_named, 3);
}

/// The pods of an instance use what is created for it: they find the filestore claim, writable,
/// where `odoo.conf` says that the data is, and the configuration where the image reads it. An
/// ephemeral instance has a scratch directory in place of the claim.
pub proof fn law_pods_use_what_is_created(
    web: Deployment,
    cron: Deployment,
    claim: PersistentVolumeClaim,
    map: ConfigMap,
    namespace: &str,
    name: &str,
    instance: &OdooInstance,
    defaults: &OperatorDefaults,
    oref: &OwnerReference,
    current: Option<i32>,
    cron_current: Option<i32>,
    conf: &str,
    startup: &str,
    liveness: &str,
    existing: &Option<String>,
    source: Option<TypedObjectReference>,
    production_class: &Option<Option<String>>,
    pg: &PostgresClusterConfig,
    credentials: &Vec<SecretEntry>,
)
    requires
        call_ensures(
            ensure_deployment,
            (namespace, name, instance, defaults, oref, current, conf),
            web,
        ),
        call_ensures(
            ensure_cron_deployment,
            (namespace, name, instance, defaults, oref, cron_current, conf, startup, liveness),
            cron,
        ),
        !instance.ephemeral() ==> call_ensures(
            ensure_filestore_pvc,
            (namespace, name, instance, defaults, oref, existing, source, production_class),
            ClaimPlan::Create(claim),
        ),
        call_ensures(
            ensure_config_map,
            (namespace, name, instance, pg, oref, credentials),
            map,
        ),
    ensures
        ({
            let path = own_options(
                namespace@,
                name@,
                instance,
                pg,
                stored_credentials(credentials@).1,
            )["data_dir"@];
            let pod = web.spec.template.spec->0;
            let cron_pod = cron.spec.template.spec->0;
            &&& !instance.ephemeral() ==> claim_at(pod, pod_container(web), path) == opt_text(
                claim.metadata.name,
            ) && claim_at(cron_pod, pod_container(cron), path) == opt_text(claim.metadata.name)
            &&& instance.ephemeral() ==> scratch_at(pod, pod_container(web), path) && scratch_at(
                cron_pod,
                pod_container(cron),
                path,
            )
            &&& writable_at(pod, pod_container(web), path)
            &&& writable_at(cron_pod, pod_container(cron), path)
            &&& map_at(pod, pod_container(web), "/etc/odoo"@) == opt_text(map.metadata.name)
            &&& map_at(cron_pod, pod_container(cron), "/etc/odoo"@) == opt_text(map.metadata.name)
            &&& !instance.ephemeral() ==> opt_text(claim.metadata.namespace) == opt_text(
                web.metadata.namespace,
            )
            &&& opt_text(map.metadata.namespace) == opt_text(web.metadata.namespace)
            &&& opt_text(cron.metadata.namespace) == opt_text(web.metadata.namespace)
        }),
{
    lemma_odoo_files(
        web.spec.template.spec->0,
        pod_container(web),
        name@,
        instance.ephemeral(),
    );
    lemma_odoo_files(
        cron.spec.template.spec->0,
        pod_container(cron),
        name@,
        instance.ephemeral(),
    );
    lemma_data_dir(namespace@, name@, instance, pg, stored_credentials(credentials@).1);
}

proof fn lemma_data_dir(
    namespace: Seq<char>,
    name: Seq<char>,
    instance: &OdooInstance,
    pg: &PostgresClusterConfig,
    password: Seq<char>,
)
    ensures
        own_options(namespace, name, instance, pg, password)["data_dir"@] == "/var/lib/odoo"@,
{
    lemma_option_words();
}

// ── The way to the pods ─────────────────────────────────────────────────────

/// Whether a Service has a port of that name and number.
pub open spec fn service_port_named(s: Service, port: Seq<char>, number: i32) -> bool {
    exists|i: int|
        0 <= i < s.ports@.len() && (#[trigger] s.ports@[i]).name@ == port && s.ports@[i].port
            == number
}

/// Whether the container listens under that name on that port.
pub open spec fn listens(c: Container, port: Seq<char>, number: i32) -> bool {
    c.ports matches Some(ports) && exists|i: int|
        0 <= i < ports@.len() && opt_text((#[trigger] ports@[i]).name) == Some(port)
            && ports@[i].container_port == number
}

/// The Service reaches the web pods and no others: its selector matches their labels, and not
/// those of the pods that run scheduled actions. Each of its ports leads to the port of the same
/// name on which the web container listens, and the health checks ask the port for HTTP.
pub proof fn law_service_reaches_web_pods(
    service: Service,
    web: Deployment,
    cron: Deployment,
    namespace: &str,
    name: &str,
    instance: &OdooInstance,
    defaults: &OperatorDefaults,
    oref: &OwnerReference,
    current: Option<i32>,
    cron_current: Option<i32>,
    conf: &str,
    startup: &str,
    liveness: &str,
)
    requires
        instance.name() == name@,
        call_ensures(ensure_service, (namespace, name, oref), service),
        call_ensures(
            ensure_deployment,
            (namespace, name, instance, defaults, oref, current, conf),
            web,
        ),
        call_ensures(
            ensure_cron_deployment,
            (namespace, name, instance, defaults, oref, cron_current, conf, startup, liveness),
            cron,
        ),
    ensures
        opt_text(web.metadata.name) == Some(name@),
        opt_text(cron.metadata.name) == Some(name@ + "-cron"@),
        opt_text(service.metadata.name) == Some(name@),
        service.selector@ == web.spec.match_labels@,
        web.spec.template.metadata is Some,
        web.spec.template.metadata->0.labels is Some,
        web.spec.match_labels@.submap_of(web.spec.template.metadata->0.labels->0@),
        cron.spec.template.metadata is Some,
        cron.spec.template.metadata->0.labels is Some,
        cron.spec.match_labels@.submap_of(cron.spec.template.metadata->0.labels->0@),
        !service.selector@.submap_of(cron.spec.template.metadata->0.labels->0@),
        forall|i: int|
            0 <= i < service.ports@.len() ==> {
                let p = #[trigger] service.ports@[i];
                &&& listens(pod_container(web), p.name@, p.target_port)
                &&& p.port == p.target_port
            },
        service_port_named(service, "http"@, 8069),
        service_port_named(service, "websocket"@, 8072),
        pod_container(web).startup_probe matches Some(p) && p.http_get matches Some(get) && listens(
            pod_container(web),
            "http"@,
            get.port,
        ),
        pod_container(web).liveness_probe matches Some(p) && p.http_get matches Some(get)
            && listens(pod_container(web), "http"@, get.port),
        pod_container(web).readiness_probe matches Some(p) && p.http_get matches Some(get)
            && listens(pod_container(web), "http"@, get.port),
{
    lemma_label_words();
    reveal_strlit("-cron");
    let c = pod_container(web);
    let ports = c.ports->0@;
    assert(listens(c, "http"@, 8069)) by {
        assert(opt_text(ports[0].name) == Some("http"@));
    }
    assert(listens(c, "websocket"@, 8072)) by {
        assert(opt_text(ports[1].name) == Some("websocket"@));
    }
    assert(service.ports@[0].name@ == "http"@);
    assert(service.ports@[1].name@ == "websocket"@);
    let cron_labels = cron.spec.template.metadata->0.labels->0@;
    assert(cron_labels["app"@] == name@ + "-cron"@);
    assert((name@ + "-cron"@).len() == name@.len() + 5);
    assert(service.selector@["app"@] == name@);
    assert(service.selector@.dom().contains("app"@));
    assert(!service.selector@.submap_of(cron_labels)) by {
        if service.selector@.submap_of(cron_labels) {
            assert(cron_labels.dom().contains("app"@));
            assert(cron_labels["app"@] == service.selector@["app"@]);
        }
    }
}

/// Whether an Ingress has rules for a host.
pub open spec fn has_host(ingress: Ingress, host: Seq<char>) -> bool {
    exists|r: int| 0 <= r < ingress.rules@.len() && (#[trigger] ingress.rules@[r]).host@ == host
}

/// Whichever way an instance is exposed, every host of it leads to its Service: requests for
/// websockets to the port for them, all others to the port for HTTP. An Ingress has a
/// certificate for every host.
pub proof fn law_hosts_lead_to_the_service(
    service: Service,
    ingress: Ingress,
    route: HTTPRoute,
    namespace: &str,
    name: &str,
    instance: &OdooInstance,
    gateway: &GatewayRef,
    oref: &OwnerReference,
)
    requires
        call_ensures(ensure_service, (namespace, name, oref), service),
        call_ensures(ensure_ingress, (namespace, name, instance, oref), ingress),
        call_ensures(ensure_http_route, (namespace, name, instance, gateway, oref), route),
    ensures
        opt_text(ingress.metadata.namespace) == opt_text(service.metadata.namespace),
        opt_text(route.metadata.namespace) == opt_text(service.metadata.namespace),
        forall|h: int|
            0 <= h < instance.spec.ingress.hosts@.len() ==> has_host(
                ingress,
                (#[trigger] instance.spec.ingress.hosts@[h])@,
            ),
        forall|r: int, p: int|
            0 <= r < ingress.rules@.len() && 0 <= p < ingress.rules@[r].paths@.len() ==> {
                let path = #[trigger] ingress.rules@[r].paths@[p];
                &&& Some(path.service_name@) == opt_text(service.metadata.name)
                &&& path.path@ == "/websocket"@ || path.path@ == "/"@
                &&& service_port_named(
                    service,
                    if path.path@ == "/websocket"@ {
                        "websocket"@
                    } else {
                        "http"@
                    },
                    path.service_port,
                )
            },
        forall|p: int|
            0 <= p < route.rules@.len() ==> {
                let rule = #[trigger] route.rules@[p];
                &&& Some(rule.backend_name@) == opt_text(service.metadata.name)
                &&& rule.path_prefix@ == "/websocket"@ || rule.path_prefix@ == "/"@
                &&& service_port_named(
                    service,
                    if rule.path_prefix@ == "/websocket"@ {
                        "websocket"@
                    } else {
                        "http"@
                    },
                    rule.backend_port,
                )
            },
        forall|r: int|
            0 <= r < ingress.rules@.len() ==> (#[trigger] ingress.rules@[r]).paths@.len() == 2
                && ingress.rules@[r].paths@[0].path@ != ingress.rules@[r].paths@[1].path@
                && ingress.rules@[r].paths@[0].path_type@ == "Prefix"@
                && ingress.rules@[r].paths@[1].path_type@ == "Prefix"@,
        route.rules@.len() == 2,
        route.rules@[0].path_prefix@ != route.rules@[1].path_prefix@,
        route.rules@[0].backend_kind@ == "Service"@,
        route.rules@[1].backend_kind@ == "Service"@,
        route.parent_refs@[0].kind@ == "Gateway"@,
        route.parent_refs@[0].group@ == "gateway.networking.k8s.io"@,
        service.type_@ == "ClusterIP"@,
        forall|p: int| 0 <= p < service.ports@.len() ==> (#[trigger] service.ports@[p]).protocol@
            == "TCP"@,
        ingress.tls@[0].secret_name@ == name@ + "-tls"@,
        texts(route.hostnames@) == texts(instance.spec.ingress.hosts@),
        ingress.tls@.len() > 0,
        texts(ingress.tls@[0].hosts@) == texts(instance.spec.ingress.hosts@),
        route.parent_refs@.len() > 0,
        route.parent_refs@[0].name@ == gateway.name@,
        route.parent_refs@[0].namespace@ == gateway.namespace@,
{
    reveal_strlit("/websocket");
    reveal_strlit("/");
    assert("/websocket"@.len() == 10);
    assert("/"@.len() == 1);
    assert(service_port_named(service, "http"@, 8069)) by {
        assert(service.ports@[0].name@ == "http"@);
    }
    assert(service_port_named(service, "websocket"@, 8072)) by {
        assert(service.ports@[1].name@ == "websocket"@);
    }
    assert forall|h: int| 0 <= h < instance.spec.ingress.hosts@.len() implies has_host(
        ingress,
        (#[trigger] instance.spec.ingress.hosts@[h])@,
    ) by {
        assert(ingress.rules@[h].host@ == instance.spec.ingress.hosts@[h]@);
    }
}

/// Whether an object belongs to its owner alone, and is where it should be.
pub open spec fn belongs(meta: ObjectMeta, namespace: Seq<char>, oref: OwnerReference) -> bool {
    &&& opt_text(meta.namespace) == Some(namespace)
    &&& meta.owner_references matches Some(owners)
    &&& owners@.len() == 1
    &&& owners@[0] == oref
    &&& meta.generate_name is None
}

/// Everything that is made for an instance belongs to it, and so goes with it. It stands under its
/// own name in the namespace of the instance.
pub proof fn law_objects_belong_to_the_instance(
    web: Deployment,
    cron: Deployment,
    service: Service,
    ingress: Ingress,
    route: HTTPRoute,
    map: ConfigMap,
    secret: Secret,
    claim: PersistentVolumeClaim,
    namespace: &str,
    name: &str,
    instance: &OdooInstance,
    defaults: &OperatorDefaults,
    oref: &OwnerReference,
    current: Option<i32>,
    cron_current: Option<i32>,
    conf: &str,
    startup: &str,
    liveness: &str,
    gateway: &GatewayRef,
    pg: &PostgresClusterConfig,
    credentials: &Vec<SecretEntry>,
    password: String,
    existing: &Option<String>,
    source: Option<TypedObjectReference>,
    production_class: &Option<Option<String>>,
)
    requires
        call_ensures(
            ensure_deployment,
            (namespace, name, instance, defaults, oref, current, conf),
            web,
        ),
        call_ensures(
            ensure_cron_deployment,
            (namespace, name, instance, defaults, oref, cron_current, conf, startup, liveness),
            cron,
        ),
        call_ensures(ensure_service, (namespace, name, oref), service),
        call_ensures(ensure_ingress, (namespace, name, instance, oref), ingress),
        call_ensures(ensure_http_route, (namespace, name, instance, gateway, oref), route),
        call_ensures(
            ensure_config_map,
            (namespace, name, instance, pg, oref, credentials),
            map,
        ),
        call_ensures(user_secret, (namespace, name, oref, password), secret),
        call_ensures(
            ensure_filestore_pvc,
            (namespace, name, instance, defaults, oref, existing, source, production_class),
            ClaimPlan::Create(claim),
        ),
    ensures
        belongs(web.metadata, namespace@, *oref),
        belongs(cron.metadata, namespace@, *oref),
        belongs(service.metadata, namespace@, *oref),
        belongs(ingress.metadata, namespace@, *oref),
        belongs(route.metadata, namespace@, *oref),
        belongs(map.metadata, namespace@, *oref),
        belongs(secret.metadata, namespace@, *oref),
        belongs(claim.metadata, namespace@, *oref),
        opt_text(ingress.metadata.name) == Some(name@),
        opt_text(route.metadata.name) == Some(name@),
        opt_text(service.metadata.name) == Some(name@),
        opt_text(web.metadata.name) == Some(name@),
        service.metadata.labels matches Some(l) && l@.contains_key("app"@) && l@["app"@] == name@,
        web.metadata.labels matches Some(l) && l@.contains_key("app"@) && l@["app"@] == name@,
        web.spec.template.spec->0.containers@.len() == 1,
        cron.spec.template.spec->0.containers@.len() == 1,
        opt_text(pod_container(web).image_pull_policy) == Some("IfNotPresent"@),
        opt_text(pod_container(cron).image_pull_policy) == Some("IfNotPresent"@),
{
    lemma_label_words();
}

// ── Credentials ─────────────────────────────────────────────────────────────

/// The web pods get the read-only credentials exactly where the instance has them, from the
/// secret of the instance: the user from its user key, the password from its password key.
pub proof fn law_read_only_credentials_are_handed_on(
    web: Deployment,
    c: Container,
    namespace: &str,
    name: &str,
    instance: &OdooInstance,
    defaults: &OperatorDefaults,
    oref: &OwnerReference,
    current: Option<i32>,
    conf: &str,
)
    requires
        call_ensures(
            ensure_deployment,
            (namespace, name, instance, defaults, oref, current, conf),
            web,
        ),
        c == pod_container(web),
        is_unnamed(instance.spec.extra_env@, "ODOO_RO_DB_USER"@),
        is_unnamed(instance.spec.extra_env@, "ODOO_RO_DB_PASSWORD"@),
    ensures
        (instance.spec.read_only_sql_access matches Some(ro) && ro.enabled) ==> secret_key_of(
            c,
            "ODOO_RO_DB_USER"@,
        ) == Some((instance.name() + "-db-ro-password"@, "username"@)) && secret_key_of(
            c,
            "ODOO_RO_DB_PASSWORD"@,
        ) == Some((instance.name() + "-db-ro-password"@, "password"@)),
        !(instance.spec.read_only_sql_access matches Some(ro) && ro.enabled) ==> variable(
            env_of(c),
            "ODOO_RO_DB_USER"@,
        ) is None && variable(env_of(c), "ODOO_RO_DB_PASSWORD"@) is None,
{
    let (base, ro) = choose|base: Seq<EnvVar>, ro: Seq<EnvVar>|
        {
            &&& #[trigger] are_ro_env(ro, instance)
            &&& #[trigger] is_base_env(base, instance, ro)
            &&& env_of(c) == merged_env(base, instance.spec.extra_env@)
        };
    lemma_connection_words();
    lemma_merged_keeps(base, instance.spec.extra_env@, "ODOO_RO_DB_USER"@);
    lemma_merged_keeps(base, instance.spec.extra_env@, "ODOO_RO_DB_PASSWORD"@);
    if ro.len() == 2 {
        assert(base.skip(1)[0] == base[1]);
        assert(base.skip(1)[1] == base[2]);
        lemma_variable(base, 1, "ODOO_RO_DB_USER"@);
        lemma_variable(base, 2, "ODOO_RO_DB_PASSWORD"@);
    } else {
        assert(base.len() == 1);
        lemma_unnamed(base, "ODOO_RO_DB_USER"@);
        lemma_unnamed(base, "ODOO_RO_DB_PASSWORD"@);
    }
}

} // verus!
