//! Tests of the objects that every instance has.

use odoo_operator::controller::child_resources::{
    apply_defaults, ensure_config_map, ensure_cron_deployment, ensure_deployment,
    ensure_filestore_pvc, ensure_image_pull_secret, ensure_ingress, ensure_odoo_user_secret,
    ensure_routing, ensure_service, get_pvc_source, is_deleted, mirrored_secret_meta,
    production_claim, read_odoo_credentials, user_secret, ClaimPlan, Lookup, PostgresClusterConfig, PullSecretStep,
    Routing, SecretEntry, UserSecretStep,
};
use odoo_operator::controller::helpers::controller_owner_ref;
use odoo_operator::crd::metadata::ObjectMeta;
use odoo_operator::crd::odoo_instance::{
    default_25_percent, default_health_path, default_init_modules, default_replicas,
    default_ro_connection_limit, default_true, CronSpec, DeploymentStrategyType, EnvVar,
    Environment, FilestoreSpec, GatewayRef, IngressSpec, InitSpec, OdooInstance, OdooInstanceSpec,
    ProbesSpec, ProductionInstanceRef, ReadOnlySqlAccessSpec, RollingUpdateSpec, StrategySpec,
};
use odoo_operator::helpers::{sha256_hex, OperatorDefaults};
use odoo_operator::objects::TypedObjectReference;
use odoo_operator::string_map::StringMap;

/// A minimal instance.
fn minimal_instance(name: &str, namespace: &str, uid: Option<&str>) -> OdooInstance {
    OdooInstance {
        metadata: ObjectMeta {
            name: Some(name.to_string()),
            namespace: Some(namespace.to_string()),
            uid: uid.map(|s| s.to_string()),
            ..Default::default()
        },
        spec: OdooInstanceSpec {
            image: None,
            image_pull_secret: None,
            admin_password: "admin".to_string(),
            replicas: 1,
            cron: CronSpec::default(),
            ingress: IngressSpec {
                hosts: vec!["test.example.com".to_string()],
                issuer: None,
                class: None,
                gateway_ref: None,
            },
            resources: None,
            filestore: None,
            config_options: None,
            database: None,
            init: Default::default(),
            environment: Default::default(),
            production_instance_ref: None,
            strategy: None,
            webhook: None,
            probes: None,
            affinity: None,
            tolerations: vec![],
            read_only_sql_access: None,
            extra_env: vec![],
            extra_env_from: vec![],
        },
        status: None,
    }
}

fn inst() -> OdooInstance {
    minimal_instance("inst", "ns", Some("abc-1"))
}

fn filestore(empty_dir: bool, size: Option<&str>, class: Option<&str>) -> Option<FilestoreSpec> {
    Some(FilestoreSpec {
        storage_size: size.map(|s| s.to_string()),
        storage_class: class.map(|s| s.to_string()),
        empty_dir,
    })
}

fn entries(map: &StringMap) -> Vec<(String, String)> {
    (0..map.len()).map(|i| (map.key(i).clone(), map.value(i).clone())).collect()
}

fn pairs(expected: &[(&str, &str)]) -> Vec<(String, String)> {
    expected.iter().map(|(k, v)| (k.to_string(), v.to_string())).collect()
}

// ── Defaults ─────────────────────────────────────────────────────────────────

#[test]
fn missing_fields_are_filled_in() {
    let patch = apply_defaults(&inst(), &OperatorDefaults::default()).unwrap();
    assert_eq!(patch.image.as_deref(), Some("odoo:18.0"));
    assert_eq!(patch.storage_class.as_deref(), Some("standard"));
    assert_eq!(patch.storage_size.as_deref(), Some("2Gi"));
    assert!(patch.ingress_issuer.is_none() && patch.ingress_class.is_none());
    assert!(patch.gateway_ref.is_none() && patch.tolerations.is_none());
    assert!(patch.resources.is_none() && patch.affinity.is_none() && patch.cron_resources.is_none());
}

#[test]
fn operator_defaults_take_the_place_of_the_built_in_ones() {
    let defaults = OperatorDefaults {
        odoo_image: "odoo:19".to_string(),
        storage_class: "fast".to_string(),
        storage_size: "5Gi".to_string(),
        ingress_class: "nginx".to_string(),
        ingress_issuer: "le".to_string(),
        gateway_ref_name: "gw".to_string(),
        gateway_ref_namespace: "gw-ns".to_string(),
        resources: Some(Default::default()),
        affinity: Some(Default::default()),
        tolerations: vec![Default::default()],
        ..Default::default()
    };
    let patch = apply_defaults(&inst(), &defaults).unwrap();
    assert_eq!(patch.image.as_deref(), Some("odoo:19"));
    assert_eq!(patch.storage_class.as_deref(), Some("fast"));
    assert_eq!(patch.storage_size.as_deref(), Some("5Gi"));
    assert_eq!(patch.ingress_class.as_deref(), Some("nginx"));
    assert_eq!(patch.ingress_issuer.as_deref(), Some("le"));
    let gateway = patch.gateway_ref.unwrap();
    assert_eq!((gateway.name.as_str(), gateway.namespace.as_str()), ("gw", "gw-ns"));
    assert!(patch.resources.is_some() && patch.cron_resources.is_some());
    assert!(patch.affinity.is_some());
    assert_eq!(patch.tolerations.unwrap().len(), 1);
}

#[test]
fn cron_pods_have_the_resources_of_the_web_pods() {
    let limited = |value: &str| {
        let mut r: k8s_openapi::api::core::v1::ResourceRequirements = Default::default();
        let quantity = k8s_openapi::apimachinery::pkg::api::resource::Quantity(value.to_string());
        r.limits = Some([("cpu".to_string(), quantity)].into_iter().collect());
        r
    };
    let mut i = inst();
    i.spec.resources = Some(limited("2"));
    let defaults =
        OperatorDefaults { resources: Some(limited("1")), ..Default::default() };
    let patch = apply_defaults(&i, &defaults).unwrap();
    assert!(patch.resources.is_none() && patch.cron_resources.is_none());
    let oref = controller_owner_ref(&i);
    let cron = |i: &OdooInstance| {
        let d = ensure_cron_deployment("ns", "inst", i, &defaults, &oref, None, "", "s", "l");
        d.spec.template.spec.unwrap().containers[0].resources.clone()
    };
    assert_eq!(cron(&i), Some(limited("2")));
    i.spec.cron.resources = Some(limited("3"));
    assert_eq!(cron(&i), Some(limited("3")));
}

#[test]
fn defaulting_settles() {
    let defaults = OperatorDefaults::default();
    let mut i = inst();
    let patch = apply_defaults(&i, &defaults).unwrap();
    i.spec.image = patch.image;
    i.spec.filestore = Some(FilestoreSpec {
        storage_size: patch.storage_size,
        storage_class: patch.storage_class,
        empty_dir: false,
    });
    assert!(apply_defaults(&i, &defaults).is_none());
}

#[test]
fn ephemeral_filestore_gets_no_size_and_no_class() {
    let mut i = inst();
    i.spec.image = Some("odoo:18.0".to_string());
    i.spec.filestore = filestore(true, None, None);
    assert!(apply_defaults(&i, &OperatorDefaults::default()).is_none());
}

// ── Secrets ──────────────────────────────────────────────────────────────────

#[test]
fn registry_secret_is_mirrored_once() {
    let mut i = inst();
    assert!(matches!(ensure_image_pull_secret(&i, None), PullSecretStep::Done));
    i.spec.image_pull_secret = Some("".to_string());
    assert!(matches!(ensure_image_pull_secret(&i, None), PullSecretStep::Done));
    i.spec.image_pull_secret = Some("reg".to_string());
    assert!(matches!(ensure_image_pull_secret(&i, None), PullSecretStep::FindTarget(n) if n == "reg"));
    assert!(matches!(ensure_image_pull_secret(&i, Some(true)), PullSecretStep::Done));
    assert!(
        matches!(ensure_image_pull_secret(&i, Some(false)), PullSecretStep::ReadSource(n) if n == "reg")
    );
    let meta = mirrored_secret_meta("ns", "reg");
    assert_eq!(meta.name.as_deref(), Some("reg"));
    assert!(meta.owner_references.is_none());
}

#[test]
fn what_is_not_there_counts_as_deleted() {
    assert!(is_deleted(Lookup::Found));
    assert!(is_deleted(Lookup::NotFound));
    assert!(!is_deleted(Lookup::Failed));
}

#[test]
fn credentials_are_generated_once() {
    let oref = controller_owner_ref(&inst());
    assert!(matches!(
        ensure_odoo_user_secret("ns", "inst", &oref, Lookup::Found),
        UserSecretStep::Keep
    ));
    assert!(matches!(
        ensure_odoo_user_secret("ns", "inst", &oref, Lookup::Failed),
        UserSecretStep::Fail
    ));
    match ensure_odoo_user_secret("ns", "inst", &oref, Lookup::NotFound) {
        UserSecretStep::Create(secret) => {
            assert_eq!(secret.metadata.name.as_deref(), Some("inst-odoo-user"));
            assert_eq!(secret.metadata.owner_references, Some(vec![oref.clone()]));
            assert_eq!(secret.string_data.get("username").unwrap(), "odoo.ns.inst");
            assert_eq!(secret.string_data.get("password").unwrap().len(), 48);
        }
        other => panic!("unexpected {other:?}"),
    }
    let secret = user_secret("ns", "inst", &oref, "pw".to_string());
    assert_eq!(
        entries(&secret.string_data),
        pairs(&[("password", "pw"), ("username", "odoo.ns.inst")])
    );
}

#[test]
fn credentials_are_read_as_text() {
    let entry = |k: &str, v: &[u8]| SecretEntry { key: k.to_string(), value: v.to_vec() };
    let data = vec![entry("password", b"p\xffw"), entry("username", "usér".as_bytes())];
    assert_eq!(
        read_odoo_credentials(&data),
        ("usér".to_string(), "p\u{fffd}w".to_string())
    );
    assert_eq!(read_odoo_credentials(&vec![]), (String::new(), String::new()));
}

// ── Filestore claim ──────────────────────────────────────────────────────────

fn plan(i: &OdooInstance, existing: Option<&str>) -> ClaimPlan {
    let defaults = OperatorDefaults {
        storage_size: "2Gi".to_string(),
        storage_class: "standard".to_string(),
        ..Default::default()
    };
    let oref = controller_owner_ref(i);
    ensure_filestore_pvc(
        "ns",
        "inst",
        i,
        &defaults,
        &oref,
        &existing.map(|s| s.to_string()),
        None,
        &None,
    )
}

#[test]
fn claim_is_created_from_the_spec() {
    let mut i = inst();
    i.spec.filestore = filestore(false, Some("10Gi"), None);
    match plan(&i, None) {
        ClaimPlan::Create(claim) => {
            assert_eq!(claim.metadata.name.as_deref(), Some("inst-filestore-pvc"));
            assert_eq!(claim.storage, "10Gi");
            assert_eq!(claim.storage_class_name.as_deref(), Some("standard"));
            assert_eq!(claim.access_modes, vec!["ReadWriteMany".to_string()]);
            assert!(claim.data_source_ref.is_none());
        }
        other => panic!("unexpected {other:?}"),
    }
}

#[test]
fn claim_grows_and_never_shrinks() {
    let mut i = inst();
    i.spec.filestore = filestore(false, Some("10Gi"), None);
    assert!(matches!(plan(&i, Some("5Gi")), ClaimPlan::Expand { storage } if storage == "10Gi"));
    assert!(matches!(plan(&i, Some("10240Mi")), ClaimPlan::Leave));
    assert!(matches!(plan(&i, Some("20Gi")), ClaimPlan::Leave));
    assert!(matches!(plan(&i, Some("")), ClaimPlan::Expand { .. }));
    i.spec.filestore = filestore(false, Some("ten"), None);
    assert!(matches!(plan(&i, Some("1Gi")), ClaimPlan::Leave));
}

#[test]
fn ephemeral_instance_has_no_claim_and_leaves_an_old_one() {
    let mut i = inst();
    i.spec.filestore = filestore(true, Some("10Gi"), Some("standard"));
    assert!(matches!(plan(&i, None), ClaimPlan::Leave));
    assert!(matches!(plan(&i, Some("1Gi")), ClaimPlan::Leave));
    i.spec.filestore = filestore(false, Some("1Gi"), Some("standard"));
    assert!(matches!(plan(&i, Some("1Gi")), ClaimPlan::Leave));
}

#[test]
fn staging_claim_is_cloned_from_production_of_the_same_class() {
    let mut i = inst();
    i.spec.filestore = filestore(false, None, Some("ceph"));
    assert!(production_claim("ns", &i).is_none());
    i.spec.production_instance_ref =
        Some(ProductionInstanceRef { name: "prod".to_string(), namespace: None });
    assert_eq!(
        production_claim("ns", &i),
        Some(("ns".to_string(), "prod-filestore-pvc".to_string()))
    );
    let class = |c: &str| Some(Some(c.to_string()));
    let source = get_pvc_source("ns", &i, &class("ceph")).unwrap();
    assert_eq!(source.kind, "PersistentVolumeClaim");
    assert_eq!(source.name, "prod-filestore-pvc");
    assert!(source.namespace.is_none() && source.api_group.is_none());
    assert!(get_pvc_source("ns", &i, &class("nfs")).is_none());
    assert!(get_pvc_source("ns", &i, &Some(None)).is_none());
    assert!(get_pvc_source("ns", &i, &None).is_none());
    i.spec.production_instance_ref = Some(ProductionInstanceRef {
        name: "prod".to_string(),
        namespace: Some("other".to_string()),
    });
    let source = get_pvc_source("ns", &i, &class("ceph")).unwrap();
    assert_eq!(source.namespace.as_deref(), Some("other"));
    i.spec.environment = Environment::Production;
    assert!(get_pvc_source("ns", &i, &class("ceph")).is_none());
}

#[test]
fn explicit_source_wins() {
    let i = inst();
    let oref = controller_owner_ref(&i);
    let source = TypedObjectReference {
        api_group: Some("snapshot.storage.k8s.io".to_string()),
        kind: "VolumeSnapshot".to_string(),
        name: "snap".to_string(),
        namespace: None,
    };
    let plan = ensure_filestore_pvc(
        "ns",
        "inst",
        &i,
        &OperatorDefaults::default(),
        &oref,
        &None,
        Some(source),
        &Some(None),
    );
    match plan {
        ClaimPlan::Create(claim) => assert_eq!(claim.data_source_ref.unwrap().name, "snap"),
        other => panic!("unexpected {other:?}"),
    }
}

// ── Configuration and routing ────────────────────────────────────────────────

#[test]
fn config_map_holds_the_configuration_and_the_connection() {
    let i = inst();
    let oref = controller_owner_ref(&i);
    let pg = PostgresClusterConfig { host: "pg".to_string(), port: 5433 };
    let data = vec![SecretEntry { key: "password".to_string(), value: b"pw".to_vec() }];
    let map = ensure_config_map("ns", "inst", &i, &pg, &oref, &data);
    assert_eq!(map.metadata.name.as_deref(), Some("inst-odoo-conf"));
    assert_eq!(map.data.len(), 6);
    assert_eq!(map.data.get("db_host").unwrap(), "pg");
    assert_eq!(map.data.get("db_port").unwrap(), "5433");
    assert_eq!(map.data.get("db_name").unwrap(), "odoo_abc_1");
    assert_eq!(map.data.get("db_user").unwrap(), "odoo.ns.inst");
    assert_eq!(map.data.get("db_password").unwrap(), "pw");
    assert!(map.data.get("odoo.conf").unwrap().contains("db_password = pw\n"));
}

#[test]
fn service_has_two_ports() {
    let oref = controller_owner_ref(&inst());
    let service = ensure_service("ns", "inst", &oref);
    assert_eq!(service.type_, "ClusterIP");
    assert_eq!(entries(&service.selector), pairs(&[("app", "inst")]));
    let ports: Vec<(&str, i32, i32)> =
        service.ports.iter().map(|p| (p.name.as_str(), p.port, p.target_port)).collect();
    assert_eq!(ports, vec![("http", 8069, 8069), ("websocket", 8072, 8072)]);
}

#[test]
fn ingress_routes_every_host() {
    let mut i = inst();
    i.spec.ingress.hosts = vec!["a".to_string(), "b".to_string()];
    i.spec.ingress.issuer = Some("le".to_string());
    i.spec.ingress.class = Some("nginx".to_string());
    let oref = controller_owner_ref(&i);
    let ingress = ensure_ingress("ns", "inst", &i, &oref);
    assert_eq!(
        entries(ingress.metadata.annotations.as_ref().unwrap()),
        pairs(&[("cert-manager.io/cluster-issuer", "le")])
    );
    assert_eq!(ingress.ingress_class_name.as_deref(), Some("nginx"));
    assert_eq!(ingress.rules.len(), 2);
    assert_eq!(ingress.rules[1].host, "b");
    assert_eq!(ingress.rules[1].paths[0].path, "/websocket");
    assert_eq!(ingress.rules[1].paths[0].service_port, 8072);
    assert_eq!(ingress.rules[1].paths[1].path, "/");
    assert_eq!(ingress.rules[1].paths[1].service_port, 8069);
    assert_eq!(ingress.tls[0].hosts, vec!["a".to_string(), "b".to_string()]);
    assert_eq!(ingress.tls[0].secret_name, "inst-tls");
}

#[test]
fn gateway_takes_the_place_of_the_ingress() {
    let mut i = inst();
    let oref = controller_owner_ref(&i);
    assert!(matches!(ensure_routing("ns", "inst", &i, &oref), Routing::Ingress(_)));
    i.spec.ingress.gateway_ref =
        Some(GatewayRef { name: "gw".to_string(), namespace: "gw-ns".to_string() });
    match ensure_routing("ns", "inst", &i, &oref) {
        Routing::Gateway(route) => {
            assert_eq!(route.parent_refs[0].group, "gateway.networking.k8s.io");
            assert_eq!(route.parent_refs[0].name, "gw");
            assert_eq!(route.parent_refs[0].namespace, "gw-ns");
            assert_eq!(route.hostnames, vec!["test.example.com".to_string()]);
            assert_eq!(route.rules[0].path_prefix, "/websocket");
            assert_eq!(route.rules[0].backend_port, 8072);
            assert_eq!(route.rules[1].backend_name, "inst");
            assert_eq!(route.rules[1].backend_port, 8069);
        }
        other => panic!("unexpected {other:?}"),
    }
}

// ── Deployments ──────────────────────────────────────────────────────────────

#[test]
fn web_deployment_keeps_its_replicas() {
    let mut i = inst();
    i.spec.image = Some("odoo:18.0".to_string());
    i.spec.read_only_sql_access =
        Some(ReadOnlySqlAccessSpec { enabled: true, connection_limit: 5 });
    i.spec.extra_env = vec![EnvVar {
        name: "PGDATABASE".to_string(),
        value: Some("other".to_string()),
        value_from: None,
    }];
    let oref = controller_owner_ref(&i);
    let d = ensure_deployment(
        "ns",
        "inst",
        &i,
        &OperatorDefaults::default(),
        &oref,
        Some(3),
        "conf",
    );
    assert_eq!(d.spec.replicas, Some(3));
    assert_eq!(entries(&d.spec.match_labels), pairs(&[("app", "inst")]));
    assert_eq!(
        entries(d.metadata.labels.as_ref().unwrap()),
        pairs(&[("app", "inst"), ("bemade.org/environment", "staging")])
    );
    assert_eq!(d.spec.strategy.type_.as_deref(), Some("Recreate"));
    assert!(d.spec.strategy.rolling_update.is_none());
    let meta = d.spec.template.metadata.unwrap();
    assert_eq!(
        entries(&meta.annotations.unwrap()),
        vec![("bemade.org/odoo-conf-hash".to_string(), sha256_hex("conf"))]
    );
    let pod = d.spec.template.spec.unwrap();
    assert!(pod.volumes.as_ref().unwrap()[0].persistent_volume_claim.is_some());
    assert!(pod.tolerations.is_none());
    let c = &pod.containers[0];
    assert_eq!(c.name, "odoo-inst");
    assert_eq!(c.command.as_ref().unwrap()[2], "--max-cron-threads");
    let env: Vec<(&str, Option<&str>)> = c
        .env
        .as_ref()
        .unwrap()
        .iter()
        .map(|e| (e.name.as_str(), e.value.as_deref()))
        .collect();
    assert_eq!(
        env,
        vec![
            ("PGDATABASE", Some("other")),
            ("ODOO_RO_DB_USER", None),
            ("ODOO_RO_DB_PASSWORD", None),
        ]
    );
    let startup = c.startup_probe.as_ref().unwrap();
    assert_eq!(startup.http_get.as_ref().unwrap().path.as_deref(), Some("/web/health"));
    assert_eq!(startup.initial_delay_seconds, Some(5));
    assert_eq!(startup.failure_threshold, Some(30));
    assert_eq!(c.liveness_probe.as_ref().unwrap().period_seconds, Some(15));
    assert_eq!(c.readiness_probe.as_ref().unwrap().period_seconds, Some(10));
}

#[test]
fn ephemeral_pods_mount_a_scratch_directory() {
    let mut i = inst();
    i.spec.filestore = filestore(true, None, None);
    let oref = controller_owner_ref(&i);
    let defaults = OperatorDefaults::default();
    let web = ensure_deployment("ns", "inst", &i, &defaults, &oref, None, "");
    let cron = ensure_cron_deployment("ns", "inst", &i, &defaults, &oref, None, "", "s", "l");
    for d in [web, cron] {
        assert_eq!(d.spec.replicas, Some(0));
        let volumes = d.spec.template.spec.unwrap().volumes.unwrap();
        assert_eq!(volumes[0].name, "filestore");
        assert!(volumes[0].empty_dir.is_some() && volumes[0].persistent_volume_claim.is_none());
        assert_eq!(volumes[1].config_map.as_ref().unwrap().name, "inst-odoo-conf");
    }
}

#[test]
fn cron_deployment_is_checked_by_scripts() {
    let mut i = inst();
    i.spec.environment = Environment::Production;
    i.spec.strategy = Some(StrategySpec {
        strategy_type: DeploymentStrategyType::RollingUpdate,
        rolling_update: Some(RollingUpdateSpec {
            max_unavailable: "10%".to_string(),
            max_surge: "1".to_string(),
        }),
    });
    i.spec.probes = Some(ProbesSpec {
        startup_path: "/s".to_string(),
        liveness_path: "/l".to_string(),
        readiness_path: "/r".to_string(),
    });
    let oref = controller_owner_ref(&i);
    let d = ensure_cron_deployment(
        "ns",
        "inst",
        &i,
        &OperatorDefaults::default(),
        &oref,
        Some(1),
        "conf",
        "startup.py",
        "liveness.py",
    );
    assert_eq!(d.metadata.name.as_deref(), Some("inst-cron"));
    assert_eq!(
        entries(d.metadata.labels.as_ref().unwrap()),
        pairs(&[("app", "inst-cron"), ("bemade.org/environment", "production")])
    );
    let rolling = d.spec.strategy.rolling_update.unwrap();
    assert_eq!(rolling.max_unavailable.as_deref(), Some("10%"));
    assert_eq!(rolling.max_surge.as_deref(), Some("1"));
    let pod = d.spec.template.spec.unwrap();
    let c = &pod.containers[0];
    assert_eq!(c.name, "odoo-cron-inst");
    assert_eq!(c.command.as_ref().unwrap()[4], "--no-http");
    assert!(c.ports.is_none() && c.readiness_probe.is_none());
    let probe = c.liveness_probe.as_ref().unwrap();
    assert_eq!(probe.initial_delay_seconds, Some(300));
    assert_eq!(
        probe.exec_action.as_ref().unwrap().command.as_ref().unwrap(),
        &vec!["python3".to_string(), "-c".to_string(), "liveness.py".to_string()]
    );
    let web = ensure_deployment(
        "ns",
        "inst",
        &i,
        &OperatorDefaults::default(),
        &oref,
        None,
        "conf",
    );
    let pod = web.spec.template.spec.unwrap();
    let path = |p: &Option<odoo_operator::objects::Probe>| {
        p.as_ref().unwrap().http_get.as_ref().unwrap().path.clone().unwrap()
    };
    assert_eq!(path(&pod.containers[0].startup_probe), "/s");
    assert_eq!(path(&pod.containers[0].liveness_probe), "/l");
    assert_eq!(path(&pod.containers[0].readiness_probe), "/r");
}

#[test]
fn defaults_of_the_resource() {
    assert_eq!(default_25_percent(), "25%");
    assert_eq!(default_health_path(), "/web/health");
    assert_eq!(default_replicas(), 1);
    assert_eq!(default_ro_connection_limit(), 5);
    assert!(default_true());
    assert_eq!(default_init_modules(), vec!["base".to_string()]);
    let init = InitSpec::default();
    assert!(init.enabled && !init.demo && init.webhook.is_none());
    assert_eq!(CronSpec::default().replicas, 1);
}
