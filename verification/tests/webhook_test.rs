//! Tests of the admission webhook.

use odoo_operator::crd::metadata::ObjectMeta;
use odoo_operator::crd::odoo_instance::{
    CronSpec, DatabaseSpec, FilestoreSpec, IngressSpec, OdooInstance, OdooInstancePhase,
    OdooInstanceSpec, OdooInstanceStatus,
};
use odoo_operator::helpers::parse_quantity;
use odoo_operator::webhook::{compare_quantities, validate, AdmissionRequest};

/// A minimal instance.
fn minimal_instance(name: &str, namespace: &str, uid: Option<&str>) -> OdooInstance {
    OdooInstance {
        metadata: ObjectMeta {
            name: Some(name.to_string()),
            namespace: Some(namespace.to_string()),
            uid: uid.map(|s| s.to_string()),
            ..Default::default()
        },
        spec: OdooInstanceSpec {
            image: None,
            image_pull_secret: None,
            admin_password: "admin".to_string(),
            replicas: 1,
            cron: CronSpec::default(),
            ingress: IngressSpec {
                hosts: vec!["test.example.com".to_string()],
                issuer: None,
                class: None,
                gateway_ref: None,
            },
            resources: None,
            filestore: None,
            config_options: None,
            database: None,
            init: Default::default(),
            environment: Default::default(),
            production_instance_ref: None,
            strategy: None,
            webhook: None,
            probes: None,
            affinity: None,
            tolerations: vec![],
            read_only_sql_access: None,
            extra_env: vec![],
            extra_env_from: vec![],
        },
        status: None,
    }
}

fn filestore(empty_dir: bool, size: Option<&str>, class: Option<&str>) -> FilestoreSpec {
    FilestoreSpec {
        storage_size: size.map(|s| s.to_string()),
        storage_class: class.map(|s| s.to_string()),
        empty_dir,
    }
}

fn make_instance_full(
    db_name: Option<&str>,
    cluster: Option<&str>,
    storage_class: Option<&str>,
) -> OdooInstance {
    let mut instance = minimal_instance("test", "default", Some("test-uid"));
    if db_name.is_some() || cluster.is_some() {
        instance.spec.database = Some(DatabaseSpec {
            cluster: cluster.map(|s| s.to_string()),
            name: db_name.map(|s| s.to_string()),
            missing_policy: Default::default(),
        });
    }
    if let Some(sc) = storage_class {
        instance.spec.filestore = Some(filestore(false, None, Some(sc)));
    }
    instance
}

fn phase_named(name: &str) -> OdooInstancePhase {
    match name {
        "Running" => OdooInstancePhase::Running,
        "Stopped" => OdooInstancePhase::Stopped,
        "Restoring" => OdooInstancePhase::Restoring,
        "Upgrading" => OdooInstancePhase::Upgrading,
        "BackingUp" => OdooInstancePhase::BackingUp,
        "MigratingFilestore" => OdooInstancePhase::MigratingFilestore,
        "MigratingDatabase" => OdooInstancePhase::MigratingDatabase,
        "FinalizingDatabaseMigration" => OdooInstancePhase::FinalizingDatabaseMigration,
        "Uninitialized" => OdooInstancePhase::Uninitialized,
        other => panic!("unexpected phase {other}"),
    }
}

fn update(uid: &str, new: OdooInstance, old: OdooInstance) -> AdmissionRequest {
    AdmissionRequest {
        uid: uid.to_string(),
        object: Some(new),
        old_object: Some(old),
    }
}

fn make_update_request(
    old_db_name: Option<&str>,
    old_cluster: Option<&str>,
    new_db_name: Option<&str>,
    new_cluster: Option<&str>,
) -> AdmissionRequest {
    update(
        "req-1",
        make_instance_full(new_db_name, new_cluster, None),
        make_instance_full(old_db_name, old_cluster, None),
    )
}

fn make_sc_change_request(
    old_class: &str,
    new_class: &str,
    old_phase: Option<&str>,
) -> AdmissionRequest {
    make_sc_change_request_with_prev(old_class, new_class, old_phase, None)
}

fn make_sc_change_request_with_prev(
    old_class: &str,
    new_class: &str,
    old_phase: Option<&str>,
    prev_sc: Option<&str>,
) -> AdmissionRequest {
    let mut old_obj = make_instance_full(None, None, Some(old_class));
    if let Some(phase) = old_phase {
        old_obj.status = Some(OdooInstanceStatus {
            phase: Some(phase_named(phase)),
            migration_previous_storage_class: prev_sc.map(|s| s.to_string()),
            ..Default::default()
        });
    }
    update("req-sc", make_instance_full(None, None, Some(new_class)), old_obj)
}

fn make_cluster_change_request(
    old_cluster: &str,
    new_cluster: &str,
    old_phase: Option<&str>,
) -> AdmissionRequest {
    let mut old_obj = make_instance_full(None, Some(old_cluster), None);
    if let Some(phase) = old_phase {
        old_obj.status = Some(OdooInstanceStatus {
            phase: Some(phase_named(phase)),
            ..Default::default()
        });
    }
    update("req-cluster", make_instance_full(None, Some(new_cluster), None), old_obj)
}

fn make_fs_request(
    old_fs: Option<FilestoreSpec>,
    new_fs: Option<FilestoreSpec>,
    create: bool,
) -> AdmissionRequest {
    let mut new = make_instance_full(None, None, None);
    new.spec.filestore = new_fs;
    let old_object = if create {
        None
    } else {
        let mut old = make_instance_full(None, None, None);
        old.spec.filestore = old_fs;
        Some(old)
    };
    AdmissionRequest {
        uid: "req-fs".to_string(),
        object: Some(new),
        old_object,
    }
}

#[test]
fn test_parse_quantity() {
    assert_eq!(parse_quantity("2Gi").unwrap(), 2 * 1024 * 1024 * 1024);
    assert_eq!(parse_quantity("10Gi").unwrap(), 10 * 1024 * 1024 * 1024);
    assert_eq!(parse_quantity("500Mi").unwrap(), 500 * 1024 * 1024);
    assert_eq!(parse_quantity("1Ti").unwrap(), 1024 * 1024 * 1024 * 1024);
    assert_eq!(parse_quantity("100").unwrap(), 100);
}

#[test]
fn test_compare_quantities_allows_increase() {
    assert!(compare_quantities("2Gi", "10Gi").is_ok());
    assert!(compare_quantities("2Gi", "2Gi").is_ok());
}

#[test]
fn test_compare_quantities_rejects_decrease() {
    assert!(compare_quantities("10Gi", "2Gi").is_err());
    assert!(compare_quantities("1Gi", "500Mi").is_err());
}

#[test]
fn test_validate_allows_normal_update() {
    let req = make_update_request(Some("mydb"), None, Some("mydb"), None);
    let resp = validate(req);
    assert!(resp.allowed);
}

#[test]
fn test_validate_allows_cluster_change_when_running() {
    let req = make_update_request(None, Some("pg-cluster-a"), None, Some("pg-cluster-b"));
    let resp = validate(req);
    assert!(
        resp.allowed,
        "cluster change should be allowed (no phase = safe state)"
    );
}

#[test]
fn test_validate_rejects_cluster_change_when_restoring() {
    let req = make_cluster_change_request("pg-a", "pg-b", Some("Restoring"));
    let resp = validate(req);
    assert!(
        !resp.allowed,
        "cluster change should be rejected when Restoring"
    );
}

#[test]
fn test_validate_rejects_cluster_change_when_migrating_db() {
    let req = make_cluster_change_request("pg-a", "pg-b", Some("MigratingDatabase"));
    let resp = validate(req);
    assert!(
        !resp.allowed,
        "cluster change should be rejected when already migrating"
    );
}

#[test]
fn test_validate_allows_storage_class_change_when_running() {
    let req = make_sc_change_request("cephfs", "juicefs", Some("Running"));
    let resp = validate(req);
    assert!(
        resp.allowed,
        "storageClass change should be allowed when Running"
    );
}

#[test]
fn test_validate_allows_storage_class_change_when_stopped() {
    let req = make_sc_change_request("cephfs", "juicefs", Some("Stopped"));
    let resp = validate(req);
    assert!(
        resp.allowed,
        "storageClass change should be allowed when Stopped"
    );
}

#[test]
fn test_validate_rejects_storage_class_change_when_restoring() {
    let req = make_sc_change_request("cephfs", "juicefs", Some("Restoring"));
    let resp = validate(req);
    assert!(
        !resp.allowed,
        "storageClass change should be rejected when Restoring"
    );
}

#[test]
fn test_validate_rejects_storage_class_change_when_upgrading() {
    let req = make_sc_change_request("cephfs", "juicefs", Some("Upgrading"));
    let resp = validate(req);
    assert!(
        !resp.allowed,
        "storageClass change should be rejected when Upgrading"
    );
}

#[test]
fn test_validate_rejects_storage_class_change_when_backing_up() {
    let req = make_sc_change_request("cephfs", "juicefs", Some("BackingUp"));
    let resp = validate(req);
    assert!(
        !resp.allowed,
        "storageClass change should be rejected when BackingUp"
    );
}

#[test]
fn test_validate_rejects_storage_class_change_when_migrating() {
    let req = make_sc_change_request("cephfs", "juicefs", Some("MigratingFilestore"));
    let resp = validate(req);
    assert!(
        !resp.allowed,
        "storageClass change should be rejected when already migrating"
    );
}

#[test]
fn test_validate_rejects_storage_class_change_when_uninitialized() {
    let req = make_sc_change_request("cephfs", "juicefs", Some("Uninitialized"));
    let resp = validate(req);
    assert!(
        !resp.allowed,
        "storageClass change should be rejected when Uninitialized"
    );
}

#[test]
fn test_validate_allows_rollback_during_migration() {
    // Reverting to the previous SC (stored in status) should be allowed
    // even during MigratingFilestore.
    let req = make_sc_change_request_with_prev(
        "juicefs",
        "cephfs",
        Some("MigratingFilestore"),
        Some("cephfs"),
    );
    let resp = validate(req);
    assert!(
        resp.allowed,
        "rollback to previous storageClass should be allowed during migration"
    );
}

#[test]
fn test_validate_rejects_non_rollback_during_migration() {
    // Changing to a DIFFERENT SC (not the previous one) during migration
    // should still be rejected.
    let req = make_sc_change_request_with_prev(
        "juicefs",
        "longhorn",
        Some("MigratingFilestore"),
        Some("cephfs"),
    );
    let resp = validate(req);
    assert!(
        !resp.allowed,
        "changing to a third storageClass during migration should be rejected"
    );
}

// ── emptyDir filestore coherence ────────────────────────────────────

#[test]
fn test_validate_rejects_empty_dir_with_storage_on_create() {
    let req = make_fs_request(
        None,
        Some(filestore(true, Some("2Gi"), None)),
        true,
    );
    let resp = validate(req);
    assert!(
        !resp.allowed,
        "creating with emptyDir + storageSize should be rejected"
    );
}

#[test]
fn test_validate_allows_empty_dir_create_with_contract_warning() {
    let req = make_fs_request(None, Some(filestore(true, None, None)), true);
    let resp = validate(req);
    assert!(resp.allowed, "clean emptyDir create should be allowed");
    assert!(
        resp.warnings.as_ref().is_some_and(|w| w.len() == 1),
        "entering emptyDir should carry exactly the contract warning"
    );
}

#[test]
fn test_validate_allows_flip_with_leftover_defaults_and_warns() {
    // Old spec carries operator-injected size/class; the user flips
    // emptyDir on without touching them. Must be allowed (the defaults
    // pass strips them) with both warnings attached.
    let old = filestore(false, Some("2Gi"), Some("standard"));
    let new = filestore(true, Some("2Gi"), Some("standard"));
    let req = make_fs_request(Some(old), Some(new), false);
    let resp = validate(req);
    assert!(
        resp.allowed,
        "flip to emptyDir with unchanged leftover size/class should be allowed"
    );
    assert!(
        resp.warnings.as_ref().is_some_and(|w| w.len() == 2),
        "leftover-values warning + contract warning expected"
    );
}

#[test]
fn test_validate_rejects_storage_change_while_ephemeral() {
    let old = filestore(true, None, None);
    let new = filestore(true, None, Some("standard"));
    let req = make_fs_request(Some(old), Some(new), false);
    let resp = validate(req);
    assert!(
        !resp.allowed,
        "introducing storageClass while emptyDir should be rejected"
    );
}

#[test]
fn test_validate_steady_ephemeral_update_is_quiet() {
    let old = filestore(true, None, None);
    let new = filestore(true, None, None);
    let req = make_fs_request(Some(old), Some(new), false);
    let resp = validate(req);
    assert!(resp.allowed);
    assert!(
        resp.warnings.is_none(),
        "an already-ephemeral instance should not warn on every update"
    );
}

// ── Messages ────────────────────────────────────────────────────────────────

#[test]
fn the_answer_carries_the_uid_of_the_request() {
    assert_eq!(validate(make_update_request(None, None, None, None)).uid, "req-1");
}

#[test]
fn a_decrease_is_refused_with_both_sizes() {
    let req = make_fs_request(
        Some(filestore(false, Some("10Gi"), None)),
        Some(filestore(false, Some("2Gi"), None)),
        false,
    );
    let resp = validate(req);
    assert!(!resp.allowed);
    assert_eq!(
        resp.message.as_deref(),
        Some("spec.filestore.storageSize: cannot decrease storage size from 10Gi to 2Gi")
    );
    assert!(resp.warnings.is_none());
}

#[test]
fn an_unreadable_size_is_refused() {
    assert_eq!(
        compare_quantities("x", "2Gi"),
        Err("invalid old quantity \"x\": invalid number \"\": cannot parse float from empty string"
            .to_string())
    );
    assert_eq!(
        compare_quantities("2Gi", "2Xi"),
        Err("invalid new quantity \"2Xi\": unknown suffix \"Xi\"".to_string())
    );
}

#[test]
fn an_unsafe_change_is_refused_with_the_phase() {
    let resp = validate(make_cluster_change_request("a", "b", Some("BackingUp")));
    assert_eq!(
        resp.message.as_deref(),
        Some("spec.database.cluster: cannot change cluster while instance is in BackingUp phase")
    );
    let resp = validate(make_sc_change_request("a", "b", Some("Uninitialized")));
    assert_eq!(
        resp.message.as_deref(),
        Some("spec.filestore.storageClass: cannot change storage class while instance is in Uninitialized phase")
    );
    for phase in ["MigratingDatabase", "FinalizingDatabaseMigration"] {
        let resp = validate(make_sc_change_request("a", "b", Some(phase)));
        assert!(!resp.allowed);
    }
}

#[test]
fn the_way_back_to_the_previous_cluster_is_open() {
    let mut req = make_cluster_change_request("pg-b", "pg-a", Some("MigratingDatabase"));
    req.old_object.as_mut().unwrap().status.as_mut().unwrap().migration_previous_cluster =
        Some("pg-a".to_string());
    assert!(validate(req).allowed);
}

#[test]
fn deletion_is_admitted_quietly() {
    let mut old = make_instance_full(None, None, None);
    old.spec.filestore = Some(filestore(true, None, None));
    let resp = validate(AdmissionRequest {
        uid: "req-del".to_string(),
        object: None,
        old_object: Some(old),
    });
    assert!(resp.allowed);
    assert!(resp.warnings.is_none());
}

#[test]
fn the_warnings_say_what_is_ignored_and_what_it_means() {
    let resp = validate(make_fs_request(
        Some(filestore(false, Some("2Gi"), None)),
        Some(filestore(true, Some("2Gi"), None)),
        false,
    ));
    let warnings = resp.warnings.unwrap();
    assert_eq!(
        warnings[0],
        "spec.filestore: storageSize/storageClass are ignored while emptyDir is true and will be removed by the operator"
    );
    assert!(warnings[1].starts_with("spec.filestore.emptyDir: the filestore is now per-pod and ephemeral;"));
    assert!(warnings[1].ends_with("— backups of this instance are database-only"));
}
