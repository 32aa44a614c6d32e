//! Unit tests for helper functions.

use odoo_operator::crd::metadata::{Moment, ObjectMeta};
use odoo_operator::crd::odoo_instance::{
    CronSpec, DatabaseSpec, IngressSpec, OdooInstance, OdooInstanceSpec,
};
use odoo_operator::helpers::{
    build_odoo_conf, current_moment, db_name, format_odoo_time, generate_password,
    odoo_ro_username, odoo_username, parse_quantity, password_from_bytes, sanitise_uid, sha256_hex,
    utc_now_odoo, OperatorDefaults,
};
use odoo_operator::string_map::StringMap;

// ── odoo_ro_username ─────────────────────────────────────────────────────────

#[test]
fn test_odoo_ro_username_format() {
    assert_eq!(
        odoo_ro_username("production", "my-odoo"),
        "odoo.production.my-odoo_ro"
    );
    assert_eq!(odoo_ro_username("default", "test"), "odoo.default.test_ro");
}

#[test]
fn test_odoo_ro_username_differs_from_owner() {
    let owner = odoo_username("ns", "inst");
    let ro = odoo_ro_username("ns", "inst");
    assert_ne!(owner, ro);
    assert!(ro.ends_with("_ro"));
}

#[test]
fn test_sanitise_uid_replaces_non_alphanumeric() {
    assert_eq!(sanitise_uid("abc-123-DEF"), "abc_123____");
    assert_eq!(sanitise_uid("abcdef0123456789"), "abcdef0123456789");
    assert_eq!(sanitise_uid(""), "");
}

#[test]
fn test_odoo_username_format() {
    assert_eq!(
        odoo_username("production", "my-odoo"),
        "odoo.production.my-odoo"
    );
    assert_eq!(odoo_username("default", "test"), "odoo.default.test");
}

#[test]
fn test_generate_password_length_and_hex() {
    let pw = generate_password();
    assert_eq!(pw.len(), 48); // 24 bytes → 48 hex chars
    assert!(pw.chars().all(|c| c.is_ascii_hexdigit()));
}

#[test]
fn test_generate_password_uniqueness() {
    let pw1 = generate_password();
    let pw2 = generate_password();
    assert_ne!(pw1, pw2);
}

#[test]
fn test_sha256_hex_deterministic() {
    let hash1 = sha256_hex("hello world");
    let hash2 = sha256_hex("hello world");
    assert_eq!(hash1, hash2);
    assert_eq!(hash1.len(), 64); // SHA-256 → 32 bytes → 64 hex chars
}

#[test]
fn test_sha256_hex_different_inputs() {
    assert_ne!(sha256_hex("a"), sha256_hex("b"));
}

#[test]
fn test_build_odoo_conf_contains_required_keys() {
    let conf = build_odoo_conf(
        "odoo.ns.inst",
        "secret123",
        "admin_pw",
        "pg-host",
        5432,
        "odoo_db",
        &None,
    );

    assert!(conf.starts_with("[options]\n"));
    assert!(conf.contains("db_host = pg-host\n"));
    assert!(conf.contains("db_port = 5432\n"));
    assert!(conf.contains("db_name = odoo_db\n"));
    assert!(conf.contains("db_user = odoo.ns.inst\n"));
    assert!(conf.contains("db_password = secret123\n"));
    assert!(conf.contains("admin_passwd = admin_pw\n"));
    assert!(conf.contains("proxy_mode = True\n"));
    assert!(conf.contains("list_db = False\n"));
    assert!(conf.contains("http_port = 8069\n"));
}

#[test]
fn test_build_odoo_conf_with_extra_options() {
    let mut options = StringMap::new();
    options.insert("workers".to_string(), "4".to_string());
    options.insert("max_cron_threads".to_string(), "1".to_string());
    let extra = Some(options);

    let conf = build_odoo_conf("u", "p", "a", "h", 5432, "d", &extra);

    assert!(conf.contains("workers = 4\n"));
    assert!(conf.contains("max_cron_threads = 1\n"));
}

#[test]
fn test_build_odoo_conf_prepends_standard_addons_path() {
    let conf = build_odoo_conf("u", "p", "a", "h", 5432, "d", &None);
    // The standard addons paths should be prepended.
    assert!(
        conf.contains("addons_path = /opt/odoo/addons,/opt/odoo/odoo/addons,/mnt/extra-addons\n")
    );
}

#[test]
fn test_build_odoo_conf_empty_admin_password_omitted() {
    let conf = build_odoo_conf("u", "p", "", "h", 5432, "d", &None);
    assert!(!conf.contains("admin_passwd"));
}

// ── db_name ─────────────────────────────────────────────────────────────────

fn make_instance(uid: Option<&str>, db_name: Option<&str>) -> OdooInstance {
    OdooInstance {
        metadata: ObjectMeta {
            name: Some("test".to_string()),
            namespace: Some("default".to_string()),
            uid: uid.map(|s| s.to_string()),
            ..Default::default()
        },
        spec: OdooInstanceSpec {
            image: None,
            image_pull_secret: None,
            admin_password: "admin".to_string(),
            replicas: 1,
            cron: CronSpec::default(),
            ingress: IngressSpec {
                hosts: vec!["test.example.com".to_string()],
                issuer: None,
                class: None,
                gateway_ref: None,
            },
            resources: None,
            filestore: None,
            config_options: None,
            database: db_name.map(|n| DatabaseSpec {
                cluster: None,
                name: Some(n.to_string()),
                missing_policy: Default::default(),
            }),
            init: Default::default(),
            environment: Default::default(),
            production_instance_ref: None,
            strategy: None,
            webhook: None,
            probes: None,
            affinity: None,
            tolerations: vec![],
            read_only_sql_access: None,
            extra_env: vec![],
            extra_env_from: vec![],
        },
        status: None,
    }
}

#[test]
fn test_db_name_falls_back_to_uid() {
    let inst = make_instance(Some("abc-123-def"), None);
    assert_eq!(db_name(&inst), "odoo_abc_123_def");
}

#[test]
fn test_db_name_uses_custom_name() {
    let inst = make_instance(Some("abc-123-def"), Some("my_custom_db"));
    assert_eq!(db_name(&inst), "my_custom_db");
}

#[test]
fn db_name_without_uid_is_unknown() {
    assert_eq!(db_name(&make_instance(None, None)), "odoo_unknown");
}

#[test]
fn sanitised_uid_is_safe_and_stable() {
    let once = sanitise_uid("A-b.c/é_9");
    assert_eq!(once, "__b_c___9");
    assert_eq!(sanitise_uid(&once), once);
}

// ── odoo.conf ────────────────────────────────────────────────────────────────

#[test]
fn conf_is_exact() {
    let mut options = StringMap::new();
    options.insert("workers".to_string(), "4".to_string());
    options.insert("limit_time_real".to_string(), "600".to_string());
    options.insert("logfile".to_string(), "/dev/null".to_string());
    options.insert("addons_path".to_string(), "".to_string());
    let conf = build_odoo_conf("u", "p", "a", "h", -1, "d", &Some(options));
    assert_eq!(
        conf,
        "[options]\n\
         data_dir = /var/lib/odoo\n\
         logfile = /dev/null\n\
         log_level = info\n\
         proxy_mode = True\n\
         addons_path = /opt/odoo/addons,/opt/odoo/odoo/addons\n\
         db_host = h\n\
         db_port = -1\n\
         db_name = d\n\
         db_user = u\n\
         db_password = p\n\
         list_db = False\n\
         http_interface = 0.0.0.0\n\
         http_port = 8069\n\
         max_cron_threads = 2\n\
         admin_passwd = a\n\
         limit_time_real = 600\n\
         workers = 4\n"
    );
}

#[test]
fn conf_lists_each_option_once() {
    let mut options = StringMap::new();
    options.insert("db_name".to_string(), "mine".to_string());
    options.insert("admin_passwd".to_string(), "pw".to_string());
    let conf = build_odoo_conf("u", "p", "", "h", 5432, "d", &Some(options));
    assert_eq!(conf.matches("db_name = ").count(), 1);
    assert!(conf.contains("db_name = mine\n"));
    assert!(conf.ends_with("max_cron_threads = 2\nadmin_passwd = pw\n"));
}

// ── Ordered maps ─────────────────────────────────────────────────────────────

#[test]
fn string_map_is_ordered_and_holds_each_key_once() {
    let mut map = StringMap::new();
    for (k, v) in [("b", "1"), ("a", "2"), ("ab", "3"), ("b", "4"), ("Z", "5"), ("é", "6")] {
        map.insert(k.to_string(), v.to_string());
    }
    let keys: Vec<&str> = (0..map.len()).map(|i| map.key(i).as_str()).collect();
    assert_eq!(keys, vec!["Z", "a", "ab", "b", "é"]);
    assert_eq!(map.get("b").map(|s| s.as_str()), Some("4"));
    assert!(map.get("c").is_none());
    let copy = map.clone();
    assert_eq!(copy, map);
    let mut over = StringMap::new();
    over.insert("a".to_string(), "new".to_string());
    over.insert("c".to_string(), "7".to_string());
    map.extend(&over);
    assert_eq!(map.len(), 6);
    assert_eq!(map.get("a").map(|s| s.as_str()), Some("new"));
    assert_eq!(map.get("c").map(|s| s.as_str()), Some("7"));
}

// ── Hashes, passwords, time ──────────────────────────────────────────────────

#[test]
fn sha256_of_known_text() {
    assert_eq!(
        sha256_hex("abc"),
        "ba7816bf8f01cfea414140de5dae2223b00361a396177a9cb410ff61f20015ad"
    );
}

#[test]
fn password_is_the_hex_of_its_bytes() {
    assert_eq!(password_from_bytes(&vec![0, 15, 16, 171, 255]), "000f10abff");
}

#[test]
fn time_is_written_as_odoo_expects() {
    let moment = Moment { secs: 1_431_648_000, nanos: 500 };
    assert_eq!(format_odoo_time(moment), Some("2015-05-15 00:00:00".to_string()));
    assert_eq!(format_odoo_time(Moment { secs: i64::MAX, nanos: 0 }), None);
}

#[test]
fn now_is_written_as_odoo_expects() {
    let before = current_moment();
    let text = utc_now_odoo();
    let after = current_moment();
    assert!(before.is_not_after(after));
    assert_eq!(text.len(), 19);
    assert!(format_odoo_time(before).unwrap() <= text && text <= format_odoo_time(after).unwrap());
}

#[test]
fn defaults_are_empty() {
    let d = OperatorDefaults::default();
    assert_eq!(d.odoo_image, "");
    assert!(d.resources.is_none() && d.affinity.is_none() && d.tolerations.is_empty());
    assert_eq!(d.staging_smtp_port, 0);
}

// ── Quantities ───────────────────────────────────────────────────────────────

#[test]
fn every_suffix_multiplies() {
    assert_eq!(parse_quantity("1").unwrap(), 1);
    assert_eq!(parse_quantity("1Ki").unwrap(), 1024);
    assert_eq!(parse_quantity("1Mi").unwrap(), 1_048_576);
    assert_eq!(parse_quantity("1Gi").unwrap(), 1_073_741_824);
    assert_eq!(parse_quantity("1Ti").unwrap(), 1_099_511_627_776);
    assert_eq!(parse_quantity("1k").unwrap(), 1_000);
    assert_eq!(parse_quantity("1M").unwrap(), 1_000_000);
    assert_eq!(parse_quantity("1G").unwrap(), 1_000_000_000);
    assert_eq!(parse_quantity("1T").unwrap(), 1_000_000_000_000);
}

#[test]
fn quantities_are_ordered_and_trimmed() {
    let numbers = ["0", "0.1", "0.5", "1", "1.5", "2", "9007199254740993", "36893488147419103232"];
    for suffix in ["", "Ki", "Ti", "k", "T"] {
        for pair in numbers.windows(2) {
            let small = parse_quantity(&format!("{}{suffix}", pair[0])).unwrap();
            let large = parse_quantity(&format!("{}{suffix}", pair[1])).unwrap();
            assert!(small <= large, "{pair:?}{suffix}");
        }
    }
    assert_eq!(parse_quantity(" 3Gi\n"), parse_quantity("3Gi"));
    assert_eq!(parse_quantity(" \t"), parse_quantity(""));
}

#[test]
fn fractions_are_truncated() {
    assert_eq!(parse_quantity("1.5Gi").unwrap(), 1_610_612_736);
    assert_eq!(parse_quantity(".5Ki").unwrap(), 512);
    assert_eq!(parse_quantity("5.").unwrap(), 5);
    assert_eq!(parse_quantity("0.0001Ki").unwrap(), 0);
    assert_eq!(parse_quantity("1.9999").unwrap(), 1);
    assert_eq!(parse_quantity("  2.5k\t").unwrap(), 2_500);
}

#[test]
fn numbers_are_read_as_doubles() {
    let factors: [(&str, u64); 9] = [
        ("", 1),
        ("Ki", 1 << 10),
        ("Mi", 1 << 20),
        ("Gi", 1 << 30),
        ("Ti", 1 << 40),
        ("k", 1_000),
        ("M", 1_000_000),
        ("G", 1_000_000_000),
        ("T", 1_000_000_000_000),
    ];
    let mut numbers: Vec<String> = [
        "0",
        "0.0",
        "000.000",
        "1",
        "0.1",
        "0.3",
        "2.675",
        "9007199254740991",
        "9007199254740992",
        "9007199254740993",
        "9007199254740993.0000000000000000000000000000001",
        "9007199254740992.9999999999999999999999999999999",
        "18446744073709551615",
        "18446744073709551616",
        "18446744073709549568",
        "18446744073709550591.999999999",
        "18446744073709550592",
        "99999999999999999999999999999999999999",
        "0.00000000000000000000000000000000000001",
        "0.00000000000090949470177292823791503906249999999999999999",
        "0.0000000000009094947017729282379150390625",
        "0.9999999999999999444888487687421760603063",
        "0.99999999999999994448884876874217606030632",
        "0.99999999999999994448884876874",
        "4503599627370496.5",
        "4503599627370497.5",
        "123456789.987654321",
        "1.00000000000000011102230246251565404236316680908203125",
        "1.00000000000000011102230246251565404236316680908203126",
        "1.00000000000000011102230246251565404236316680908203124",
    ]
    .iter()
    .map(|s| s.to_string())
    .collect();
    // A fixed pseudo-random walk over digits and points.
    let mut state: u64 = 0x2545_f491_4f6c_dd1d;
    for _ in 0..400 {
        let mut text = String::new();
        state ^= state << 13;
        state ^= state >> 7;
        state ^= state << 17;
        let whole = state % 21;
        let fraction = (state >> 8) % 40;
        for k in 0..(whole + fraction) {
            if k == whole {
                text.push('.');
            }
            state ^= state << 13;
            state ^= state >> 7;
            state ^= state << 17;
            text.push((b'0' + (state % 10) as u8) as char);
        }
        if !text.is_empty() && text != "." {
            numbers.push(text);
        }
    }
    numbers.push("9".repeat(400));
    numbers.push(format!("0.{}1", "0".repeat(400)));
    for number in &numbers {
        for (suffix, factor) in factors {
            let expected = (number.parse::<f64>().unwrap() * factor as f64) as u64;
            assert_eq!(
                parse_quantity(&format!("{number}{suffix}")),
                Ok(expected),
                "{number}{suffix}"
            );
        }
    }
}

#[test]
fn what_is_no_quantity_is_refused() {
    assert_eq!(parse_quantity(""), Err("empty quantity".to_string()));
    assert_eq!(parse_quantity(" \n\u{3000}"), Err("empty quantity".to_string()));
    assert_eq!(
        parse_quantity("-1Gi"),
        Err("invalid number \"\": cannot parse float from empty string".to_string())
    );
    assert_eq!(
        parse_quantity("Gi"),
        Err(format!("invalid number {:?}: {}", "", "".parse::<f64>().unwrap_err()))
    );
    for text in [".", "1.2.3", "..", "1..2"] {
        assert_eq!(
            parse_quantity(text),
            Err(format!("invalid number {:?}: {}", text, text.parse::<f64>().unwrap_err()))
        );
    }
    assert_eq!(parse_quantity("1gi"), Err("unknown suffix \"gi\"".to_string()));
    assert_eq!(parse_quantity("1 Gi"), Err("unknown suffix \" Gi\"".to_string()));
    assert_eq!(parse_quantity("1\u{7}\"é"), Err(format!("unknown suffix {:?}", "\u{7}\"é")));
}
