//! Names, passwords, hashes, `odoo.conf` and storage quantities.

use vstd::prelude::*;
use vstd::string::StringExecFns;
use vstd::utf8::encode_utf8;

use crate::binary64::{are_digits, digits_value, pow10, scaled_decimal, scaled_double};
use crate::crd::metadata::Moment;
use crate::crd::odoo_instance::OdooInstance;
use crate::outside::{
    datetime_text, format_datetime, hex_encode, hex_text, is_moment, random_bytes, sha256,
    sha256_digest, utc_now,
};
use crate::string_map::{is_listing, listing, StringMap};
use crate::text::{
    debug_of, debug_text, decimal, int_text, join2, join3, join4, same_text, string_of, trimmed,
    trimmed_chars,
};

verus! {

broadcast use vstd::seq_lib::group_seq_properties;

// ── Time ────────────────────────────────────────────────────────────────────

/// `moment` as Odoo expects it, `YYYY-MM-DD HH:MM:SS`, where it is in the calendar's range.
pub open spec fn odoo_time(moment: Moment) -> Option<Seq<char>> {
    datetime_text(moment.secs, moment.nanos, "%Y-%m-%d %H:%M:%S"@)
}

/// `moment` as Odoo expects it, where it is in the calendar's range.
pub fn format_odoo_time(moment: Moment) -> (r: Option<String>)
    ensures
        r is Some == is_moment(moment.secs, moment.nanos),
        r is Some == odoo_time(moment) is Some,
        r matches Some(text) ==> Some(text@) == odoo_time(moment),
{
    format_datetime(moment.secs, moment.nanos, "%Y-%m-%d %H:%M:%S")
}

/// Whether the clock can show this moment: one from the Unix epoch on, and no leap second.
pub open spec fn is_clock_time(moment: Moment) -> bool {
    &&& moment.secs >= 0
    &&& moment.nanos < 1_000_000_000
    &&& is_moment(moment.secs, moment.nanos)
}

/// The current moment.
pub fn current_moment() -> (r: Moment)
    ensures
        is_clock_time(r),
{
    let (secs, nanos) = utc_now();
    Moment { secs, nanos }
}

/// The current UTC time as Odoo expects it, `YYYY-MM-DD HH:MM:SS`.
pub fn utc_now_odoo() -> (r: String)
    ensures
        exists|now: Moment| is_clock_time(now) && #[trigger] odoo_time(now) == Some(r@),
{
    let now = current_moment();
    match format_odoo_time(now) {
        Some(text) => {
            proof {
                assert(odoo_time(now) == Some(text@));
            }
            text
        },
        None => String::new(),
    }
}

// ── Operator defaults ───────────────────────────────────────────────────────

/// What the operator fills in where an instance leaves it open.
#[derive(Debug)]
pub struct OperatorDefaults {
    pub odoo_image: String,
    pub storage_class: String,
    pub storage_size: String,
    pub ingress_class: String,
    pub ingress_issuer: String,
    pub gateway_ref_name: String,
    pub gateway_ref_namespace: String,
    pub resources: Option<k8s_openapi::api::core::v1::ResourceRequirements>,
    pub affinity: Option<k8s_openapi::api::core::v1::Affinity>,
    pub tolerations: Vec<k8s_openapi::api::core::v1::Toleration>,
    /// Mail sink of staging instances. Empty: staging instances send no mail.
    pub staging_smtp_host: String,
    pub staging_smtp_port: u16,
    pub staging_smtp_encryption: String,
}

impl Default for OperatorDefaults {
    fn default() -> (r: OperatorDefaults)
        ensures
            r.odoo_image@.len() == 0,
            r.storage_class@.len() == 0,
            r.storage_size@.len() == 0,
            r.ingress_class@.len() == 0,
            r.ingress_issuer@.len() == 0,
            r.gateway_ref_name@.len() == 0,
            r.gateway_ref_namespace@.len() == 0,
            r.resources is None,
            r.affinity is None,
            r.tolerations@.len() == 0,
            r.staging_smtp_host@.len() == 0,
            r.staging_smtp_port == 0,
            r.staging_smtp_encryption@.len() == 0,
    {
        OperatorDefaults {
            odoo_image: String::new(),
            storage_class: String::new(),
            storage_size: String::new(),
            ingress_class: String::new(),
            ingress_issuer: String::new(),
            gateway_ref_name: String::new(),
            gateway_ref_namespace: String::new(),
            resources: None,
            affinity: None,
            tolerations: Vec::new(),
            staging_smtp_host: String::new(),
            staging_smtp_port: 0,
            staging_smtp_encryption: String::new(),
        }
    }
}

// ── Names ───────────────────────────────────────────────────────────────────

/// The PostgreSQL user of an instance.
pub open spec fn username(namespace: Seq<char>, name: Seq<char>) -> Seq<char> {
    "odoo."@ + namespace + "."@ + name
}

/// The PostgreSQL user of the instance `name` in `namespace`.
pub fn odoo_username(namespace: &str, name: &str) -> (r: String)
    ensures
        r@ == username(namespace@, name@),
{
    join4("odoo.", namespace, ".", name)
}

/// The read-only companion of a PostgreSQL user.
pub open spec fn ro_username(namespace: Seq<char>, name: Seq<char>) -> Seq<char> {
    username(namespace, name) + "_ro"@
}

/// The read-only PostgreSQL user of the instance `name` in `namespace`.
pub fn odoo_ro_username(namespace: &str, name: &str) -> (r: String)
    ensures
        r@ == ro_username(namespace@, name@),
{
    let owner = odoo_username(namespace, name);
    join2(owner.as_str(), "_ro")
}

/// Whether `c` may stand in a generated database name.
pub open spec fn is_plain(c: char) -> bool {
    ('a' <= c && c <= 'z') || ('0' <= c && c <= '9')
}

/// `uid` with an underscore in the place of each character that is not a lower case
/// letter or a digit.
pub open spec fn sanitised(uid: Seq<char>) -> Seq<char> {
    uid.map_values(
        |c: char|
            if is_plain(c) {
                c
            } else {
                '_'
            },
    )
}

/// Turns a UUID into a safe part of a database name.
pub fn sanitise_uid(uid: &str) -> (r: String)
    ensures
        r@ == sanitised(uid@),
{
    let mut out = String::new();
    for c in it: uid.chars()
        invariant
            it.seq() == uid@,
            out@ == sanitised(uid@.take(it.index())),
    {
        proof {
            assert(uid@.take(it.index() + 1) =~= uid@.take(it.index()).push(uid@[it.index()]));
        }
        let ghost before = out@;
        let mapped = if ('a' <= c && c <= 'z') || ('0' <= c && c <= '9') {
            c
        } else {
            '_'
        };
        out.push(mapped);
        proof {
            assert(out@ =~= sanitised(uid@.take(it.index() + 1)));
        }
    }
    proof {
        assert(uid@.take(uid@.len() as int) =~= uid@);
    }
    out
}

/// The database name that the instance asks for, if any.
pub open spec fn custom_db_name(instance: &OdooInstance) -> Option<Seq<char>> {
    match instance.spec.database {
        Some(d) => match d.name {
            Some(n) => Some(n@),
            None => None,
        },
        None => None,
    }
}

/// The database of an instance: the one that it asks for, else one named after its UID.
pub open spec fn database_name(instance: &OdooInstance) -> Seq<char> {
    match custom_db_name(instance) {
        Some(n) => n,
        None => "odoo_"@ + sanitised(
            match instance.metadata.uid {
                Some(uid) => uid@,
                None => "unknown"@,
            },
        ),
    }
}

/// The database of an instance: the one that it asks for, else one named after its UID.
pub fn db_name(instance: &OdooInstance) -> (r: String)
    ensures
        r@ == database_name(instance),
{
    if let Some(database) = &instance.spec.database {
        if let Some(custom) = &database.name {
            return custom.clone();
        }
    }
    let sanitised_uid = match &instance.metadata.uid {
        Some(uid) => sanitise_uid(uid.as_str()),
        None => sanitise_uid("unknown"),
    };
    join2("odoo_", sanitised_uid.as_str())
}

// ── Passwords and hashes ────────────────────────────────────────────────────

/// A password made of random bytes.
pub fn password_from_bytes(bytes: &Vec<u8>) -> (r: String)
    ensures
        r@ == hex_text(bytes@),
{
    hex_encode(bytes)
}

/// A random password of 48 hexadecimal digits.
pub fn generate_password() -> (r: String)
    ensures
        r@.len() == 48,
        exists|bytes: Seq<u8>| bytes.len() == 24 && r@ == hex_text(bytes),
{
    let bytes = random_bytes(24);
    password_from_bytes(&bytes)
}

/// The SHA-256 hash of a text, in lower case hexadecimal digits.
pub open spec fn sha256_text(input: Seq<char>) -> Seq<char> {
    hex_text(sha256(encode_utf8(input)))
}

/// The SHA-256 hash of `input`, in lower case hexadecimal digits.
pub fn sha256_hex(input: &str) -> (r: String)
    ensures
        r@ == sha256_text(input@),
        r@.len() == 64,
{
    let digest = sha256_digest(input.as_bytes());
    hex_encode(&digest)
}

// ── odoo.conf ───────────────────────────────────────────────────────────────

/// The options that every instance has.
pub open spec fn base_options(
    username: Seq<char>,
    password: Seq<char>,
    db_host: Seq<char>,
    db_port: int,
    db_name: Seq<char>,
) -> Map<Seq<char>, Seq<char>> {
    Map::<Seq<char>, Seq<char>>::empty().insert("data_dir"@, "/var/lib/odoo"@).insert(
        "logfile"@,
        Seq::empty(),
    ).insert("log_level"@, "info"@).insert("proxy_mode"@, "True"@).insert(
        "addons_path"@,
        "/mnt/extra-addons"@,
    ).insert("db_host"@, db_host).insert("db_port"@, int_text(db_port)).insert(
        "db_name"@,
        db_name,
    ).insert("db_user"@, username).insert("db_password"@, password).insert(
        "list_db"@,
        "False"@,
    ).insert("http_interface"@, "0.0.0.0"@).insert("http_port"@, "8069"@).insert(
        "max_cron_threads"@,
        "2"@,
    )
}

/// The addon paths of the Odoo image, followed by the configured ones.
pub open spec fn full_addons_path(configured: Seq<char>) -> Seq<char> {
    if configured.len() == 0 {
        "/opt/odoo/addons,/opt/odoo/odoo/addons"@
    } else {
        "/opt/odoo/addons,/opt/odoo/odoo/addons"@ + ","@ + configured
    }
}

/// The options in `odoo.conf`: the operator's, overridden by the instance's.
pub open spec fn conf_options(
    base: Map<Seq<char>, Seq<char>>,
    admin_password: Seq<char>,
    extra: Option<Map<Seq<char>, Seq<char>>>,
) -> Map<Seq<char>, Seq<char>> {
    let own = if admin_password.len() > 0 {
        base.insert("admin_passwd"@, admin_password)
    } else {
        base
    };
    let merged = match extra {
        Some(e) => own.union_prefer_right(e),
        None => own,
    };
    merged.insert("addons_path"@, full_addons_path(merged["addons_path"@]))
}

/// The options that come first in the file, in this order.
pub open spec fn standard_keys() -> Seq<Seq<char>> {
    seq![
        "data_dir"@,
        "logfile"@,
        "log_level"@,
        "proxy_mode"@,
        "addons_path"@,
        "db_host"@,
        "db_port"@,
        "db_name"@,
        "db_user"@,
        "db_password"@,
        "list_db"@,
        "http_interface"@,
        "http_port"@,
        "max_cron_threads"@,
        "admin_passwd"@,
    ]
}

/// One line of the file.
pub open spec fn conf_line(key: Seq<char>, value: Seq<char>) -> Seq<char> {
    key + " = "@ + value + "\n"@
}

/// The lines for `keys`, one after the other.
pub open spec fn conf_lines(
    keys: Seq<Seq<char>>,
    options: Map<Seq<char>, Seq<char>>,
) -> Seq<char>
    decreases keys.len(),
{
    if keys.len() == 0 {
        Seq::empty()
    } else {
        conf_lines(keys.drop_last(), options) + conf_line(keys.last(), options[keys.last()])
    }
}

/// The order in which the file lists its options: the standard ones, then the others in
/// ascending order.
pub open spec fn conf_order(options: Map<Seq<char>, Seq<char>>) -> Seq<Seq<char>> {
    standard_keys().filter(|k: Seq<char>| options.contains_key(k)) + listing(
        options.dom().difference(standard_keys().to_set()),
    )
}

/// The content of `odoo.conf`.
pub open spec fn conf_text(options: Map<Seq<char>, Seq<char>>) -> Seq<char> {
    "[options]\n"@ + conf_lines(conf_order(options), options)
}

fn standard_key_list() -> (r: Vec<&'static str>)
    ensures
        r@.len() == standard_keys().len(),
        forall|i: int| 0 <= i < r@.len() ==> (#[trigger] r@[i])@ == standard_keys()[i],
{
    vec![
        "data_dir",
        "logfile",
        "log_level",
        "proxy_mode",
        "addons_path",
        "db_host",
        "db_port",
        "db_name",
        "db_user",
        "db_password",
        "list_db",
        "http_interface",
        "http_port",
        "max_cron_threads",
        "admin_passwd",
    ]
}

/// Whether `key` is a standard option.
fn is_standard(keys: &Vec<&'static str>, key: &str) -> (r: bool)
    requires
        keys@.len() == standard_keys().len(),
        forall|i: int| 0 <= i < keys@.len() ==> (#[trigger] keys@[i])@ == standard_keys()[i],
    ensures
        r == standard_keys().contains(key@),
{
    let mut i: usize = 0;
    while i < keys.len()
        invariant
            i <= keys@.len() == standard_keys().len(),
            forall|j: int| 0 <= j < keys@.len() ==> (#[trigger] keys@[j])@ == standard_keys()[j],
            forall|j: int| 0 <= j < i ==> standard_keys()[j] != key@,
        decreases keys@.len() - i,
    {
        if same_text(keys[i], key) {
            proof {
                assert(standard_keys()[i as int] == key@);
            }
            return true;
        }
        i = i + 1;
    }
    false
}

/// Writes an option into the map.
fn set_option(options: &mut StringMap, key: &str, value: &str)
    ensures
        final(options)@ == old(options)@.insert(key@, value@),
{
    options.insert(key.to_owned(), value.to_owned());
}

/// Appends the line of an option.
fn push_line(out: &mut String, key: &str, value: &str)
    ensures
        final(out)@ == old(out)@ + conf_line(key@, value@),
{
    let ghost before = out@;
    out.append(key);
    out.append(" = ");
    out.append(value);
    out.append("\n");
    proof {
        assert(out@ =~= before + conf_line(key@, value@));
    }
}

/// The content of `odoo.conf`.
pub fn build_odoo_conf(
    username: &str,
    password: &str,
    admin_password: &str,
    db_host: &str,
    db_port: i32,
    db_name: &str,
    extra: &Option<StringMap>,
) -> (r: String)
    ensures
        r@ == conf_text(
            conf_options(
                base_options(username@, password@, db_host@, db_port as int, db_name@),
                admin_password@,
                match *extra {
                    Some(e) => Some(e@),
                    None => None,
                },
            ),
        ),
{
    let port = decimal(db_port);
    let mut options = StringMap::new();
    set_option(&mut options, "data_dir", "/var/lib/odoo");
    options.insert("logfile".to_owned(), String::new());
    set_option(&mut options, "log_level", "info");
    set_option(&mut options, "proxy_mode", "True");
    set_option(&mut options, "addons_path", "/mnt/extra-addons");
    set_option(&mut options, "db_host", db_host);
    set_option(&mut options, "db_port", port.as_str());
    set_option(&mut options, "db_name", db_name);
    set_option(&mut options, "db_user", username);
    set_option(&mut options, "db_password", password);
    set_option(&mut options, "list_db", "False");
    set_option(&mut options, "http_interface", "0.0.0.0");
    set_option(&mut options, "http_port", "8069");
    set_option(&mut options, "max_cron_threads", "2");
    let ghost base = base_options(username@, password@, db_host@, db_port as int, db_name@);
    assert(options@ == base);
    if !admin_password.is_empty() {
        set_option(&mut options, "admin_passwd", admin_password);
    }
    if let Some(extra) = extra {
        options.extend(extra);
    }
    proof {
        assert(options@.contains_key("addons_path"@));
    }
    let path = match options.get("addons_path") {
        Some(configured) => {
            if configured.as_str().is_empty() {
                "/opt/odoo/addons,/opt/odoo/odoo/addons".to_owned()
            } else {
                join3("/opt/odoo/addons,/opt/odoo/odoo/addons", ",", configured.as_str())
            }
        },
        None => String::new(),
    };
    set_option(&mut options, "addons_path", path.as_str());
    render_conf(&options)
}

/// Writes the options to text.
fn render_conf(options: &StringMap) -> (r: String)
    ensures
        r@ == conf_text(options@),
{
    let mut out: String = "[options]\n".to_owned();
    let standard = standard_key_list();
    let ghost head = out@;
    let ghost present = |k: Seq<char>| options@.contains_key(k);
    let ghost order: Seq<Seq<char>> = Seq::empty();
    let mut i: usize = 0;
    proof {
        reveal(Seq::filter);
        assert(standard_keys().take(0).filter(present) =~= order);
        assert(head + conf_lines(order, options@) =~= head);
    }
    while i < standard.len()
        invariant
            i <= standard@.len() == standard_keys().len(),
            forall|j: int| 0 <= j < standard@.len() ==> (#[trigger] standard@[j])@
                == standard_keys()[j],
            present == (|k: Seq<char>| options@.contains_key(k)),
            order == standard_keys().take(i as int).filter(present),
            out@ == head + conf_lines(order, options@),
        decreases standard@.len() - i,
    {
        let key = standard[i];
        proof {
            reveal(Seq::filter);
            assert(standard_keys().take(i + 1).drop_last() =~= standard_keys().take(i as int));
        }
        if let Some(value) = options.get(key) {
            push_line(&mut out, key, value.as_str());
            proof {
                let next = order.push(key@);
                assert(next.drop_last() =~= order);
                assert(out@ =~= head + conf_lines(next, options@));
                order = next;
            }
        }
        i = i + 1;
    }
    let ghost first = order;
    let ghost rest: Seq<Seq<char>> = Seq::empty();
    let ghost keys = options.keys();
    let len: usize = options.len();
    let mut j: usize = 0;
    proof {
        assert(standard_keys().take(standard_keys().len() as int) =~= standard_keys());
        assert(order =~= first + rest);
    }
    while j < len
        invariant
            j <= len == keys.len(),
            keys == options.keys(),
            is_listing(keys, options@.dom()),
            standard@.len() == standard_keys().len(),
            forall|q: int| 0 <= q < standard@.len() ==> (#[trigger] standard@[q])@
                == standard_keys()[q],
            crate::string_map::ascending(rest),
            forall|k: Seq<char>| #[trigger]
                rest.contains(k) <==> (keys.take(j as int).contains(k)
                    && !standard_keys().contains(k)),
            out@ == head + conf_lines(first + rest, options@),
        decreases len - j,
    {
        let key = options.key(j);
        let value = options.value(j);
        proof {
            assert(keys.take(j + 1) =~= keys.take(j as int).push(key@));
            assert forall|k: Seq<char>| keys.take(j + 1).contains(k) <==> (keys.take(
                j as int,
            ).contains(k) || k == key@) by {
                if keys.take(j as int).contains(k) {
                    let q = choose|q: int| 0 <= q < j && keys.take(j as int)[q] == k;
                    assert(keys.take(j + 1)[q] == k);
                }
                if k == key@ {
                    assert(keys.take(j + 1)[j as int] == k);
                }
            }
        }
        if !is_standard(&standard, key.as_str()) {
            push_line(&mut out, key.as_str(), value.as_str());
            proof {
                let next = rest.push(key@);
                assert((first + next).drop_last() =~= first + rest);
                assert(out@ =~= head + conf_lines(first + next, options@));
                assert forall|a: int, b: int| 0 <= a < b < next.len() implies crate::string_map::text_less(
                    #[trigger] next[a],
                    #[trigger] next[b],
                ) by {
                    if b == rest.len() {
                        assert(rest.contains(rest[a]));
                        assert(keys.take(j as int).contains(rest[a]));
                        let q = choose|q: int| 0 <= q < j && keys.take(j as int)[q] == rest[a];
                        assert(crate::string_map::text_less(keys[q], keys[j as int]));
                    } else {
                        assert(crate::string_map::text_less(rest[a], rest[b]));
                    }
                }
                assert forall|k: Seq<char>| #[trigger] next.contains(k) <==> (keys.take(
                    j + 1,
                ).contains(k) && !standard_keys().contains(k)) by {
                    if next.contains(k) {
                        let q = choose|q: int| 0 <= q < next.len() && next[q] == k;
                        if q < rest.len() {
                            assert(rest[q] == k);
                            assert(rest.contains(k));
                        }
                    }
                    if keys.take(j + 1).contains(k) && !standard_keys().contains(k) {
                        if k == key@ {
                            assert(next[rest.len() as int] == k);
                        } else {
                            assert(rest.contains(k));
                            let q = choose|q: int| 0 <= q < rest.len() && rest[q] == k;
                            assert(next[q] == k);
                        }
                    }
                }
                rest = next;
            }
        }
        j = j + 1;
    }
    proof {
        let others = options@.dom().difference(standard_keys().to_set());
        assert(keys.take(len as int) =~= keys);
        assert(is_listing(rest, others));
        crate::string_map::lemma_listing_unique(rest, listing(others), others);
    }
    out
}

// ── Quantities ──────────────────────────────────────────────────────────────

/// Whether `c` can stand in the number of a quantity.
pub open spec fn is_number_char(c: char) -> bool {
    ('0' <= c && c <= '9') || c == '.'
}

/// How many characters at the start of `s` can stand in a number.
pub open spec fn number_len(s: Seq<char>) -> nat
    decreases s.len(),
{
    if s.len() == 0 || !is_number_char(s[0]) {
        0
    } else {
        1 + number_len(s.drop_first())
    }
}

/// How many characters stand in front of the first point of `s`, or in all of `s`
/// where it has none.
pub open spec fn point(s: Seq<char>) -> nat
    decreases s.len(),
{
    if s.len() == 0 || s[0] == '.' {
        0
    } else {
        1 + point(s.drop_first())
    }
}

/// The digits in front of the point.
pub open spec fn whole_part(s: Seq<char>) -> Seq<char> {
    s.take(point(s) as int)
}

/// The digits behind the point, empty where there is none.
pub open spec fn fraction_part(s: Seq<char>) -> Seq<char> {
    if point(s) < s.len() {
        s.skip(point(s) as int + 1)
    } else {
        Seq::empty()
    }
}

/// Whether a text of digits and points is a number: one point at most, one digit at least.
pub open spec fn is_number(s: Seq<char>) -> bool {
    &&& !fraction_part(s).contains('.')
    &&& whole_part(s).len() + fraction_part(s).len() > 0
}

/// The value of each digit.
pub open spec fn digit_values(s: Seq<char>) -> Seq<u8> {
    s.map_values(|c: char| (c as u32 - '0' as u32) as u8)
}

/// What the suffix of a quantity multiplies its number with.
pub open spec fn multiplier(suffix: Seq<char>) -> Option<nat> {
    if suffix == ""@ {
        Some(1)
    } else if suffix == "Ki"@ {
        Some(0x400)
    } else if suffix == "Mi"@ {
        Some(0x10_0000)
    } else if suffix == "Gi"@ {
        Some(0x4000_0000)
    } else if suffix == "Ti"@ {
        Some(0x100_0000_0000)
    } else if suffix == "k"@ {
        Some(1_000)
    } else if suffix == "M"@ {
        Some(1_000_000)
    } else if suffix == "G"@ {
        Some(1_000_000_000)
    } else if suffix == "T"@ {
        Some(1_000_000_000_000)
    } else {
        None
    }
}

/// The digits of a number, as if it had no point.
pub open spec fn number_digits(number: Seq<char>) -> nat {
    digits_value(digit_values(whole_part(number)) + digit_values(fraction_part(number)))
}

/// The bytes that a number and a multiplier make: the number is read as the nearest
/// double, multiplied as a double, and truncated.
pub open spec fn number_bytes(number: Seq<char>, factor: nat) -> nat {
    scaled_double(
        number_digits(number),
        pow10(fraction_part(number).len()),
        factor,
    )
}

/// The bytes that a quantity stands for, or the message why it is none.
pub open spec fn quantity(s: Seq<char>) -> Result<nat, Seq<char>> {
    let text = trimmed(s);
    let number = text.take(number_len(text) as int);
    let suffix = text.skip(number_len(text) as int);
    if text.len() == 0 {
        Err("empty quantity"@)
    } else if number.len() == 0 {
        Err("invalid number "@ + debug_text(number) + ": cannot parse float from empty string"@)
    } else if !is_number(number) {
        Err("invalid number "@ + debug_text(number) + ": invalid float literal"@)
    } else {
        match multiplier(suffix) {
            Some(factor) => Ok(number_bytes(number, factor)),
            None => Err("unknown suffix "@ + debug_text(suffix)),
        }
    }
}

/// What the suffix of a quantity multiplies its number with.
fn suffix_multiplier(suffix: &str) -> (r: Option<u64>)
    ensures
        r is Some == multiplier(suffix@) is Some,
        r matches Some(m) ==> multiplier(suffix@) == Some(m as nat) && 0 < m <= 0x100_0000_0000,
{
    if same_text(suffix, "") {
        Some(1)
    } else if same_text(suffix, "Ki") {
        Some(0x400)
    } else if same_text(suffix, "Mi") {
        Some(0x10_0000)
    } else if same_text(suffix, "Gi") {
        Some(0x4000_0000)
    } else if same_text(suffix, "Ti") {
        Some(0x100_0000_0000)
    } else if same_text(suffix, "k") {
        Some(1_000)
    } else if same_text(suffix, "M") {
        Some(1_000_000)
    } else if same_text(suffix, "G") {
        Some(1_000_000_000)
    } else if same_text(suffix, "T") {
        Some(1_000_000_000_000)
    } else {
        None
    }
}

/// The values of the digits `from..to`, none where a point is among them.
fn read_digits(chars: &Vec<char>, from: usize, to: usize) -> (r: Option<Vec<u8>>)
    requires
        from <= to <= chars@.len(),
        forall|i: int| from <= i < to ==> is_number_char(#[trigger] chars@[i]),
    ensures
        r is None == chars@.subrange(from as int, to as int).contains('.'),
        r matches Some(digits) ==> are_digits(digits@) && digits@ == digit_values(
            chars@.subrange(from as int, to as int),
        ),
{
    let mut out: Vec<u8> = Vec::new();
    let mut i: usize = from;
    let ghost part = chars@.subrange(from as int, to as int);
    while i < to
        invariant
            from <= i <= to <= chars@.len(),
            part == chars@.subrange(from as int, to as int),
            forall|j: int| from <= j < to ==> is_number_char(#[trigger] chars@[j]),
            out@.len() == i - from,
            are_digits(out@),
            forall|j: int| 0 <= j < out@.len() ==> #[trigger] part[j] != '.',
            forall|j: int| 0 <= j < out@.len() ==> #[trigger] out@[j] == digit_values(part)[j],
        decreases to - i,
    {
        let c = chars[i];
        proof {
            assert(part[i - from] == c);
            assert(is_number_char(chars@[i as int]));
        }
        if c == '.' {
            proof {
                assert(part.contains('.'));
            }
            return None;
        }
        let digit: u8 = (c as u32 - '0' as u32) as u8;
        proof {
            assert(digit_values(part)[i - from] == digit);
        }
        out.push(digit);
        i = i + 1;
    }
    proof {
        assert(out@ =~= digit_values(part));
        assert forall|j: int| 0 <= j < part.len() implies part[j] != '.' by {}
    }
    Some(out)
}

/// Parses a Kubernetes storage quantity into bytes. The suffixes are `Ki`, `Mi`, `Gi`, `Ti`
/// (binary) and `k`, `M`, `G`, `T` (decimal).
pub fn parse_quantity(s: &str) -> (r: Result<u64, String>)
    ensures
        match quantity(s@) {
            Ok(bytes) => r matches Ok(b) && b == bytes,
            Err(message) => r matches Err(m) && m@ == message,
        },
{
    let chars = trimmed_chars(s);
    let len: usize = chars.len();
    let ghost text = chars@;
    if len == 0 {
        return Err("empty quantity".to_owned());
    }
    let mut end: usize = 0;
    while end < len && (('0' <= chars[end] && chars[end] <= '9') || chars[end] == '.')
        invariant
            end <= len == chars@.len(),
            chars@ == text,
            number_len(text) == end + number_len(text.skip(end as int)),
            forall|i: int| 0 <= i < end ==> is_number_char(#[trigger] chars@[i]),
        decreases len - end,
    {
        proof {
            assert(text.skip(end as int).drop_first() =~= text.skip(end + 1));
        }
        end = end + 1;
    }
    let number = string_of(&chars, 0, end);
    let ghost number_text = text.take(end as int);
    proof {
        assert(text.subrange(0, end as int) =~= number_text);
        assert(text.subrange(end as int, len as int) =~= text.skip(end as int));
    }
    if end == 0 {
        let shown = debug_of(number.as_str());
        return Err(
            join3("invalid number ", shown.as_str(), ": cannot parse float from empty string"),
        );
    }
    let mut dot: usize = 0;
    while dot < end && chars[dot] != '.'
        invariant
            dot <= end <= chars@.len(),
            chars@ == text,
            number_text == text.take(end as int),
            point(number_text) == dot + point(number_text.skip(dot as int)),
        decreases end - dot,
    {
        proof {
            assert(number_text.skip(dot as int).drop_first() =~= number_text.skip(dot + 1));
        }
        dot = dot + 1;
    }
    let after: usize = if dot < end {
        dot + 1
    } else {
        end
    };
    proof {
        assert(whole_part(number_text) =~= text.subrange(0, dot as int));
        assert(fraction_part(number_text) =~= text.subrange(after as int, end as int));
        lemma_no_point(number_text);
    }
    match (read_digits(&chars, 0, dot), read_digits(&chars, after, end)) {
        (Some(whole), Some(fraction)) if dot > 0 || after < end => {
            let suffix = string_of(&chars, end, len);
            match suffix_multiplier(suffix.as_str()) {
                Some(factor) => {
                    proof {
                        vstd::arithmetic::power2::lemma2_to64_rest();
                    }
                    Ok(scaled_decimal(&whole, &fraction, factor))
                },
                None => {
                    let shown = debug_of(suffix.as_str());
                    Err(join2("unknown suffix ", shown.as_str()))
                },
            }
        },
        _ => {
            let shown = debug_of(number.as_str());
            Err(join3("invalid number ", shown.as_str(), ": invalid float literal"))
        },
    }
}

/// No point stands in front of the first one.
pub proof fn lemma_no_point(s: Seq<char>)
    ensures
        point(s) <= s.len(),
        !whole_part(s).contains('.'),
    decreases s.len(),
{
    if s.len() > 0 && s[0] != '.' {
        let t = s.drop_first();
        lemma_no_point(t);
        if whole_part(s).contains('.') {
            let i = choose|i: int| 0 <= i < whole_part(s).len() && whole_part(s)[i] == '.';
            assert(i > 0);
            assert(whole_part(t)[i - 1] == '.');
        }
    }
}

// ── Laws ────────────────────────────────────────────────────────────────────

/// A sanitised UID is as long as the UID, holds nothing but lower case letters, digits and
/// underscores, and is its own sanitised form.
pub proof fn law_sanitised_is_safe(uid: Seq<char>)
    ensures
        sanitised(uid).len() == uid.len(),
        forall|i: int|
            0 <= i < uid.len() ==> is_plain(#[trigger] sanitised(uid)[i]) || sanitised(uid)[i]
                == '_',
        sanitised(sanitised(uid)) == sanitised(uid),
{
    assert(sanitised(sanitised(uid)) =~= sanitised(uid));
}

/// The read-only user is never the owner, and ends in `_ro`.
pub proof fn law_ro_user_differs(namespace: Seq<char>, name: Seq<char>)
    ensures
        ro_username(namespace, name) != username(namespace, name),
        ro_username(namespace, name).len() >= 3,
        ro_username(namespace, name).skip(ro_username(namespace, name).len() - 3) == "_ro"@,
{
    reveal_strlit("_ro");
    let ro = ro_username(namespace, name);
    assert(ro.len() == username(namespace, name).len() + 3);
    assert(ro.skip(ro.len() - 3) =~= "_ro"@);
}

proof fn lemma_standard_keys_distinct()
    ensures
        standard_keys().no_duplicates(),
{
    reveal_strlit("data_dir");
    reveal_strlit("logfile");
    reveal_strlit("log_level");
    reveal_strlit("proxy_mode");
    reveal_strlit("addons_path");
    reveal_strlit("db_host");
    reveal_strlit("db_port");
    reveal_strlit("db_name");
    reveal_strlit("db_user");
    reveal_strlit("db_password");
    reveal_strlit("list_db");
    reveal_strlit("http_interface");
    reveal_strlit("http_port");
    reveal_strlit("max_cron_threads");
    reveal_strlit("admin_passwd");
    assert("logfile"@[0] != "db_host"@[0]);
    assert("logfile"@[0] != "db_port"@[0]);
    assert("logfile"@[0] != "db_name"@[0]);
    assert("logfile"@[0] != "db_user"@[0]);
    assert("logfile"@[1] != "list_db"@[1]);
    assert("db_host"@[3] != "db_port"@[3]);
    assert("db_host"@[3] != "db_name"@[3]);
    assert("db_host"@[3] != "db_user"@[3]);
    assert("db_host"@[0] != "list_db"@[0]);
    assert("db_port"@[3] != "db_name"@[3]);
    assert("db_port"@[3] != "db_user"@[3]);
    assert("db_port"@[0] != "list_db"@[0]);
    assert("db_name"@[3] != "db_user"@[3]);
    assert("db_name"@[0] != "list_db"@[0]);
    assert("db_user"@[0] != "list_db"@[0]);
    assert("log_level"@[0] != "http_port"@[0]);
    assert("addons_path"@[0] != "db_password"@[0]);
    let keys = standard_keys();
    assert forall|i: int, j: int| 0 <= i < j < keys.len() implies keys[i] != keys[j] by {
        assert(keys[i].len() != keys[j].len() || keys[i] != keys[j]);
    }
}

/// `odoo.conf` begins with its section, and lists every option once.
pub proof fn law_conf_lists_options_once(options: Map<Seq<char>, Seq<char>>)
    requires
        options.dom().finite(),
    ensures
        conf_text(options).take("[options]\n"@.len() as int) == "[options]\n"@,
        conf_order(options).no_duplicates(),
        forall|k: Seq<char>| #[trigger] conf_order(options).contains(k) <==> options.contains_key(k),
{
    assert(conf_text(options).take("[options]\n"@.len() as int) =~= "[options]\n"@);
    let present = |k: Seq<char>| options.contains_key(k);
    let first = standard_keys().filter(present);
    let others = options.dom().difference(standard_keys().to_set());
    let rest = listing(others);
    lemma_standard_keys_distinct();
    lemma_filter_keys(standard_keys(), present);
    crate::string_map::lemma_listing_exists(others);
    crate::string_map::lemma_ascending_distinct(rest);
    let order = conf_order(options);
    assert(order == first + rest);
    assert forall|k: Seq<char>| #[trigger] order.contains(k) <==> options.contains_key(k) by {
        if order.contains(k) {
            let i = choose|i: int| 0 <= i < order.len() && order[i] == k;
            if i < first.len() {
                assert(first.contains(first[i]));
            } else {
                assert(rest.contains(rest[i - first.len()]));
            }
        }
        if options.contains_key(k) {
            if standard_keys().contains(k) {
                assert(first.contains(k));
                let i = choose|i: int| 0 <= i < first.len() && first[i] == k;
                assert(order[i] == k);
            } else {
                assert(others.contains(k));
                assert(rest.contains(k));
                let i = choose|i: int| 0 <= i < rest.len() && rest[i] == k;
                assert(order[first.len() + i] == k);
            }
        }
    }
    assert forall|i: int, j: int| 0 <= i < order.len() && 0 <= j < order.len() && i != j implies order[i]
        != order[j] by {
        if i < first.len() {
            assert(first.contains(first[i]));
        } else {
            assert(rest.contains(rest[i - first.len()]));
        }
        if j < first.len() {
            assert(first.contains(first[j]));
        } else {
            assert(rest.contains(rest[j - first.len()]));
        }
    }
}

proof fn lemma_filter_keys(keys: Seq<Seq<char>>, present: spec_fn(Seq<char>) -> bool)
    requires
        keys.no_duplicates(),
    ensures
        keys.filter(present).no_duplicates(),
        forall|k: Seq<char>| #[trigger]
            keys.filter(present).contains(k) <==> keys.contains(k) && present(k),
    decreases keys.len(),
{
    reveal(Seq::filter);
    if keys.len() > 0 {
        let front = keys.drop_last();
        let last = keys.last();
        assert(front.no_duplicates());
        lemma_filter_keys(front, present);
        let kept = front.filter(present);
        let all = keys.filter(present);
        assert(!front.contains(last)) by {
            if front.contains(last) {
                let i = choose|i: int| 0 <= i < front.len() && front[i] == last;
                assert(keys[i] == keys[keys.len() - 1]);
            }
        }
        assert forall|k: Seq<char>| #[trigger] all.contains(k) <==> keys.contains(k) && present(
            k,
        ) by {
            if all.contains(k) {
                let i = choose|i: int| 0 <= i < all.len() && all[i] == k;
                if i < kept.len() {
                    assert(kept[i] == k);
                    assert(kept.contains(k));
                    let j = choose|j: int| 0 <= j < front.len() && front[j] == k;
                    assert(keys[j] == k);
                } else {
                    assert(keys[keys.len() - 1] == k);
                }
            }
            if keys.contains(k) && present(k) {
                let j = choose|j: int| 0 <= j < keys.len() && keys[j] == k;
                if j < front.len() {
                    assert(front[j] == k);
                    assert(front.contains(k));
                    assert(kept.contains(k));
                    let i = choose|i: int| 0 <= i < kept.len() && kept[i] == k;
                    assert(all[i] == k);
                } else {
                    assert(all[kept.len() as int] == k);
                }
            }
        }
        assert forall|i: int, j: int| 0 <= i < all.len() && 0 <= j < all.len() && i != j implies all[i]
            != all[j] by {
            if i < kept.len() {
                assert(kept.contains(kept[i]));
            }
            if j < kept.len() {
                assert(kept.contains(kept[j]));
            }
        }
    }
}

/// What the instance says wins over what the operator says. Only the addons path keeps the
/// paths of the image in front.
pub proof fn law_conf_extra_options_win(
    base: Map<Seq<char>, Seq<char>>,
    admin_password: Seq<char>,
    extra: Map<Seq<char>, Seq<char>>,
    key: Seq<char>,
)
    requires
        extra.contains_key(key),
    ensures
        conf_options(base, admin_password, Some(extra)).contains_key(key),
        conf_options(base, admin_password, Some(extra))[key] == if key == "addons_path"@ {
            full_addons_path(extra[key])
        } else {
            extra[key]
        },
{
}

/// Without an admin password, and without one among the instance's options, the file sets none.
pub proof fn law_conf_omits_empty_admin_password(
    username: Seq<char>,
    password: Seq<char>,
    db_host: Seq<char>,
    db_port: int,
    db_name: Seq<char>,
    extra: Option<Map<Seq<char>, Seq<char>>>,
)
    requires
        extra matches Some(e) ==> !e.contains_key("admin_passwd"@),
    ensures
        !conf_options(
            base_options(username, password, db_host, db_port, db_name),
            Seq::empty(),
            extra,
        ).contains_key("admin_passwd"@),
{
    lemma_standard_keys_distinct();
    let keys = standard_keys();
    assert(keys[0] == "data_dir"@ && keys[1] == "logfile"@ && keys[2] == "log_level"@ && keys[3]
        == "proxy_mode"@ && keys[4] == "addons_path"@ && keys[5] == "db_host"@ && keys[6]
        == "db_port"@ && keys[7] == "db_name"@ && keys[8] == "db_user"@ && keys[9]
        == "db_password"@ && keys[10] == "list_db"@ && keys[11] == "http_interface"@ && keys[12]
        == "http_port"@ && keys[13] == "max_cron_threads"@ && keys[14] == "admin_passwd"@);
}

/// A quantity that is a whole number of bytes below `2^53` is read exactly.
pub proof fn law_whole_quantity_is_exact(number: Seq<char>, factor: nat)
    requires
        fraction_part(number).len() == 0,
        factor > 0,
        digits_value(digit_values(whole_part(number))) * factor < 0x20_0000_0000_0000,
    ensures
        number_bytes(number, factor) == digits_value(digit_values(whole_part(number))) * factor,
{
    let whole = digit_values(whole_part(number));
    assert(whole + digit_values(fraction_part(number)) =~= whole);
    assert(pow10(0) == 1);
    crate::binary64::lemma_whole_is_exact(digits_value(whole), factor);
}

} // verus!
