//! What holds of the texts that are written: they can be read back, and what differs is told
//! apart.

use vstd::prelude::*;

use crate::controller::words::{lemma_option_words, lemma_phase_words, lemma_unit_words};
use crate::crd::metadata::{Moment, ObjectMeta};
use crate::crd::odoo_instance::{OdooInstance, OdooInstancePhase};
use crate::crd::shared::Phase;
use crate::helpers::{
    base_options, build_odoo_conf, conf_line, conf_lines, conf_options, conf_order, conf_text,
    format_odoo_time, law_conf_lists_options_once, multiplier, username,
};
use crate::outside::{datetime_text, hex_digit, hex_text};
use crate::string_map::{text_less, StringMap};
use crate::text::{digit_char, int_text, joined, nat_text, opt_text};

verus! {

// ── Lists and numbers ───────────────────────────────────────────────────────

/// Joined texts stand in their order, with a separator between any two of them and nowhere else:
/// a list that is cut in two is joined from its halves.
pub proof fn law_joined_in_order(a: Seq<Seq<char>>, b: Seq<Seq<char>>, separator: Seq<char>)
    requires
        a.len() > 0,
        b.len() > 0,
    ensures
        joined(a + b, separator) == joined(a, separator) + separator + joined(b, separator),
        a.len() == 1 ==> joined(a, separator) == a[0],
    decreases b.len(),
{
    let all = a + b;
    assert(all.last() == b.last());
    if b.len() == 1 {
        assert(all.drop_last() =~= a);
    } else {
        let front = b.drop_last();
        assert(all.drop_last() =~= a + front);
        law_joined_in_order(a, front, separator);
        assert(joined(all, separator) =~= joined(a, separator) + separator + joined(b, separator));
    }
}

/// The number that decimal digits stand for.
pub open spec fn digits_number(s: Seq<char>) -> int
    decreases s.len(),
{
    if s.len() == 0 {
        0
    } else {
        10 * digits_number(s.drop_last()) + (s.last() as int - '0' as int)
    }
}

/// The digits of a number stand for it.
pub proof fn law_digits_read_back(n: nat)
    ensures
        digits_number(nat_text(n)) == n,
        forall|i: int| 0 <= i < nat_text(n).len() ==> '0' <= #[trigger] nat_text(n)[i] <= '9',
        nat_text(n).len() > 1 ==> nat_text(n)[0] != '0',
        nat_text(n).len() > 0,
    decreases n,
{
    let s = nat_text(n);
    if n < 10 {
        assert(s.drop_last() =~= Seq::empty());
        assert(s.last() == digit_char(n));
        assert(digits_number(s.drop_last()) == 0);
    } else {
        law_digits_read_back(n / 10);
        assert(s.drop_last() =~= nat_text(n / 10));
        assert(s.last() == digit_char(n % 10));
        assert(s[0] == nat_text(n / 10)[0]);
        if nat_text(n / 10).len() == 1 {
            assert(nat_text(n / 10).drop_last() =~= Seq::empty());
            assert(digits_number(nat_text(n / 10).drop_last()) == 0);
            assert(nat_text(n / 10)[0] == nat_text(n / 10).last());
        }
    }
}

/// Different numbers have different texts, and only negative ones have a sign.
pub proof fn law_numbers_are_told_apart(a: int, b: int)
    ensures
        int_text(a) == int_text(b) ==> a == b,
        int_text(a)[0] == '-' <==> a < 0,
{
    let p = if a < 0 {
        (-a) as nat
    } else {
        a as nat
    };
    let q = if b < 0 {
        (-b) as nat
    } else {
        b as nat
    };
    law_digits_read_back(p);
    law_digits_read_back(q);
    assert('0' <= nat_text(p)[0]);
    assert('0' <= nat_text(q)[0]);
    if int_text(a) == int_text(b) {
        if a < 0 && b < 0 {
            assert(int_text(a).skip(1) =~= nat_text(p));
            assert(int_text(b).skip(1) =~= nat_text(q));
        }
    }
}

/// Different bytes have different hexadecimal texts, of two digits for each byte.
pub proof fn law_bytes_are_told_apart(a: Seq<u8>, b: Seq<u8>)
    ensures
        hex_text(a).len() == 2 * a.len(),
        hex_text(a) == hex_text(b) ==> a == b,
        forall|i: int|
            0 <= i < hex_text(a).len() ==> '0' <= #[trigger] hex_text(a)[i] <= '9' || 'a'
                <= hex_text(a)[i] <= 'f',
{
    if hex_text(a) == hex_text(b) {
        assert(hex_text(a).len() == 2 * a.len());
        assert(hex_text(b).len() == 2 * b.len());
        assert forall|i: int| 0 <= i < a.len() implies a[i] == b[i] by {
            let (x, y) = (a[i] as int, b[i] as int);
            assert(hex_text(a)[2 * i] == hex_digit(x / 16));
            assert(hex_text(b)[2 * i] == hex_digit(y / 16));
            assert(hex_text(a)[2 * i + 1] == hex_digit(x % 16));
            assert(hex_text(b)[2 * i + 1] == hex_digit(y % 16));
            lemma_hex_digits_differ(x / 16, y / 16);
            lemma_hex_digits_differ(x % 16, y % 16);
            assert(x == 16 * (x / 16) + x % 16);
            assert(y == 16 * (y / 16) + y % 16);
        }
        assert(a =~= b);
    }
}

proof fn lemma_hex_digits_differ(x: int, y: int)
    requires
        0 <= x < 16,
        0 <= y < 16,
    ensures
        hex_digit(x) == hex_digit(y) ==> x == y,
{
    assert(hex_digit(x) as int == if x < 10 {
        48 + x
    } else {
        87 + x
    });
    assert(hex_digit(y) as int == if y < 10 {
        48 + y
    } else {
        87 + y
    });
}

/// A time is written with its date first, down to the second, and where it can be written depends
/// on the moment alone.
pub proof fn law_times_are_written_to_the_second(moment: Moment, r: Option<String>)
    requires
        call_ensures(format_odoo_time, (moment,), r),
    ensures
        opt_text(r) == datetime_text(moment.secs, moment.nanos, "%Y-%m-%d %H:%M:%S"@),
{
}

/// Texts are in the order of a dictionary: the first letter in which they differ decides, and a
/// text comes before what it begins.
pub proof fn law_texts_are_in_dictionary_order(
    start: Seq<char>,
    x: char,
    y: char,
    a: Seq<char>,
    b: Seq<char>,
)
    ensures
        x < y ==> text_less(start + seq![x] + a, start + seq![y] + b),
        text_less(start, start + seq![x] + a),
        !text_less(start + seq![x] + a, start),
        !text_less(start, start),
    decreases start.len(),
{
    let (p, q) = (start + seq![x] + a, start + seq![y] + b);
    if start.len() > 0 {
        let rest = start.drop_first();
        law_texts_are_in_dictionary_order(rest, x, y, a, b);
        assert(p.drop_first() =~= rest + seq![x] + a);
        assert(q.drop_first() =~= rest + seq![y] + b);
        assert(p[0] == start[0] && q[0] == start[0]);
    } else {
        assert(p[0] == x && q[0] == y);
    }
}

// ── Units ───────────────────────────────────────────────────────────────────

/// Each unit is a fixed number of the next smaller one: 1024 of them for the binary units, 1000 for
/// the decimal ones, down to the byte. Any other suffix is no unit.
pub proof fn law_units_scale(suffix: Seq<char>)
    ensures
        multiplier(Seq::empty()) == Some(1nat),
        multiplier("Ki"@) == Some(1024nat),
        multiplier("Mi"@) == Some((1024 * multiplier("Ki"@)->0) as nat),
        multiplier("Gi"@) == Some((1024 * multiplier("Mi"@)->0) as nat),
        multiplier("Ti"@) == Some((1024 * multiplier("Gi"@)->0) as nat),
        multiplier("k"@) == Some(1000nat),
        multiplier("M"@) == Some((1000 * multiplier("k"@)->0) as nat),
        multiplier("G"@) == Some((1000 * multiplier("M"@)->0) as nat),
        multiplier("T"@) == Some((1000 * multiplier("G"@)->0) as nat),
        multiplier(suffix) is Some <==> suffix.len() == 0 || suffix == "Ki"@ || suffix == "Mi"@
            || suffix == "Gi"@ || suffix == "Ti"@ || suffix == "k"@ || suffix == "M"@ || suffix
            == "G"@ || suffix == "T"@,
{
    lemma_unit_words();
    assert(""@ =~= Seq::<char>::empty());
    if suffix.len() == 0 {
        assert(suffix =~= ""@);
    }
}

// ── Names ───────────────────────────────────────────────────────────────────

/// Two instances have different database users, wherever they are: a namespace has no point in
/// its name.
pub proof fn law_users_are_told_apart(
    namespace: Seq<char>,
    name: Seq<char>,
    other_namespace: Seq<char>,
    other_name: Seq<char>,
)
    requires
        !namespace.contains('.'),
        !other_namespace.contains('.'),
        username(namespace, name) == username(other_namespace, other_name),
    ensures
        namespace == other_namespace,
        name == other_name,
{
    reveal_strlit("odoo.");
    reveal_strlit(".");
    assert("odoo."@.len() == 5);
    assert("."@.len() == 1);
    assert("."@[0] == '.');
    let u = username(namespace, name);
    let v = username(other_namespace, other_name);
    let (m, n) = (namespace.len() as int, other_namespace.len() as int);
    assert(u[5 + m] == '.');
    assert(v[5 + n] == '.');
    if m < n {
        assert(v[5 + m] == other_namespace[m]);
        assert(other_namespace.contains(other_namespace[m]));
    }
    if n < m {
        assert(u[5 + n] == namespace[n]);
        assert(namespace.contains(namespace[n]));
    }
    assert(u.subrange(5, 5 + m) =~= namespace);
    assert(v.subrange(5, 5 + n) =~= other_namespace);
    assert(u.skip(6 + m) =~= name);
    assert(v.skip(6 + n) =~= other_name);
}

/// Each phase has its own name, by which it is stored and told.
pub proof fn law_phases_are_told_apart(a: OdooInstancePhase, b: OdooInstancePhase)
    ensures
        a.text() == b.text() ==> a == b,
        OdooInstancePhase::Running.text() == "Running"@,
        OdooInstancePhase::Starting.text() == "Starting"@,
        OdooInstancePhase::Stopped.text() == "Stopped"@,
        OdooInstancePhase::Degraded.text() == "Degraded"@,
        OdooInstancePhase::Upgrading.text() == "Upgrading"@,
        OdooInstancePhase::Restoring.text() == "Restoring"@,
        OdooInstancePhase::BackingUp.text() == "BackingUp"@,
        OdooInstancePhase::CloningFromSource.text() == "CloningFromSource"@,
        OdooInstancePhase::Provisioning.text() == "Provisioning"@,
        OdooInstancePhase::Uninitialized.text() == "Uninitialized"@,
        OdooInstancePhase::Initializing.text() == "Initializing"@,
        OdooInstancePhase::InitFailed.text() == "InitFailed"@,
        OdooInstancePhase::MigratingFilestore.text() == "MigratingFilestore"@,
        OdooInstancePhase::MigratingDatabase.text() == "MigratingDatabase"@,
        OdooInstancePhase::FinalizingFilestoreMigration.text() == "FinalizingFilestoreMigration"@,
        OdooInstancePhase::FinalizingDatabaseMigration.text() == "FinalizingDatabaseMigration"@,
        OdooInstancePhase::Error.text() == "Error"@,
        Phase::Pending.text() == "Pending"@,
        Phase::Running.text() == "Running"@,
        Phase::Completed.text() == "Completed"@,
        Phase::Failed.text() == "Failed"@,
{
    lemma_phase_words();
}

/// An object is called by its name where it has one. An instance of which no phase is recorded is
/// new.
pub proof fn law_objects_are_called_by_their_names(meta: ObjectMeta, instance: &OdooInstance)
    ensures
        meta.name matches Some(name) ==> meta.any_name() == name@,
        meta.name is None ==> (meta.generate_name matches Some(prefix) ==> meta.any_name()
            == prefix@),
        meta.namespace matches Some(ns) ==> meta.namespace_text() == ns@,
        instance.name() == instance.metadata.any_name(),
        instance.namespace() == instance.metadata.namespace_text(),
        instance.status is None ==> instance.current_phase() == OdooInstancePhase::Provisioning,
        instance.status matches Some(s) ==> (s.phase matches Some(p) ==> instance.current_phase()
            == p) && (s.phase is None ==> instance.current_phase()
            == OdooInstancePhase::Provisioning),
        instance.ephemeral() <==> (instance.spec.filestore matches Some(f) && f.empty_dir),
{
}

// ── odoo.conf ───────────────────────────────────────────────────────────────

/// Whether `line` stands in `text`.
pub open spec fn has_line(text: Seq<char>, line: Seq<char>) -> bool {
    exists|before: Seq<char>, after: Seq<char>| text == #[trigger] (before + line + after)
}

proof fn lemma_line_stands(keys: Seq<Seq<char>>, options: Map<Seq<char>, Seq<char>>, i: int)
    requires
        0 <= i < keys.len(),
    ensures
        has_line(conf_lines(keys, options), conf_line(keys[i], options[keys[i]])),
    decreases keys.len(),
{
    let line = conf_line(keys[i], options[keys[i]]);
    let front = conf_lines(keys.drop_last(), options);
    let last = conf_line(keys.last(), options[keys.last()]);
    if i == keys.len() - 1 {
        assert(conf_lines(keys, options) =~= front + line + Seq::<char>::empty());
    } else {
        lemma_line_stands(keys.drop_last(), options, i);
        assert(keys.drop_last()[i] == keys[i]);
        let (before, after) = choose|before: Seq<char>, after: Seq<char>|
            front == #[trigger] (before + line + after);
        assert(conf_lines(keys, options) =~= before + line + (after + last));
    }
}

/// Whether a key is one that tells how the database is reached, and its value.
pub open spec fn tells(
    key: Seq<char>,
    value: Seq<char>,
    user: Seq<char>,
    password: Seq<char>,
    host: Seq<char>,
    port: int,
    db: Seq<char>,
) -> bool {
    ||| key == "db_host"@ && value == host
    ||| key == "db_port"@ && value == int_text(port)
    ||| key == "db_name"@ && value == db
    ||| key == "db_user"@ && value == user
    ||| key == "db_password"@ && value == password
}

/// The file that is built says how the database is reached, a line for each, unless the instance
/// says otherwise. What the instance says stands there in any case.
pub proof fn law_conf_says_how_the_database_is_reached(
    user: &str,
    password: &str,
    admin: &str,
    host: &str,
    port: i32,
    db: &str,
    extra: &Option<StringMap>,
    r: String,
    key: Seq<char>,
    value: Seq<char>,
)
    requires
        call_ensures(build_odoo_conf, (user, password, admin, host, port, db, extra), r),
        *extra matches Some(e) ==> e@.dom().finite(),
    ensures
        (*extra matches Some(e) ==> !e@.contains_key(key)) && tells(
            key,
            value,
            user@,
            password@,
            host@,
            port as int,
            db@,
        ) ==> has_line(r@, key + " = "@ + value + "\n"@),
        *extra matches Some(e) ==> (e@.contains_key(key) && key != "addons_path"@ ==> has_line(
            r@,
            key + " = "@ + e@[key] + "\n"@,
        )),
{
    lemma_option_words();
    let base = base_options(user@, password@, host@, port as int, db@);
    let options = conf_options(
        base,
        admin@,
        match *extra {
            Some(e) => Some(e@),
            None => None,
        },
    );
    let own = if admin@.len() > 0 {
        base.insert("admin_passwd"@, admin@)
    } else {
        base
    };
    assert(own.dom().finite());
    match *extra {
        Some(e) => {
            assert(own.union_prefer_right(e@).dom() =~= own.dom().union(e@.dom()));
        },
        None => {},
    }
    assert(options.dom().finite());
    if options.contains_key(key) {
        law_every_option_has_its_line(options, key);
    }
}

/// Every option stands in the file, on a line with its value.
pub proof fn law_every_option_has_its_line(options: Map<Seq<char>, Seq<char>>, key: Seq<char>)
    requires
        options.dom().finite(),
        options.contains_key(key),
    ensures
        has_line(conf_text(options), key + " = "@ + options[key] + "\n"@),
{
    law_conf_lists_options_once(options);
    let order = conf_order(options);
    assert(order.contains(key));
    let i = choose|i: int| 0 <= i < order.len() && order[i] == key;
    lemma_line_stands(order, options, i);
    let line = key + " = "@ + options[key] + "\n"@;
    let (before, after) = choose|before: Seq<char>, after: Seq<char>|
        conf_lines(order, options) == #[trigger] (before + line + after);
    assert(conf_text(options) =~= ("[options]\n"@ + before) + line + after);
}

} // verus!
