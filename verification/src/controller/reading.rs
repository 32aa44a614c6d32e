//! How the objects of an instance are read by a cluster: which value a variable has, and what a
//! container finds under a path.

use vstd::prelude::*;

use crate::controller::helpers::{
    env_index, has_extra_env, lemma_env_index, merged_env, put_env, runs_script, seq_or_empty,
};
use crate::crd::odoo_instance::{EnvVar, OdooInstance};
use crate::objects::{ConfigMap, Container, PodSpec, Secret, Volume, VolumeMount};
use crate::text::{opt_text, texts};

verus! {

// ── Variables ───────────────────────────────────────────────────────────────

/// The variable called `name`. Of several the last one counts.
pub open spec fn variable(env: Seq<EnvVar>, name: Seq<char>) -> Option<EnvVar>
    decreases env.len(),
{
    if env.len() == 0 {
        None
    } else if env.last().name@ == name {
        Some(env.last())
    } else {
        variable(env.drop_last(), name)
    }
}

/// The variables of a container.
pub open spec fn env_of(c: Container) -> Seq<EnvVar> {
    seq_or_empty(c.env)
}

/// The plain value of a variable of a container.
pub open spec fn value_of(c: Container, name: Seq<char>) -> Option<Seq<char>> {
    match variable(env_of(c), name) {
        Some(e) => opt_text(e.value),
        None => None,
    }
}

/// The value that a variable of a container gets from a ConfigMap.
pub open spec fn value_from_map(c: Container, name: Seq<char>, map: ConfigMap) -> Option<
    Seq<char>,
> {
    match variable(env_of(c), name) {
        Some(e) => match e.value_from {
            Some(from) => match from.config_map_key_ref {
                Some(selector) => if Some(selector.name@) == opt_text(map.metadata.name)
                    && map.data@.contains_key(selector.key@) {
                    Some(map.data@[selector.key@])
                } else {
                    None
                },
                None => None,
            },
            None => None,
        },
        None => None,
    }
}

/// The name and the key of the Secret that a variable of a container gets its value from.
pub open spec fn secret_key_of(c: Container, name: Seq<char>) -> Option<(Seq<char>, Seq<char>)> {
    match variable(env_of(c), name) {
        Some(e) => match e.value_from {
            Some(from) => match from.secret_key_ref {
                Some(selector) => Some((selector.name@, selector.key@)),
                None => None,
            },
            None => None,
        },
        None => None,
    }
}

/// Whether no variable is called `name`.
pub open spec fn is_unnamed(env: Seq<EnvVar>, name: Seq<char>) -> bool {
    forall|i: int| 0 <= i < env.len() ==> (#[trigger] env[i]).name@ != name
}

/// A variable that none behind it shares its name with is the one that counts.
pub proof fn lemma_variable(env: Seq<EnvVar>, i: int, name: Seq<char>)
    requires
        0 <= i < env.len(),
        env[i].name@ == name,
        forall|j: int| i < j < env.len() ==> (#[trigger] env[j]).name@ != name,
    ensures
        variable(env, name) == Some(env[i]),
    decreases env.len(),
{
    if i < env.len() - 1 {
        assert(env[env.len() - 1].name@ != name);
        let rest = env.drop_last();
        assert forall|j: int| i < j < rest.len() implies (#[trigger] rest[j]).name@ != name by {
            assert(rest[j] == env[j]);
        }
        lemma_variable(rest, i, name);
    }
}

/// What is not named has no value.
pub proof fn lemma_unnamed(env: Seq<EnvVar>, name: Seq<char>)
    requires
        is_unnamed(env, name),
    ensures
        variable(env, name) is None,
    decreases env.len(),
{
    if env.len() > 0 {
        let rest = env.drop_last();
        assert(env[env.len() - 1].name@ != name);
        assert forall|j: int| 0 <= j < rest.len() implies (#[trigger] rest[j]).name@ != name by {
            assert(rest[j] == env[j]);
        }
        lemma_unnamed(rest, name);
    }
}

/// Two lists that differ only in variables of other names give `name` the same value.
proof fn lemma_same_variable(a: Seq<EnvVar>, b: Seq<EnvVar>, name: Seq<char>)
    requires
        a.len() == b.len(),
        forall|i: int|
            0 <= i < a.len() ==> #[trigger] a[i] == b[i] || (a[i].name@ != name && b[i].name@
                != name),
    ensures
        variable(a, name) == variable(b, name),
    decreases a.len(),
{
    if a.len() > 0 {
        let (x, y) = (a.drop_last(), b.drop_last());
        assert(a[a.len() - 1] == b[b.len() - 1] || (a[a.len() - 1].name@ != name && b[b.len()
            - 1].name@ != name));
        assert forall|i: int| 0 <= i < x.len() implies #[trigger] x[i] == y[i] || (x[i].name@
            != name && y[i].name@ != name) by {
            assert(x[i] == a[i] && y[i] == b[i]);
        }
        lemma_same_variable(x, y, name);
    }
}

/// Putting a variable of another name in changes nothing.
proof fn lemma_put_other(env: Seq<EnvVar>, e: EnvVar, name: Seq<char>)
    requires
        e.name@ != name,
    ensures
        variable(put_env(env, e), name) == variable(env, name),
{
    lemma_env_index(env, e.name@);
    let i = env_index(env, e.name@);
    if i < env.len() {
        lemma_same_variable(put_env(env, e), env, name);
    } else {
        assert(put_env(env, e).drop_last() =~= env);
    }
}

/// What an instance does not name in its extra environment is as the operator set it.
pub proof fn lemma_merged_keeps(base: Seq<EnvVar>, extra: Seq<EnvVar>, name: Seq<char>)
    requires
        is_unnamed(extra, name),
    ensures
        variable(merged_env(base, extra), name) == variable(base, name),
    decreases extra.len(),
{
    if extra.len() > 0 {
        let rest = extra.drop_last();
        assert(extra[extra.len() - 1].name@ != name);
        assert forall|j: int| 0 <= j < rest.len() implies (#[trigger] rest[j]).name@ != name by {
            assert(rest[j] == extra[j]);
        }
        lemma_merged_keeps(base, rest, name);
        lemma_put_other(merged_env(base, rest), extra.last(), name);
    }
}

/// Layering the environment of an instance on a container keeps what the instance does not name.
pub proof fn lemma_extra_env_keeps(
    r: Container,
    base: Container,
    instance: &OdooInstance,
    name: Seq<char>,
)
    requires
        has_extra_env(r, base, instance),
        is_unnamed(instance.spec.extra_env@, name),
    ensures
        variable(env_of(r), name) == variable(env_of(base), name),
{
    lemma_merged_keeps(env_of(base), instance.spec.extra_env@, name);
}

// ── Files ───────────────────────────────────────────────────────────────────

/// The mount of a path.
pub open spec fn mount_at(mounts: Seq<VolumeMount>, path: Seq<char>) -> Option<VolumeMount>
    decreases mounts.len(),
{
    if mounts.len() == 0 {
        None
    } else if mounts[0].mount_path@ == path {
        Some(mounts[0])
    } else {
        mount_at(mounts.drop_first(), path)
    }
}

/// The volume called `name`.
pub open spec fn volume_named(volumes: Seq<Volume>, name: Seq<char>) -> Option<Volume>
    decreases volumes.len(),
{
    if volumes.len() == 0 {
        None
    } else if volumes[0].name@ == name {
        Some(volumes[0])
    } else {
        volume_named(volumes.drop_first(), name)
    }
}

/// The volume that a container finds under a path.
pub open spec fn volume_at(pod: PodSpec, c: Container, path: Seq<char>) -> Option<Volume> {
    match mount_at(seq_or_empty(c.volume_mounts), path) {
        Some(m) => volume_named(seq_or_empty(pod.volumes), m.name@),
        None => None,
    }
}

/// The claim that a container finds under a path.
pub open spec fn claim_at(pod: PodSpec, c: Container, path: Seq<char>) -> Option<Seq<char>> {
    match volume_at(pod, c, path) {
        Some(v) => match v.persistent_volume_claim {
            Some(claim) => Some(claim.claim_name@),
            None => None,
        },
        None => None,
    }
}

/// The ConfigMap that a container finds under a path.
pub open spec fn map_at(pod: PodSpec, c: Container, path: Seq<char>) -> Option<Seq<char>> {
    match volume_at(pod, c, path) {
        Some(v) => match v.config_map {
            Some(map) => Some(map.name@),
            None => None,
        },
        None => None,
    }
}

/// Whether a container finds a scratch directory under a path.
pub open spec fn scratch_at(pod: PodSpec, c: Container, path: Seq<char>) -> bool {
    volume_at(pod, c, path) matches Some(v) && v.empty_dir is Some
        && v.persistent_volume_claim is None
}

/// Whether a container can write under a path.
pub open spec fn writable_at(pod: PodSpec, c: Container, path: Seq<char>) -> bool {
    &&& mount_at(seq_or_empty(c.volume_mounts), path) matches Some(m)
    &&& m.read_only != Some(true)
    &&& volume_at(pod, c, path) matches Some(v)
    &&& v.persistent_volume_claim matches Some(claim) ==> claim.read_only != Some(true)
}

/// Whether a claim is guarded against writing twice: the container mounts it for reading, and the
/// pod claims it for reading.
pub open spec fn is_guarded(pod: PodSpec, c: Container, path: Seq<char>) -> bool {
    &&& mount_at(seq_or_empty(c.volume_mounts), path) matches Some(m)
    &&& m.read_only == Some(true)
    &&& volume_at(pod, c, path) matches Some(v)
    &&& v.persistent_volume_claim matches Some(claim)
    &&& claim.read_only == Some(true)
}

// ── Arguments ───────────────────────────────────────────────────────────────

/// The argument behind `flag`.
pub open spec fn argument(args: Seq<Seq<char>>, flag: Seq<char>) -> Option<Seq<char>>
    decreases args.len(),
{
    if args.len() < 2 {
        None
    } else if args[0] == flag {
        Some(args[1])
    } else {
        argument(args.drop_first(), flag)
    }
}

/// The script that a container runs in a shell: what stands behind `-c`.
pub open spec fn script_of(c: Container) -> Option<Seq<char>> {
    argument(
        texts(seq_or_empty(c.command)) + texts(seq_or_empty(c.args)),
        "-c"@,
    )
}

/// The program that a container runs.
pub open spec fn program_of(c: Container) -> Option<Seq<char>> {
    let words = texts(seq_or_empty(c.command)) + texts(seq_or_empty(c.args));
    if words.len() > 0 {
        Some(words[0])
    } else {
        None
    }
}

/// A container that runs a script in a shell is read as one.
pub proof fn lemma_script(c: Container, shell: Seq<char>, script: Seq<char>)
    requires
        runs_script(c, shell, script),
        c.args is None,
        shell.len() != 2,
    ensures
        script_of(c) == Some(script),
        program_of(c) == Some(shell),
{
    reveal_strlit("-c");
    reveal_with_fuel(argument, 3);
    let words = texts(c.command->0@) + texts(seq_or_empty(c.args));
    assert("-c"@.len() == 2);
    assert(words =~= seq![shell, "-c"@, script]);
    assert(words.drop_first()[0] == "-c"@);
    assert(words.drop_first()[1] == script);
}

/// The value under a key of a Secret that is being created.
pub open spec fn secret_value(secret: Secret, key: Seq<char>) -> Option<Seq<char>> {
    if secret.string_data@.contains_key(key) {
        Some(secret.string_data@[key])
    } else {
        None
    }
}

} // verus!
