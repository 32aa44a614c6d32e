# odoo_operator

The decisions of a Kubernetes operator for Odoo, written in Verus. What the operator does for an
instance in each phase of its life, which objects it creates, and what its admission webhook
answers are functions with contracts that Verus proves.

## Layout

- `src/helpers.rs`: names, passwords, `odoo.conf`, storage quantities.
- `src/quantity_laws.rs`: what holds of storage quantities in general.
- `src/crd/`: the custom resources, as plain values.
- `src/objects.rs`: the Kubernetes objects that are created, as plain values.
- `src/webhook.rs`: the rules of the validating admission webhook.
- `src/controller/snapshot.rs`: the snapshot that a reconcile decides on, from what was observed.
- `src/controller/transitions.rs`: the transition table. `state_machine.rs` decides on one cycle,
  and `lifecycle_laws.rs` states what holds of every cycle.
- `src/controller/child_resources.rs`: the objects that every instance has, whatever its phase.
- `src/controller/states/`: what the phases ask for, the staging refresh among them.
- `src/text.rs`, `src/string_map.rs`, `src/binary64.rs`: strings, ordered string maps, and decimal
  numbers read as doubles.
- `src/outside.rs`: what is taken from other crates without proof.
- `app/`: the side that talks to the cluster. It observes, asks the library, and carries out what
  the library decides.
- `tests/`: examples of what the library computes.

## Conventions

A contract speaks of a string by its characters, of a string map by a `Map`, and of a status patch
or an effect by its view. A function whose result depends on the clock has a companion that takes
the moment as an argument and has an exact contract. Laws are public proof functions whose names
start with `law_`.
