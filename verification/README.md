# hass_mqtt

A library for publishing Home Assistant entities over MQTT, written in Verus:
its behaviour is stated in `requires`/`ensures` contracts and proved.

## Layout

- `src/` — the verified library.
  - `validation.rs` — accumulating validation results.
  - `discovery/` — discovery documents (availability, sensors, buttons,
    binary sensors, switches, device trackers, covers, lights) and their
    validation rules.
  - `state/` — entity state and its attributes, a map kept in key order.
  - `mqtt/` — topics and messages of a client node, connection options and
    the persistence file, routing of received messages to subscriptions,
    the client's decisions on commands and messages, and a small random
    number generator.
  - `args.rs`, `meta.rs`, `derive_input.rs`, `types.rs`, `generate.rs` —
    the entity and document derives: attribute arguments, the checks on the
    struct and its fields, the fields every entity shares, `Option` field
    types, lifetime renaming in types, and the plan of the generated
    constructor, builder methods, validation checks and serialisation proxy.
  - `source.rs`, `source/` — the derives from the struct's source: syn
    parses it, the result is converted into the library's model, the
    derive's `#[entity(..)]` and `#[state(..)]` options are read, and the
    struct is checked (`entity::create`, `entity_doc::create`,
    `state_doc::create`).
- `tests/` — tests of the library.
- `app/` — ordinary Rust around the library: the JSON forms of documents and
  attributes, error types with their messages, the client's event loop on
  its own thread, and the writing out as tokens of what the derives plan for
  a checked struct.
