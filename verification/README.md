# engine

A rules engine for a tabletop army builder, verified with Verus.

- `src/types.rs`: stat values, unit profiles, weapons, modifiers and the
  resolved card, each with a view whose texts are sequences of characters;
  reading, improving and worsening roll thresholds; adding movement.
- `src/resolver.rs`: the model of resolution (one step per modifier, folded
  over the modifiers in order) and the code that `resolve_unit` and
  `checked_resolve_unit` prove equal to it.
- `src/army.rs`: the points total of an army list and its validation.
- `src/text.rs`: character-level comparison, decimal reading and writing.
- `src/laws.rs`: properties proved of all inputs.
- `app/`: the WebAssembly entry points, JSON via serde.
