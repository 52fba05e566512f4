# masterclass

Small game-domain designs written in Verus, each with its behaviour stated
in contracts and proved.

- `src/` is the verified library, one module per design: players that score
  (`tdd_ownership`, `bad_getters`, `methods_vs_free`), players that heal
  (`composition`, `pure_enum`, `open_party`, `rogue_plugin`, `hybrid`),
  matchmaking slots (`broken_matching`, `cleaner_matching`,
  `typestate_matchmaking`), marketplace trades (`flat_marketplace`,
  `nested_marketplace`, `typestate_marketplace`), spawn commands (`spawn`)
  and configuration (`config_content`, `config_file`). `text` and `decimal`
  hold the character-level helpers the parsers share; `clock` and `decimal`
  hold the few calls into `std` whose contracts are trusted.
- `tests/` runs the library on concrete values.
- `app/` is the program around it: the demonstrations, printing, file
  reading, the global player-id counter, floating-point multipliers, and the
  error types that carry `thiserror` derives.

Floating-point multipliers are held in the library as whole hundredths
(`mana_percent`, `critical_percent`); `app/` converts them.
