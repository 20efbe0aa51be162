# asr

Helpers for auto splitters: programs that follow a running game by reading its
memory. The library is written in Verus, and every function in `src/` carries a
contract that Verus proves against a model of the process's memory.

## Layout

- `src/primitives.rs`, `src/primitives/endian.rs`: addresses, pointer widths and
  byte-order conversions.
- `src/process.rs`: the memory model. A `Process` is a set of mapped regions;
  every read states exactly which bytes it returns and when it fails.
- `src/string.rs`, `src/text.rs`: nul-terminated strings read from memory, and
  the small text helpers the engine walks use.
- `src/signature.rs`: byte patterns with wildcards and the scan that finds them.
- `src/file_format/`: the parts of PE, ELF and Mach-O headers that locate
  modules, exports, symbols, build ids and UUIDs.
- `src/game_engine/unity/`: the Mono and IL2CPP metadata walks (images,
  classes, fields, statics, pointer paths), the managed collection readers, the
  tables of measured runtime builds, and the scene manager.
- `src/game_engine/unreal.rs`: the Unreal object walk and its pointer paths.
- `src/gba.rs`: the address mapping of Game Boy Advance emulators.
- `tests/`: tests on fixtures laid out in memory.
- `app/`: the asynchronous waiting loops around the library, which retry a
  verified attempt until it succeeds.

Laws that span several functions (pointer paths that keep what resolved, tables
that never contradict each other, byte-order conversions that undo themselves,
scans that find every match) are public proof functions next to the functions
they speak of.
