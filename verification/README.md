# maverick

The core of a LoRaWAN 1.0.x edge network server and of its operator console,
written in Verus. Every function under `src/` carries a contract that Verus
proves, except four small wrappers whose contracts are trusted rather than
proved: `aes128_encrypt`, `aes128_ctr_apply` and `aes128_cmac_tag` in
`src/crypto/primitives.rs`, which call the `aes`, `ctr` and `cmac` crates, and
`string_push` in `src/text.rs`, which calls `String::push`. Their doc comments
say what each contract claims. AES-128 and AES-CMAC themselves appear in
contracts as two named functions (`aes128_encrypt_block`, `aes128_cmac`) whose
meaning is the crates' computation.

- `src/codec.rs`, `src/text.rs`: little-endian fields, decimal and hex text,
  trimming, ASCII case, unsigned integer parsing.
- `src/crypto/`: AES-128 block/CTR and AES-CMAC (through the `aes`, `ctr` and
  `cmac` crates), LoRaWAN frame headers, MIC computation and checking, payload
  decryption, join key derivation.
- `src/domain/`: identifiers, regions, sessions, devices, downlinks.
- `src/protocol/`: Class A uplink validation with 32-bit frame-counter
  reconstruction, MAC commands.
- `src/storage/`: storage profiles, hardware guard, retention caps.
- `src/use_cases/`: the decisions of the ingest, uplink-frame, downlink
  delivery, downlink enqueue, device management and retention services.
- `src/console/`: the operator console's configuration layers, profiles,
  setup and LNS wizards, menus and rendered text.

`app/` is the console binary and the async service shells: terminal and file
I/O, subprocesses, serde formats, tokio loops, and the few values that are
floating point. `tests/` exercises the library on concrete values.
