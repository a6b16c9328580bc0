# iota

The logic of the Tensamin Iota node, verified with Verus: the vocabulary and
JSON form of the messages it exchanges, the consent record kept in the
`agreements` file and the decisions taken when legal documents change, the
language packs, the hosted users and their storage files, communities and
their interactables, and what the terminal interface shows and does on each
key.

Layout:

- `src/` — the verified library. Each module states its behaviour in
  `requires`/`ensures` contracts over plain models (`Seq`, `Map`, views);
  laws that relate several functions are public proof functions named
  `lemma_*`. Calls into outside crates and reads of the clock stand behind
  small trusted wrappers: `ids.rs` (`uuid`), `data/json_value.rs` (`json`),
  `crypto.rs` (`rand`, `rand_core`, `base64`, `x448`, `hkdf`, `sha2`,
  `aes-gcm`, `hex`, and `String::from_utf8`), `clock.rs`, and a few `str`
  methods in `text.rs`.
- `tests/` — tests of the library on concrete values.
- `app/` — the terminal program around the library: files, the clock, the
  document service, and the screens drawn with `ratatui` from the views the
  library lays out.
