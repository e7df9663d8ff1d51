# omni_manifest

Reading, checking and converting package manifests written in TOML, with
the logic proved against its contracts.

- `src/schema` models a manifest as it is written: dependency tables kept
  in ascending order of their names, profiles with per-package overrides
  in ascending order of their selectors,
  optimisation levels given as numbers or text.
- `src/convert` turns that model into the normalised one of `src/v1`,
  refusing the profile settings that a per-package override may not carry.
- `src/v1` is the normalised model: dependencies and their validation, git
  references read from URL queries, canonical forms of repository URLs, and
  the library's error messages.
- `src/parser` frames TOML text for the `toml` crate, maps its errors into
  the library's own, and renders the paths of keys that a parse left
  unused.
- `src/text` holds the string and number helpers the rest builds on.

Every public function states what it returns in its contract; the laws that
relate several functions are public proof functions next to them. The calls
into `toml`, `url` and std, whose code is not proved here, sit behind small
trusted wrappers, each documented with what it claims of the outside
function.

`app/` holds what stays outside the proofs: the serde copies of the schema types
and the parse entry point that drives `toml` and `serde_ignored`.
