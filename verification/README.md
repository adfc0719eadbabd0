# dyn_cfg

Dynamic configuration read from a configuration center, with the decisions proved by Verus.

- `src/` is the verified library:
  - `models.rs`: the results of a read (`ConfGetRawResult`, `ConfGetResult<T>`) and their
    standard error handling (`ConfGetStdError`), with the laws that relate the handlings.
  - `config_models.rs`: `MappingConfigWithDefault`, a hash map with a default value.
  - `facade.rs`: turning a raw read into a typed one (`ConfGetResult::from_raw`), and the
    `bool` and systemd-duration readers.
  - `watcher.rs` / `error.rs`: the first value of a watched key and what each update does.
  - `mock.rs`: the decisions of the in-memory test configuration center.
  - `dynamic_config.rs`: which fields of a `#[dynamic_config]` struct are read, and how.
- `app/` holds the async traits, the in-memory configuration center, the displayable
  errors, the `prelude` and `parser` re-exports, and the code generation of
  `#[dynamic_config]` with `syn` and `quote` (fields with `parse` or `parse_with_cli`
  parsers, and a `keys()` list).
- `tests/` exercises the library on concrete values.
