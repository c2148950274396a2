# cargo-assets

Downloads the assets that a Cargo workspace declares in its metadata
(`[workspace.metadata]` / `[package.metadata]`, key `assets`, each with a
`name`, a `url` and an optional `sha256`) into `target/assets`.

- `src/` is the verified library (Verus). It decides which assets are
  declared and in what order, where each is stored, whether a download is
  split into 1 GiB byte ranges, which progress event each step of a task
  reports (and proves that, taken in the order of a download, they form a
  complete lifecycle: start, increments, an optional verification phase,
  exactly one outcome), how the progress bars react, and whether content
  matches its SHA-256 checksum.
  Hashing (`sha2`), hex encoding (`hex`) and path joining (`camino`) are
  called through small trusted wrappers whose contracts are stated in
  `src/hashing.rs`, `src/download.rs` and `src/metadata.rs`.
- `app/` is the command-line program: argument parsing, `cargo metadata`,
  HTTP, files, channels and the terminal display. It performs what the
  library decides, and calls its steps in the order of a download.
  `app/direct.rs` holds the single-request variant of the command and
  `app/checksum.rs` the standalone file check; the `cargo-assets` binary
  does not call them.
- `tests/` runs the library on concrete values.
