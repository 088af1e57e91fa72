# dockergen

Detects a project's stack from the names of the files at its root and renders a
multi-stage Dockerfile for it.

- `src/detect.rs`: the `Stack` type, stack detection from a list of file names,
  and reading the `[package]` name out of a `Cargo.toml` text, with the laws
  that hold of both.
- `src/generate.rs`: the Dockerfile templates, their rendering, and the laws
  on every rendered Dockerfile.
- `src/text.rs`: trimming and substring facts on character sequences.
- `app/`: the command line (`detect`, `generate`) and the directory reads.
