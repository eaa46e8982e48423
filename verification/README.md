# secure_safe

A fully local encrypted-file vault. Files are encrypted with
ChaCha20-Poly1305 under a key derived from the login password with Argon2;
the path a file was added from is stored in the entry header and
authenticated as associated data, and a BLAKE3 hash of the encrypted payload
guards against corruption. Passwords and derived keys are overwritten with
zeros (through `zeroize`) when they are dropped.

## Layout

- `src/` is the library, verified with Verus:
  - `file_format/header.rs`: the entry header, its saved form and the
    parser, with the proof that a saved header reads back.
  - `encryption/`: password padding and key derivation, and the encryption
    of entry contents.
  - `add.rs`, `restore.rs`, `login.rs`: building an entry, opening it (an
    entry built for a path and contents opens to them), and the login check.
  - `safe.rs`: the stand-alone entry format with a salt per entry and
    zstd-compressed contents.
  - `navigation/file_explorer.rs`: the terminal explorer as a state machine
    with the screen it draws.
  - `parsing.rs`, `delete.rs`, `dir_watch.rs`, `settings*`: the command line
    and the decisions of the commands.
  - `crypto.rs`, `text.rs`, `path.rs`: the calls into BLAKE3,
    ChaCha20-Poly1305, Argon2, zstd, zeroize and the random source, and the string
    and path helpers.
- `app/` is the command-line program: files, terminal, prompts and the
  directory watcher.
- `tests/` exercises the library.
