# ml_launcher

A terminal launcher for machine-learning training scripts. It reads the
`add_argument(...)` calls of a Python argparse script, turns them into a
training configuration, merges that configuration with an older one, lets the
user edit the parameters, and builds and runs the training command line.

Layout:

- `src/` is the verified library (Verus):
  - `text.rs`: character-level helpers on strings, stated over `Seq<char>`;
  - `literals.rs`: the `i64` and `f64` literal syntax used to validate values;
  - `parser.rs`: argument-list extraction and parameter recognition;
  - `config.rs`: parameters, validation, command lines and configuration merge;
  - `input.rs`: the keys the screens react to;
  - `app.rs`: the main screen as a state machine;
  - `mode_selection.rs`: the start screen as a state machine;
  - `properties.rs`: laws that relate the functions above.
- `app/` is the program around it: the terminal UI, key decoding, file access,
  JSON storage and the training process.
- `tests/` exercises the library on concrete values.
