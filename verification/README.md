# cartoboost_py

The option, validation and decoding logic behind CartoBoost's Python
bindings, written in Verus and verified.

- `src/` is the verified library:
  - `text` — characters of a `&str`, `str::trim`-style trimming, the keys that
    option names are matched by, and string building;
  - `decimal` — `usize` text as `usize::from_str` reads it and as
    `to_string` writes it, with the round trip proved;
  - `model_options`, `forecast_options`, `neural_options`, `method_choice` —
    the parsers of every named option, their canonical names and the
    round-trip laws between them;
  - `splitters`, `target_mode` — the two option grammars with numbers in them;
  - `calendar`, `lag_features` — the calendar features and the lag and window
    lists a lag forecaster resolves to;
  - `sparse` — decoding of compressed sparse-set columns;
  - `arrays` — cutting row-major arrays into rows and blocks;
  - `validate` — the integer checks on model configurations.
- `tests/` runs the library on concrete values.
- `app/` is the Python module (`_native`, PyO3 and NumPy): conversions,
  error messages, and the checks on floating-point parameters.
