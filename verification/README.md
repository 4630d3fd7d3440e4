# dface

Webpage defacement detection. Each monitored page is captured periodically;
a capture is fingerprinted by an ssdeep fuzzy hash of its HTML and a
perceptual hash of its screenshot, compared with the latest stored capture,
and logged as an alert when the overall similarity falls below the monitor's
threshold.

Layout:

- `src/` — the verified library (Verus):
  - `fuzzy.rs`: ssdeep hashing and comparison (the `ffuzzy` crate).
  - `phash.rs`: perceptual hashes (`image`, `image_hasher`) and their Hamming distance.
  - `text.rs`: numbers and strings rendered as Rust's `{:?}` prints them.
  - `monitor.rs`: captures, similarity scores, the per-monitor check plan,
    alert decisions and log messages, and new-monitor validation.
  - `fuzzy_watch.rs`: the simpler watcher that compares ssdeep hashes only.
- `app/` — the command-line program: options, SQLite storage, the browser
  (WebDriver) and printing.
- `tests/` — tests of the library.
