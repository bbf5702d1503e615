# codecurator

Verified core of a tool that curates GitHub repositories into line-delimited
JSON code datasets: it downloads repository archives, extracts their
programming files into records with token counts, and deduplicates them.

- `src/` — the library, verified with Verus:
  - `path.rs`: slash-separated paths as text (join, file name, stem, extension);
  - `text.rs`: trimming characters from both ends of a text;
  - `config.rs`: run configurations built from command-line options;
  - `downloader.rs`: archive addresses and names, entity-tag records kept
    beside the archive directory, the per-repository download state machine
    (reuse of a current stored copy, `main` then `master`), run outcome;
  - `extractor.rs`: the per-archive scan state machine (entry selection,
    write modes, record count), record building, record file naming, run
    outcome.
- `app/` — the I/O around it (HTTP, ZIP reading, tokenization, parallelism,
  JSONL output).
- `tests/` — tests of the library, including comparisons of the path model
  with `std::path` on Unix.
