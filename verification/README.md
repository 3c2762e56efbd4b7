# kindle_exporter

The decisions and data of a phase-based exporter for e-books that one owns: a
navigation state machine that drives the Kindle Cloud Reader page by page over
the Chrome DevTools Protocol, a simulated reader to test it against, the
record/replay harness, and the append-only event log from which the progress of
each book is rebuilt, so that work can stop on one machine and go on on another.

## Layout

- `src/` — the library, verified with Verus. Every public function states in
  its contract what it returns or changes; the properties that span several
  functions are stated and proved as `law_*` proof functions.
  - `phase`, `display`, `page`, `observation`, `action`, `book`: the domain types.
  - `calibrate`, `navigator`: the font calibration and the navigation state
    machine, `step(Observation) -> Action`, with no I/O.
  - `browser`, `fake`, `record`: the browser operations, the simulated reader,
    recordings and their replay. A browser keeps, as ghost state, the list of
    operations asked of it and the image it last handed out, so the contracts
    say which operation each action asks for, with which argument, and which
    observation each move is decided on; a measurer likewise keeps the pages it
    measured and what it answered. The DevTools browser in `app/` is not
    verified and keeps the trait's empty default model, so what is proved of
    the operations that drive a browser holds of the verified browsers.
  - `js`, `cdp`: the page scripts and what is read from their answers.
  - `store`, `workflow`: the event log and progress of a book, and one capture run.
  - `library`: which entries of a library's directory are books, in text order.
  - `text`: character-level building blocks.
- `app/` — ordinary Rust around the library: the JSON forms of its types, the
  DevTools connection, the file store of the books and the capture loop.
- `tests/` — tests of the library, run against the compiled crate.
