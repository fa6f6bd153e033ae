# my_rust_course

A small Rust course whose logic comes with machine-checked proofs.

- `src/myrust.rs`: `MyPrint`, a printer that collects pieces of text, and
  the demos that print into it (`my_rust` runs one by name: the data-type
  and control-flow demos, a greeting from Ferris, or clearing).
- `src/mysorting.rs`: bubble sort and insertion sort demos that print the
  array after every pass, with proofs that both sort and agree.
- `src/mysqlite.rs`: the todo list's decisions as a state machine; the
  caller performs each database request and hands back the answer.
- `src/text.rs`: decimal formatting and parsing, trimming, padding and
  list formatting, specified as `Display`, `str::parse`, `str::trim` and
  the `{:>w}`/`{:<w}`/`{:^w}` and `{:?}` formats behave.
- `app/main.rs`: the egui window, the worker threads and the SQLite
  database.
