# sqlite3dyn

A binding to a sqlite3 shared library that is loaded at run time.

- `src/` is the verified library: the decisions of the binding, each with a
  contract proved by Verus.
  - `code` — the `SQLITE_RESULT` code, its equality and its printed forms.
  - `text` — decimal and radix formatting, `i32` parsing, NUL termination,
    UTF-8 decoding of bytes that come back from C.
  - `error` — `Sqlite3ConnError` and its short and long display forms.
  - `loader` — the entry points a load looks up, in order, and when it is done.
  - `conn` — opening (create, then read-write), exec outcomes, close and drop,
    and what the row callback hands on; the laws that tie them together.
  - `harness` — the argument and command-line logic of the test driver and the
    column width of the example program.
- `app/` performs the foreign calls (`libloading`, the sqlite3 function
  pointers, the environment, the test driver's argument parser and logger)
  and asks the library what to do at each step.
- `tests/` runs the library on concrete inputs.
