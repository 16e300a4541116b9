# tack

The decisions and computations of `tack`, a launcher for Paper servers that
manages the ahead-of-time (AOT) cache of the Java virtual machine, as a library
that Verus verifies, and the program around it.

- `src/` is the library. `launcher` prepares a run and says what the virtual
  machine is started with; `background` orders the work beside the main thread;
  `run` says how the process ends. `aot` decides whether a run uses, records or
  goes without a cache, keeps the meta data that tells whether a cache is valid,
  and orders recording and creating one. `util` holds the checks on files,
  digests, archives and the version of Java. `errors`, `path` and `text` are the
  ground that the rest stands on. `outside` holds every call whose result is
  taken on trust.
- Work that touches the world is a step function: the library says what is to be
  done next and takes back what came of it. Each step function has a table as
  its contract, and laws about whole runs are proved over the tables.
- `tests/` runs the library on concrete values.
- `app/` is the program: it performs the actions that the library asks for.
