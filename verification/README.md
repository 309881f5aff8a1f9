# labworks

A set of small command-line tools (configuration loading, image pipelines, a tag index of
files, a snippet store, downloaders, an order workflow, thread and future demos) whose
logic is a library verified with Verus.

- `src/` — the verified library. Each module states its behaviour in `requires`/`ensures`
  contracts over spec functions and views, and proves the laws that tie operations
  together (for example: a read after a create gives the created snippet; an index query
  returns exactly the entries carrying every asked tag; later environment overrides win).
  Calls into outside crates (`image`, `aes-gcm`, `rand`, `rayon`, `humantime`, `uuid`,
  `url`) and a few `std` functions sit behind small trusted wrappers whose doc comments say
  what is assumed of them.
- `tests/` — executable tests of the library.
- `app/` — the programs: argument parsing, files, network, databases, threads and async
  runtimes, calling the library for every decision and computation. Run
  `labworks <program> [args...]`.
