# winkit

The verified core of a read-only Windows observability server that speaks the
Model Context Protocol over standard input and output.

- `src/` is the library. Every function in it is verified by Verus against the
  contract above it; properties that span functions are stated as public proof
  functions named `law_*`.
  - `server/`: the session life cycle, JSON-RPC dispatch, framing, profiles and
    the state that tools work with.
  - `tools/`: the tool definitions and schemas, the registry, the arguments of
    each tool and what it reports.
  - `providers/`: what the operating system is asked, a backend that answers
    from memory with a sample machine, and the registries of providers.
  - `chrome/`: discovery of a browser, the debugging protocol, managed browser
    sessions, and what is told of tabs and pages.
  - `json`, `text`, `time`, `floats`, `order`, `namemap`, `models`, `config`,
    `errors`, `permissions`, `diagnostics`: what the rest is built from.
- `app/` is ordinary Rust around the library: the transport loop, sockets,
  processes, the file system, and what is computed in floating point.
- `tests/` runs the library.

Floating-point measurements are carried by their bits (`models::Real`) and
compared by them (`floats`); they are computed in `app/` only. Calls into
`serde_json` and into the parts of the standard library without a specification
stand behind small functions whose doc comments say what is taken for granted.
