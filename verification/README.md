# chartered

A private cargo registry: a Git server that serves cargo the crate index
over SSH, and a web API that cargo publishes to and people log in to.

`src/` is the library, written in Verus and verified: every function states
what it does in its contract, and the properties that span functions are
proved as lemmas.

- `permissions` — the permission flags a user holds on a crate or an
  organisation, and their names.
- `git` — the pkt-line protocol (`codec`, `PktLine`), the decisions of the
  SSH session (`server`), the in-memory repository (`repository`), the
  layout of the crate index (`tree`) and `config.json` (`config`).
- `db` — the records and the rules applied to them: who may see, publish,
  yank or manage a crate, what a publish writes, what each error answers.
- `fs` — where crate files are stored and the references kept to them.
- `uuid` — identifiers, their text and their bytes.
- `web` — logins (password and OpenID Connect), the publish request, the
  answers of the endpoints and the decisions of the middleware.

`app/` is the ordinary Rust around it: the serde forms of the types, crate
files on disk, the index files built from JSON lines, the publish request
and the sealed login state.

`tests/` holds the tests.
