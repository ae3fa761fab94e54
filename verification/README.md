# tinycms

A small headless CMS: content types declared in a config file, documents stored in
PostgreSQL as JSON, a read-only SQL query endpoint over them, sessions from email and
password or from GitHub and Google sign-in, uploads to S3, and a command-line tool that
shows and checks the configuration.

## Layout

- `src/` is the library, verified with Verus. It holds the logic:
  - `query/`: the query endpoint. Parameters are expanded (`preprocessor`), the text is
    parsed with `sqlparser` and read into the library's own model of a query (`parser`,
    `lower`, `sql`), checked against what a role may read (`validator`) and rewritten
    into the SQL that runs against the document tables (`translator`). `executor` holds
    the decisions made on the result rows; `laws` states what every accepted query obeys.
  - `auth/`: session tokens and their hashes, cookies, and the sign-in flows as state
    machines (`session`, `credentials`, `oauth`): each step takes what the last database
    or HTTP call gave and says what to do next. `laws` states the properties that span
    the steps.
  - `schema/`: the configuration model, field validation, the choice of a JavaScript
    runtime to read the config with, and when a changed file triggers a reload.
  - `api.rs`, `storage.rs`, `config.rs`, `cli.rs`, `error.rs`: the decisions the HTTP
    handlers, the upload path, the environment and the command-line tool make.
  - `text.rs`, `json.rs`: string helpers and the JSON model they share.
- `tests/` runs the library on concrete inputs.
- `app/` is the program around the library: the HTTP server (axum, sqlx, reqwest), the
  S3 client, the config loader and the command-line front end. It performs the I/O the
  library's state machines ask for and hands the results back.
