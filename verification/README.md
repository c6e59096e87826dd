# entropy

A community website for a city's tech groups: it gathers groups and events
from meetup.com and from local markdown files with a TOML front-matter,
stores them in PostgreSQL, and serves or builds the site.

## Layout

- `src/` — the verified library (Verus):
  - `poacher/` — what the poachers make of what they find: the meetup.com
    search responses read from their JSON (`meetup/json.rs`) and turned
    into the consumer's messages (`meetup/search.rs`), the records stored for groups and events, the
    blacklist of groups, which local files are read (`local/select.rs`) and
    how a file with a TOML front-matter becomes a TOML document
    (`local/utils.rs`), and the step the consumer takes for each message.
  - `db/models/` — the rows and the records of the database tables.
  - `storage/`, `web/` — configuration defaults, the meaning of storage
    responses, event listings, markdown rendering and the site builder's
    rules.
- `app/` — the program around it: command line, configuration loading,
  HTTP requests, database queries, the web server and the static build.
- `tests/` — tests of the library.
