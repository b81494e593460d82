# workshop

The verified core of a Rust testing workshop.

- `src/` holds the library, every function of it proved against its contract:
  decimal formatting and parsing (`decimal`), the retrying client driver
  (`retry`), squaring with a logger (`logging`), the redirect matcher
  (`status_matcher`), the configuration-file reader (`cli_config`), the
  well-formed JSON request matcher (`http_match`) and the decisions of the
  Postgres container launcher (`launcher`).
- `app/` is ordinary Rust around it: the Docker calls, the environment,
  files, standard output, a mockall mock, and adaptors that plug the
  matchers into googletest and wiremock.
- `tests/` runs the library on concrete values.
