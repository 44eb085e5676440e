# ghpc

`ghpc` logs in to the CUGB HPC portal through CAS single sign-on, fetches a
JWT token, downloads the user's SSH private key to `~/.hpckey`, and keeps the
token for two hours in `~/.hpc-login-cache.json` so that the next run can skip
the login.

## Layout

- `src/` is the library, verified with Verus:
  - `login.rs`: the login as a state machine (`LoginFlow`), the form body,
    URL encoding, and the fields read from the portal's pages;
  - `scan.rs`: the patterns looked for in those pages, matched leftmost-first;
  - `session.rs`: the cookie jar of a login;
  - `crypto.rs`: the RSA public key in PEM form and password encryption;
  - `cache.rs`: when a cached token is reused, what is stored, the `--status` state;
  - `flow.rs`: the cache-first download flow as a state machine (`DownloadFlow`);
  - `report.rs`: error normalisation, status lines, success and error reports;
  - `cli.rs`, `logger.rs`, `paths.rs`, `http.rs`, `errors.rs`, `types.rs`, `text.rs`.
- `app/` is the program: argument parsing, HTTP with `ureq`, JSON with
  `serde_json`, files, prompts and printing.
- `tests/` exercises the library on concrete values.
