# klozeo

Client library for the Klozeo lead-management API, written in Verus.

- `src/` is the verified core: filter construction (`filters`), the data
  types and their builders (`types`), client configuration together with the
  decisions taken around each HTTP exchange — retry and backoff, error
  mapping, `Retry-After` and rate-limit headers (`client`), the errors
  (`errors`), the method, URL and query of every endpoint plus the paging of
  the lead stream (`resources`), and decimal text (`text`).
- `app/` is the HTTP side: the `reqwest` client, the async resource methods
  that ask the core for each request and decision, the serde forms of the
  types, and the constructors that take `f64` numbers.
- `tests/` exercises the core on concrete values.
