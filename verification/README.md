# chimie

A photo server speaking the Immich web client's HTTP API, with its rules
proved in Verus.

- `src/` is the verified library: the parsing of the `Cookie` header and the
  authentication of requests, the access-token store, password hashing with
  Argon2, the registration of the administrator and the checks of a login,
  the merging of user preferences, the global configuration, the web socket's
  answers, and the records of the API with their defaults. Laws that relate
  several functions are public proof functions beside them.
- `tests/` runs the library on concrete values.
- `app/` is the server around it: the command line, the database on disk
  (`fjall` through `fiole`), JSON with `facet`, and the `actix-web` routes,
  middleware and web socket loop.
