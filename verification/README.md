# pinespot

The backend of PineSpot, a site of apartment listings: people sign in with
e-mail, Google or GitHub, publish listings with pictures, and search them by
text, picture and filters.

- `src/` is the verified library. Every function there carries a
  `requires`/`ensures` contract that Verus proves: request validation, the
  classification of errors into HTTP answers, token issuing and checking,
  cookie rules, session renewal, the plan of a listings search, the
  assembly of uploads, and the text codecs these rest on. Calls into outside
  crates (token signing, password hashing, UUIDs, file-type sniffing, the
  clock) stand behind small trusted wrappers whose contracts say what the
  crates' sources show.
- `app/` is the HTTP server around it: routing, the database, the vector
  store, object storage, OAuth round trips, e-mail delivery and the
  embedding models. It reads requests, asks the library what to do, and
  performs the work.
- `tests/` runs the library on concrete values.
