# potassium_shot

The account service of Potassium Shot: users with Argon2 password hashes,
login tokens with an expiration, and administrators (the first user to be
created becomes one).

- `src/` is the library, every function of it proved against its contract.
  Every request handler and every multi-statement database operation is a
  state machine (`api`, `db`): it asks
  for one SQL statement at a time (`db::Query`), takes the database's answer
  (`db::Reply`) and, for logins and deletions, the outcome of a password check,
  and says exactly what comes next. `laws` proves what every run keeps: failed
  queries end the operation, the first user is promoted, only administrators
  promote, deletions and logins need the right password, and a login answers
  the very token it stored. `pswd` hashes and checks passwords through
  `argon2`, `types` holds the user id and the twenty-character login token,
  `time` the token expirations, `env` the server settings, `plugins` the
  naming rules for plugins, and `com` the messages between client and server.
- `app/` is the program around it: the SQLite database (`sqlx`), the HTTP
  server (`axum`), the fixed delay on failed password checks (`tokio`), plugin
  loading (`libloading`), the HTTP client (`reqwest`) and the JSON forms of the
  messages (`serde`).
- `tests/` runs the library on concrete values.
