# jhapi

The JH API server: a REST API over the company's product database (Oracle),
its user directory (LDAP) and its image store (SSH), with token logins.

The decisions the server makes are a library verified with Verus (`src/`):

- `access`, `catchers`, `errors`, `response`: who may call what, and how
  refusals and errors are answered.
- `signing`: token claims, their JSON form, signing and checking tokens,
  password checks.
- `users`, `permissions`, `stores`, `products`, `logging`, `versions`: what is
  read from and written to the database, and how rows become answers
  (which store figures and costs a user may see, how an edit changes an
  account, how rights are stored and read back, how log rows are cut).
- `ldap`: directory accounts, and the creation of an account as a sequence
  of directory requests.
- `sql`: the named SQL statements.
- `images`: where images live and how they are centred when resized.
- `json`, `numbers`, `text`: the JSON, decimal and text forms they rest on.

Calls into `jsonwebtoken`, `bcrypt`, `serde_json`, `chrono` and the system
clock stand in the library behind small trusted wrappers. Their contracts
state what holds of those calls whatever the clock or the random source
gives: a decoded token carries the claims it was signed with, a fresh hash is
accepted by the password check, a timestamp's fields lie in their ranges. The
clock readings themselves are stated to be nothing more than readings.

`app/` is the server itself: Rocket routes, the Oracle, LDAP, SSH, mail and
PDF I/O, and serde forms of the library's types. `tests/` exercises the
library on concrete values.
