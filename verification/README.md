# capeos

The verified core of the CapeOS services, written in Verus.

- `src/` is the library: the gateway's routing
  table (longest-prefix matching) and proxy decisions, JWT token extraction,
  issuing and JWKS publication, the error and response models, service
  discovery and the wait-for-service state machine, the message bus registry,
  the user service's registration and login, and the main service's system,
  health, file and container endpoints. Its own logic is verified; the calls
  into outside crates and std that vstd does not specify go through small
  trusted wrappers marked `#[verifier::external_body]`, each with a doc
  comment saying what its contract claims of the outside code.
- `app/` runs the services (axum servers, SQLite, Docker, systemd, the file
  system) and the command line tool around the library.
- `tests/` exercises the library on concrete values.
