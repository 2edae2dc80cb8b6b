# verder_helpen

The decisions of the Verder Helpen identity services, verified with Verus.

- `src/` is the verified library:
  - `weburl`, `baseurl`: absolute URLs and base URLs, held as their serialization; parsing,
    joining and query pairs come from the `url` crate.
  - `codec`: URL-safe base64, JSON arrays of strings and UTF-8, from `base64`,
    `serde_json` and std.
  - `attributes`, `config`: the authentication test service's attribute map and
    configuration, with the checks of requested attributes.
  - `auth_test`: the authentication test service's routes as functions from request to
    answer.
  - `comm_method`: the core's exchange with a communication plugin, as a state machine
    whose requests the caller sends.
  - `guest`, `host`: a communication plugin's guest start (a state machine over session
    storage and the core) and its live feed and attribute page.
  - `common`: the messages the services exchange.
- `tests/`: tests of the library.
- `app/`: the HTTP services around the library (Rocket routes, reqwest calls,
  configuration loading, signing and encryption of results).
