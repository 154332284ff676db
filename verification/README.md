# ffdb_api

The request-handling rules of the FFDB data API, written in Verus and proved
against their contracts.

- `src/` is the verified library. Each module states its rules as spec
  functions and proves the executable code against them: route labels and the
  anonymous rate-limit policy (`routes`), SQL shape redaction (`sql_shape`),
  client addresses behind trusted proxies (`client_ip`), the dispatch of a
  worker operation as a state machine (`dispatch`), instance administration
  (`instance`, `provider`, `plans`, `catalog`, `accounts`), organization
  management (`management`), usage metering and reporting (`metering`,
  `usage_reporting`), observability (`observability`, `summary`), object
  storage (`storage`) and the error contract (`errors`).
- `outside.rs` and a few private functions in `client_ip` and `storage` are
  the trusted edge: each calls one function of `uuid`, `sha2`, `url`,
  `chrono`, `base64` or `std` and states what its documentation promises.
- `tests/` runs the library on concrete values.
- `app/` is the HTTP edge: the server, the conversion of provider JSON into
  the library's records, and the floating-point latency histograms.
