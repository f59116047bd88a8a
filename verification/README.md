# android-sms-gateway (verified core)

A client library for the SMSGate API whose logic is specified and proved with
Verus.

- `src/` is the verified library: configuration and credential checks
  (`config`), the `Authorization` header, request paths and query strings,
  and the setup (`RequestSetup`) from which every request takes its URL and
  headers (`client`), request URLs and the error an HTTP status stands for (`http`),
  validation of the domain models, outgoing MMS included (`types`), webhook signature checks
  (`webhook`), and message encryption with AES-256-CBC and PBKDF2-SHA1
  (`encryption`). Calls into `base64`, `hex`, `hmac`, `pbkdf2`, `cbc`/`aes`,
  `rand`, `percent-encoding`, `url` and `chrono` go through small wrappers
  whose contracts state what those crates do.
- `app/` holds what Verus does not check: the asynchronous `Client` and its
  HTTP transport (on `reqwest`), the `serde` forms of the domain models in
  `wire`, and an error type with `Display` (on `thiserror`).
- `tests/` runs the library on concrete values.
