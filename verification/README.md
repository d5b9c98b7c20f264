# webhookd

A small HTTP(S) server that runs commands when a webhook is POSTed to a
configured URL, optionally checking the `X-Hub-Signature-256` header and
limiting how many jobs of a hook run at once.

- `src/` is the library, verified with Verus: the configuration model and its
  defaults (`config`, `hooks`, `types`), the per-hook job scheduler
  (`scheduler`), request routing and replies (`request`), HMAC-SHA256
  signature checking (`signature`), the plan and steps of a hook's job
  (`job`), log level handling (`logging`) and the TLS reload schedule
  (`tls_reload`).
- `app/` is the daemon around it: command line, YAML parsing with serde,
  the hyper server, tokio tasks, subprocesses, signals and OpenSSL.
- `tests/` runs the library on concrete values.
