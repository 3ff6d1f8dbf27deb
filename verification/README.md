# windmill_oss

The verified core of Windmill's open-source service code, written in Verus.

- `src/` is the library. Every verified function there has a contract that Verus
  proves. The few `#[verifier::external_body]` wrappers around outside calls
  (`sqlb`, `url_parts`, the token signing in `git_sync`, `text::push_char`) are
  trusted: Verus believes their contracts, and `sqlb::anyhow_text` has none. The
  library covers
  audit-log records and the SQL of the audit queries (`audit`, over the
  `sql_builder` crate through `sqlb`), GitHub App git sync (`git_sync`, over the
  `url` crate through `url_parts` and over `jsonwebtoken`), the license plan and critical alerts
  (`license`), mail delivery settings (`email`), the AWS Secrets Manager backend
  and its migration reports (`aws_sm`), and string helpers (`text`).
- `app/` holds what talks to the outside world: the database, HTTP routes,
  GitHub, Slack, SMTP and AWS calls. It hands the library plain values and acts
  on what it gets back.
- `tests/` runs the library on concrete values.
