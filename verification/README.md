# obvia

The validation and form-handling logic of the tenant side of an ERP back
end (customers and their addresses, stock, stock movements, stock
reservations, products and services), written in Verus and proved against
its contracts.

## Layout

- `src/common/` — what every module shares: whitespace and trimming over
  characters (`text`), the value-object framework (`value_object`), the
  shared value types (`types`), points in time and how print views show
  them (`time`), paging and ordering of list queries (`paging`), the
  insertion-ordered text map (`ordered_map`), service errors and how they
  are answered (`service`), and the calls into outside crates (`bindings`).
- `src/tenant/<module>/` — per module: the value types (`types`), the form
  and its error report (`dto`), the database records (`model`), the print
  view (`print`), the service and repository decisions (`service`,
  `repository`).
- `tests/` — the test suite, run against the compiled library.
- `app/` — the serde, clap and error-trait forms of the library's types,
  and the conversions to `uuid`, `chrono` and `bigdecimal` values.

## Trusted code

The functions marked `#[verifier::external_body]` call outside crates
(`regex`, `uuid`, `bigdecimal`, `chrono`, `chrono-tz`, `indexmap`); their
contracts are believed, not proved, and each doc comment says what is
claimed. Everything else in `src/` is verified.
