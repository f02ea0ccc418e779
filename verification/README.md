# cfn_guard date and time functions

The date and time functions of the Guard rule language, verified with Verus.

- `src/path_value.rs`: the values that rule queries resolve to (`Path`,
  `PathAwareValue`, `QueryResult`) and their mathematical models.
- `src/error.rs`: the error the functions report.
- `src/date_time.rs`: `parse_epoch`, `now` and `epoch_from_seconds`, the calls
  into chrono they rest on, and their contracts.
- `src/civil.rs`: the proleptic Gregorian calendar and the RFC 3339 UTC text of
  a date and time, with the proof that every second of the years 0000 to 9999
  has one.
- `src/decimal.rs`: decimal text of integers, used in error messages.
- `tests/`: behaviour on concrete values.
