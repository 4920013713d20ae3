# futures_polling

`Polling<Fut>` is an enum like `Poll`, but its `Pending` variant holds the future itself,
and a third state, `Done`, records that the output was already taken out.

- `src/` is the verified library: the `Polling` and `Poll` types, every reader and taker,
  their fallible (`try_*`) forms, the step functions that decide what one poll does
  (`poll_step`, `record_poll`, `finish_poll`), and the laws in `src/laws.rs`.
- `app/` drives the futures: `polling_once`, `poll_once`, `try_poll_once`, and
  `PollingFuture`, which makes a `Polling` awaitable. It acts only on what the library's
  step functions decide.
- `tests/` exercises the library on real futures (`std::future::ready`, `pending`).
