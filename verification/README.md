# rtorch_for_models_api

The safe shell of the RTorch plugin layer, verified with Verus.

- `src/` holds every decision behind the C ABI: argument checks and error
  codes (`err`, `guard`), tensor handles and their shape limits (`tensor`),
  RTW containers and payload guards (`rtw`, `payload`), buffer copies
  (`buffer`), the formula session (`session`), the rule registry (`rule`) and
  the text helpers they are stated over (`text`).
- `app/` holds the `extern "C"` symbols, the thread-local last-error slot, the
  global rule table, file system and process work, and the calls into the
  `rtorch` compute crate.
