# tool-error-classify

Maps tool errors into a closed `ErrorKind` so that agent loops can decide what
to do: fix the arguments, retry, back off, or give up. Classification runs in
three passes (HTTP status code, then the timeout and connection flags, then
keyword matching on the exception type name); an earlier pass always wins.

Layout:

- `src/kind.rs`: `ErrorKind`, its names and hints, and their laws.
- `src/text.rs`: substring search over character sequences.
- `src/info.rs`: `ErrorInfo` (the input descriptor and its builders) and
  `ClassifiedError` (the result).
- `src/classify.rs`: the status and keyword tables and the classifier.
- `src/equality.rs`: `==` on `ClassifiedError`, comparing delays as `f64`
  values.
- `src/laws.rs`: properties of classification as a whole.
- `app/lib.rs`: serde-enabled copies of the three types, with conversions.

A retry-after delay is carried as the bit pattern of its `f64` seconds value
(`f64::to_bits`); the copies in `app/` hold the `f64` itself.
