# hal-sdk (verified core)

A Rust SDK for the search API of [HAL](https://hal.science), the French
open-access archive, whose core is specified and proved with Verus.

- `src/` — the verified library: the Solr query builder (`query`), the text
  primitives it rests on (`text`: Unicode white space, word splitting,
  trimming, joining, decimal numbers), documents and result payloads (`doc`,
  `response`), errors (`error`), how the client reads an answer (`client`), the
  decisions of the front ends (`browse`), and the laws that span several of
  them (`laws`).
- `app/` — the I/O around it: the HTTP exchange (`search`), the serde forms of
  the payload (`model`), the command-line client (`main`) and the browser
  front-end (`web`).
- `tests/` — executable tests of the library.
