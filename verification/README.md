# maxminddb_rust

A reader of MaxMind DB files for Python, in two parts:

- `src/` is the verified library (Verus). It holds the decoded form of a
  record (`value`, `text_map`), navigation into a record along a path of keys
  and indices, the open modes (`mode`), the metadata and its derived sizes
  (`metadata`), address arguments and the network an iteration starts from
  (`address`), the life cycle of an opened database and the answer to every
  kind of lookup (`database`), the database opened on what the `maxminddb`
  reader read (`source`), and the exact text and exception class of every
  error (`error`). `laws` states properties that span these operations.
- `app/` is the Python module: the classes, file access and memory mapping,
  address parsing, running the `maxminddb` reader over the bytes (catching
  its panics on malformed files), and the searches of the `maxminddb` reader, which it hands
  to the library as outcomes.
