# vortex_export

Exports dictionary-encoded Vortex columns to a database, and finds the segments of a file whose
bytes are held on a CUDA device. The library is verified with Verus.

A dictionary-encoded column is exported as a dictionary where the database can represent it (the
values once, and a selection of them for each chunk of codes) and as a flat column elsewhere. What
was converted for one column is kept for later columns over the same values. The library proves that
every column that is exported holds the rows of its array, whichever way is taken, as long as the
codes that are exported as a dictionary are below 2^32: a selection keeps 32 bits of a code.

- `src/array.rs`, `src/mask.rs`: arrays, dictionary arrays and masks, as the rows that they hold.
- `src/compute.rs`: the computations that the `vortex` crates perform, with what is claimed of them.
- `src/cache.rs`: converted values, by the key of the array that they were converted from.
- `src/duckdb.rs`, `src/exporter.rs`, `src/dict.rs`: the vectors of the database, and the exporters.
- `src/segments.rs`: segments of a file on a device.
- `src/laws.rs`: what holds of exports as a whole.
- `app/`: the library at work on Vortex arrays and CUDA buffers.
