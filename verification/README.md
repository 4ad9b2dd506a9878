# archflow

A one-pass ZIP archive writer and a central-directory reader whose record layouts,
bookkeeping and reports are proved correct with Verus.

Entries are compressed with stored, deflate, bzip2, zstd or xz; in the streamable mode the
CRC-32 and sizes of each entry follow its data in a data descriptor, so the sink never seeks.

## Layout

- `src/` — the verified library.
  - `encoding.rs` — little-endian layouts and their round trips.
  - `archive_common.rs` — record buffers, end of central directory records, extra fields
    (extended timestamp, ZIP64) and the per-entry bookkeeping.
  - `compress/` — entry options, header construction, entry and archive writing
    (`common.rs`), the compressor crates behind named results (`standard/`), and the writer
    that takes precompressed payloads (`tokio/`).
  - `uncompress.rs` — reading the end record and the central directory of an archive in memory.
  - `readback.rs` — what reading gives back of what writing recorded, and archive sizes.
  - `written.rs` — what every entry that a std writer appends looks like, over any run of
    appends (streamed or patched, and the 16 bytes per entry between them), and where the
    archive comment lands.
  - `report.rs`, `text.rs` — the listing of entries and archives, and number formatting.
  - `types.rs` — MS-DOS date and time, Unix timestamps (through chrono), systems of origin.
  - `tools.rs` — the size of a streamed archive, known before it is written.
- `app/` — `std::io` and `tokio` front ends that move the library's bytes to sinks and
  compress asynchronously with `async-compression`, and the `Write`/`AsyncWrite` impls of the
  counting writers. Each payload is read whole before it is compressed, so memory grows with
  the largest entry; the output is still written in one pass.
- `tests/` — tests run against the compiled library.

Every call into an outside crate goes through a small trusted function whose contract names or
states its result; everything else is verified.
