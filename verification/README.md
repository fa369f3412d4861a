# mlab_movie_compressor

The verified core of a desktop tool that compresses one MP4 video so that the
result stays under a target size in megabytes.

- `src/` is the library, checked with Verus: bitrate budgeting
  (`budget.rs`), output file naming (`output.rs`), encoder arguments
  (`encoder.rs`), progress lines (`progress.rs`), pass monitoring and failure
  messages (`pass_monitor.rs`), probe summaries (`media.rs`), the history of
  recently used target sizes (`settings.rs`), platform defaults
  (`platform.rs`), binary64 sign and finiteness tests on bit patterns
  (`float_bits.rs`) and path queries delegated to `std::path` (`paths.rs`).
- `app/` is the Tauri shell around it: commands, processes, files, JSON and
  the floating-point progress and bitrate arithmetic.
- `tests/` exercises the library on concrete values.

Floating-point values cross into the library as their IEEE 754 bit patterns
(`f64::to_bits`), so the library decides signs and finiteness exactly without
holding a float.
