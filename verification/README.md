# fon

Audio types and resampling, with the integer side verified by Verus.

## Layout

- `src/` — the verified library:
  - `chan` — 16- and 24-bit channels with saturating, fixed-point arithmetic
    and exact widening and narrowing between them.
  - `frame` — frames of up to eight channels, with channel-wise arithmetic.
  - `pos` — speaker positions that index the frames of each layout.
  - `audio` — audio buffers: a sample rate that is never zero and a
    sequence of frames; sinks that write into them; interleaved `i16` and
    packed 24-bit byte buffers.
  - `sink` — the `Sink` trait for consumers of frames.
  - `ratio` — greatest common divisors and ratios in lowest terms.
  - `speex` — the integer state of the Speex resampler: filter sizing, the
    rescaling of each channel's fractional position on a change of rate,
    and plans of which input samples and filter phase each output sample
    uses.
  - `stream` — streams whose source rate may change, resampled to a fixed
    rate, one resampler state per channel slot.
- `app/` — the floating-point side: float channels and conversions,
  panning and layout conversion, the sinc filter table and sample history,
  and streams that run the library's plans over `f32` samples.
- `tests/` — tests of the library.
