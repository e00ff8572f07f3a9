# bevy_sonus

Spatial audio for the Bevy engine: occlusion, distance attenuation and
panning of sound emitters, processed block by block on the audio thread.

Layout:

- `src/` — the verified library (Verus):
  - `buffer.rs`: `BlockBuffer<T>`, the fixed-capacity block of interleaved
    samples that every processing stage works on, with its FIFO contract.
  - `source.rs`: the `SonusSource` asset and `SpatialAudioChain`, which pulls
    blocks from an input stream, runs a list of `AudioFilter`s over each
    block and hands the samples out one by one.
  - `filter.rs`: `FilterType` and the `AudioFilter` interface.
  - `config.rs`, `decoder.rs`: lock-free control panels shared between the
    game and audio threads, and the registration message of a played sound.
  - `plugin.rs`: the plugin's settings.
- `app/` — the Bevy and rodio integration and the floating-point DSP
  (biquad filters, gain ramps, panning laws, ray-cast occlusion), built on
  the library's blocks and controls.
- `tests/` — tests of the library.

Not included: an `AudioCommand` message, a `SonusSink` playback handle and a
`SpatialAudioSource::add_filter` builder were sketched in the project's
history on top of filter-parameter, playback-control and filter-config types
that were never written, and most of the sink's methods were left
unimplemented, so there is nothing definite to carry over.
