# hardkick

A hardstyle kick-drum synthesizer plugin. The library under `src/` holds the
verified, float-free logic of the synthesizer:

- `dsp::noise` — the xorshift32 white-noise generator (its state never reaches zero);
- `dsp::limiter` — the limiter's lookahead delay line (every sample comes out exactly
  `LOOKAHEAD` samples later);
- `dsp::oversample` — the tap histories of the polyphase oversampling filters;
- `dsp::distortion`, `dsp::oversample` — the `Shaper` and `OsFactor` choices;
- `voice` — retrigger scheduling with a declick fade, the onset ramp, and
  transport edge detection;
- `switch` — which position of an editor switch is active, and what a click commits.

The buffers are allocated once, at construction; resets and per-sample
operations work in place, so the audio path does not allocate.

`app/` holds the plugin around it: the nih_plug host glue, the egui editor, the
parameters and presets, WAV export through hound, and the floating-point signal
path (oscillators, envelopes, filters, waveshapers, gain computers).
