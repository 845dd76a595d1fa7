# xross_guitar_amp

A guitar amp and cabinet plugin. The verified library (`src/`) holds the
integer and boolean logic the plugin relies on:

- `amp::cab::DelayLine` – the circular delay line behind the cabinet's
  microphone phase delay and room reflection, specified by the history it
  holds (newest first), with the law that a written sample is read back
  unchanged after its delay.
- `amp::gain::noise_gate::GateHold` – the noise gate's hold timer, with the
  law that the noise gate stays open for exactly the hold length after the last
  detection.
- `editor` – the backdrop's triangle-fan indices and the interaction logic
  of the slider and stacked knob widgets.

`app/` holds the rest: the truce parameters and plugin glue, the
floating-point signal processing (filters, distortion, cabinet, equaliser,
gate envelopes) and the egui editor, which calls into the library.
