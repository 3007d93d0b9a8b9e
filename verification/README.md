# pbmodular

A modular audio-effect plugin. Its signal graph is made of DSP modules
(realtime, per sample) that non-realtime modules build and draw controls for.

- `src/` is the verified library (Verus): the `Signal` type that travels along
  the graph and its accessors, the module kinds that carry no samples
  (`Param`, `Input`, `Blank`, the test modules, `MixdownMode`,
  `NRTModuleType`, `UICommand`), the single-sample delay step, the debug and
  label texts of the modules, the parameter slot names, and the editor's
  reaction to its widgets' events.
- `app/` is the plugin around it: the host interface (nice-plug), the editor
  window (nice-plug-iced), the egui drawing of `UICommand`s, and every module
  that computes on `f32` samples.
- `tests/` runs the library on concrete values.
