# notan_sketches

Helpers for generative sketches drawn with [notan](https://github.com/Nazariglez/notan),
split in two crates:

- `src/` — the verified library: grid cell storage and lookup, the emotion-to-color
  model of the text visualizers (top emotions, color mappings, simple color recipe),
  the tile layout of the tiles visualizer, and the small state machines of the
  sketches (help modal, mouse focus, shader reloads, screen supersampling, seeded
  random generators). Every function there carries a contract proved by Verus.
- `app/` — the drawing, windowing and floating-point side (projections, font
  scaling, color mixing in `palette`, shaders, captures), written around the
  library.

Analyzer scores travel through the library as order keys (`app::emotion::score_key`):
integers that compare as the `f32` scores do. Colors of the emotion mappings are
kept as whole degrees and hundredths.
