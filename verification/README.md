# mangofetch-gui

The desktop client of the MangoFetch download station, split in two:

* `src/` — the verified library (`mangofetch_gui`), checked with Verus:
  * `theme` — colours (premultiplied sRGBA, built through egui's `Color32`),
    the MonolithUI tokens, the brand presets and the `#RRGGBB` parser;
  * `bridge` — the commands and events exchanged with the download engine;
  * `app` — the interface state and how engine events and user actions move it;
  * `runtime` — the engine thread's decisions and report lines;
  * `widgets` — what status dots, log lines, platform badges, queue rows and
    indicators show;
  * `fonts` — the candidate system font families and the search step;
  * `text` — decimal rendering and text helpers.
* `app/` — the egui/eframe program around it: windows and panels, the Tokio
  engine thread driving mangofetch-core, and the floating-point parts
  (font sizes, spacing, progress and speed formatting).

Progress percentages and speeds travel through the library as the bit
patterns of their `f32`/`f64` values; the renderer decodes them.
