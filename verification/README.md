# vis_taskbar

A real-time audio spectrum visualizer drawn on the Windows taskbar. The
program captures system audio through WASAPI loopback, runs an FFT and draws
mirrored bars with peak markers; a dark settings window and a tray icon
control it.

## Layout

- `src/` — the verified library (Verus):
  - `config` — window types, bin merge modes and the defaults of the settings file;
  - `color` — COLORREF and theme-colour packing, with round-trip laws;
  - `falloff` — bar and peak levels (rise to a higher input, sink by 7 and 2
    per frame), what the taskbar display publishes to the settings preview;
  - `layout` — step width, origins and bar counts of the taskbar display and
    of the preview;
  - `capture` — sample buffering, channel de-interleaving, log-spread and
    merge ranges, and the byte layout of a spectrum frame;
  - `dialog` — the decisions of the settings window and the tray icon;
  - `text` — reading and writing the whole numbers of the edit boxes;
  - `control` — the start/stop flags of the capture and render workers.
- `app/` — the Windows program: WASAPI capture, the `rustfft` analyzer,
  Direct2D drawing, the Win32 windows, the TOML settings file and the worker
  threads. It builds on Windows only, like the `windows` crate.
- `tests/` — tests of the library.
