# ai-vid-editor

An automated video editor: it detects silences with ffmpeg, cuts or speeds them
up, enhances audio, mixes music, adds intro and outro clips, applies video
filters, and writes side files (SRT, YouTube chapters, FCPXML, EDL). It runs on
single files, on directories, or watching folders.

The library in `src/` is verified with Verus. Each module states its behaviour
in `requires`/`ensures` contracts over `Seq`, `Set` and spec functions:

- `config` — configuration sections, presets, the layer merge and its laws
  (associative, idempotent, later layers win), command-line overrides.
- `run` — what a run does: help, sample configuration, dry run, watching,
  processing a file or a directory.
- `pipeline` — the steps that turn a source video into the output; following
  them, each stage reads the latest version and no scratch file is left.
- `filters`, `commands`, `loudness`, `speech` — ffmpeg filter graphs and argument
  lists, chunked trims, two-pass loudness correction, speech-to-text windows.
- `silence` — reading ffmpeg's `silencedetect` report.
- `export` — EDL, FCPXML, SRT and chapter documents.
- `watch`, `folders` — watch-folder bookkeeping and the folder dialog.
- `display`, `text`, `order` — display texts, text primitives, string order and
  sorting.

Numbers that are single-precision floats in the configuration are held as their
bit patterns (`FloatBits`); time arithmetic on floats lives in `app/`, which
renders the results as text for the library.

`app/` is the command-line program: argument parsing, TOML files, running
ffmpeg, the watch loops and notifications.
