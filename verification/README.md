# rustsynth

A verified core for working with VapourSynth clips from Rust: video and audio
formats and their identifiers, frames with their planes and standard
properties, property maps, the helper arithmetic of the VapourSynth headers,
an example inverting filter, and the decisions of the `rspipe` tool that
writes a clip's frames out, raw or as YUV4MPEG2, and the RIFF WAVE and
Wave64 headers of audio clips.

Layout:

- `src/` — the library, checked by Verus. Every public function states what
  it returns in its contract; laws that relate several functions are public
  proof functions next to them.
  - `format` — colour families, sample types, preset formats and their
    identifiers, video and audio formats and builders, channel layouts.
  - `frame` — planes, frames, frame properties and their enumerations.
  - `map` — property maps: keys, integer and data values, strings.
  - `invert` — the example filter that inverts every plane of a frame.
  - `helpers`, `rational` — the helper functions of the C headers.
  - `filter`, `node`, `log`, `vs_core` — filter modes, request patterns,
    cache modes, message kinds, core creation options and core information.
  - `output`, `schedule`, `pipe` — the pipe tool: encoding frames for
    output, ordering frame requests and writes, frame ranges, progress
    timing, script arguments and the node description.
  - `text` — building UTF-8 text and decimal numbers.
- `tests/` — tests of the library.
- `app/` — the `rspipe` command line: argument parsing, files and stdout,
  threads and the clock, and the floating point progress figures.
