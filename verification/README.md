# terminal_miku3d

The decision-making core of a terminal 3D model viewer (ASCII/Braille
glyphs, kitty and iTerm2 inline images), with its behaviour stated in
`requires`/`ensures` contracts and proved with Verus.

## Layout

- `src/` — the verified library:
  - `scene` — render settings enums and texture records;
  - `options`, `resolve` — how colour and camera modes, visual settings and
    audio-sync settings of a session are chosen from the command line, stored
    sync profiles and the configuration file;
  - `config`, `text` — parsing of the general configuration section and the
    integer/boolean text parsers it uses;
  - `state` — run-time state machines: contrast presets, camera control,
    colour-path recovery, visibility watchdogs, adaptive level of detail,
    camera director shots;
  - `controls` — the viewer's key bindings and event handling (`q` and `Esc`
    quit in every camera mode);
  - `graphics`, `encoding` — frame buffers, their rasterisation to RGB images,
    PNG and Base64 encoding (through the `image` and `base64` crates) and the
    kitty / iTerm2 escape-sequence framing;
  - `animation` — clip classification and selection;
  - `pmx_rig`, `physics` — PMX bone statistics, the grant (append) bone
    evaluation order, rigid-body metadata and IK/physics conflicts;
  - `material_stats`, `scene_stats` — the model inspector's glTF material
    tallies and the statistics of a loaded scene (mesh, triangle and joint
    totals, texture format, colour-space and sampler distributions, per-clip
    channel counts);
  - `gpu`, `domain` — GPU error and render-target types, domain value objects.
- `tests/` — tests run against the compiled library.
- `app/` — the host side: terminal and file I/O, keyboard input, the wgpu
  device, and the floating-point camera and configuration settings.

## What is not here

- The repository and aggregate traits of the domain layer (`AssetRepository`,
  `AssetPort`, `SceneRepository`, `AggregateRoot`) are not declared: their
  signatures are written over `Asset`, `AssetError`, `AssetId`, `Scene`,
  `SceneId`, `EngineError` and `Entity`, none of which exists in this source
  tree, so no faithful declaration of them can be given.
- The start/run/bench/preview command drivers are not included: they are
  built on the model loaders (glTF, PMX, OBJ), file discovery, the start
  wizard and the renderer, none of which this project contains. Their
  decisions (option precedence, colour and camera modes, clip and camera
  track selection, sync profiles) are in `src/`; the scene statistics take a
  `SceneCpu` that a loader fills in.
