# mcrebuild

Verified core of MCRebuild, a workbench that turns a real university campus into
a Minecraft base world through the Arnis generator.

- `src/` is the library, each function with its specification and proof:
  - `text` — character-sequence helpers (trim, search, concatenation) and their specifications;
  - `campus` — campus identities, provider candidates, the reality model, project objects;
  - `search` — AMap campus search: request URL, campus names, candidate selection;
  - `boundary` — ring checks of a campus boundary polygon;
  - `boundary_map` — the boundary editor page and its submitted vertices;
  - `arnis` — Arnis command plan, version probe, run monitoring and cancellation;
  - `generation` — provider-neutral generation stages and events;
  - `shell` — decisions of the desktop boundary-editor shell;
  - `workflow` — the order of the file-system and generator steps of project creation and world generation;
  - `cli` — the usage text of the command line and the reading of boundary text.
- `app/` is the program around it: file and network I/O, the Arnis child process,
  JSON encoding, the floating-point geometry (WGS-84 / GCJ-02 conversion, polygon
  area and self-intersection) and, on Windows, the desktop window.
- `tests/` exercises the library.
