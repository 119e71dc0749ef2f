# cslview

A viewer for the XML map exports that CSLMapView writes for Cities: Skylines,
with SVG, PNG and PDF export.

The crate is a library whose logic is verified with Verus, and a thin
program around it.

- `src/` — the verified library:
  - `text` — trimming, ASCII lower-casing, substring search, decimal parsing,
    lossy UTF-8 decoding;
  - `model` — colours and their CSS and hex notations, segment classes, node
    kinds, line kinds, and the records of a map;
  - `xml` — tokenizing the bytes of a file into element starts, ends and
    texts with the XML reader;
  - `parser` — the reader's state machine: one step per XML event, from the
    first event to the finished map;
  - `raster` — box blur of RGBA rasters;
  - `image` — premultiplying a raster, writing it out as PNG, and the
    `data:` URI that embeds it;
  - `terrain` — number tokens of the packed terrain text, forest cells, the
    terrain grid's side, the triangles of a sampled grid, quad colours;
  - `scene` — lookups by id and the route links a line runs along;
  - `export`, `svg`, `style`, `theme`, `navigation` — map modes, output
    paths and frames, XML escaping, the palette and symbol choices, theme
    colours, and what pointer input does to the camera.
- `app/` — the program: the command line, reading files, reading attribute
  values as numbers, everything computed in floating point (coordinates, the viewport,
  contours, hill shading, SVG drawing), rendering to PNG and PDF, the style
  file, and the desktop interface.
- `tests/` — tests of the library on concrete values.

The style file is read at start-up from `assets/style.toml` (or from the
path in `CSLVIEW_STYLE`).
