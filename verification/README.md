# workflow_visualizer

The integer and state-machine core of a grid-based visualizer, verified with Verus.

- `src/` is the verified library:
  - `grid`: markers, spans, the responsive grid's column/gutter arithmetic, grid
    locations, views, points, responsive views and placers (`grid::laws` holds the
    layout laws);
  - `instance`: the slot allocator for instanced rendering;
  - `focus`, `interaction`, `touch`: focus changes, interaction bookkeeping and
    resolution, and raw touch / mouse input, with locations kept generic;
  - `engen`: the decisions of the event loop;
  - `diagnostics`, `job`, `button`, `icon`, `images`, `coord`, `content_panel`,
    `resource`: the small value types and decisions around them.
- `app/` holds what works with `f32` geometry and colors, animation, windowing input,
  the clipboard and the ECS world, and the event loop (`engine`), which calls into the
  library for every decision.
- `tests/` exercises the library on concrete values.
