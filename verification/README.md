# ua571

The UA 571-C remote sentry weapon system console from *Aliens* (1986), as an
unofficial fan project: four sentry guns, their option panels, the firing
panel with its drum, temperature and rate gauges, a demo auto-play, and the
console's event log.

## Layout

- `src/` — the console itself, verified with Verus: configuration and CLI
  precedence, sentries and their options, firing and the CRITICAL threshold,
  the event log, the demo script, the saved session, the key handling of the
  terminal, pixel-window and browser consoles, the monochrome framebuffer
  with its drawing primitives, the whole scene renderer shared by the pixel
  and browser consoles (`paint` describes a drawing as the list of primitives
  it performs; `draw::render` states the exact frame for a console state and
  a glyph table), the panel texts, and the WAVE sample reader. Each public
  function states what it returns or changes; `lemma_*` proof functions
  state the laws that tie operations together (round trips, idempotence,
  what a key repeat may do, symmetry of a drawn circle, the idle cool-down,
  …).
- `app/` — the terminal program: command line, the config file,
  the terminal event loop and its rendering.
- `tests/` — executable tests of the library.
