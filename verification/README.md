# drawing_gl

The OpenGL backend of a 2D drawing library, with its logic verified by Verus.

`src/` is the verified library:

- `display_list` — the display list builder: transforms, clips and layers
  open frames on a save stack; `restore` folds frames back, nesting what was
  drawn in them into groups. Its contract and the laws beside it state what a
  restore leaves (`restored`), that no drawing operation is lost or
  reordered, that `save`/`restore` is transparent and that a layer closes into
  one group.
- `gl_commands`, `gl_context`, `pipelines` — the render passes as sequences of
  OpenGL commands (clear, colored, textured and line triangles, stroke and
  fill through the stencil buffer), with a model of the OpenGL state they set
  (bound framebuffer, viewport, texture and filter, capabilities, color writes,
  culling and stencil setup) and laws: a fill binds the target and, only for
  an image paint, the image; every pass leaves the stencil test off and color writes on, fills
  reach only the stencil buffer, and each stroke or fill is drawn the expected
  number of times.
- `stencil` — what the commands do to the stencil value of one pixel, given
  where each draw puts its fragments, with laws: a stroke pass leaves zero
  wherever a stroke reached and nothing else changed, a fill through the
  stencil buffer leaves zero under its bounding quad, and a convex fill leaves
  the stencil alone.
- `font_size_renderer` — text at one size: glyph quads collected as
  triangles, and a draw that makes the glyph texture on first use only.
- `texture`, `texture_font`, `fonts`, `paragraph`, `primitive`, `units` —
  texture formats and ownership, the per-size font renderer cache, paths,
  paragraphs and the enumerations of the drawing API.

`app/` holds what cannot be verified: the OpenGL calls that run the planned
commands (each drawing operation of a context plans with the library and
then performs the plan), the floating point geometry (path shapes, scissors, paints), and the
drawing front end that feeds the verified builder.
