# burn_dinov3

A DINOv3 vision transformer for [burn](https://burn.dev), with its integer geometry
verified by Verus.

- `src/` is the verified library: the architecture presets (`arch`), the token layout
  of the sequence (`tokens`), the head split of attention (`attention`), the shapes of
  the low-rank adapter (`lora`) and the index plans of the 2D rotary embedding
  (`rope`): the row-major patch grid, the tiling of the angle table and the
  rotate-half gather. Its laws are public proof functions next to the code they
  speak of.
- `app/` holds the burn modules and the loading program; they run the floating-point
  tensor work on the plans that the library computes.
- `tests/` runs the library on concrete values.
