# citro3d

Verified building blocks for rendering on the Nintendo 3DS with `citro3d`.

- `src/` is the library, checked with Verus: vertex attribute and buffer layouts,
  uniforms and the register writes that bind them, texture combiner stages, texture
  parameters and size rules, lighting environments and their lookup tables, render
  target parameters and transfer flags, shader libraries and programs, the GPU enums,
  the input checks of shader embedding, and the 2D layer's colors. Every public
  function with something to return states it in its contract, and the laws that tie functions
  together (read-backs, round trips, what one call undoes) are proof functions.
- `tests/` runs the library on concrete values.
- `app/` is the system side: the calls into the `citro3d`, `citro2d` and `libctru`
  C libraries, floating-point work (matrices, projections, lookup tables sampled
  from float functions), and running `picasso` to compile shaders. It hands plain
  values to the library and carries out what the library decides.
