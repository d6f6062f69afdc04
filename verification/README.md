# cntour

The verified core of a small web service that renders noise-based images.

- `src/` is the library, verified with Verus:
  - `palettes`: the named colour palettes and their lookup by name;
  - `color`: ordering a palette by HSV value, and the channel arrangement
    of the HSV-to-RGB conversion;
  - `canvas`: laying samples out as grayscale or RGB images and writing
    them as PNG files (through the `image` crate);
  - `seed`: reading the clock, drawing random seeds and deriving the seeds
    of stacked noise layers;
  - `blend`: the rules of blended requests and the neighbour positions of
    the gradient blend;
  - `render`: choosing how a noise field is coloured;
  - `values`: the blend and function kinds and the image size.
- `app/` is the HTTP server (actix-web): request parsing, noise sampling,
  blending and colour interpolation, which work in floating point.
- `tests/` exercises the library on concrete values.
