# vello post-process passes

Host-side logic of two small GPU post-process passes: a separable Gaussian
blur and a CSS/SVG-style 4x5 color matrix.

- `src/` is the verified library (Verus): what each request records
  (skip, identity copy, two-pass blur), the kernel tap count, the
  intermediate-texture cache (which only ever holds an entry of non-empty
  size), and the uniform parameters of both shaders, generic over the scalar
  type; the caller adds the blur shader's one padding word.
- `app/` owns the `wgpu` resources, records the render passes, computes the
  floating-point Gaussian weights and holds the WGSL sources.
