# triangulate

Projection of the faces of a B-rep model onto 2D parameter spaces, so that
they can be triangulated.

- `src/` is the verified library: the discrete decisions of the projection.
  - `kind.rs`: kinds of surface; how many Steiner points each gets per
    axis, which kinds can raise a parameter point back into 3D, and which
    are stretched by their control net's aspect ratio.
  - `steiner.rs`: the grid of Steiner nodes, in the order they are tried.
  - `sampling.rs`: which knot spans of a spline curve are sampled, and at
    which positions, to seed the closest-point search.
  - `newton.rs`: when the Newton closest-point search stops, and with which
    parameter.
- `app/` holds the floating-point geometry (surfaces, curves, projections,
  normals) on top of `nalgebra-glm` and the spline crate `nurbs`, calling the
  library for each decision.
- `tests/` runs the library on concrete values.
