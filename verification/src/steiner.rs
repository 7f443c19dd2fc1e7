use vstd::prelude::*;
use crate::kind::{SurfaceKind, spec_raise_supported, spec_steiner_points_per_axis, steiner_points_per_axis};

verus! {

/// Row `x` of an `n`-by-`n` grid: the nodes `(x, 0), ..., (x, n - 1)`.
pub open spec fn grid_row(x: nat, n: nat) -> Seq<(usize, usize)> {
    Seq::new(n, |y: int| (x as usize, y as usize))
}

/// The first `rows` rows of an `n`-wide grid, row after row.
pub open spec fn grid_rows(rows: nat, n: nat) -> Seq<(usize, usize)>
    decreases rows,
{
    if rows == 0 {
        Seq::empty()
    } else {
        grid_rows((rows - 1) as nat, n) + grid_row((rows - 1) as nat, n)
    }
}

/// The Steiner grid of a surface: node `(x, y)` stands for the parameter
/// point at fractions `(x + 1) / (n + 1)` and `(y + 1) / (n + 1)` of the
/// bounding box of the lowered points.
pub open spec fn spec_steiner_grid(kind: SurfaceKind) -> Seq<(usize, usize)> {
    let n = spec_steiner_points_per_axis(kind);
    grid_rows(n, n)
}

/// Grid nodes in the order in which Steiner points are tried: x-major.
pub fn steiner_grid(kind: SurfaceKind) -> (grid: Vec<(usize, usize)>)
    ensures
        grid@ == spec_steiner_grid(kind),
        grid.len() > 0 ==> spec_raise_supported(kind),
        kind == SurfaceKind::Sphere ==> grid.len() == 36,
        kind == SurfaceKind::Torus ==> grid.len() == 1024,
        kind != SurfaceKind::Sphere && kind != SurfaceKind::Torus ==> grid.len() == 0,
        forall|x: nat, y: nat|
            x < spec_steiner_points_per_axis(kind) && y < spec_steiner_points_per_axis(kind)
                ==> #[trigger] grid@[(x * spec_steiner_points_per_axis(kind) + y) as int] == (
            x as usize,
            y as usize,
        ),
{
    let n = steiner_points_per_axis(kind);
    let mut grid: Vec<(usize, usize)> = Vec::new();
    let mut x: usize = 0;
    while x < n
        invariant
            x <= n,
            n == spec_steiner_points_per_axis(kind),
            grid@ == grid_rows(x as nat, n as nat),
        decreases n - x,
    {
        let mut y: usize = 0;
        while y < n
            invariant
                x < n,
                y <= n,
                grid@ == grid_rows(x as nat, n as nat) + grid_row(x as nat, n as nat).take(y as int),
            decreases n - y,
        {
            grid.push((x, y));
            proof {
                assert(grid_row(x as nat, n as nat).take(y + 1) =~= grid_row(x as nat, n as nat).take(
                    y as int,
                ).push((x, y)));
            }
            y = y + 1;
        }
        proof {
            assert(grid_row(x as nat, n as nat).take(n as int) =~= grid_row(x as nat, n as nat));
        }
        x = x + 1;
    }
    proof {
        lemma_grid_rows_len(n as nat, n as nat);
        lemma_steiner_grid_layout(kind);
        lemma_steiner_grid_by_kind(kind);
    }
    grid
}

pub proof fn lemma_grid_rows_len(rows: nat, n: nat)
    ensures
        grid_rows(rows, n).len() == rows * n,
    decreases rows,
{
    let r = (rows - 1) as nat;
    if rows > 0 {
        lemma_grid_rows_len(r, n);
        assert(rows * n == r * n + n) by (nonlinear_arith)
            requires
                r + 1 == rows,
        ;
    } else {
        assert(rows * n == 0) by (nonlinear_arith)
            requires
                rows == 0,
        ;
    }
}

/// Node `(x, y)` of the grid stands at position `x * n + y`.
pub proof fn lemma_grid_rows_index(rows: nat, n: nat, x: nat, y: nat)
    requires
        x < rows,
        y < n,
        n <= usize::MAX,
        rows <= usize::MAX,
    ensures
        x * n + y < grid_rows(rows, n).len(),
        grid_rows(rows, n)[(x * n + y) as int] == (x as usize, y as usize),
    decreases rows,
{
    lemma_grid_rows_len(rows, n);
    lemma_grid_rows_len((rows - 1) as nat, n);
    let r = (rows - 1) as nat;
    if x < r {
        lemma_grid_rows_index(r, n, x, y);
    } else {
        assert(x == r);
    }
    assert(x * n + y < rows * n) by (nonlinear_arith)
        requires
            x < rows,
            y < n,
    ;
}

/// Every node of the grid has both coordinates below `n`.
pub proof fn lemma_grid_rows_bounds(rows: nat, n: nat)
    requires
        rows <= n,
        n <= usize::MAX,
    ensures
        forall|k: int|
            0 <= k < grid_rows(rows, n).len() ==> {
                &&& (#[trigger] grid_rows(rows, n)[k]).0 < rows
                &&& grid_rows(rows, n)[k].1 < n
            },
    decreases rows,
{
    if rows > 0 {
        let r = (rows - 1) as nat;
        lemma_grid_rows_bounds(r, n);
        let prefix = grid_rows(r, n);
        let row = grid_row(r, n);
        assert forall|k: int| 0 <= k < grid_rows(rows, n).len() implies {
            &&& (#[trigger] grid_rows(rows, n)[k]).0 < rows
            &&& grid_rows(rows, n)[k].1 < n
        } by {
            if k >= prefix.len() {
                assert(grid_rows(rows, n)[k] == row[k - prefix.len()]);
            } else {
                assert(grid_rows(rows, n)[k] == prefix[k]);
            }
        }
    }
}

/// The Steiner grid of a surface with `n` points per axis has `n * n`
/// nodes, lists node `(x, y)` at position `x * n + y`, and has every
/// coordinate below `n`; so every fraction `(i + 1) / (n + 1)` lies strictly
/// between 0 and 1, and every grid point lies strictly inside the bounding box.
pub proof fn lemma_steiner_grid_layout(kind: SurfaceKind)
    ensures
        ({
            let n = spec_steiner_points_per_axis(kind);
            let g = spec_steiner_grid(kind);
            &&& g.len() == n * n
            &&& forall|x: nat, y: nat|
                x < n && y < n ==> #[trigger] g[(x * n + y) as int] == (x as usize, y as usize)
            &&& forall|k: int| 0 <= k < g.len() ==> 0 < (#[trigger] g[k]).0 + 1 < n + 1 && 0 < g[k].1 + 1
                < n + 1
        }),
{
    let n = spec_steiner_points_per_axis(kind);
    lemma_grid_rows_len(n, n);
    lemma_grid_rows_bounds(n, n);
    assert forall|x: nat, y: nat| x < n && y < n implies #[trigger] grid_rows(n, n)[(x * n + y) as int] == (
    x as usize, y as usize) by {
        lemma_grid_rows_index(n, n, x, y);
    }
}

} // verus!

verus! {

/// A sphere's Steiner grid has 36 nodes and a torus's 1024, every node
/// `(x, y)` of the 6-by-6 or 32-by-32 grid appearing at position `x * n + y`;
/// every other kind of surface has an empty grid.
pub proof fn lemma_steiner_grid_by_kind(kind: SurfaceKind)
    ensures
        kind == SurfaceKind::Sphere ==> spec_steiner_grid(kind).len() == 36,
        kind == SurfaceKind::Torus ==> spec_steiner_grid(kind).len() == 1024,
        kind != SurfaceKind::Sphere && kind != SurfaceKind::Torus ==> spec_steiner_grid(kind).len()
            == 0,
        kind == SurfaceKind::Sphere ==> forall|x: nat, y: nat|
            x < 6 && y < 6 ==> #[trigger] spec_steiner_grid(kind)[(x * 6 + y) as int] == (
            x as usize,
            y as usize,
        ),
        kind == SurfaceKind::Torus ==> forall|x: nat, y: nat|
            x < 32 && y < 32 ==> #[trigger] spec_steiner_grid(kind)[(x * 32 + y) as int] == (
            x as usize,
            y as usize,
        ),
{
    lemma_steiner_grid_layout(kind);
    crate::kind::lemma_steiner_points_only_on_spheres_and_tori(kind);
}

} // verus!
