use vstd::prelude::*;

verus! {

/// The deepest bounce whose surface still scatters light: a path that hits a
/// surface at a greater depth ends there with the surface's emittance.
pub const MAX_DEPTH: usize = 5;

/// What the light-transport estimator does with a path after querying the scene.
#[derive(Clone, Copy, Debug, PartialEq, Eq, Structural)]
pub enum PathStep {
    /// The ray hit nothing: the background radiance is returned.
    Escape,
    /// The ray hit a surface past the depth cutoff: only its emittance is returned,
    /// with no further sampling.
    EmitOnly,
    /// The ray hit a surface within the depth cutoff: a new direction is sampled
    /// and the path continues at `depth + 1`.
    Bounce,
}

/// The estimator's decision for a ray traced at `depth`, given whether it hit a surface.
pub open spec fn path_step_spec(hit: bool, depth: nat) -> PathStep {
    if !hit {
        PathStep::Escape
    } else if depth > MAX_DEPTH {
        PathStep::EmitOnly
    } else {
        PathStep::Bounce
    }
}

/// Decides how a path traced at `depth` goes on, given whether its ray hit a surface.
pub fn path_step(hit: bool, depth: usize) -> (r: PathStep)
    ensures
        r == path_step_spec(hit, depth as nat),
{
    if !hit {
        PathStep::Escape
    } else if depth > MAX_DEPTH {
        PathStep::EmitOnly
    } else {
        PathStep::Bounce
    }
}

/// The last word of every per-pixel seed; it keeps a seed from being all zeros,
/// which an xorshift generator cannot start from.
pub const SEED_SALT: u32 = 0x9E37_79B9;

/// The seed of the random generator owned by the task of pixel `(x, y)`, derived
/// from the render's global `seed` alone: a seeded render draws the same numbers
/// for the same pixel on every run, and two pixels never share a seed.
pub fn pixel_seed(seed: u32, x: u32, y: u32) -> (r: [u32; 4])
    ensures
        r@ == seq![seed, x, y, SEED_SALT],
        r[3] != 0,
{
    let r: [u32; 4] = [seed, x, y, SEED_SALT];
    assert(r@ =~= seq![seed, x, y, SEED_SALT]);
    r
}

/// The render tasks of a `width` by `height` image: one `(x, y)` per pixel,
/// column by column, and within a column from the top row down.
pub fn pixel_tasks(width: usize, height: usize) -> (r: Vec<(usize, usize)>)
    requires
        width * height <= usize::MAX,
    ensures
        r@.len() == width * height,
        forall|i: int| 0 <= i < r@.len() ==> #[trigger] r@[i].0 as int == i / height as int && r@[i].1 as int == i % height as int,
        forall|x: usize, y: usize| x < width && y < height ==> r@.contains((x, y)),
        r@.no_duplicates(),
{
    let mut r: Vec<(usize, usize)> = Vec::new();
    let mut x: usize = 0;
    while x < width
        invariant
            x <= width,
            width * height <= usize::MAX,
            r@.len() == x * height,
            forall|i: int| 0 <= i < r@.len() ==> #[trigger] r@[i].0 as int == i / height as int && r@[i].1 as int == i % height as int,
        decreases width - x,
    {
        let mut y: usize = 0;
        while y < height
            invariant
                x < width,
                y <= height,
                width * height <= usize::MAX,
                r@.len() == x * height + y,
                forall|i: int| 0 <= i < r@.len() ==> #[trigger] r@[i].0 as int == i / height as int && r@[i].1 as int == i % height as int,
            decreases height - y,
        {
            proof {
                assert((x * height + y) / height as int == x as int && (x * height + y) % height as int == y as int) by (nonlinear_arith)
                    requires y < height;
                assert(x * height + y < width * height) by (nonlinear_arith)
                    requires x < width, y < height;
            }
            r.push((x, y));
            y = y + 1;
        }
        proof {
            assert(x * height + height == (x + 1) * height) by (nonlinear_arith);
        }
        x = x + 1;
    }
    proof {
        assert forall|a: usize, b: usize| a < width && b < height implies r@.contains((a, b)) by {
            let i: int = a * height + b;
            assert(i / height as int == a as int && i % height as int == b as int) by (nonlinear_arith)
                requires b < height, i == a * height + b;
            assert(i < width * height) by (nonlinear_arith)
                requires a < width, b < height, i == a * height + b;
            assert(0 <= i < r@.len());
            assert(r@[i].0 as int == i / height as int);
            assert(r@[i].0 == a && r@[i].1 == b);
            assert(r@[i] == (a, b));
        }
        assert forall|i: int, j: int| 0 <= i < r@.len() && 0 <= j < r@.len() && i != j implies r@[i] != r@[j] by {
            if r@[i] == r@[j] {
                let h = height as int;
                assert(r@[i].0 == r@[j].0 && r@[i].1 == r@[j].1);
                assert(i / h == j / h && i % h == j % h);
                assert(i == j) by (nonlinear_arith)
                    requires h > 0, i / h == j / h, i % h == j % h, i >= 0, j >= 0;
            }
        }
    }
    r
}

} // verus!
