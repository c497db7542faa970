use vstd::prelude::*;

verus! {

/// Largest `r <= k` whose square does not exceed `n`.
pub open spec fn sqrt_floor_below(n: nat, k: nat) -> nat
    decreases k,
{
    if k * k <= n || k == 0 {
        k
    } else {
        sqrt_floor_below(n, (k - 1) as nat)
    }
}

/// The integer square root: the largest natural number whose square is at most `n`.
pub open spec fn sqrt_floor(n: nat) -> nat {
    sqrt_floor_below(n, n)
}

pub proof fn lemma_sqrt_floor_below(n: nat, k: nat)
    requires
        n < (k + 1) * (k + 1),
    ensures
        sqrt_floor_below(n, k) * sqrt_floor_below(n, k) <= n,
        n < (sqrt_floor_below(n, k) + 1) * (sqrt_floor_below(n, k) + 1),
    decreases k,
{
    if k * k <= n || k == 0 {
    } else {
        lemma_sqrt_floor_below(n, (k - 1) as nat);
    }
}

/// A root is pinned down by bracketing its argument between consecutive squares.
pub proof fn lemma_sqrt_floor_unique(n: nat, r: nat)
    requires
        r * r <= n,
        n < (r + 1) * (r + 1),
    ensures
        sqrt_floor(n) == r,
{
    assert(n < (n + 1) * (n + 1)) by (nonlinear_arith);
    lemma_sqrt_floor_below(n, n);
    let s = sqrt_floor(n);
    if s < r {
        assert((s + 1) * (s + 1) <= r * r) by (nonlinear_arith)
            requires s + 1 <= r;
    } else if s > r {
        assert((r + 1) * (r + 1) <= s * s) by (nonlinear_arith)
            requires r + 1 <= s;
    }
}

/// The square root is monotone.
pub proof fn lemma_sqrt_floor_monotone(a: nat, b: nat)
    requires
        a <= b,
    ensures
        sqrt_floor(a) <= sqrt_floor(b),
{
    assert(a < (a + 1) * (a + 1)) by (nonlinear_arith);
    assert(b < (b + 1) * (b + 1)) by (nonlinear_arith);
    lemma_sqrt_floor_below(a, a);
    lemma_sqrt_floor_below(b, b);
    let sa = sqrt_floor(a);
    let sb = sqrt_floor(b);
    if sa > sb {
        assert((sb + 1) * (sb + 1) <= sa * sa) by (nonlinear_arith)
            requires sb + 1 <= sa;
    }
}

/// Any number whose square fits under `n` is at most its root.
pub proof fn lemma_sqrt_floor_at_least(n: nat, k: nat)
    requires
        k * k <= n,
    ensures
        k <= sqrt_floor(n),
{
    assert(n < (n + 1) * (n + 1)) by (nonlinear_arith);
    lemma_sqrt_floor_below(n, n);
    let s = sqrt_floor(n);
    if s < k {
        assert((s + 1) * (s + 1) <= k * k) by (nonlinear_arith)
            requires s + 1 <= k;
    }
}

/// Integer square root of `n`, by bisection.
pub fn isqrt(n: u64) -> (r: u64)
    ensures
        r as nat == sqrt_floor(n as nat),
        r * r <= n,
        n < (r + 1) * (r + 1),
{
    let mut lo: u64 = 0;
    let mut hi: u64 = 0x1_0000_0000;
    assert(n < hi * hi);
    while lo + 1 < hi
        invariant
            lo < hi <= 0x1_0000_0000,
            lo * lo <= n,
            n < hi * hi,
        decreases hi - lo,
    {
        let mid: u64 = lo + (hi - lo) / 2;
        assert(mid * mid <= 0x1_0000_0000 * 0x1_0000_0000) by (nonlinear_arith)
            requires mid <= 0x1_0000_0000;
        let sq: u128 = (mid as u128) * (mid as u128);
        if sq <= n as u128 {
            lo = mid;
        } else {
            hi = mid;
        }
    }
    proof {
        lemma_sqrt_floor_unique(n as nat, lo as nat);
    }
    lo
}

/// A point or vector in the horizontal plane, in millimetres (or millimetres
/// per second for velocities). Height is locked for every gameplay body.
#[derive(Clone, Copy, Debug, PartialEq, Eq, Structural)]
pub struct Vec2 {
    pub x: i64,
    pub z: i64,
}

/// Coordinates that every position in the arena stays within, in millimetres.
pub const COORD_LIMIT: i64 = 1_000_000_000;

pub open spec fn in_bounds(p: Vec2) -> bool {
    -COORD_LIMIT <= p.x <= COORD_LIMIT && -COORD_LIMIT <= p.z <= COORD_LIMIT
}

pub open spec fn dist_squared(a: Vec2, b: Vec2) -> nat {
    ((a.x - b.x) * (a.x - b.x) + (a.z - b.z) * (a.z - b.z)) as nat
}

/// Euclidean distance rounded down to a whole millimetre.
pub open spec fn dist_spec(a: Vec2, b: Vec2) -> nat {
    sqrt_floor(dist_squared(a, b))
}

impl Vec2 {
    pub fn new(x: i64, z: i64) -> (r: Vec2)
        ensures
            r.x == x && r.z == z,
    {
        Vec2 { x, z }
    }

    /// Squared distance between two in-bounds points.
    pub fn distance_squared(&self, other: &Vec2) -> (r: u64)
        requires
            in_bounds(*self),
            in_bounds(*other),
        ensures
            r as nat == dist_squared(*self, *other),
    {
        let dx: i64 = self.x - other.x;
        let dz: i64 = self.z - other.z;
        assert(dx * dx <= 4_000_000_000_000_000_000) by (nonlinear_arith)
            requires -2_000_000_000 <= dx <= 2_000_000_000;
        assert(dz * dz <= 4_000_000_000_000_000_000) by (nonlinear_arith)
            requires -2_000_000_000 <= dz <= 2_000_000_000;
        assert(dx * dx >= 0) by (nonlinear_arith);
        assert(dz * dz >= 0) by (nonlinear_arith);
        let ax: u64 = if dx >= 0 { dx as u64 } else { (-dx) as u64 };
        let az: u64 = if dz >= 0 { dz as u64 } else { (-dz) as u64 };
        assert(ax * ax == dx * dx) by (nonlinear_arith)
            requires ax == dx || ax == -dx;
        assert(az * az == dz * dz) by (nonlinear_arith)
            requires az == dz || az == -dz;
        ax * ax + az * az
    }

    /// Distance between two in-bounds points, rounded down to a millimetre.
    pub fn distance(&self, other: &Vec2) -> (r: u64)
        requires
            in_bounds(*self),
            in_bounds(*other),
        ensures
            r as nat == dist_spec(*self, *other),
            r * r <= dist_squared(*self, *other),
    {
        let d2 = self.distance_squared(other);
        isqrt(d2)
    }
}

} // verus!
