//! Integer grid coordinates: arithmetic, distances and the traced line
//! between two cells.

use vstd::prelude::*;

verus! {

/// A cell of the grid, or an offset between two cells.
#[derive(Copy, Clone, Debug, PartialEq, Eq, Hash, Structural)]
pub struct Vector2Int {
    pub x: i32,
    pub y: i32,
}

/// Whether `n` can be held by an `i32`.
pub open spec fn fits_i32(n: int) -> bool {
    i32::MIN <= n <= i32::MAX
}

/// The absolute value of `n`.
pub open spec fn magnitude(n: int) -> int {
    if n >= 0 {
        n
    } else {
        -n
    }
}

/// The quotient `n / d` rounded toward zero, for a divisor other than zero.
pub open spec fn quotient_toward_zero(n: int, d: int) -> int {
    if (n >= 0) == (d > 0) {
        magnitude(n) / magnitude(d)
    } else {
        -(magnitude(n) / magnitude(d))
    }
}

/// The quotient rounded toward zero is the one number `q` with
/// `n == d * q + r`, where the remainder `r` is smaller than `d` in absolute
/// value and has the sign of `n`.
pub proof fn lemma_quotient_toward_zero(n: int, d: int, q: int)
    requires
        d != 0,
        magnitude(n - d * q) < magnitude(d),
        n >= 0 ==> n - d * q >= 0,
        n <= 0 ==> n - d * q <= 0,
    ensures
        q == quotient_toward_zero(n, d),
{
    let m = magnitude(n);
    let k = magnitude(d);
    let t = if (n >= 0) == (d > 0) { q } else { -q };
    let r = magnitude(n - d * q);
    assert(m == k * t + r) by (nonlinear_arith)
        requires
            m == magnitude(n),
            k == magnitude(d),
            t == if (n >= 0) == (d > 0) { q } else { -q },
            r == magnitude(n - d * q),
            n >= 0 ==> n - d * q >= 0,
            n <= 0 ==> n - d * q <= 0,
            d != 0,
    ;
    vstd::arithmetic::div_mod::lemma_fundamental_div_mod_converse(m, k, t, r);
}

/// Dividing the absolute value of `n` and putting the sign of `n` back
/// rounds toward zero, whatever the sign of the divisor.
pub proof fn lemma_quotient_of_magnitude(n: int, d: int)
    requires
        d != 0,
    ensures
        n >= 0 ==> n / d == quotient_toward_zero(n, d),
        n < 0 ==> -((-n) / d) == quotient_toward_zero(n, d),
{
    let a = magnitude(n);
    let e = a / d;
    let r = a % d;
    assert(a == d * e + r && 0 <= r < magnitude(d)) by (nonlinear_arith)
        requires
            d != 0,
            e == a / d,
            r == a % d,
    ;
    if n >= 0 {
        if n == 0 {
            assert(e == 0 && r == 0) by (nonlinear_arith)
                requires
                    0 == d * e + r,
                    0 <= r < magnitude(d),
            ;
        }
        lemma_quotient_toward_zero(n, d, e);
    } else {
        assert(d * (-e) == -(d * e)) by (nonlinear_arith);
        lemma_quotient_toward_zero(n, d, -e);
    }
}

impl Vector2Int {
    /// The cell with these coordinates.
    pub fn new(x: i32, y: i32) -> (v: Vector2Int)
        ensures
            v.x == x,
            v.y == y,
    {
        Vector2Int { x, y }
    }

    /// The square of the Euclidean distance between two cells.
    pub open spec fn spec_dist_squared(self, other: Vector2Int) -> int {
        (other.x - self.x) * (other.x - self.x) + (other.y - self.y) * (other.y - self.y)
    }

    /// The Euclidean distance between two cells in hundredths of a cell,
    /// rounded down.
    pub open spec fn spec_dist_hundredths(self, other: Vector2Int) -> int {
        floor_sqrt(10000 * self.spec_dist_squared(other))
    }

    /// The square of the distance to `other`.
    pub fn dist_squared(&self, other: Vector2Int) -> (d: u128)
        ensures
            d == self.spec_dist_squared(other),
    {
        let dx: i128 = other.x as i128 - self.x as i128;
        let dy: i128 = other.y as i128 - self.y as i128;
        assert(0 <= dx * dx <= 0x1_0000_0000 * 0x1_0000_0000) by (nonlinear_arith)
            requires
                -0x1_0000_0000 < dx < 0x1_0000_0000,
        ;
        assert(0 <= dy * dy <= 0x1_0000_0000 * 0x1_0000_0000) by (nonlinear_arith)
            requires
                -0x1_0000_0000 < dy < 0x1_0000_0000,
        ;
        (dx * dx + dy * dy) as u128
    }

    /// The distance to `other`, multiplied by a hundred and rounded down.
    pub fn dist_hundredths(&self, other: Vector2Int) -> (d: u64)
        ensures
            d == self.spec_dist_hundredths(other),
            d < 0x1_0000_0000_0000,
    {
        let squared: u128 = self.dist_squared(other);
        assert(squared <= 2 * (0x1_0000_0000 * 0x1_0000_0000)) by (nonlinear_arith)
            requires
                squared == (other.x - self.x) * (other.x - self.x) + (other.y - self.y) * (other.y
                    - self.y),
                -0x1_0000_0000 < other.x - self.x < 0x1_0000_0000,
                -0x1_0000_0000 < other.y - self.y < 0x1_0000_0000,
        ;
        let root: u64 = integer_sqrt(10000 * squared);
        proof {
            lemma_floor_sqrt_unique(10000 * squared, root as int);
            if root >= 0x1_0000_0000_0000 {
                assert(root * root >= 0x1_0000_0000_0000 * 0x1_0000_0000_0000) by (nonlinear_arith)
                    requires
                        root >= 0x1_0000_0000_0000,
                ;
            }
        }
        root
    }
}

impl Default for Vector2Int {
    fn default() -> (v: Vector2Int)
        ensures
            v.x == 0,
            v.y == 0,
    {
        Vector2Int { x: 0, y: 0 }
    }
}

impl core::ops::Add for Vector2Int {
    type Output = Vector2Int;

    fn add(self, other: Vector2Int) -> (sum: Vector2Int) {
        Vector2Int { x: self.x + other.x, y: self.y + other.y }
    }
}

impl vstd::std_specs::ops::AddSpecImpl for Vector2Int {
    open spec fn obeys_add_spec() -> bool {
        true
    }

    open spec fn add_req(self, other: Vector2Int) -> bool {
        fits_i32(self.x + other.x) && fits_i32(self.y + other.y)
    }

    open spec fn add_spec(self, other: Vector2Int) -> Vector2Int {
        Vector2Int { x: (self.x + other.x) as i32, y: (self.y + other.y) as i32 }
    }
}

impl core::ops::AddAssign for Vector2Int {
    fn add_assign(&mut self, other: Vector2Int)
        requires
            fits_i32(old(self).x + other.x),
            fits_i32(old(self).y + other.y),
        ensures
            final(self).x == old(self).x + other.x,
            final(self).y == old(self).y + other.y,
    {
        *self = Vector2Int { x: self.x + other.x, y: self.y + other.y };
    }
}

impl core::ops::Sub for Vector2Int {
    type Output = Vector2Int;

    fn sub(self, other: Vector2Int) -> (difference: Vector2Int) {
        Vector2Int { x: self.x - other.x, y: self.y - other.y }
    }
}

impl vstd::std_specs::ops::SubSpecImpl for Vector2Int {
    open spec fn obeys_sub_spec() -> bool {
        true
    }

    open spec fn sub_req(self, other: Vector2Int) -> bool {
        fits_i32(self.x - other.x) && fits_i32(self.y - other.y)
    }

    open spec fn sub_spec(self, other: Vector2Int) -> Vector2Int {
        Vector2Int { x: (self.x - other.x) as i32, y: (self.y - other.y) as i32 }
    }
}

impl core::ops::SubAssign for Vector2Int {
    fn sub_assign(&mut self, other: Vector2Int)
        requires
            fits_i32(old(self).x - other.x),
            fits_i32(old(self).y - other.y),
        ensures
            final(self).x == old(self).x - other.x,
            final(self).y == old(self).y - other.y,
    {
        *self = Vector2Int { x: self.x - other.x, y: self.y - other.y };
    }
}

impl core::ops::Mul<i32> for Vector2Int {
    type Output = Vector2Int;

    fn mul(self, factor: i32) -> (product: Vector2Int) {
        Vector2Int { x: self.x * factor, y: self.y * factor }
    }
}

impl vstd::std_specs::ops::MulSpecImpl<i32> for Vector2Int {
    open spec fn obeys_mul_spec() -> bool {
        true
    }

    open spec fn mul_req(self, factor: i32) -> bool {
        fits_i32(self.x * factor) && fits_i32(self.y * factor)
    }

    open spec fn mul_spec(self, factor: i32) -> Vector2Int {
        Vector2Int { x: (self.x * factor) as i32, y: (self.y * factor) as i32 }
    }
}

impl core::ops::Div<i32> for Vector2Int {
    type Output = Vector2Int;

    fn div(self, divisor: i32) -> (quotient: Vector2Int) {
        let x: i32 = self.x / divisor;
        let y: i32 = self.y / divisor;
        proof {
            lemma_quotient_of_magnitude(self.x as int, divisor as int);
            lemma_quotient_of_magnitude(self.y as int, divisor as int);
        }
        Vector2Int { x, y }
    }
}

impl vstd::std_specs::ops::DivSpecImpl<i32> for Vector2Int {
    open spec fn obeys_div_spec() -> bool {
        true
    }

    open spec fn div_req(self, divisor: i32) -> bool {
        &&& divisor != 0
        &&& divisor == -1 ==> self.x != i32::MIN && self.y != i32::MIN
    }

    open spec fn div_spec(self, divisor: i32) -> Vector2Int {
        Vector2Int {
            x: quotient_toward_zero(self.x as int, divisor as int) as i32,
            y: quotient_toward_zero(self.y as int, divisor as int) as i32,
        }
    }
}

/// The four unit steps along the axes.
pub open spec fn ortho_directions() -> Seq<Vector2Int> {
    seq![
        Vector2Int { x: 1, y: 0 },
        Vector2Int { x: -1i32, y: 0 },
        Vector2Int { x: 0, y: 1 },
        Vector2Int { x: 0, y: -1i32 },
    ]
}

/// The four unit steps along the diagonals.
pub open spec fn diagonal_directions() -> Seq<Vector2Int> {
    seq![
        Vector2Int { x: 1, y: 1 },
        Vector2Int { x: -1i32, y: 1 },
        Vector2Int { x: -1i32, y: -1i32 },
        Vector2Int { x: 1, y: -1i32 },
    ]
}

/// The four unit steps along the axes.
pub fn ortho_direction_list() -> (directions: Vec<Vector2Int>)
    ensures
        directions@ == ortho_directions(),
{
    let mut directions: Vec<Vector2Int> = Vec::new();
    directions.push(Vector2Int::new(1, 0));
    directions.push(Vector2Int::new(-1, 0));
    directions.push(Vector2Int::new(0, 1));
    directions.push(Vector2Int::new(0, -1));
    directions
}

/// The four unit steps along the diagonals.
pub fn diagonal_direction_list() -> (directions: Vec<Vector2Int>)
    ensures
        directions@ == diagonal_directions(),
{
    let mut directions: Vec<Vector2Int> = Vec::new();
    directions.push(Vector2Int::new(1, 1));
    directions.push(Vector2Int::new(-1, 1));
    directions.push(Vector2Int::new(-1, -1));
    directions.push(Vector2Int::new(1, -1));
    directions
}

/// `r` is the square root of `n`, rounded down.
pub open spec fn is_floor_sqrt(n: int, r: int) -> bool {
    0 <= r && r * r <= n < (r + 1) * (r + 1)
}

/// The square root of `n`, rounded down, for `n` not below zero.
pub open spec fn floor_sqrt(n: int) -> int {
    choose|r: int| is_floor_sqrt(n, r)
}

/// At most one number is the rounded-down square root of `n`, so any number
/// that qualifies is `floor_sqrt(n)`.
pub proof fn lemma_floor_sqrt_unique(n: int, r: int)
    requires
        is_floor_sqrt(n, r),
    ensures
        floor_sqrt(n) == r,
{
    let s = floor_sqrt(n);
    if s < r {
        assert((s + 1) * (s + 1) <= r * r) by (nonlinear_arith)
            requires
                0 <= s < r,
        ;
    }
    if r < s {
        assert((r + 1) * (r + 1) <= s * s) by (nonlinear_arith)
            requires
                0 <= r < s,
        ;
    }
}

/// The square root of `n`, rounded down.
pub fn integer_sqrt(n: u128) -> (r: u64)
    ensures
        is_floor_sqrt(n as int, r as int),
{
    let mut low: u128 = 0;
    let mut high: u128 = 0x1_0000_0000_0000_0000;
    while high - low > 1
        invariant
            low < high <= 0x1_0000_0000_0000_0000,
            low * low <= n,
            n < high * high,
        decreases high - low,
    {
        let mid: u128 = low + (high - low) / 2;
        assert(mid * mid <= 0xFFFF_FFFF_FFFF_FFFF * 0xFFFF_FFFF_FFFF_FFFF) by (nonlinear_arith)
            requires
                0 <= mid <= 0xFFFF_FFFF_FFFF_FFFF,
        ;
        if mid * mid <= n {
            low = mid;
        } else {
            high = mid;
        }
    }
    low as u64
}

/// The number of steps of the line traced from `a` to `b`: the larger of the
/// two coordinate distances.
pub open spec fn line_steps(a: Vector2Int, b: Vector2Int) -> int {
    if magnitude(b.x - a.x) >= magnitude(b.y - a.y) {
        magnitude(b.x - a.x)
    } else {
        magnitude(b.y - a.y)
    }
}

/// How far a coordinate that changes by `delta` over `steps` steps has moved
/// after `step` of them: the exact share, rounded toward the start.
pub open spec fn line_offset(delta: int, step: int, steps: int) -> int {
    quotient_toward_zero(delta * step, steps)
}

/// The cell reached after `step` steps of the line traced from `a` to `b`.
pub open spec fn line_point(a: Vector2Int, b: Vector2Int, step: int) -> Vector2Int {
    Vector2Int {
        x: (a.x + line_offset(b.x - a.x, step, line_steps(a, b))) as i32,
        y: (a.y + line_offset(b.y - a.y, step, line_steps(a, b))) as i32,
    }
}

/// The line traced from `a` to `b`: nothing when the two are the same cell,
/// otherwise every step from `a` to `b`, both included.
pub open spec fn spec_vector_line(a: Vector2Int, b: Vector2Int) -> Seq<Vector2Int> {
    if line_steps(a, b) == 0 {
        Seq::empty()
    } else {
        Seq::new((line_steps(a, b) + 1) as nat, |step: int| line_point(a, b, step))
    }
}

/// A coordinate of the traced line never leaves the span between the two end
/// points.
pub proof fn lemma_line_offset_bounds(delta: int, step: int, steps: int)
    requires
        0 <= step <= steps,
        0 < steps,
        magnitude(delta) <= steps,
    ensures
        magnitude(line_offset(delta, step, steps)) <= magnitude(delta),
        delta >= 0 ==> line_offset(delta, step, steps) == (delta * step) / steps,
        delta < 0 ==> line_offset(delta, step, steps) == -(((-delta) * step) / steps),
        line_offset(delta, 0, steps) == 0,
        line_offset(delta, steps, steps) == delta,
{
    let m = magnitude(delta);
    assert(0 <= m * step <= m * steps) by (nonlinear_arith)
        requires
            0 <= m,
            0 <= step <= steps,
    ;
    assert((m * step) / steps <= m) by {
        vstd::arithmetic::div_mod::lemma_div_is_ordered(m * step, m * steps, steps);
        vstd::arithmetic::div_mod::lemma_div_multiples_vanish(m, steps);
        assert(m * steps == steps * m) by (nonlinear_arith);
    }
    assert((m * steps) / steps == m) by {
        vstd::arithmetic::div_mod::lemma_div_multiples_vanish(m, steps);
        assert(m * steps == steps * m) by (nonlinear_arith);
    }
    if delta < 0 {
        assert(delta * step == -(m * step)) by (nonlinear_arith)
            requires
                m == -delta,
        ;
        assert(delta * steps == -(m * steps)) by (nonlinear_arith)
            requires
                m == -delta,
        ;
    }
}

/// The cells of the line traced from `a` to `b`, in order.
pub fn vector_line(a: Vector2Int, b: Vector2Int) -> (line: Vec<Vector2Int>)
    ensures
        line@ == spec_vector_line(a, b),
{
    let dx: i64 = b.x as i64 - a.x as i64;
    let dy: i64 = b.y as i64 - a.y as i64;
    let width: u64 = if dx >= 0 {
        dx as u64
    } else {
        (-dx) as u64
    };
    let height: u64 = if dy >= 0 {
        dy as u64
    } else {
        (-dy) as u64
    };
    let steps: u64 = if width >= height {
        width
    } else {
        height
    };
    let mut line: Vec<Vector2Int> = Vec::new();
    if steps == 0 {
        return line;
    }
    let mut step: u64 = 0;
    while step <= steps
        invariant
            0 <= step <= steps + 1,
            0 < steps == line_steps(a, b),
            steps <= 0xFFFF_FFFF,
            dx == b.x - a.x,
            dy == b.y - a.y,
            width == magnitude(dx as int),
            height == magnitude(dy as int),
            width <= steps,
            height <= steps,
            line@.len() == step,
            forall|k: int| 0 <= k < step ==> line@[k] == line_point(a, b, k),
        decreases steps + 1 - step,
    {
        proof {
            lemma_line_offset_bounds(dx as int, step as int, steps as int);
            lemma_line_offset_bounds(dy as int, step as int, steps as int);
            assert(width * step <= 0xFFFF_FFFF * 0xFFFF_FFFF) by (nonlinear_arith)
                requires
                    0 <= width <= 0xFFFF_FFFF,
                    0 <= step <= 0xFFFF_FFFF,
            ;
            assert(height * step <= 0xFFFF_FFFF * 0xFFFF_FFFF) by (nonlinear_arith)
                requires
                    0 <= height <= 0xFFFF_FFFF,
                    0 <= step <= 0xFFFF_FFFF,
            ;
        }
        let across: u64 = width * step / steps;
        let along: u64 = height * step / steps;
        let x: i64 = if dx >= 0 {
            a.x as i64 + across as i64
        } else {
            a.x as i64 - across as i64
        };
        let y: i64 = if dy >= 0 {
            a.y as i64 + along as i64
        } else {
            a.y as i64 - along as i64
        };
        line.push(Vector2Int::new(x as i32, y as i32));
        step = step + 1;
    }
    line
}

} // verus!

