//! Exact plane orientations.
//!
//! The reference plane is only ever reoriented by composing quarter turns
//! about the world axes, so every orientation it can rest at is a rotation
//! matrix whose entries are `-1`, `0` or `1`. Such a matrix is stored
//! exactly, as its three columns: the images of the basis vectors. Partway
//! through a turn the displayed orientation is the rest orientation
//! composed with a partial rotation about one axis; applying it needs the
//! cosine and sine of the partial angle, which enter as fixed-point scalars.

use vstd::prelude::*;

verus! {

use crate::fixed::{fx_mul, lemma_scaled_contract, lemma_scaled_one, scaled, FX_LIM, SCALE};
use vstd::arithmetic::mul::lemma_mul_unary_negation;
use crate::vec3::Vec3;

/// A world axis.
#[derive(Clone, Copy, PartialEq, Eq, Structural, Debug)]
pub enum Axis {
    X,
    Y,
    Z,
}

/// Cosine and sine of an angle, in fixed-point micro-units.
#[derive(Clone, Copy, PartialEq, Eq, Structural, Debug)]
pub struct Trig {
    pub cos: i64,
    pub sin: i64,
}

impl Trig {
    /// Both entries lie within the fixed-point one, as a true cosine and
    /// sine do.
    pub open spec fn wf(self) -> bool {
        &&& -SCALE <= self.cos <= SCALE
        &&& -SCALE <= self.sin <= SCALE
    }

    /// Trigonometric pair supplied by the caller.
    pub fn new(cos: i64, sin: i64) -> (r: Trig)
        requires
            -SCALE <= cos <= SCALE,
            -SCALE <= sin <= SCALE,
        ensures
            r == (Trig { cos, sin }),
            r.wf(),
    {
        Trig { cos, sin }
    }

    /// Exact pair for a zero angle.
    pub fn zero_angle() -> (r: Trig)
        ensures
            r == (Trig { cos: SCALE, sin: 0 }),
            r.wf(),
    {
        Trig { cos: SCALE, sin: 0 }
    }

    /// Exact pair for a quarter turn.
    pub fn quarter_angle() -> (r: Trig)
        ensures
            r == (Trig { cos: 0, sin: SCALE }),
            r.wf(),
    {
        Trig { cos: 0, sin: SCALE }
    }
}

/// One of the six signed unit axis vectors, with plain `1` entries (these
/// columns are direction cosines, not micro-unit scalars).
pub open spec fn is_unit_axis(v: Vec3) -> bool {
    ||| v == (Vec3 { x: 1, y: 0, z: 0 })
    ||| v == (Vec3 { x: -1i64, y: 0, z: 0 })
    ||| v == (Vec3 { x: 0, y: 1, z: 0 })
    ||| v == (Vec3 { x: 0, y: -1i64, z: 0 })
    ||| v == (Vec3 { x: 0, y: 0, z: 1 })
    ||| v == (Vec3 { x: 0, y: 0, z: -1i64 })
}

/// Negation of a column vector.
pub open spec fn neg3(v: Vec3) -> Vec3 {
    Vec3 { x: (-v.x) as i64, y: (-v.y) as i64, z: (-v.z) as i64 }
}

/// A rotation that maps each basis vector onto a signed basis vector,
/// stored by columns.
#[derive(Clone, Copy, PartialEq, Eq, Structural, Debug)]
pub struct Orientation {
    pub x_axis: Vec3,
    pub y_axis: Vec3,
    pub z_axis: Vec3,
}

/// Determinant of the matrix with columns `a`, `b`, `c`.
pub open spec fn det_cols(a: Vec3, b: Vec3, c: Vec3) -> int {
    a.x * (b.y * c.z - c.y * b.z) - b.x * (a.y * c.z - c.y * a.z) + c.x * (a.y * b.z - b.y * a.z)
}

/// Determinant of the column matrix.
pub open spec fn det3(o: Orientation) -> int {
    det_cols(o.x_axis, o.y_axis, o.z_axis)
}

/// Each component of a signed unit axis vector lies in `{-1, 0, 1}`.
pub proof fn lemma_unit_axis_entries(v: Vec3)
    requires
        is_unit_axis(v),
    ensures
        -1 <= v.x <= 1,
        -1 <= v.y <= 1,
        -1 <= v.z <= 1,
{
}

/// A product with a factor of magnitude at most one cannot grow the other
/// factor.
pub proof fn lemma_entry_mul_bound(e: int, v: int, lim: int)
    requires
        -1 <= e <= 1,
        -lim <= v <= lim,
        0 <= lim,
    ensures
        -lim <= e * v <= lim,
{
    assert(-lim <= e * v <= lim) by (nonlinear_arith)
        requires
            -1 <= e <= 1,
            -lim <= v <= lim,
            0 <= lim,
    ;
}

/// Composing a quarter turn permutes and negates columns; the determinant
/// is unchanged.
pub proof fn lemma_det3_rotated_90(o: Orientation, axis: Axis)
    requires
        is_unit_axis(o.x_axis),
        is_unit_axis(o.y_axis),
        is_unit_axis(o.z_axis),
    ensures
        det3(o.rotated_90_spec(axis)) == det3(o),
{
    lemma_unit_axis_entries(o.x_axis);
    lemma_unit_axis_entries(o.y_axis);
    lemma_unit_axis_entries(o.z_axis);
    let a = o.x_axis;
    let b = o.y_axis;
    let c = o.z_axis;
    match axis {
        Axis::X => {
            let nb = neg3(b);
            assert(nb.x == -b.x && nb.y == -b.y && nb.z == -b.z);
            assert(det_cols(a, c, nb) == det_cols(a, b, c)) by (nonlinear_arith)
                requires
                    nb.x == -b.x && nb.y == -b.y && nb.z == -b.z,
            ;
        },
        Axis::Y => {
            let nc = neg3(c);
            assert(nc.x == -c.x && nc.y == -c.y && nc.z == -c.z);
            assert(det_cols(nc, b, a) == det_cols(a, b, c)) by (nonlinear_arith)
                requires
                    nc.x == -c.x && nc.y == -c.y && nc.z == -c.z,
            ;
        },
        Axis::Z => {
            let na = neg3(a);
            assert(na.x == -a.x && na.y == -a.y && na.z == -a.z);
            assert(det_cols(b, na, c) == det_cols(a, b, c)) by (nonlinear_arith)
                requires
                    na.x == -a.x && na.y == -a.y && na.z == -a.z,
            ;
        },
    }
}

/// Image of the integer point `(vx, vy, vz)` under the column matrix.
pub open spec fn apply3(o: Orientation, vx: int, vy: int, vz: int) -> (int, int, int) {
    (
        o.x_axis.x * vx + o.y_axis.x * vy + o.z_axis.x * vz,
        o.x_axis.y * vx + o.y_axis.y * vy + o.z_axis.y * vz,
        o.x_axis.z * vx + o.y_axis.z * vy + o.z_axis.z * vz,
    )
}

impl Orientation {
    /// Columns are signed basis vectors and the matrix is a proper
    /// rotation (determinant one, which also rules out two columns on the
    /// same axis).
    pub open spec fn wf(self) -> bool {
        &&& is_unit_axis(self.x_axis)
        &&& is_unit_axis(self.y_axis)
        &&& is_unit_axis(self.z_axis)
        &&& det3(self) == 1
    }

    /// The identity orientation.
    pub fn identity() -> (r: Orientation)
        ensures
            r == Orientation::identity_spec(),
            r.wf(),
    {
        Orientation {
            x_axis: Vec3 { x: 1, y: 0, z: 0 },
            y_axis: Vec3 { x: 0, y: 1, z: 0 },
            z_axis: Vec3 { x: 0, y: 0, z: 1 },
        }
    }

    /// The identity orientation.
    pub open spec fn identity_spec() -> Orientation {
        Orientation {
            x_axis: Vec3 { x: 1, y: 0, z: 0 },
            y_axis: Vec3 { x: 0, y: 1, z: 0 },
            z_axis: Vec3 { x: 0, y: 0, z: 1 },
        }
    }

    /// This orientation followed (in its own frame) by a quarter turn
    /// about `axis`: the columns are permuted and negated exactly as by
    /// right-multiplication with the quarter-turn matrix.
    pub open spec fn rotated_90_spec(self, axis: Axis) -> Orientation {
        match axis {
            Axis::X => Orientation {
                x_axis: self.x_axis,
                y_axis: self.z_axis,
                z_axis: neg3(self.y_axis),
            },
            Axis::Y => Orientation {
                x_axis: neg3(self.z_axis),
                y_axis: self.y_axis,
                z_axis: self.x_axis,
            },
            Axis::Z => Orientation {
                x_axis: self.y_axis,
                y_axis: neg3(self.x_axis),
                z_axis: self.z_axis,
            },
        }
    }

    /// Compose a quarter turn about a world axis onto this orientation.
    pub fn rotated_90(self, axis: Axis) -> (r: Orientation)
        requires
            self.wf(),
        ensures
            r == self.rotated_90_spec(axis),
            r.wf(),
    {
        proof {
            lemma_unit_axis_entries(self.x_axis);
            lemma_unit_axis_entries(self.y_axis);
            lemma_unit_axis_entries(self.z_axis);
            lemma_det3_rotated_90(self, axis);
        }
        match axis {
            Axis::X => Orientation { x_axis: self.x_axis, y_axis: self.z_axis, z_axis: self.y_axis.neg() },
            Axis::Y => Orientation { x_axis: self.z_axis.neg(), y_axis: self.y_axis, z_axis: self.x_axis },
            Axis::Z => Orientation { x_axis: self.y_axis, y_axis: self.x_axis.neg(), z_axis: self.z_axis },
        }
    }

    /// Rotate a fixed-point vector by this orientation.
    pub fn apply(self, v: Vec3) -> (r: Vec3)
        requires
            self.wf(),
            v.in_range(3_000_000_000_000_000_000),
        ensures
            (r.x as int, r.y as int, r.z as int) == apply3(self, v.x as int, v.y as int, v.z as int),
    {
        proof {
            lemma_apply3_products(self, v.x as int, v.y as int, v.z as int, 3_000_000_000_000_000_000int);
        }
        Vec3 {
            x: self.x_axis.x * v.x + self.y_axis.x * v.y + self.z_axis.x * v.z,
            y: self.x_axis.y * v.x + self.y_axis.y * v.y + self.z_axis.y * v.z,
            z: self.x_axis.z * v.x + self.y_axis.z * v.y + self.z_axis.z * v.z,
        }
    }
}

/// Image of the integer point `(vx, vy, vz)` under the partial rotation
/// about `axis` whose cosine and sine are `c` and `s`.
pub open spec fn turn3(axis: Axis, c: int, s: int, vx: int, vy: int, vz: int) -> (int, int, int) {
    match axis {
        Axis::X => (vx, scaled(c, vy) - scaled(s, vz), scaled(s, vy) + scaled(c, vz)),
        Axis::Y => (scaled(c, vx) + scaled(s, vz), vy, scaled(c, vz) - scaled(s, vx)),
        Axis::Z => (scaled(c, vx) - scaled(s, vy), scaled(s, vx) + scaled(c, vy), vz),
    }
}

/// Rotate a fixed-point vector by a partial turn about a world axis.
pub fn turn(axis: Axis, t: Trig, v: Vec3) -> (r: Vec3)
    requires
        t.wf(),
        v.in_range(FX_LIM as int),
    ensures
        (r.x as int, r.y as int, r.z as int) == turn3(
            axis,
            t.cos as int,
            t.sin as int,
            v.x as int,
            v.y as int,
            v.z as int,
        ),
        r.in_range(2 * FX_LIM),
{
    proof {
        lemma_scaled_contract(t.cos as int, v.x as int, FX_LIM as int);
        lemma_scaled_contract(t.cos as int, v.y as int, FX_LIM as int);
        lemma_scaled_contract(t.cos as int, v.z as int, FX_LIM as int);
        lemma_scaled_contract(t.sin as int, v.x as int, FX_LIM as int);
        lemma_scaled_contract(t.sin as int, v.y as int, FX_LIM as int);
        lemma_scaled_contract(t.sin as int, v.z as int, FX_LIM as int);
    }
    match axis {
        Axis::X => Vec3 {
            x: v.x,
            y: fx_mul(t.cos, v.y) - fx_mul(t.sin, v.z),
            z: fx_mul(t.sin, v.y) + fx_mul(t.cos, v.z),
        },
        Axis::Y => Vec3 {
            x: fx_mul(t.cos, v.x) + fx_mul(t.sin, v.z),
            y: v.y,
            z: fx_mul(t.cos, v.z) - fx_mul(t.sin, v.x),
        },
        Axis::Z => Vec3 {
            x: fx_mul(t.cos, v.x) - fx_mul(t.sin, v.y),
            y: fx_mul(t.sin, v.x) + fx_mul(t.cos, v.y),
            z: v.z,
        },
    }
}

/// A partial turn by a bounded trigonometric pair at most doubles the
/// magnitude of each component.
pub proof fn lemma_turn3_in_range(axis: Axis, c: int, s: int, vx: int, vy: int, vz: int, lim: int)
    requires
        -SCALE <= c <= SCALE,
        -SCALE <= s <= SCALE,
        -lim <= vx <= lim,
        -lim <= vy <= lim,
        -lim <= vz <= lim,
        0 <= lim,
    ensures
        -2 * lim <= turn3(axis, c, s, vx, vy, vz).0 <= 2 * lim,
        -2 * lim <= turn3(axis, c, s, vx, vy, vz).1 <= 2 * lim,
        -2 * lim <= turn3(axis, c, s, vx, vy, vz).2 <= 2 * lim,
{
    lemma_scaled_contract(c, vx, lim);
    lemma_scaled_contract(c, vy, lim);
    lemma_scaled_contract(c, vz, lim);
    lemma_scaled_contract(s, vx, lim);
    lemma_scaled_contract(s, vy, lim);
    lemma_scaled_contract(s, vz, lim);
}

/// Each of the nine products in an orientation application is bounded by
/// the magnitude of its vector factor.
proof fn lemma_apply3_products(o: Orientation, vx: int, vy: int, vz: int, lim: int)
    requires
        is_unit_axis(o.x_axis),
        is_unit_axis(o.y_axis),
        is_unit_axis(o.z_axis),
        -lim <= vx <= lim,
        -lim <= vy <= lim,
        -lim <= vz <= lim,
        0 <= lim,
    ensures
        -lim <= o.x_axis.x * vx <= lim && -lim <= o.x_axis.y * vx <= lim && -lim <= o.x_axis.z
            * vx <= lim,
        -lim <= o.y_axis.x * vy <= lim && -lim <= o.y_axis.y * vy <= lim && -lim <= o.y_axis.z
            * vy <= lim,
        -lim <= o.z_axis.x * vz <= lim && -lim <= o.z_axis.y * vz <= lim && -lim <= o.z_axis.z
            * vz <= lim,
{
    lemma_unit_axis_entries(o.x_axis);
    lemma_unit_axis_entries(o.y_axis);
    lemma_unit_axis_entries(o.z_axis);
    lemma_entry_mul_bound(o.x_axis.x as int, vx, lim);
    lemma_entry_mul_bound(o.x_axis.y as int, vx, lim);
    lemma_entry_mul_bound(o.x_axis.z as int, vx, lim);
    lemma_entry_mul_bound(o.y_axis.x as int, vy, lim);
    lemma_entry_mul_bound(o.y_axis.y as int, vy, lim);
    lemma_entry_mul_bound(o.y_axis.z as int, vy, lim);
    lemma_entry_mul_bound(o.z_axis.x as int, vz, lim);
    lemma_entry_mul_bound(o.z_axis.y as int, vz, lim);
    lemma_entry_mul_bound(o.z_axis.z as int, vz, lim);
}

/// An orientation applied to a point within `lim` lands within `3 * lim`.
pub proof fn lemma_apply3_in_range(o: Orientation, vx: int, vy: int, vz: int, lim: int)
    requires
        o.wf(),
        -lim <= vx <= lim,
        -lim <= vy <= lim,
        -lim <= vz <= lim,
        0 <= lim,
    ensures
        -3 * lim <= apply3(o, vx, vy, vz).0 <= 3 * lim,
        -3 * lim <= apply3(o, vx, vy, vz).1 <= 3 * lim,
        -3 * lim <= apply3(o, vx, vy, vz).2 <= 3 * lim,
{
    lemma_apply3_products(o, vx, vy, vz, lim);
}

/// A zero angle turns nothing.
pub proof fn lemma_turn3_zero_angle(axis: Axis, vx: int, vy: int, vz: int)
    ensures
        turn3(axis, SCALE as int, 0, vx, vy, vz) == (vx, vy, vz),
{
    lemma_scaled_one(vx);
    lemma_scaled_one(vy);
    lemma_scaled_one(vz);
    assert(scaled(0, vx) == 0);
    assert(scaled(0, vy) == 0);
    assert(scaled(0, vz) == 0);
}

/// A full quarter turn about `axis` moves a vector exactly where the
/// composed quarter-turn orientation moves it: turning first and then
/// applying the rest orientation equals applying the composed one.
pub proof fn lemma_turn3_quarter_angle(o: Orientation, axis: Axis, vx: int, vy: int, vz: int)
    requires
        o.wf(),
    ensures
        ({
            let (tx, ty, tz) = turn3(axis, 0, SCALE as int, vx, vy, vz);
            apply3(o, tx, ty, tz) == apply3(o.rotated_90_spec(axis), vx, vy, vz)
        }),
{
    lemma_unit_axis_entries(o.x_axis);
    lemma_unit_axis_entries(o.y_axis);
    lemma_unit_axis_entries(o.z_axis);
    lemma_scaled_one(vx);
    lemma_scaled_one(vy);
    lemma_scaled_one(vz);
    assert(scaled(0, vx) == 0);
    assert(scaled(0, vy) == 0);
    assert(scaled(0, vz) == 0);
    match axis {
        Axis::X => {
            lemma_mul_unary_negation(o.y_axis.x as int, vz);
            lemma_mul_unary_negation(o.y_axis.y as int, vz);
            lemma_mul_unary_negation(o.y_axis.z as int, vz);
        },
        Axis::Y => {
            lemma_mul_unary_negation(o.z_axis.x as int, vx);
            lemma_mul_unary_negation(o.z_axis.y as int, vx);
            lemma_mul_unary_negation(o.z_axis.z as int, vx);
        },
        Axis::Z => {
            lemma_mul_unary_negation(o.x_axis.x as int, vy);
            lemma_mul_unary_negation(o.x_axis.y as int, vy);
            lemma_mul_unary_negation(o.x_axis.z as int, vy);
        },
    }
}

} // verus!
