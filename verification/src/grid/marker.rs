use vstd::prelude::*;

verus! {

/// Whether an integer fits in an `i32`.
pub open spec fn fits_i32(x: int) -> bool {
    i32::MIN <= x <= i32::MAX
}

/// Division of `a` by `b` rounded toward zero, as Rust's `/` on signed integers does.
pub open spec fn trunc_div(a: int, b: int) -> int {
    if a >= 0 {
        a / b
    } else {
        -((-a) / b)
    }
}

/// Index of a 4px alignment location (a "marker").
#[derive(Copy, Clone, PartialEq, Eq, Structural, Debug, Default)]
pub struct RawMarker(pub i32);

impl RawMarker {
    /// Pixels per marker.
    pub const PX_PER_MARKER: i32 = 4;

    /// The marker with the opposite sign.
    pub fn neg(self) -> (r: RawMarker)
        requires
            self.0 != i32::MIN,
        ensures
            r.0 == -self.0,
    {
        RawMarker(-self.0)
    }

    /// Marker-wise sum.
    pub fn add(self, rhs: RawMarker) -> (r: RawMarker)
        requires
            fits_i32(self.0 + rhs.0),
        ensures
            r.0 == self.0 + rhs.0,
    {
        RawMarker(self.0 + rhs.0)
    }

    /// Marker-wise difference.
    pub fn sub(self, rhs: RawMarker) -> (r: RawMarker)
        requires
            fits_i32(self.0 - rhs.0),
        ensures
            r.0 == self.0 - rhs.0,
    {
        RawMarker(self.0 - rhs.0)
    }

    /// Marker-wise product.
    pub fn mul(self, rhs: RawMarker) -> (r: RawMarker)
        requires
            fits_i32(self.0 * rhs.0),
        ensures
            r.0 == self.0 * rhs.0,
    {
        RawMarker(self.0 * rhs.0)
    }

    /// Marker-wise quotient, rounded toward zero.
    pub fn div(self, rhs: RawMarker) -> (r: RawMarker)
        requires
            rhs.0 != 0,
            !(self.0 == i32::MIN && rhs.0 == -1),
        ensures
            r.0 == trunc_div(self.0 as int, rhs.0 as int),
    {
        RawMarker(trunc_div_i32(self.0, rhs.0))
    }
}

/// Rust's signed division, computed on magnitudes so that the rounding is explicit.
pub fn trunc_div_i32(a: i32, b: i32) -> (q: i32)
    requires
        b != 0,
        !(a == i32::MIN && b == -1),
    ensures
        q == trunc_div(a as int, b as int),
{
    let a64: i64 = a as i64;
    let b64: i64 = b as i64;
    let mag_a: i64 = if a64 >= 0 { a64 } else { -a64 };
    let mag_b: i64 = if b64 >= 0 { b64 } else { -b64 };
    let mag_q: i64 = mag_a / mag_b;
    proof {
        let ai: int = a as int;
        let bi: int = b as int;
        if ai >= 0 && bi < 0 {
            lemma_div_neg_divisor(ai, -bi);
        } else if ai < 0 && bi < 0 {
            lemma_div_neg_divisor(-ai, -bi);
        }
        assert(mag_q <= mag_a) by (nonlinear_arith)
            requires mag_a >= 0, mag_b >= 1, mag_q == mag_a / mag_b;
        assert(mag_q >= 0) by (nonlinear_arith)
            requires mag_a >= 0, mag_b >= 1, mag_q == mag_a / mag_b;
        if ai == i32::MIN && mag_q == mag_a {
            assert(mag_b == 1) by (nonlinear_arith)
                requires mag_a >= 2, mag_b >= 1, mag_q == mag_a / mag_b, mag_q == mag_a;
        }
        if ai >= 0 && bi > 0 {
            assert(trunc_div(ai, bi) == mag_q);
        } else if ai >= 0 {
            assert(trunc_div(ai, bi) == -mag_q);
        } else if bi > 0 {
            assert(trunc_div(ai, bi) == -mag_q);
        } else {
            assert(trunc_div(ai, bi) == mag_q);
        }
    }
    if (a64 >= 0) == (b64 > 0) {
        mag_q as i32
    } else {
        (-mag_q) as i32
    }
}

/// Euclidean division by a negative number is the negated division by its magnitude.
pub(crate) proof fn lemma_div_neg_divisor(a: int, m: int)
    requires
        a >= 0,
        m > 0,
    ensures
        a / (-m) == -(a / m),
{
    let q = a / m;
    let r = a % m;
    vstd::arithmetic::div_mod::lemma_fundamental_div_mod(a, m);
    assert(a / (-m) == -q) by (nonlinear_arith)
        requires
            a == m * q + r,
            0 <= r < m,
    ;
}

impl From<i32> for RawMarker {
    fn from(value: i32) -> (r: RawMarker) {
        RawMarker(value)
    }
}

impl vstd::std_specs::convert::FromSpecImpl<i32> for RawMarker {
    open spec fn obeys_from_spec() -> bool {
        true
    }

    open spec fn from_spec(value: i32) -> RawMarker {
        RawMarker(value)
    }
}

/// Number of markers to include in a logical group.
#[derive(Copy, Clone, PartialEq, Eq, Structural, Debug)]
pub struct RawMarkerGrouping(pub i32);

/// Marker grouping deciding the width of a column.
#[derive(Copy, Clone, PartialEq, Eq, Structural, Debug)]
pub struct ColumnConfig {
    pub base: RawMarkerGrouping,
    pub extension: RawMarkerGrouping,
}

/// Marker grouping deciding the width of a gutter.
#[derive(Copy, Clone, PartialEq, Eq, Structural, Debug)]
pub struct GutterConfig {
    pub base: RawMarkerGrouping,
}

/// Marker grouping deciding the height of a row.
#[derive(Copy, Clone, PartialEq, Eq, Structural, Debug)]
pub struct RowConfig {
    pub base: RawMarkerGrouping,
}

} // verus!
