//! Fixed-point lengths and the arithmetic that resolves them against a
//! container extent.
//!
//! A raw value counts thousandths: `1000` is one pixel in a pixel quantity and
//! one percent in a percentage. Quotients are rounded towards negative
//! infinity, and a result that leaves the range of `i64` is held at the nearest
//! end of that range.

use vstd::prelude::*;

verus! {

/// The raw value of one pixel, or of one percent.
pub const UNIT: i64 = 1000;

/// The raw value of one hundred percent.
pub const FULL: i64 = 100_000;

/// A length along the split axis: absolute, or relative to the container.
#[derive(Clone, Copy, Debug, PartialEq, Eq, Structural)]
pub enum Length {
    /// Raw pixels.
    Px(i64),
    /// Raw percent of the container's extent.
    Pct(i64),
}

/// The size given to a pane: a length, or left to the layout.
#[derive(Clone, Copy, Debug, PartialEq, Eq, Structural)]
pub enum PaneLength {
    /// Raw pixels.
    Px(i64),
    /// Raw percent of the container's extent.
    Pct(i64),
    /// Whatever the layout assigns.
    Auto,
}

/// `x` held within the range of `i64`.
pub open spec fn saturate(x: int) -> int {
    if x < i64::MIN {
        i64::MIN as int
    } else if x > i64::MAX {
        i64::MAX as int
    } else {
        x
    }
}

/// The quotient of `a` by `b`, rounded towards negative infinity (`b != 0`).
pub open spec fn floor_div(a: int, b: int) -> int {
    if b > 0 {
        a / b
    } else {
        (-a) / (-b)
    }
}

/// The magnitude of `x`.
pub open spec fn magnitude(x: int) -> int {
    if x < 0 {
        -x
    } else {
        x
    }
}

/// `pct` raw percent of `extent`, before saturation.
pub open spec fn percent_of(extent: int, pct: int) -> int {
    extent * pct / (FULL as int)
}

/// `px` as a raw percentage of `extent`, before saturation (`extent != 0`).
pub open spec fn share_of(px: int, extent: int) -> int {
    floor_div(px * FULL, extent)
}

/// The raw percentage left beside a pane of `px` raw pixels in a container of
/// `extent` (`extent != 0`): one hundred percent less the magnitude of the
/// pane's share.
pub open spec fn complement_of(px: int, extent: int) -> int {
    saturate(FULL - magnitude(share_of(px, extent)))
}

proof fn lemma_ceiling_within(m: int, d: int)
    by (nonlinear_arith)
    requires
        m > 0,
        d > 0,
    ensures
        (m + d - 1) / d <= m,
{
}

proof fn lemma_floor_of_negative(m: int, d: int)
    by (nonlinear_arith)
    requires
        m > 0,
        d > 0,
    ensures
        (-m) / d == -((m + d - 1) / d),
{
}

proof fn lemma_quotient_within(n: int, d: int)
    by (nonlinear_arith)
    requires
        n >= 0,
        d > 0,
    ensures
        0 <= n / d <= n,
{
}

proof fn lemma_product_within(a: int, b: int)
    by (nonlinear_arith)
    requires
        -0x8000_0000_0000_0000 <= a <= 0x8000_0000_0000_0000,
        -0x8000_0000_0000_0000 <= b <= 0x8000_0000_0000_0000,
    ensures
        -0x4000_0000_0000_0000_0000_0000_0000_0000 <= a * b
            <= 0x4000_0000_0000_0000_0000_0000_0000_0000,
{
}

/// Holds `x` within the range of `i64`.
fn saturate_to_i64(x: i128) -> (r: i64)
    ensures
        r == saturate(x as int),
{
    if x < i64::MIN as i128 {
        i64::MIN
    } else if x > i64::MAX as i128 {
        i64::MAX
    } else {
        x as i64
    }
}

/// Divides `a` by `b`, rounding towards negative infinity.
fn floor_div_i128(a: i128, b: i64) -> (q: i128)
    requires
        b != 0,
        -0x4000_0000_0000_0000_0000_0000_0000_0000 <= a
            <= 0x4000_0000_0000_0000_0000_0000_0000_0000,
    ensures
        q == floor_div(a as int, b as int),
        magnitude(q as int) <= magnitude(a as int),
{
    let wide: i128 = b as i128;
    let (n, d): (i128, i128) = if wide > 0 {
        (a, wide)
    } else {
        (-a, -wide)
    };
    if n >= 0 {
        proof {
            lemma_quotient_within(n as int, d as int);
        }
        n / d
    } else {
        let m: i128 = -n;
        proof {
            lemma_floor_of_negative(m as int, d as int);
            lemma_quotient_within(m + d - 1, d as int);
            lemma_ceiling_within(m as int, d as int);
        }
        -((m + (d - 1)) / d)
    }
}

/// A percentage between nothing and everything resolves to that share of a
/// non-negative extent, with no saturation, and stays within the extent.
pub proof fn lemma_percent_within_extent(extent: int, pct: int)
    by (nonlinear_arith)
    requires
        extent >= 0,
        0 <= pct <= FULL,
    ensures
        0 <= percent_of(extent, pct) <= extent,
{
}

/// A position inside a positive extent is between nothing and everything of
/// it, with no saturation.
pub proof fn lemma_share_within_full(px: int, extent: int)
    by (nonlinear_arith)
    requires
        extent > 0,
        0 <= px <= extent,
    ensures
        0 <= share_of(px, extent) <= FULL,
{
}

/// A position at exactly `pct` raw percent of a positive extent has the share
/// `pct`: nothing is lost to rounding.
pub proof fn lemma_share_exact(px: int, extent: int, pct: int)
    by (nonlinear_arith)
    requires
        extent > 0,
        px * FULL == pct * extent,
    ensures
        share_of(px, extent) == pct,
{
}

/// `px` times one hundred percent.
fn scale_up(px: i64) -> (r: i128)
    ensures
        r == px * FULL,
        -0x4000_0000_0000_0000_0000_0000_0000_0000 <= r
            <= 0x4000_0000_0000_0000_0000_0000_0000_0000,
{
    assert(FULL == 100_000);
    px as i128 * 100_000
}

impl Length {
    /// The raw pixels that this length comes to in a container of `extent`
    /// raw pixels: a pixel length is itself, a percentage is that share of
    /// the extent.
    pub open spec fn resolved(self, extent: int) -> int {
        match self {
            Length::Px(x) => x as int,
            Length::Pct(p) => saturate(percent_of(extent, p as int)),
        }
    }

    /// A length of `whole` pixels.
    pub fn px(whole: i32) -> (r: Length)
        ensures
            r matches Length::Px(x) && x == whole * UNIT,
    {
        Length::Px(whole as i64 * UNIT)
    }

    /// A length of `whole` percent.
    pub fn pct(whole: i32) -> (r: Length)
        ensures
            r matches Length::Pct(p) && p == whole * UNIT,
    {
        Length::Pct(whole as i64 * UNIT)
    }

    /// Resolves the length against a container of `extent` raw pixels.
    ///
    /// A pixel length resolves to itself whatever the extent. A percentage
    /// from nothing to everything of a non-negative extent resolves to that
    /// share of the extent, rounded down, and so to no more than the extent.
    pub fn resolve(self, extent: i64) -> (r: i64)
        ensures
            r == self.resolved(extent as int),
            self matches Length::Px(x) ==> r == x,
            self matches Length::Pct(p) ==> (extent >= 0 && 0 <= p <= FULL ==> r == extent * p
                / (FULL as int) && 0 <= r <= extent),
    {
        match self {
            Length::Px(x) => x,
            Length::Pct(p) => {
                proof {
                    lemma_product_within(extent as int, p as int);
                    if extent >= 0 && 0 <= p <= FULL {
                        lemma_percent_within_extent(extent as int, p as int);
                    }
                }
                let product: i128 = extent as i128 * p as i128;
                saturate_to_i64(floor_div_i128(product, FULL))
            },
        }
    }

    /// The same length as a pane size.
    pub fn to_pane_length(self) -> (r: PaneLength)
        ensures
            r == match self {
                Length::Px(x) => PaneLength::Px(x),
                Length::Pct(p) => PaneLength::Pct(p),
            },
    {
        match self {
            Length::Px(x) => PaneLength::Px(x),
            Length::Pct(p) => PaneLength::Pct(p),
        }
    }
}

/// The raw percentage that `px` raw pixels are of `extent`, held within
/// `i64`. Nothing has a share of an extent of zero.
pub fn share(px: i64, extent: i64) -> (r: Option<i64>)
    ensures
        extent == 0 ==> r.is_none(),
        extent != 0 ==> r == Some(saturate(share_of(px as int, extent as int)) as i64),
{
    if extent == 0 {
        None
    } else {
        let scaled: i128 = scale_up(px);
        Some(saturate_to_i64(floor_div_i128(scaled, extent)))
    }
}

/// The raw percentage left beside a pane of `px` raw pixels in a container
/// of `extent`. An extent of zero leaves no share to speak of.
pub fn complement(px: i64, extent: i64) -> (r: Option<i64>)
    ensures
        extent == 0 ==> r.is_none(),
        extent != 0 ==> r == Some(complement_of(px as int, extent as int) as i64),
{
    if extent == 0 {
        None
    } else {
        let scaled: i128 = scale_up(px);
        let q: i128 = floor_div_i128(scaled, extent);
        let m: i128 = if q < 0 {
            -q
        } else {
            q
        };
        Some(saturate_to_i64(FULL as i128 - m))
    }
}

} // verus!
