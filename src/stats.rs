use vstd::prelude::*;

verus! {

/// Why a significance test cannot be computed on the given counts.
#[derive(Clone, Copy, Debug, PartialEq, Eq, Structural)]
pub enum InvalidInput {
    /// One of the arms has no conversions.
    ZeroConversions,
    /// One of the arms has fewer views than conversions.
    ViewsBelowConversions,
}

impl InvalidInput {
    /// A human-readable description of the error.
    pub fn message(&self) -> (r: &'static str)
        ensures
            *self == InvalidInput::ZeroConversions ==> r@ == "conversions must be greater than 0"@,
            *self == InvalidInput::ViewsBelowConversions
                ==> r@ == "views must be greater than or equal to conversions"@,
    {
        proof {
            reveal_strlit("conversions must be greater than 0");
            reveal_strlit("views must be greater than or equal to conversions");
        }
        match self {
            InvalidInput::ZeroConversions => "conversions must be greater than 0",
            InvalidInput::ViewsBelowConversions => "views must be greater than or equal to conversions",
        }
    }
}

/// Pearson's chi-squared statistic of a 2x2 table, held exactly.
///
/// With `a`, `b` the non-conversions and `c`, `d` the conversions of the
/// control and the variation, the statistic is
/// `total * cross^2 / (control_views * variation_views * non_conversions * conversions)`,
/// where `cross = |a*d - b*c|`. It is NaN (0/0) when a margin is zero.
#[derive(Clone, Copy, Debug, PartialEq, Eq, Structural)]
pub struct ChiSquared {
    /// Views of both arms together.
    pub total: u64,
    /// The absolute value of the table's cross difference `a*d - b*c`.
    pub cross: u64,
    /// Row margin of the control.
    pub control_views: u64,
    /// Row margin of the variation.
    pub variation_views: u64,
    /// Column margin of the views that did not convert.
    pub non_conversions: u64,
    /// Column margin of the conversions.
    pub conversions: u64,
}

pub open spec fn abs(x: int) -> int {
    if x < 0 {
        -x
    } else {
        x
    }
}

impl ChiSquared {
    /// The statistic's numerator.
    pub open spec fn numerator(self) -> int {
        self.total * (self.cross * self.cross)
    }

    /// The statistic's denominator: the product of the four margins.
    pub open spec fn denominator(self) -> int {
        self.control_views * self.variation_views * self.non_conversions * self.conversions
    }

    /// The statistic is NaN exactly when its denominator is zero.
    pub open spec fn is_degenerate(self) -> bool {
        self.denominator() == 0
    }

    /// Whether the statistic, and with it the p-value, is NaN.
    pub fn is_nan(&self) -> (r: bool)
        ensures
            r == self.is_degenerate(),
    {
        proof {
            lemma_product_zero(
                self.control_views as int,
                self.variation_views as int,
                self.non_conversions as int,
                self.conversions as int,
            );
        }
        self.control_views == 0 || self.variation_views == 0 || self.non_conversions == 0
            || self.conversions == 0
    }
}

pub(crate) proof fn lemma_product_zero(p: int, q: int, r: int, s: int)
    requires
        p >= 0,
        q >= 0,
        r >= 0,
        s >= 0,
    ensures
        (p * q * r * s == 0) <==> (p == 0 || q == 0 || r == 0 || s == 0),
{
    assert((p * q * r * s == 0) <==> (p == 0 || q == 0 || r == 0 || s == 0)) by (nonlinear_arith)
        requires
            p >= 0,
            q >= 0,
            r >= 0,
            s >= 0,
    ;
}

/// The statistic of the table with control `(cc, cv)` and variation `(vc, vv)`,
/// as (conversions, views), for valid counts.
pub open spec fn table_statistic(cc: int, cv: int, vc: int, vv: int) -> ChiSquared {
    ChiSquared {
        total: (cv + vv) as u64,
        cross: abs((cv - cc) * vc - (vv - vc) * cc) as u64,
        control_views: cv as u64,
        variation_views: vv as u64,
        non_conversions: ((cv - cc) + (vv - vc)) as u64,
        conversions: (cc + vc) as u64,
    }
}

/// What the test of equal proportions gives on the four counts.
pub open spec fn prop_test_spec(cc: u32, cv: u32, vc: u32, vv: u32) -> Result<ChiSquared, InvalidInput> {
    if cc == 0 || vc == 0 {
        Err(InvalidInput::ZeroConversions)
    } else if cv < cc || vv < vc {
        Err(InvalidInput::ViewsBelowConversions)
    } else {
        Ok(table_statistic(cc as int, cv as int, vc as int, vv as int))
    }
}

/// The test of equal proportions on control `(control_conversions, control_views)`
/// and variation `(variation_conversions, variation_views)`: Pearson's
/// chi-squared statistic of their 2x2 table.
pub fn prop_test(
    control_conversions: u32,
    control_views: u32,
    variation_conversions: u32,
    variation_views: u32,
) -> (r: Result<ChiSquared, InvalidInput>)
    ensures
        r == prop_test_spec(control_conversions, control_views, variation_conversions, variation_views),
{
    if control_conversions == 0 || variation_conversions == 0 {
        return Err(InvalidInput::ZeroConversions);
    }
    if control_views < control_conversions || variation_views < variation_conversions {
        return Err(InvalidInput::ViewsBelowConversions);
    }
    let cv = control_views as u64;
    let vv = variation_views as u64;
    let cc = control_conversions as u64;
    let vc = variation_conversions as u64;
    // a*d - b*c == cv*vc - vv*cc for a = cv - cc, b = vv - vc, c = cc, d = vc
    proof {
        assert((cv - cc) * vc - (vv - vc) * cc == cv * vc - vv * cc) by (nonlinear_arith);
        assert(cv * vc <= u32::MAX as int * u32::MAX as int) by (nonlinear_arith)
            requires cv <= u32::MAX, vc <= u32::MAX;
        assert(vv * cc <= u32::MAX as int * u32::MAX as int) by (nonlinear_arith)
            requires vv <= u32::MAX, cc <= u32::MAX;
    }
    let left = cv * vc;
    let right = vv * cc;
    let cross = if left >= right {
        left - right
    } else {
        right - left
    };
    Ok(ChiSquared {
        total: cv + vv,
        cross,
        control_views: cv,
        variation_views: vv,
        non_conversions: (cv - cc) + (vv - vc),
        conversions: cc + vc,
    })
}

/// In the 2x2 table with non-conversions `a`, `b` and conversions `c`, `d`,
/// each cell's observed count, scaled by the total `n`, differs from its
/// scaled expected count `row * column` by `a*d - b*c` up to sign, and the
/// margins multiply to `n * n`. So Pearson's sum of
/// `(observed - expected)^2 / expected` over the four cells is
/// `n * (a*d - b*c)^2 / (r1 * r2 * c1 * c2)`, the ratio that `ChiSquared` holds.
pub proof fn lemma_cell_deviations(a: int, b: int, c: int, d: int)
    ensures
        ({
            let n = a + b + c + d;
            let k = a * d - b * c;
            &&& n * a - (a + c) * (a + b) == k
            &&& n * b - (b + d) * (a + b) == -k
            &&& n * c - (a + c) * (c + d) == -k
            &&& n * d - (b + d) * (c + d) == k
            &&& ((a + c) + (b + d)) * ((a + b) + (c + d)) == n * n
        }),
{
    let n = a + b + c + d;
    let k = a * d - b * c;
    assert(n * a - (a + c) * (a + b) == k) by (nonlinear_arith)
        requires n == a + b + c + d, k == a * d - b * c;
    assert(n * b - (b + d) * (a + b) == -k) by (nonlinear_arith)
        requires n == a + b + c + d, k == a * d - b * c;
    assert(n * c - (a + c) * (c + d) == -k) by (nonlinear_arith)
        requires n == a + b + c + d, k == a * d - b * c;
    assert(n * d - (b + d) * (c + d) == k) by (nonlinear_arith)
        requires n == a + b + c + d, k == a * d - b * c;
}

/// The test is a pure function of its four counts: two runs on the same
/// counts give the same result.
pub proof fn lemma_prop_test_pure(
    cc: u32,
    cv: u32,
    vc: u32,
    vv: u32,
    first: Result<ChiSquared, InvalidInput>,
    second: Result<ChiSquared, InvalidInput>,
)
    requires
        first == prop_test_spec(cc, cv, vc, vv),
        second == prop_test_spec(cc, cv, vc, vv),
    ensures
        first == second,
{
}

/// On valid counts the statistic is a non-negative ratio: it is NaN exactly
/// when no view went without a conversion, and otherwise its denominator is
/// positive.
pub proof fn lemma_statistic_nonnegative(cc: u32, cv: u32, vc: u32, vv: u32)
    requires
        prop_test_spec(cc, cv, vc, vv) is Ok,
    ensures
        prop_test_spec(cc, cv, vc, vv) matches Ok(s) && {
            &&& s.numerator() >= 0
            &&& s.denominator() >= 0
            &&& s.is_degenerate() <==> cv == cc && vv == vc
            &&& !s.is_degenerate() ==> s.denominator() > 0
        },
{
    let s = table_statistic(cc as int, cv as int, vc as int, vv as int);
    assert(s.numerator() >= 0) by (nonlinear_arith)
        requires s.total >= 0, s.cross >= 0;
    lemma_product_zero(
        s.control_views as int,
        s.variation_views as int,
        s.non_conversions as int,
        s.conversions as int,
    );
    assert(s.denominator() >= 0) by (nonlinear_arith)
        requires s.control_views >= 0, s.variation_views >= 0, s.non_conversions >= 0, s.conversions >= 0;
}

} // verus!
