//! Batch Bessel requests: validation, the closed forms at the origin, and
//! assembly of raw kernel output.
//!
//! A request asks for `n` consecutive orders `nu, nu+1, ..., nu+n-1` of one
//! function family at one complex argument, either unscaled or multiplied
//! by the family's decaying exponential factor. The evaluation itself is
//! floating-point work done outside this crate; `prepare_bessel` decides
//! whether a kernel run is needed at all and refuses malformed requests,
//! and `assemble_bessel` turns the kernel's raw coordinate arrays into a
//! result, failing on values outside the representable range and counting
//! the entries that underflowed to zero.

use vstd::prelude::*;

use crate::error::BesselError;
use crate::ieee::Complex;
use crate::ieee::Real;
use crate::ieee::ONE_BITS;
use crate::ieee::ZERO_BITS;
use crate::ieee::complex_is_finite;
use crate::ieee::complex_is_zero;
use crate::ieee::is_finite_bits;
use crate::ieee::is_negative_bits;
use crate::ieee::is_zero_bits;

verus! {

/// The four Bessel function families the engine evaluates.
#[derive(Clone, Copy, PartialEq, Eq, Structural, Debug)]
pub enum Family {
    J,
    Y,
    I,
    K,
}

/// The largest accepted batch size: the underflow count is reported as an
/// `i32`, so a batch never holds more entries than an `i32` can count.
pub const MAX_BATCH: usize = 0x7fff_ffff;

/// An ordered batch of function values, one per consecutive order starting
/// at the requested one, plus the number of entries that underflowed.
#[derive(Debug, Clone)]
pub struct BesselResult {
    /// Calculated function values; index `i` holds the order `nu + i`.
    pub values: Vec<Complex>,
    /// Number of entries that were rounded to exact zero even though the
    /// mathematical value is nonzero.
    pub underflow_count: i32,
}

/// What the caller must do to answer a request.
#[derive(Debug)]
pub enum BesselPlan {
    /// The request is answered in closed form; no kernel run is needed.
    Done(BesselResult),
    /// Evaluate orders `nu + i` for `i < n` with the kernel, multiply each
    /// value by the family's scale factor if `scaled`, then assemble.
    Evaluate { scaled: bool, n: usize },
}

/// A requested count is at least one and small enough to bookkeep.
pub open spec fn count_ok(n: usize) -> bool {
    1 <= n <= MAX_BATCH
}

/// The argument must be finite in both coordinates.
pub open spec fn argument_ok(z: Complex) -> bool {
    complex_is_finite(z)
}

/// The starting order must be finite and not negative. A negative order is
/// refused outright rather than folded back with the reflection formula;
/// callers that want the reflected value apply the identity themselves.
pub open spec fn order_ok(nu: Real) -> bool {
    is_finite_bits(nu.bits) && !is_negative_bits(nu.bits)
}

/// The scaling selector: 1 leaves values exact, 2 applies the family's
/// exponential scale factor.
pub open spec fn scaling_ok(kode: i32) -> bool {
    kode == 1 || kode == 2
}

/// Y and K are singular at the origin; J and I have closed forms there.
pub open spec fn origin_ok(family: Family, z: Complex) -> bool {
    family is J || family is I || !complex_is_zero(z)
}

/// A well-formed batch request.
pub open spec fn bessel_params_ok(
    family: Family,
    z: Complex,
    nu: Real,
    kode: i32,
    n: usize,
) -> bool {
    &&& count_ok(n)
    &&& argument_ok(z)
    &&& order_ok(nu)
    &&& scaling_ok(kode)
    &&& origin_ok(family, z)
}

/// Law: a finite order passes validation exactly when its value in the
/// exact integer model is not negative.
pub proof fn lemma_order_ok_value(nu: Real)
    requires
        is_finite_bits(nu.bits),
    ensures
        order_ok(nu) <==> crate::ieee::fixed_value(nu.bits) >= 0,
{
    crate::ieee::lemma_negative_iff_value_negative(nu.bits);
}

/// The value of J or I at the origin for the order `nu + i`: one when the
/// order is zero, zero otherwise. These zeros are mathematically exact, so
/// they never count as underflow.
pub open spec fn origin_entry(nu: Real, i: int) -> Complex {
    if i == 0 && is_zero_bits(nu.bits) {
        Complex { re: Real { bits: ONE_BITS }, im: Real { bits: ZERO_BITS } }
    } else {
        Complex { re: Real { bits: ZERO_BITS }, im: Real { bits: ZERO_BITS } }
    }
}

/// Law: the origin closed form is exact. In the integer model every entry
/// is purely real, the leading entry of a zero-order batch has the value
/// one (2^1074 in units of the smallest subnormal), and every other entry
/// is exactly zero; none of those zeros is a rounding artifact.
pub proof fn lemma_origin_entry_value(nu: Real, i: int)
    ensures
        ({
            let c = origin_entry(nu, i);
            &&& crate::ieee::fixed_value(c.im.bits) == 0
            &&& crate::ieee::fixed_value(c.re.bits) == if i == 0 && is_zero_bits(nu.bits) {
                vstd::arithmetic::power2::pow2(1074) as int
            } else {
                0
            }
        }),
{
    crate::ieee::lemma_one_value();
    assert((0u64 & 0x7fff_ffff_ffff_ffff) == 0) by (bit_vector);
    crate::ieee::lemma_zero_iff_value_zero(ZERO_BITS);
}

/// Validate a batch request and decide how it is answered.
///
/// A malformed request is refused before any evaluation runs: a count of
/// zero (or one too large to bookkeep), a non-finite argument, a
/// non-finite or negative order, an unknown scaling selector, or Y or K at
/// their singularity in the origin. At the origin, J and I are answered in
/// closed form without the kernel; everywhere else the caller is told to
/// run the kernel over the `n` consecutive orders.
pub fn prepare_bessel(family: Family, z: Complex, nu: Real, kode: i32, n: usize) -> (r: Result<
    BesselPlan,
    BesselError,
>)
    ensures
        r is Err <==> !bessel_params_ok(family, z, nu, kode, n),
        r matches Err(e) ==> e is InvalidParameter,
        bessel_params_ok(family, z, nu, kode, n) && complex_is_zero(z) ==> (r matches Ok(
            BesselPlan::Done(res),
        ) && res.values@.len() == n && (forall|i: int|
            0 <= i < n ==> res.values@[i] == origin_entry(nu, i)) && res.underflow_count == 0),
        bessel_params_ok(family, z, nu, kode, n) && !complex_is_zero(z) ==> r == Ok::<
            BesselPlan,
            BesselError,
        >(BesselPlan::Evaluate { scaled: kode == 2, n }),
{
    if n == 0 {
        return Err(BesselError::InvalidParameter("n must be greater than 0".to_string()));
    }
    if n > MAX_BATCH {
        return Err(BesselError::InvalidParameter("n exceeds the supported batch size".to_string()));
    }
    if !z.is_finite() {
        return Err(BesselError::InvalidParameter("z must be finite".to_string()));
    }
    if !nu.is_finite() || nu.is_negative() {
        return Err(
            BesselError::InvalidParameter("order must be finite and non-negative".to_string()),
        );
    }
    if kode != 1 && kode != 2 {
        return Err(BesselError::InvalidParameter("kode must be 1 or 2".to_string()));
    }
    if z.is_zero() {
        match family {
            Family::Y | Family::K => {
                return Err(
                    BesselError::InvalidParameter("z must not be zero for this family".to_string()),
                );
            },
            Family::J | Family::I => {
                return Ok(BesselPlan::Done(origin_batch(nu, n)));
            },
        }
    }
    Ok(BesselPlan::Evaluate { scaled: kode == 2, n })
}

/// The closed-form batch for J or I at the origin.
fn origin_batch(nu: Real, n: usize) -> (res: BesselResult)
    requires
        1 <= n,
    ensures
        res.values@.len() == n,
        forall|i: int| 0 <= i < n ==> res.values@[i] == origin_entry(nu, i),
        res.underflow_count == 0,
{
    let mut values: Vec<Complex> = Vec::new();
    if nu.is_zero() {
        values.push(Complex::one());
    } else {
        values.push(Complex::zero());
    }
    let mut i: usize = 1;
    while i < n
        invariant
            1 <= i <= n,
            values@.len() == i,
            forall|j: int| 0 <= j < i ==> values@[j] == origin_entry(nu, j),
        decreases n - i,
    {
        values.push(Complex::zero());
        i = i + 1;
    }
    BesselResult { values, underflow_count: 0 }
}

/// An entry that is exact zero in both coordinates, of either sign.
pub open spec fn entry_zero(c: Complex) -> bool {
    is_zero_bits(c.re.bits) && is_zero_bits(c.im.bits)
}

/// Law: an entry counts as a zero exactly when both of its coordinates
/// have value zero in the exact integer model, so the underflow count
/// reports entries whose returned value is exactly zero and nothing else.
pub proof fn lemma_entry_zero_value(c: Complex)
    ensures
        entry_zero(c) <==> (crate::ieee::fixed_value(c.re.bits) == 0
            && crate::ieee::fixed_value(c.im.bits) == 0),
{
    crate::ieee::lemma_zero_iff_value_zero(c.re.bits);
    crate::ieee::lemma_zero_iff_value_zero(c.im.bits);
}

/// How many entries of a sequence are exact zero.
pub open spec fn zero_count(s: Seq<Complex>) -> int
    decreases s.len(),
{
    if s.len() == 0 {
        0
    } else {
        zero_count(s.drop_last()) + if entry_zero(s.last()) {
            1int
        } else {
            0int
        }
    }
}

/// Appending an entry raises the zero count by one exactly when the entry
/// is an exact zero.
pub proof fn lemma_zero_count_push(s: Seq<Complex>, c: Complex)
    ensures
        zero_count(s.push(c)) == zero_count(s) + if entry_zero(c) {
            1int
        } else {
            0int
        },
{
    assert(s.push(c).drop_last() =~= s);
    assert(s.push(c).last() == c);
}

/// Assemble the kernel's raw output into a result.
///
/// The kernel hands back one real and one imaginary coordinate array, both
/// as bit patterns and of the batch's length. If any entry left the
/// representable range the whole call failed (an overflow is fatal, unlike
/// an underflow); otherwise the coordinates are paired in order and the
/// entries that were rounded to exact zero are counted as underflow.
pub fn assemble_bessel(re: Vec<u64>, im: Vec<u64>) -> (r: Result<BesselResult, BesselError>)
    requires
        re@.len() == im@.len(),
        re@.len() <= MAX_BATCH,
    ensures
        r is Ok <==> (forall|i: int|
            0 <= i < re@.len() ==> is_finite_bits(re@[i]) && is_finite_bits(im@[i])),
        r matches Ok(res) ==> {
            &&& res.values@.len() == re@.len()
            &&& forall|i: int|
                0 <= i < re@.len() ==> res.values@[i] == (Complex {
                    re: Real { bits: re@[i] },
                    im: Real { bits: im@[i] },
                })
            &&& res.underflow_count as int == zero_count(res.values@)
        },
        r matches Err(e) ==> e is ComputationError,
{
    let n = re.len();
    let mut values: Vec<Complex> = Vec::new();
    let mut zeros: usize = 0;
    let mut i: usize = 0;
    while i < n
        invariant
            0 <= i <= n,
            n == re@.len() == im@.len(),
            n <= MAX_BATCH,
            values@.len() == i,
            forall|j: int|
                0 <= j < i ==> values@[j] == (Complex {
                    re: Real { bits: re@[j] },
                    im: Real { bits: im@[j] },
                }),
            forall|j: int| 0 <= j < i ==> is_finite_bits(re@[j]) && is_finite_bits(im@[j]),
            zeros as int == zero_count(values@),
            zeros <= i,
        decreases n - i,
    {
        let c = Complex { re: Real { bits: re[i] }, im: Real { bits: im[i] } };
        if !c.is_finite() {
            return Err(
                BesselError::ComputationError(
                    "a result left the representable range".to_string(),
                ),
            );
        }
        let z = c.is_zero();
        proof {
            lemma_zero_count_push(values@, c);
        }
        values.push(c);
        if z {
            zeros = zeros + 1;
        }
        i = i + 1;
    }
    Ok(BesselResult { values, underflow_count: zeros as i32 })
}

} // verus!
