//! End-to-end runs of the engine: the verified crate decides and assembles,
//! the series kernel from scilib evaluates, exactly as the front end wires
//! them together.

use num_complex::Complex64;
use std::f64::consts::PI;
use zbessel_rs::{
    assemble_airy, assemble_bessel, prepare_airy, prepare_bessel, scale_exponent,
    airy_scale_exponent, AiryKind, AiryPlan, BesselError, BesselPlan, Complex, Family, Real,
};

fn lib_real(x: f64) -> Real {
    Real { bits: x.to_bits() }
}

fn lib_complex(z: Complex64) -> Complex {
    Complex { re: lib_real(z.re), im: lib_real(z.im) }
}

fn back(c: &Complex) -> Complex64 {
    Complex64::new(f64::from_bits(c.re.bits), f64::from_bits(c.im.bits))
}

fn kernel(family: Family, order: f64, z: Complex64) -> Complex64 {
    match family {
        Family::J => scilib::math::bessel::j_nu(order, z),
        Family::Y => scilib::math::bessel::y(order, z),
        Family::I => scilib::math::bessel::i_nu(order, z),
        Family::K => scilib::math::bessel::k(order, z),
    }
}

/// The full batch pipeline: validate and plan, run the kernel per order,
/// scale if asked, assemble and bookkeep.
fn eval_bessel(
    family: Family,
    z: Complex64,
    nu: f64,
    kode: i32,
    n: usize,
) -> Result<(Vec<Complex64>, i32), BesselError> {
    let plan = prepare_bessel(family, lib_complex(z), lib_real(nu), kode, n)?;
    match plan {
        BesselPlan::Done(res) => {
            Ok((res.values.iter().map(back).collect(), res.underflow_count))
        }
        BesselPlan::Evaluate { scaled, n } => {
            let factor = if scaled {
                back(&scale_exponent(family, lib_complex(z))).exp()
            } else {
                Complex64::new(1.0, 0.0)
            };
            let mut re_bits: Vec<u64> = Vec::with_capacity(n);
            let mut im_bits: Vec<u64> = Vec::with_capacity(n);
            for i in 0..n {
                let mut v = kernel(family, nu + i as f64, z);
                if scaled {
                    v *= factor;
                }
                re_bits.push(v.re.to_bits());
                im_bits.push(v.im.to_bits());
            }
            let res = assemble_bessel(re_bits, im_bits)?;
            Ok((res.values.iter().map(back).collect(), res.underflow_count))
        }
    }
}

/// The full Airy pipeline: the connection through the modified Bessel
/// functions of zeta = (2/3) z^(3/2), with the branch-point closed form at
/// the origin.
fn eval_airy(kind: AiryKind, z: Complex64, id: i32, kode: i32) -> Result<Complex64, BesselError> {
    let plan = prepare_airy(kind, lib_complex(z), id, kode)?;
    match plan {
        AiryPlan::Done(c) => Ok(back(&c)),
        AiryPlan::Evaluate { derivative, scaled } => {
            let zeta = (2.0 / 3.0) * z * z.sqrt();
            let mut v = match (kind, derivative) {
                (AiryKind::Ai, false) => {
                    (z / 3.0).sqrt() * scilib::math::bessel::k(1.0 / 3.0, zeta) / PI
                }
                (AiryKind::Ai, true) => {
                    -(z / (PI * 3.0f64.sqrt())) * scilib::math::bessel::k(2.0 / 3.0, zeta)
                }
                (AiryKind::Bi, false) => {
                    (z / 3.0).sqrt()
                        * (scilib::math::bessel::i_nu(-1.0 / 3.0, zeta)
                            + scilib::math::bessel::i_nu(1.0 / 3.0, zeta))
                }
                (AiryKind::Bi, true) => {
                    (z / 3.0f64.sqrt())
                        * (scilib::math::bessel::i_nu(-2.0 / 3.0, zeta)
                            + scilib::math::bessel::i_nu(2.0 / 3.0, zeta))
                }
            };
            if scaled {
                v *= back(&airy_scale_exponent(kind, lib_complex(zeta))).exp();
            }
            let c = assemble_airy(v.re.to_bits(), v.im.to_bits())?;
            Ok(back(&c))
        }
    }
}

fn close(a: Complex64, b: Complex64, tol: f64) -> bool {
    (a - b).norm() <= tol * (1.0 + a.norm().max(b.norm()))
}

#[test]
fn known_values_on_the_real_axis() {
    let z = Complex64::new(1.0, 0.0);
    let (j, _) = eval_bessel(Family::J, z, 0.0, 1, 2).unwrap();
    assert!(close(j[0], Complex64::new(0.7651976865579666, 0.0), 1e-5));
    assert!(close(j[1], Complex64::new(0.4400505857449335, 0.0), 1e-5));
    let (y, _) = eval_bessel(Family::Y, z, 0.0, 1, 2).unwrap();
    assert!(close(y[0], Complex64::new(0.08825696421567696, 0.0), 1e-5));
    assert!(close(y[1], Complex64::new(-0.7812128213002887, 0.0), 1e-5));
    let (i, _) = eval_bessel(Family::I, z, 0.0, 1, 2).unwrap();
    assert!(close(i[0], Complex64::new(1.2660658777520084, 0.0), 1e-5));
    assert!(close(i[1], Complex64::new(0.5651591039924851, 0.0), 1e-5));
    let (k, _) = eval_bessel(Family::K, z, 0.0, 1, 2).unwrap();
    assert!(close(k[0], Complex64::new(0.4210244382407083, 0.0), 1e-5));
    assert!(close(k[1], Complex64::new(0.6019072301972346, 0.0), 1e-5));
}

#[test]
fn wronskian_of_j_and_y() {
    // J_nu(z) Y'_nu(z) - J'_nu(z) Y_nu(z) = 2 / (pi z), away from the cut.
    let z = Complex64::new(2.0, 1.0);
    let nu = 0.5;
    let (j, _) = eval_bessel(Family::J, z, nu, 1, 2).unwrap();
    let (y, _) = eval_bessel(Family::Y, z, nu, 1, 2).unwrap();
    let jp = (nu / z) * j[0] - j[1];
    let yp = (nu / z) * y[0] - y[1];
    let w = j[0] * yp - jp * y[0];
    let expect = 2.0 / (PI * z);
    assert!(close(w, expect, 1e-5), "wronskian off: {} vs {}", w, expect);
}

#[test]
fn recurrence_holds_inside_a_batch() {
    // F_{nu+1}(z) = (2 nu / z) F_nu(z) - F_{nu-1}(z) for J, with + for I.
    let z = Complex64::new(3.0, 1.0);
    let nu = 0.5;
    let (j, _) = eval_bessel(Family::J, z, nu, 1, 5).unwrap();
    for i in 1..4 {
        let order = nu + i as f64;
        let lhs = j[i + 1];
        let rhs = (2.0 * order / z) * j[i] - j[i - 1];
        assert!(close(lhs, rhs, 1e-4), "J recurrence off at {}: {} vs {}", i, lhs, rhs);
    }
    let (iv, _) = eval_bessel(Family::I, z, nu, 1, 5).unwrap();
    for i in 1..4 {
        let order = nu + i as f64;
        let lhs = iv[i - 1];
        let rhs = (2.0 * order / z) * iv[i] + iv[i + 1];
        assert!(close(lhs, rhs, 1e-4), "I recurrence off at {}: {} vs {}", i, lhs, rhs);
    }
}

#[test]
fn half_order_closed_forms() {
    // J_{1/2}(z) = sqrt(2/(pi z)) sin(z); I_{1/2}(z) = sqrt(2/(pi z)) sinh(z).
    let z = Complex64::new(2.0, 1.0);
    let (j, _) = eval_bessel(Family::J, z, 0.5, 1, 1).unwrap();
    let expect = (2.0 / (PI * z)).sqrt() * z.sin();
    assert!(close(j[0], expect, 1e-5), "J_1/2 off: {} vs {}", j[0], expect);
    let (i, _) = eval_bessel(Family::I, z, 0.5, 1, 1).unwrap();
    let expect = (2.0 / (PI * z)).sqrt() * z.sinh();
    assert!(close(i[0], expect, 1e-5), "I_1/2 off: {} vs {}", i[0], expect);
}

#[test]
fn scaling_consistency_for_each_family() {
    // unscaled value times the family factor equals the scaled value.
    let cases = [
        (Family::J, Complex64::new(2.0, -3.0)),
        (Family::Y, Complex64::new(2.0, 3.0)),
        (Family::I, Complex64::new(-3.0, 1.0)),
        (Family::K, Complex64::new(2.0, -1.0)),
    ];
    for (family, z) in cases {
        let (plain, _) = eval_bessel(family, z, 1.0, 1, 1).unwrap();
        let (scaled, _) = eval_bessel(family, z, 1.0, 2, 1).unwrap();
        let factor = back(&scale_exponent(family, lib_complex(z))).exp();
        let expect = plain[0] * factor;
        assert!(
            (scaled[0] - expect).norm() <= 1e-10 * expect.norm().max(1.0),
            "scaling consistency off for {:?}: {} vs {}",
            family,
            scaled[0],
            expect
        );
    }
}

#[test]
fn airy_scaling_consistency() {
    let z = Complex64::new(1.0, 0.5);
    let zeta = (2.0 / 3.0) * z * z.sqrt();
    let ai = eval_airy(AiryKind::Ai, z, 0, 1).unwrap();
    let ai_scaled = eval_airy(AiryKind::Ai, z, 0, 2).unwrap();
    let expect = ai * zeta.exp();
    assert!((ai_scaled - expect).norm() <= 1e-10 * expect.norm().max(1.0));
    let bi = eval_airy(AiryKind::Bi, z, 0, 1).unwrap();
    let bi_scaled = eval_airy(AiryKind::Bi, z, 0, 2).unwrap();
    let expect = bi * (-zeta.re.abs()).exp();
    assert!((bi_scaled - expect).norm() <= 1e-10 * expect.norm().max(1.0));
}

#[test]
fn airy_known_values() {
    // Classical values at z = 1 on the real axis.
    let z = Complex64::new(1.0, 0.0);
    let ai = eval_airy(AiryKind::Ai, z, 0, 1).unwrap();
    assert!(close(ai, Complex64::new(0.13529241631288141, 0.0), 1e-5), "Ai(1) = {}", ai);
    let aip = eval_airy(AiryKind::Ai, z, 1, 1).unwrap();
    assert!(close(aip, Complex64::new(-0.15914744129679328, 0.0), 1e-5), "Ai'(1) = {}", aip);
    let bi = eval_airy(AiryKind::Bi, z, 0, 1).unwrap();
    assert!(close(bi, Complex64::new(1.2074235949528713, 0.0), 1e-5), "Bi(1) = {}", bi);
    let bip = eval_airy(AiryKind::Bi, z, 1, 1).unwrap();
    assert!(close(bip, Complex64::new(0.9324359333927756, 0.0), 1e-5), "Bi'(1) = {}", bip);
}

#[test]
fn airy_wronskian() {
    // Ai(z) Bi'(z) - Ai'(z) Bi(z) = 1 / pi.
    let z = Complex64::new(1.0, 0.5);
    let ai = eval_airy(AiryKind::Ai, z, 0, 1).unwrap();
    let aip = eval_airy(AiryKind::Ai, z, 1, 1).unwrap();
    let bi = eval_airy(AiryKind::Bi, z, 0, 1).unwrap();
    let bip = eval_airy(AiryKind::Bi, z, 1, 1).unwrap();
    let w = ai * bip - aip * bi;
    let expect = Complex64::new(1.0 / PI, 0.0);
    assert!(close(w, expect, 1e-5), "airy wronskian off: {} vs {}", w, expect);
}

#[test]
fn underflow_bookkeeping_counts_rounded_zeros() {
    // High orders at a small argument round to exact zero although the
    // mathematical values are nonzero; the count reports exactly those.
    let z = Complex64::new(0.1, 0.0);
    let (values, count) = eval_bessel(Family::J, z, 0.0, 2, 12).unwrap();
    let zeros = values.iter().filter(|v| v.re == 0.0 && v.im == 0.0).count();
    assert!(zeros > 0, "expected some entries to underflow");
    assert_eq!(count as usize, zeros);
    assert!(values[0].re != 0.0, "the leading order must not underflow");
}

#[test]
fn overflow_is_a_computation_error() {
    // I_0 grows like exp(Re z): far out on the real axis the unscaled value
    // is not representable and the call must fail, not return junk.
    let z = Complex64::new(800.0, 0.0);
    let e = eval_bessel(Family::I, z, 0.0, 1, 1).unwrap_err();
    assert!(matches!(e, BesselError::ComputationError(_)));
}

#[test]
fn end_to_end_examples_within_kernel_accuracy() {
    // Reference values for J_1(10+20i) and I_1(10+20i); the series kernel
    // reaches them to relative, not absolute, accuracy.
    let z = Complex64::new(10.0, 20.0);
    let (j, _) = eval_bessel(Family::J, z, 1.0, 1, 1).unwrap();
    let expect = Complex64::new(-1.3869150348751683e7, -3.785203660760742e7);
    assert!(
        (j[0] - expect).norm() <= 1e-4 * expect.norm(),
        "J_1(10+20i) = {}, expected about {}",
        j[0],
        expect
    );
    let (i, _) = eval_bessel(Family::I, z, 1.0, 1, 1).unwrap();
    let expect = Complex64::new(1509.8283640825061, 1060.1232442308794);
    assert!(
        (i[0] - expect).norm() <= 1e-4 * expect.norm(),
        "I_1(10+20i) = {}, expected about {}",
        i[0],
        expect
    );
}
