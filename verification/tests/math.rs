use kidar::fixed::{clamp_i64, fx_div_by, fx_mul, isqrt, wrap_angle, PI_FX, SCALE, TWO_PI_FX};
use kidar::mat4::{fx_dot4, Mat4, ENTRY_LIMIT_FX};
use kidar::trig::sin_cos_fx;
use kidar::vec3::Vec3;

#[test]
fn fixed_multiplication_truncates_toward_zero() {
    assert_eq!(fx_mul(3 * SCALE, 2 * SCALE), 6 * SCALE);
    assert_eq!(fx_mul(-3 * SCALE, 2 * SCALE), -6 * SCALE);
    // -1.5 * 1 stays -1.5; -(3/2) * (1/2) is -0.75 exactly.
    assert_eq!(fx_mul(-98304, SCALE), -98304);
    assert_eq!(fx_mul(-98304, SCALE / 2), -49152);
}

#[test]
fn fixed_division_truncates_toward_zero() {
    assert_eq!(fx_div_by(7, 2), 3);
    assert_eq!(fx_div_by(-7, 2), -3);
    assert_eq!(fx_div_by(0, 5), 0);
}

#[test]
fn clamp_forces_the_value_into_the_interval() {
    assert_eq!(clamp_i64(5, -3, 3), 3);
    assert_eq!(clamp_i64(-5, -3, 3), -3);
    assert_eq!(clamp_i64(2, -3, 3), 2);
}

#[test]
fn wrap_angle_reduces_to_the_principal_turn() {
    assert_eq!(wrap_angle(0), 0);
    assert_eq!(wrap_angle(PI_FX), PI_FX);
    assert_eq!(wrap_angle(-PI_FX), PI_FX);
    assert_eq!(wrap_angle(PI_FX + 1), PI_FX + 1 - TWO_PI_FX);
    assert_eq!(wrap_angle(TWO_PI_FX), 0);
    assert_eq!(wrap_angle(-1), -1);
    assert_eq!(wrap_angle(3 * TWO_PI_FX + 17), 17);
}

#[test]
fn integer_square_root_rounds_down() {
    assert_eq!(isqrt(0), 0);
    assert_eq!(isqrt(1), 1);
    assert_eq!(isqrt(15), 3);
    assert_eq!(isqrt(16), 4);
    assert_eq!(isqrt(1u128 << 70), 1u64 << 35);
    assert_eq!(isqrt((1u128 << 70) - 1), (1u64 << 35) - 1);
}

#[test]
fn sine_and_cosine_are_exact_at_the_axes() {
    assert_eq!(sin_cos_fx(0), (0, SCALE));
    assert_eq!(sin_cos_fx(PI_FX), (0, -SCALE));
    assert_eq!(sin_cos_fx(-PI_FX), (0, -SCALE));
}

#[test]
fn sine_and_cosine_approximate_the_quarter_turn() {
    let (s, c) = sin_cos_fx(PI_FX / 2);
    assert!((s - SCALE).abs() < 700);
    assert!(c.abs() < 700);
    let (s30, c30) = sin_cos_fx(34315); // pi / 6
    assert!((s30 - SCALE / 2).abs() < 100);
    assert!((c30 - 56756).abs() < 100); // cos(pi/6) is about 0.86603
}

#[test]
fn sine_is_odd_and_cosine_is_even() {
    for a in [1234, 45678, 102943, 150000, 205887] {
        let (sp, cp) = sin_cos_fx(a);
        let (sn, cn) = sin_cos_fx(-a);
        assert_eq!(sp, -sn);
        assert_eq!(cp, cn);
    }
}

#[test]
fn normalize_makes_axis_vectors_exact_units() {
    let v = Vec3 { x: 0, y: 0, z: -7 * SCALE };
    let u = v.unit_or(Vec3 { x: SCALE, y: 0, z: 0 });
    assert_eq!(u, Vec3 { x: 0, y: 0, z: -SCALE });
    let short = Vec3 { x: 3, y: -4, z: 0 };
    let fb = Vec3 { x: SCALE, y: 0, z: 0 };
    assert_eq!(short.unit_or(fb), fb);
}

#[test]
fn normalized_vectors_stay_in_the_unit_band() {
    let v = Vec3 { x: 123456, y: -654321, z: 424242 };
    let u = v.unit_or(Vec3 { x: SCALE, y: 0, z: 0 });
    let n = (u.x as i128) * (u.x as i128) + (u.y as i128) * (u.y as i128)
        + (u.z as i128) * (u.z as i128);
    let s = SCALE as i128;
    assert!(n >= s * s - 6 * s);
    assert!(n <= s * s + 2 * s + 3);
}

#[test]
fn cross_product_is_orthogonal_to_both_factors() {
    let a = Vec3 { x: 300, y: -4000, z: 55555 };
    let b = Vec3 { x: -123, y: 456, z: 789 };
    let c = a.cross(&b);
    assert_eq!(c.dot(&a), 0);
    assert_eq!(c.dot(&b), 0);
}

fn identity() -> Mat4 {
    Mat4 {
        m00: SCALE, m01: 0, m02: 0, m03: 0,
        m10: 0, m11: SCALE, m12: 0, m13: 0,
        m20: 0, m21: 0, m22: SCALE, m23: 0,
        m30: 0, m31: 0, m32: 0, m33: SCALE,
    }
}

#[test]
fn multiplying_by_the_identity_changes_nothing() {
    let a = Mat4 {
        m00: 12345, m01: -678, m02: 91011, m03: -121314,
        m10: 1, m11: 2, m12: 3, m13: 4,
        m20: -5, m21: 6, m22: -7, m23: 8,
        m30: 0, m31: 0, m32: 0, m33: SCALE,
    };
    assert_eq!(identity().mul(&a), a);
    assert_eq!(a.mul(&identity()), a);
}

#[test]
fn product_entries_saturate_at_the_entry_limit() {
    let big = fx_dot4(ENTRY_LIMIT_FX, ENTRY_LIMIT_FX, 0, 0, 0, 0, 0, 0);
    assert_eq!(big, ENTRY_LIMIT_FX);
    let small = fx_dot4(-ENTRY_LIMIT_FX, ENTRY_LIMIT_FX, 0, 0, 0, 0, 0, 0);
    assert_eq!(small, -ENTRY_LIMIT_FX);
}

#[test]
fn matrix_columns_come_out_in_column_major_order() {
    let a = Mat4 {
        m00: 1, m01: 2, m02: 3, m03: 4,
        m10: 5, m11: 6, m12: 7, m13: 8,
        m20: 9, m21: 10, m22: 11, m23: 12,
        m30: 13, m31: 14, m32: 15, m33: 16,
    };
    assert_eq!(a.to_cols(), vec![1, 5, 9, 13, 2, 6, 10, 14, 3, 7, 11, 15, 4, 8, 12, 16]);
}
