use semf::{SemiEmpConsts, COEFF_DENOMINATOR};

#[test]
fn coefficients_are_held_in_thousandths() {
    assert_eq!(COEFF_DENOMINATOR, 1000);
}

#[test]
fn linear_fit_1_has_the_published_values() {
    let c: SemiEmpConsts = SemiEmpConsts::linear_fit_1();
    assert_eq!(c.a_v, 15_800);
    assert_eq!(c.a_s, 18_300);
    assert_eq!(c.a_c, 714);
    assert_eq!(c.a_a, 23_200);
    assert_eq!(c.a_p, 12_000);
    assert_eq!(c.k_p, -500);
}

#[test]
fn linear_fit_2_has_the_published_values() {
    let c: SemiEmpConsts = SemiEmpConsts::linear_fit_2();
    assert_eq!(c.a_v, 15_760);
    assert_eq!(c.a_s, 17_810);
    assert_eq!(c.a_c, 711);
    assert_eq!(c.a_a, 23_702);
    assert_eq!(c.a_p, 34_000);
    assert_eq!(c.k_p, -750);
}

#[test]
fn the_two_fits_differ() {
    assert_ne!(SemiEmpConsts::linear_fit_1(), SemiEmpConsts::linear_fit_2());
}

#[test]
fn thousandths_convert_to_the_nearest_double() {
    let c: SemiEmpConsts = SemiEmpConsts::linear_fit_1();
    let one: f64 = COEFF_DENOMINATOR as f64;
    assert_eq!(c.a_v as f64 / one, 15.8);
    assert_eq!(c.a_s as f64 / one, 18.3);
    assert_eq!(c.a_c as f64 / one, 0.714);
    assert_eq!(c.a_a as f64 / one, 23.2);
    assert_eq!(c.a_p as f64 / one, 12.0);
    assert_eq!(c.k_p as f64 / one, -1.0 / 2.0);
    let d: SemiEmpConsts = SemiEmpConsts::linear_fit_2();
    assert_eq!(d.a_v as f64 / one, 15.76);
    assert_eq!(d.a_s as f64 / one, 17.81);
    assert_eq!(d.a_c as f64 / one, 0.711);
    assert_eq!(d.a_a as f64 / one, 23.702);
    assert_eq!(d.a_p as f64 / one, 34.0);
    assert_eq!(d.k_p as f64 / one, -3.0 / 4.0);
}
