use mandelbrot_calculator::{ComplexPoint, ConfigError, Fraction, MandelbrotCalculator};
use num_complex::Complex;

fn calculator(width: u32, height: u32, iterations: u32) -> MandelbrotCalculator {
    MandelbrotCalculator::new(width, height, iterations).unwrap()
}

fn ratio_value(r: Fraction) -> f64 {
    f64::from(r.num) / f64::from(r.den)
}

fn to_complex(p: ComplexPoint) -> Complex<f64> {
    Complex::new(p.re_num as f64 / p.den as f64, p.im_num as f64 / p.den as f64)
}

#[test]
fn calculate_ratio_test_1() {
    let calc = calculator(500, 500, 100);
    assert_eq!(calc.ratio(), Fraction { num: 3, den: 500 });
    assert_eq!(ratio_value(calc.ratio()), 3.0 / 500.0);
}

#[test]
fn calculate_ratio_test_2() {
    let calc = calculator(2000, 500, 100);
    assert_eq!(calc.ratio(), Fraction { num: 2, den: 500 });
    assert_eq!(ratio_value(calc.ratio()), 2.0 / 500.0);
}

#[test]
fn ratio_at_exactly_three_to_two_uses_width() {
    let calc = calculator(1500, 1000, 100);
    assert_eq!(calc.ratio(), Fraction { num: 3, den: 1500 });
    let calc = calculator(1501, 1000, 100);
    assert_eq!(calc.ratio(), Fraction { num: 2, den: 1000 });
}

#[test]
fn screen_to_complex_test_1() {
    let calc = calculator(500, 500, 100);
    let p = to_complex(calc.screen_to_complex(250, 250));
    assert!((p - Complex::<f64>::new(-0.5, 0.0)).norm() <= 0.01);
}

#[test]
fn screen_to_complex_test_2() {
    let calc = calculator(1920, 1080, 100);
    assert_eq!(
        to_complex(calc.screen_to_complex(1920, 1080)),
        Complex::<f64>::new(32.0 / 27.0, -1.0)
    );
}

#[test]
fn screen_to_complex_exact_fractions() {
    let calc = calculator(500, 500, 100);
    assert_eq!(
        calc.screen_to_complex(250, 250),
        ComplexPoint { re_num: -1500, im_num: 0, den: 3000 }
    );
    assert_eq!(
        calc.screen_to_complex(0, 0),
        ComplexPoint { re_num: -6000, im_num: 4500, den: 3000 }
    );
}

#[test]
fn screen_to_complex_largest_coordinates() {
    let calc = calculator(1, 1, 0);
    assert_eq!(
        calc.screen_to_complex(u32::MAX, u32::MAX),
        ComplexPoint {
            re_num: 2 * (3 * u32::MAX as i64 - 2) * 3,
            im_num: 3 * (1 - 2 * u32::MAX as i64) * 3,
            den: 6,
        }
    );
}

#[test]
fn zero_width_is_refused() {
    assert_eq!(MandelbrotCalculator::new(0, 500, 100), Err(ConfigError::ZeroWidth));
    assert_eq!(MandelbrotCalculator::new(0, 0, 100), Err(ConfigError::ZeroWidth));
}

#[test]
fn zero_height_is_refused() {
    assert_eq!(MandelbrotCalculator::new(500, 0, 100), Err(ConfigError::ZeroHeight));
}

#[test]
fn refused_change_leaves_calculator_unchanged() {
    let mut calc = calculator(500, 500, 100);
    let before = calc;
    assert_eq!(calc.change_config(0, 300, 7), Err(ConfigError::ZeroWidth));
    assert_eq!(calc, before);
    assert_eq!(calc.change_config(300, 0, 7), Err(ConfigError::ZeroHeight));
    assert_eq!(calc, before);
}

#[test]
fn change_config_recomputes_everything() {
    let mut calc = calculator(500, 500, 100);
    assert_eq!(calc.change_config(2000, 500, 30), Ok(()));
    assert_eq!(calc.width(), 2000);
    assert_eq!(calc.height(), 500);
    assert_eq!(calc.iterations(), 30);
    assert_eq!(calc.ratio(), Fraction { num: 2, den: 500 });
    assert_eq!(calc, calculator(2000, 500, 30));
}

#[test]
fn change_config_twice_same_ratio() {
    let mut calc = calculator(500, 500, 100);
    assert_eq!(calc.change_config(1920, 1080, 50), Ok(()));
    let once = calc;
    assert_eq!(calc.change_config(1920, 1080, 50), Ok(()));
    assert_eq!(calc.ratio(), once.ratio());
    assert_eq!(calc, once);
}
