use heston::Fixed;
use heston::ModelParameters;
use heston::SimulationConfig;
use heston::ZeroDeviateSource;
use heston::simulator::simulate;

const SCALE_F: f64 = 1e9;

fn to_f64(f: Fixed) -> f64 {
    f.mantissa() as f64 / SCALE_F
}

#[test]
fn degenerate_zero_steps_returns_only_the_initial_price() {
    // vol_of_vol = 0 and step_count = 0: the path is exactly [initial_price].
    let p = ModelParameters::new(
        Fixed::from_scaled(50_000_000), // drift 0.05
        Fixed::from_int(2),             // mean reversion speed
        Fixed::from_scaled(20_000_000), // long-run variance
        Fixed::zero(),                  // vol of vol 0
        Fixed::zero(),                  // correlation
        Fixed::from_int(100),           // initial price
        Fixed::from_scaled(40_000_000), // initial variance
    ).unwrap();
    let c = SimulationConfig::new(0, Fixed::from_int(1)).unwrap();
    let mut src = ZeroDeviateSource::new();
    let path = simulate(&p, &c, &mut src);
    assert_eq!(path.len(), 1);
    assert_eq!(path.price_at(0).mantissa(), 100_000_000_000);
}

#[test]
fn drift_only_run_matches_the_closed_form() {
    // drift=0.05, kappa=2.0, theta=0.02, sigma=0.1, rho=0.0, s0=100.0,
    // v0=0.04, 1000 steps over a horizon of 1.0, all deviates zero. Every
    // diffusion term vanishes, so the price follows
    // s <- s + 0.05 * s * 0.001 each step, and after 1000 steps sits at
    // about 100 * (1 + 0.05/1000)^1000 = 105.13.
    let p = ModelParameters::new(
        Fixed::from_scaled(50_000_000),
        Fixed::from_int(2),
        Fixed::from_scaled(20_000_000),
        Fixed::from_scaled(100_000_000),
        Fixed::zero(),
        Fixed::from_int(100),
        Fixed::from_scaled(40_000_000),
    ).unwrap();
    let c = SimulationConfig::new(1000, Fixed::from_int(1)).unwrap();
    let mut src = ZeroDeviateSource::new();
    let path = simulate(&p, &c, &mut src);
    assert_eq!(path.len(), 1001);
    assert_eq!(path.price_at(0).mantissa(), 100_000_000_000);

    // Exact expectation: replay the fixed-point drift update, which rounds
    // toward zero at each of its two multiplications.
    let scale: i128 = 1_000_000_000;
    let drift_m: i128 = 50_000_000;
    let dt_m: i128 = 1_000_000; // 1.0 / 1000
    let mut expected: i128 = 100 * scale;
    for _ in 0..1000 {
        let a = drift_m * expected / scale;
        let b = a * dt_m / scale;
        expected += b;
    }
    assert_eq!(path.price_at(1000).mantissa(), expected);

    // And the closed form: about 105.13 after one year of pure drift.
    let final_price = to_f64(path.price_at(1000));
    assert!((final_price - 105.1269).abs() < 0.01);

    // The path is monotonically increasing under pure positive drift.
    for i in 0..1000 {
        assert!(path.price_at(i + 1).mantissa() > path.price_at(i).mantissa());
    }
}
