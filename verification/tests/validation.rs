use heston::Fixed;
use heston::InvalidParameter;
use heston::ModelParameters;
use heston::SimulationConfig;

fn valid_params() -> Result<ModelParameters, InvalidParameter> {
    ModelParameters::new(
        Fixed::from_scaled(50_000_000),   // drift 0.05
        Fixed::from_int(2),               // mean reversion speed 2.0
        Fixed::from_scaled(20_000_000),   // long-run variance 0.02
        Fixed::from_scaled(100_000_000),  // vol of vol 0.1
        Fixed::zero(),                    // correlation 0.0
        Fixed::from_int(100),             // initial price 100.0
        Fixed::from_scaled(40_000_000),   // initial variance 0.04
    )
}

#[test]
fn accepts_valid_parameters() {
    let p = valid_params().unwrap();
    assert_eq!(p.drift().mantissa(), 50_000_000);
    assert_eq!(p.mean_reversion_speed().mantissa(), 2_000_000_000);
    assert_eq!(p.long_run_variance().mantissa(), 20_000_000);
    assert_eq!(p.vol_of_vol().mantissa(), 100_000_000);
    assert_eq!(p.correlation().mantissa(), 0);
    assert_eq!(p.initial_price().mantissa(), 100_000_000_000);
    assert_eq!(p.initial_variance().mantissa(), 40_000_000);
}

#[test]
fn rejects_zero_initial_price() {
    let e = ModelParameters::new(
        Fixed::from_scaled(50_000_000),
        Fixed::from_int(2),
        Fixed::from_scaled(20_000_000),
        Fixed::from_scaled(100_000_000),
        Fixed::zero(),
        Fixed::zero(),
        Fixed::from_scaled(40_000_000),
    ).err().unwrap();
    assert_eq!(e, InvalidParameter::NonPositiveInitialPrice);
}

#[test]
fn rejects_negative_initial_variance() {
    let e = ModelParameters::new(
        Fixed::from_scaled(50_000_000),
        Fixed::from_int(2),
        Fixed::from_scaled(20_000_000),
        Fixed::from_scaled(100_000_000),
        Fixed::zero(),
        Fixed::from_int(100),
        Fixed::from_int(-1),
    ).err().unwrap();
    assert_eq!(e, InvalidParameter::NegativeInitialVariance);
}

#[test]
fn rejects_negative_mean_reversion_speed() {
    let e = ModelParameters::new(
        Fixed::from_scaled(50_000_000),
        Fixed::from_int(-1),
        Fixed::from_scaled(20_000_000),
        Fixed::from_scaled(100_000_000),
        Fixed::zero(),
        Fixed::from_int(100),
        Fixed::from_scaled(40_000_000),
    ).err().unwrap();
    assert_eq!(e, InvalidParameter::NegativeMeanReversionSpeed);
}

#[test]
fn rejects_correlation_outside_unit_range() {
    let e = ModelParameters::new(
        Fixed::from_scaled(50_000_000),
        Fixed::from_int(2),
        Fixed::from_scaled(20_000_000),
        Fixed::from_scaled(100_000_000),
        Fixed::from_int(2),
        Fixed::from_int(100),
        Fixed::from_scaled(40_000_000),
    ).err().unwrap();
    assert_eq!(e, InvalidParameter::CorrelationOutOfRange);
}

#[test]
fn accepts_correlation_at_the_bounds() {
    assert!(ModelParameters::new(
        Fixed::zero(),
        Fixed::zero(),
        Fixed::zero(),
        Fixed::zero(),
        Fixed::from_int(-1),
        Fixed::from_int(1),
        Fixed::zero(),
    ).is_ok());
    assert!(ModelParameters::new(
        Fixed::zero(),
        Fixed::zero(),
        Fixed::zero(),
        Fixed::zero(),
        Fixed::from_int(1),
        Fixed::from_int(1),
        Fixed::zero(),
    ).is_ok());
}

#[test]
fn rejects_negative_long_run_variance() {
    let e = ModelParameters::new(
        Fixed::from_scaled(50_000_000),
        Fixed::from_int(2),
        Fixed::from_int(-1),
        Fixed::from_scaled(100_000_000),
        Fixed::zero(),
        Fixed::from_int(100),
        Fixed::from_scaled(40_000_000),
    ).err().unwrap();
    assert_eq!(e, InvalidParameter::NegativeLongRunVariance);
}

#[test]
fn rejects_negative_vol_of_vol() {
    let e = ModelParameters::new(
        Fixed::from_scaled(50_000_000),
        Fixed::from_int(2),
        Fixed::from_scaled(20_000_000),
        Fixed::from_int(-1),
        Fixed::zero(),
        Fixed::from_int(100),
        Fixed::from_scaled(40_000_000),
    ).err().unwrap();
    assert_eq!(e, InvalidParameter::NegativeVolOfVol);
}

#[test]
fn reports_the_first_failing_field() {
    // Both the mean-reversion speed and the correlation are out of their
    // domains; the check order reports the speed first.
    let e = ModelParameters::new(
        Fixed::from_scaled(50_000_000),
        Fixed::from_int(-1),
        Fixed::from_scaled(20_000_000),
        Fixed::from_scaled(100_000_000),
        Fixed::from_int(2),
        Fixed::from_int(100),
        Fixed::from_scaled(40_000_000),
    ).err().unwrap();
    assert_eq!(e, InvalidParameter::NegativeMeanReversionSpeed);
}

#[test]
fn rejects_non_positive_time_horizon() {
    let e = SimulationConfig::new(10, Fixed::zero()).err().unwrap();
    assert_eq!(e, InvalidParameter::NonPositiveTimeHorizon);
    let e2 = SimulationConfig::new(10, Fixed::from_int(-1)).err().unwrap();
    assert_eq!(e2, InvalidParameter::NonPositiveTimeHorizon);
}

#[test]
fn accepts_zero_step_count_as_degenerate_configuration() {
    let c = SimulationConfig::new(0, Fixed::from_int(1)).unwrap();
    assert_eq!(c.step_count(), 0);
    assert_eq!(c.time_horizon().mantissa(), 1_000_000_000);
}

#[test]
fn step_width_divides_the_horizon_evenly() {
    let c = SimulationConfig::new(1000, Fixed::from_int(1)).unwrap();
    assert_eq!(c.step_width().mantissa(), 1_000_000);
}
