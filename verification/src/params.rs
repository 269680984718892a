//! Model coefficients and run configuration, validated once at construction.
//!
//! Validation is eager and local: no value outside its documented domain ever
//! reaches the stepping loop, so a simulation run itself cannot fail.

use vstd::prelude::*;

use crate::fixed::Fixed;
use crate::fixed::SCALE;

verus! {

/// The single failure condition of this crate: a coefficient outside its
/// documented domain, reported with the offending field and direction.
#[derive(Clone, Copy, Debug, PartialEq, Eq, Structural)]
pub enum InvalidParameter {
    NegativeMeanReversionSpeed,
    NegativeLongRunVariance,
    NegativeVolOfVol,
    CorrelationOutOfRange,
    NonPositiveInitialPrice,
    NegativeInitialVariance,
    NonPositiveTimeHorizon,
}

/// Mathematical image of `ModelParameters`: each coefficient as its
/// fixed-point mantissa.
pub struct ParamsView {
    pub drift: int,
    pub mean_reversion_speed: int,
    pub long_run_variance: int,
    pub vol_of_vol: int,
    pub correlation: int,
    pub initial_price: int,
    pub initial_variance: int,
}

/// The domain every constructed `ModelParameters` lies in: non-negative
/// mean-reversion speed, long-run variance, volatility-of-volatility and
/// initial variance; correlation within [-1, 1]; strictly positive initial
/// price. The drift may be any representable value.
pub open spec fn params_valid(v: ParamsView) -> bool {
    &&& v.mean_reversion_speed >= 0
    &&& v.long_run_variance >= 0
    &&& v.vol_of_vol >= 0
    &&& -(SCALE as int) <= v.correlation <= SCALE as int
    &&& v.initial_price > 0
    &&& v.initial_variance >= 0
}

/// The exact outcome of validation: the first field out of its domain, in
/// declaration order, names the error.
pub open spec fn params_check(v: ParamsView) -> Result<(), InvalidParameter> {
    if v.mean_reversion_speed < 0 {
        Err(InvalidParameter::NegativeMeanReversionSpeed)
    } else if v.long_run_variance < 0 {
        Err(InvalidParameter::NegativeLongRunVariance)
    } else if v.vol_of_vol < 0 {
        Err(InvalidParameter::NegativeVolOfVol)
    } else if v.correlation > SCALE as int || v.correlation < -(SCALE as int) {
        Err(InvalidParameter::CorrelationOutOfRange)
    } else if v.initial_price <= 0 {
        Err(InvalidParameter::NonPositiveInitialPrice)
    } else if v.initial_variance < 0 {
        Err(InvalidParameter::NegativeInitialVariance)
    } else {
        Ok(())
    }
}

/// Validation succeeds exactly on the valid domain: `params_check` returns
/// `Ok` if and only if `params_valid` holds.
pub proof fn lemma_params_check_complete(v: ParamsView)
    ensures
        params_check(v) is Ok <==> params_valid(v),
{
}

/// The immutable coefficients of the model: drift, mean-reversion speed,
/// long-run variance, volatility of volatility, correlation, initial price
/// and initial variance. Values can only be built through `new`, which
/// rejects anything outside the documented domain, so every value of this
/// type is valid.
///
/// The correlation coefficient is carried but not yet applied by the stepping
/// scheme: the two driving deviates are drawn independently.
pub struct ModelParameters {
    drift: Fixed,
    mean_reversion_speed: Fixed,
    long_run_variance: Fixed,
    vol_of_vol: Fixed,
    correlation: Fixed,
    initial_price: Fixed,
    initial_variance: Fixed,
}

impl View for ModelParameters {
    type V = ParamsView;

    closed spec fn view(&self) -> ParamsView {
        ParamsView {
            drift: self.drift@,
            mean_reversion_speed: self.mean_reversion_speed@,
            long_run_variance: self.long_run_variance@,
            vol_of_vol: self.vol_of_vol@,
            correlation: self.correlation@,
            initial_price: self.initial_price@,
            initial_variance: self.initial_variance@,
        }
    }
}

impl ModelParameters {
    #[verifier::type_invariant]
    spec fn inv(self) -> bool {
        params_valid(self@)
    }

    /// Validate and build the model coefficients. Fails with the matching
    /// `InvalidParameter` on the first field outside its domain, in the order
    /// given by `params_check`; succeeds otherwise, carrying the fields
    /// unchanged.
    pub fn new(
        drift: Fixed,
        mean_reversion_speed: Fixed,
        long_run_variance: Fixed,
        vol_of_vol: Fixed,
        correlation: Fixed,
        initial_price: Fixed,
        initial_variance: Fixed,
    ) -> (r: Result<ModelParameters, InvalidParameter>)
        ensures
            ({
                let v = ParamsView {
                    drift: drift@,
                    mean_reversion_speed: mean_reversion_speed@,
                    long_run_variance: long_run_variance@,
                    vol_of_vol: vol_of_vol@,
                    correlation: correlation@,
                    initial_price: initial_price@,
                    initial_variance: initial_variance@,
                };
                match params_check(v) {
                    Ok(()) => r matches Ok(p) && p@ == v,
                    Err(e) => r == Err::<ModelParameters, InvalidParameter>(e),
                }
            }),
    {
        if mean_reversion_speed.mantissa() < 0 {
            return Err(InvalidParameter::NegativeMeanReversionSpeed);
        }
        if long_run_variance.mantissa() < 0 {
            return Err(InvalidParameter::NegativeLongRunVariance);
        }
        if vol_of_vol.mantissa() < 0 {
            return Err(InvalidParameter::NegativeVolOfVol);
        }
        if correlation.mantissa() > SCALE || correlation.mantissa() < -SCALE {
            return Err(InvalidParameter::CorrelationOutOfRange);
        }
        if initial_price.mantissa() <= 0 {
            return Err(InvalidParameter::NonPositiveInitialPrice);
        }
        if initial_variance.mantissa() < 0 {
            return Err(InvalidParameter::NegativeInitialVariance);
        }
        Ok(ModelParameters {
            drift,
            mean_reversion_speed,
            long_run_variance,
            vol_of_vol,
            correlation,
            initial_price,
            initial_variance,
        })
    }

    pub fn drift(&self) -> (r: Fixed)
        ensures
            r@ == self@.drift,
    {
        self.drift
    }

    pub fn mean_reversion_speed(&self) -> (r: Fixed)
        ensures
            r@ == self@.mean_reversion_speed,
    {
        self.mean_reversion_speed
    }

    pub fn long_run_variance(&self) -> (r: Fixed)
        ensures
            r@ == self@.long_run_variance,
    {
        self.long_run_variance
    }

    pub fn vol_of_vol(&self) -> (r: Fixed)
        ensures
            r@ == self@.vol_of_vol,
    {
        self.vol_of_vol
    }

    pub fn correlation(&self) -> (r: Fixed)
        ensures
            r@ == self@.correlation,
    {
        self.correlation
    }

    pub fn initial_price(&self) -> (r: Fixed)
        ensures
            r@ == self@.initial_price,
            r@ > 0,
    {
        proof {
            use_type_invariant(self);
        }
        self.initial_price
    }

    pub fn initial_variance(&self) -> (r: Fixed)
        ensures
            r@ == self@.initial_variance,
            r@ >= 0,
    {
        proof {
            use_type_invariant(self);
        }
        self.initial_variance
    }
}

/// Mathematical image of `SimulationConfig`.
pub struct ConfigView {
    pub step_count: int,
    pub time_horizon: int,
}

/// The width of one time step: the horizon divided evenly over the steps
/// (mantissa division rounding down). Only meaningful for a positive step
/// count; a zero-step run never uses it.
pub open spec fn spec_step_width(v: ConfigView) -> int {
    v.time_horizon / v.step_count
}

/// The run configuration: how many equal-width steps to take and over what
/// total time. The horizon must be strictly positive. A step count of zero is
/// the accepted degenerate configuration: such a run produces only the
/// initial price.
pub struct SimulationConfig {
    step_count: usize,
    time_horizon: Fixed,
}

impl View for SimulationConfig {
    type V = ConfigView;

    closed spec fn view(&self) -> ConfigView {
        ConfigView { step_count: self.step_count as int, time_horizon: self.time_horizon@ }
    }
}

impl SimulationConfig {
    #[verifier::type_invariant]
    spec fn inv(self) -> bool {
        self@.time_horizon > 0
    }

    /// Validate and build a run configuration: fails with
    /// `NonPositiveTimeHorizon` exactly when the horizon is not strictly
    /// positive.
    pub fn new(step_count: usize, time_horizon: Fixed) -> (r: Result<
        SimulationConfig,
        InvalidParameter,
    >)
        ensures
            time_horizon@ > 0 ==> (r matches Ok(c) && c@ == ConfigView {
                step_count: step_count as int,
                time_horizon: time_horizon@,
            }),
            time_horizon@ <= 0 ==> r == Err::<SimulationConfig, InvalidParameter>(
                InvalidParameter::NonPositiveTimeHorizon,
            ),
    {
        if time_horizon.mantissa() <= 0 {
            return Err(InvalidParameter::NonPositiveTimeHorizon);
        }
        Ok(SimulationConfig { step_count, time_horizon })
    }

    pub fn step_count(&self) -> (r: usize)
        ensures
            r as int == self@.step_count,
    {
        self.step_count
    }

    pub fn time_horizon(&self) -> (r: Fixed)
        ensures
            r@ == self@.time_horizon,
            r@ > 0,
    {
        proof {
            use_type_invariant(self);
        }
        self.time_horizon
    }

    /// The width of one step, `time_horizon / step_count`.
    pub fn step_width(&self) -> (r: Fixed)
        requires
            self@.step_count > 0,
        ensures
            r@ == spec_step_width(self@),
            r@ >= 0,
    {
        proof {
            use_type_invariant(self);
        }
        self.time_horizon.div_by_count(self.step_count)
    }
}

} // verus!
