//! The path simulator: advances the joint (price, variance) state across
//! equal-width time steps with an explicit Euler–Maruyama scheme and collects
//! the price at every step boundary.
//!
//! Two policy choices are fixed here and stated by the spec functions:
//!
//! - variance flooring is *full truncation*: a variance update that lands
//!   below zero is clamped to zero, not reflected or absorbed;
//! - the price update is explicit: the variance entering its diffusion term
//!   is the value from the start of the step, before the variance update of
//!   the same step.

use vstd::prelude::*;

use crate::deviate::DeviateSource;
use crate::deviate::SeededDeviateSource;
use crate::deviate::seeded_deviate;
use crate::deviate::seeded_deviates;
use crate::fixed::Fixed;
use crate::fixed::fx_add;
use crate::fixed::fx_mul;
use crate::fixed::fx_sqrt;
use crate::fixed::fx_sub;
use crate::params::ConfigView;
use crate::params::ModelParameters;
use crate::params::ParamsView;
use crate::params::SimulationConfig;
use crate::params::spec_step_width;

verus! {

/// One variance update with the full-truncation floor:
/// `v + kappa*(theta - v)*dt + sigma*sqrt(v)*w_v*sqrt(dt)`, clamped to zero
/// from below.
pub open spec fn spec_variance_step(p: ParamsView, dt: int, sqrt_dt: int, v: int, w_v: int) -> int {
    let reversion = fx_mul(fx_mul(p.mean_reversion_speed, fx_sub(p.long_run_variance, v)), dt);
    let diffusion = fx_mul(fx_mul(fx_mul(p.vol_of_vol, fx_sqrt(v)), w_v), sqrt_dt);
    let unfloored = fx_add(v, fx_add(reversion, diffusion));
    if unfloored < 0 {
        0
    } else {
        unfloored
    }
}

/// One explicit price update:
/// `s + mu*s*dt + s*sqrt(v)*w_s*sqrt(dt)`, where `v` is the variance at the
/// start of the step.
pub open spec fn spec_price_step(p: ParamsView, dt: int, sqrt_dt: int, s: int, v: int, w_s: int) -> int {
    let drift_term = fx_mul(fx_mul(p.drift, s), dt);
    let diffusion = fx_mul(fx_mul(fx_mul(s, fx_sqrt(v)), w_s), sqrt_dt);
    fx_add(s, fx_add(drift_term, diffusion))
}

/// The joint (price, variance) state after `i` steps, fed from `ds`: step
/// `j` (0-based) consumes `ds[2j]` for the price and `ds[2j+1]` for the
/// variance.
pub open spec fn spec_state(p: ParamsView, dt: int, sqrt_dt: int, ds: Seq<int>, i: nat) -> (
    int,
    int,
)
    decreases i,
{
    if i == 0 {
        (p.initial_price, p.initial_variance)
    } else {
        let prev = spec_state(p, dt, sqrt_dt, ds, (i - 1) as nat);
        (
            spec_price_step(p, dt, sqrt_dt, prev.0, prev.1, ds[2 * (i - 1)]),
            spec_variance_step(p, dt, sqrt_dt, prev.1, ds[2 * (i - 1) + 1]),
        )
    }
}

/// The whole price path of one run: the initial price, then the price after
/// each of the `step_count` steps, as a function of the parameters, the
/// configuration and the deviate sequence alone.
pub open spec fn spec_run(p: ParamsView, c: ConfigView, ds: Seq<int>) -> Seq<int> {
    let dt = spec_step_width(c);
    Seq::new((c.step_count + 1) as nat, |i: int| spec_state(p, dt, fx_sqrt(dt), ds, i as nat).0)
}

/// The variance entering any step boundary is never negative: the run starts
/// from a non-negative initial variance and the full-truncation floor keeps
/// every update non-negative.
pub proof fn lemma_variance_never_negative(
    p: ParamsView,
    dt: int,
    sqrt_dt: int,
    ds: Seq<int>,
    i: nat,
)
    requires
        p.initial_variance >= 0,
    ensures
        spec_state(p, dt, sqrt_dt, ds, i).1 >= 0,
    decreases i,
{
    if i > 0 {
        lemma_variance_never_negative(p, dt, sqrt_dt, ds, (i - 1) as nat);
    }
}

/// Reproducibility: the simulated path is a function of the parameters, the
/// configuration and the deviate sequence alone, so two runs fed identical
/// inputs yield identical paths.
pub proof fn lemma_reproducible(
    p: ParamsView,
    c: ConfigView,
    ds: Seq<int>,
    path1: Seq<int>,
    path2: Seq<int>,
)
    requires
        path1 == spec_run(p, c, ds),
        path2 == spec_run(p, c, ds),
    ensures
        path1 == path2,
{
}

/// Execute one variance update with the full-truncation floor.
pub fn variance_step(
    params: &ModelParameters,
    dt: Fixed,
    sqrt_dt: Fixed,
    v: Fixed,
    w_v: Fixed,
) -> (r: Fixed)
    requires
        v@ >= 0,
    ensures
        r@ == spec_variance_step(params@, dt@, sqrt_dt@, v@, w_v@),
        r@ >= 0,
{
    let reversion = params.mean_reversion_speed().sat_mul(
        params.long_run_variance().sat_sub(v),
    ).sat_mul(dt);
    let diffusion = params.vol_of_vol().sat_mul(v.sqrt_floor()).sat_mul(w_v).sat_mul(sqrt_dt);
    let unfloored = v.sat_add(reversion.sat_add(diffusion));
    if unfloored.mantissa() < 0 {
        Fixed::zero()
    } else {
        unfloored
    }
}

/// Execute one explicit price update, using the variance from the start of
/// the step.
pub fn price_step(
    params: &ModelParameters,
    dt: Fixed,
    sqrt_dt: Fixed,
    s: Fixed,
    v: Fixed,
    w_s: Fixed,
) -> (r: Fixed)
    requires
        v@ >= 0,
    ensures
        r@ == spec_price_step(params@, dt@, sqrt_dt@, s@, v@, w_s@),
{
    let drift_term = params.drift().sat_mul(s).sat_mul(dt);
    let diffusion = s.sat_mul(v.sqrt_floor()).sat_mul(w_s).sat_mul(sqrt_dt);
    s.sat_add(drift_term.sat_add(diffusion))
}

/// The product of one run: the initial price followed by the price after
/// each step, in order, owned by the caller.
pub struct PricePath {
    prices: Vec<Fixed>,
}

impl View for PricePath {
    type V = Seq<int>;

    closed spec fn view(&self) -> Seq<int> {
        self.prices@.map_values(|f: Fixed| f@)
    }
}

impl PricePath {
    /// Number of observations: one more than the step count of the run.
    pub fn len(&self) -> (n: usize)
        ensures
            n as int == self@.len(),
    {
        self.prices.len()
    }

    /// The price after `i` steps; index 0 is the initial price.
    pub fn price_at(&self, i: usize) -> (f: Fixed)
        requires
            (i as int) < self@.len(),
        ensures
            f@ == self@[i as int],
    {
        self.prices[i]
    }
}

/// Run the simulation feeding the stepping scheme from `deviates`: step `j`
/// consumes `deviates[2j]` (price) and `deviates[2j+1]` (variance). The
/// returned path is exactly `spec_run` applied to the deviate mantissas.
pub fn simulate_with_deviates(
    params: &ModelParameters,
    config: &SimulationConfig,
    deviates: &Vec<Fixed>,
) -> (path: PricePath)
    requires
        deviates@.len() >= 2 * config@.step_count,
    ensures
        path@ == spec_run(params@, config@, deviates@.map_values(|f: Fixed| f@)),
        path@.len() == config@.step_count + 1,
        path@[0] == params@.initial_price,
{
    let ghost dsm = deviates@.map_values(|f: Fixed| f@);
    let n = config.step_count();
    let mut prices: Vec<Fixed> = Vec::new();
    let mut s = params.initial_price();
    let mut v = params.initial_variance();
    prices.push(s);
    if n == 0 {
        let path = PricePath { prices };
        proof {
            assert(spec_state(params@, spec_step_width(config@), fx_sqrt(spec_step_width(config@)), dsm, 0).0
                == params@.initial_price);
            assert(path@ =~= spec_run(params@, config@, dsm));
        }
        return path;
    }
    let dt = config.step_width();
    let sqrt_dt = dt.sqrt_floor();
    let dlen: usize = deviates.len();
    let mut i: usize = 0;
    while i < n
        invariant
            i <= n,
            n as int == config@.step_count,
            config@.step_count > 0,
            deviates@.len() >= 2 * config@.step_count,
            deviates@.len() == dlen as int,
            dsm == deviates@.map_values(|f: Fixed| f@),
            dt@ == spec_step_width(config@),
            sqrt_dt@ == fx_sqrt(dt@),
            prices@.len() == i + 1,
            s@ == spec_state(params@, dt@, sqrt_dt@, dsm, i as nat).0,
            v@ == spec_state(params@, dt@, sqrt_dt@, dsm, i as nat).1,
            v@ >= 0,
            forall|k: int|
                0 <= k <= i ==> (#[trigger] prices@[k])@ == spec_state(
                    params@,
                    dt@,
                    sqrt_dt@,
                    dsm,
                    k as nat,
                ).0,
        decreases n - i,
    {
        let w_s = deviates[2 * i];
        let w_v = deviates[2 * i + 1];
        let s_next = price_step(params, dt, sqrt_dt, s, v, w_s);
        let v_next = variance_step(params, dt, sqrt_dt, v, w_v);
        proof {
            let prev = spec_state(params@, dt@, sqrt_dt@, dsm, i as nat);
            assert(spec_state(params@, dt@, sqrt_dt@, dsm, (i + 1) as nat) == (
                spec_price_step(params@, dt@, sqrt_dt@, prev.0, prev.1, dsm[2 * i]),
                spec_variance_step(params@, dt@, sqrt_dt@, prev.1, dsm[2 * i + 1]),
            ));
        }
        s = s_next;
        v = v_next;
        prices.push(s);
        i += 1;
    }
    let path = PricePath { prices };
    proof {
        assert(path@ =~= spec_run(params@, config@, dsm));
        assert(spec_state(params@, dt@, sqrt_dt@, dsm, 0).0 == params@.initial_price);
    }
    path
}

/// Run the simulation, drawing two fresh deviates per step from `source`
/// (price first, then variance). The returned path is exactly `spec_run`
/// applied to the deviates the source handed out during this call.
pub fn simulate<D: DeviateSource>(
    params: &ModelParameters,
    config: &SimulationConfig,
    source: &mut D,
) -> (path: PricePath)
    ensures
        final(source).taken().len() == old(source).taken().len() + 2 * config@.step_count,
        final(source).taken().take(old(source).taken().len() as int) == old(source).taken(),
        path@ == spec_run(
            params@,
            config@,
            final(source).taken().skip(old(source).taken().len() as int),
        ),
        path@.len() == config@.step_count + 1,
        path@[0] == params@.initial_price,
{
    let n = config.step_count();
    let mut ds: Vec<Fixed> = Vec::new();
    let mut i: usize = 0;
    while i < n
        invariant
            i <= n,
            n as int == config@.step_count,
            ds@.len() == 2 * i,
            source.taken() == old(source).taken() + ds@.map_values(|f: Fixed| f@),
        decreases n - i,
    {
        let d1 = source.next_deviate();
        ds.push(d1);
        let d2 = source.next_deviate();
        ds.push(d2);
        i += 1;
        proof {
            assert(source.taken() =~= old(source).taken() + ds@.map_values(|f: Fixed| f@));
        }
    }
    let path = simulate_with_deviates(params, config, &ds);
    proof {
        assert(source.taken().skip(old(source).taken().len() as int) =~= ds@.map_values(
            |f: Fixed| f@,
        ));
        assert(source.taken().take(old(source).taken().len() as int) =~= old(source).taken());
    }
    path
}

/// Run the simulation with the deterministic seeded source: the returned
/// path is a function of the parameters, the configuration and the seed
/// alone, so a rerun with identical inputs returns a bit-identical path.
pub fn simulate_seeded(params: &ModelParameters, config: &SimulationConfig, seed: u64) -> (path:
    PricePath)
    ensures
        path@ == spec_run(
            params@,
            config@,
            seeded_deviates(seed, (2 * config@.step_count) as nat),
        ),
        path@.len() == config@.step_count + 1,
        path@[0] == params@.initial_price,
{
    let n = config.step_count();
    let mut src = SeededDeviateSource::new(seed);
    let mut ds: Vec<Fixed> = Vec::new();
    let mut i: usize = 0;
    while i < n
        invariant
            i <= n,
            n as int == config@.step_count,
            src.spec_seed() == seed,
            src.spec_count() == 2 * i,
            ds@.len() == 2 * i,
            forall|k: int|
                0 <= k < 2 * i ==> (#[trigger] ds@[k])@ == seeded_deviate(seed, k as nat),
        decreases n - i,
    {
        let d1 = src.next_seeded();
        ds.push(d1);
        let d2 = src.next_seeded();
        ds.push(d2);
        i += 1;
    }
    let path = simulate_with_deviates(params, config, &ds);
    proof {
        assert(ds@.map_values(|f: Fixed| f@) =~= seeded_deviates(
            seed,
            (2 * config@.step_count) as nat,
        ));
    }
    path
}

} // verus!
