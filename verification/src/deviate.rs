//! Sources of stochastic increments for the stepping scheme.
//!
//! A deviate source hands out one increment per call; the simulator draws one
//! for the price and one for the variance on every step. Sources are
//! injectable values, never hidden globals, so a deterministic seeded source
//! can stand in for the system-seeded one.
//!
//! Every source produces its deviates by the same transform: two draws
//! `u1, u2` uniform over the unit interval give the increment
//! `sqrt(u1) * u2`. This is not a standard normal deviate; it is the
//! documented distribution of this simulator, applied identically to both
//! driving terms.

use vstd::prelude::*;

use rand::Rng;

use crate::fixed::Fixed;
use crate::fixed::SCALE;
use crate::fixed::fx_mul;
use crate::fixed::fx_sqrt;
use crate::fixed::lemma_mul_le;

verus! {

/// An injectable supplier of stochastic increments. `taken()` is the ghost
/// record of every deviate handed out so far, oldest first; each call hands
/// out exactly one more.
pub trait DeviateSource {
    /// All deviates this source has produced, as fixed-point mantissas.
    spec fn taken(&self) -> Seq<int>;

    /// Produce the next stochastic increment.
    fn next_deviate(&mut self) -> (d: Fixed)
        ensures
            final(self).taken() == old(self).taken().push(d@),
    ;
}

/// One stochastic increment from two unit-interval mantissas:
/// `sqrt(u1) * u2` in fixed-point arithmetic.
pub open spec fn spec_deviate(u1: int, u2: int) -> int {
    fx_mul(fx_sqrt(u1), u2)
}

/// Apply the deviate transform to two unit-interval draws.
pub fn deviate_from_units(u1: Fixed, u2: Fixed) -> (d: Fixed)
    requires
        u1@ >= 0,
    ensures
        d@ == spec_deviate(u1@, u2@),
{
    u1.sqrt_floor().sat_mul(u2)
}

pub const TWO_POW_64: u128 = 0x1_0000_0000_0000_0000;

/// The unit-interval mantissa carried by one raw 64-bit word:
/// `x * SCALE / 2^64`, which lies in `[0, SCALE)`.
pub open spec fn unit_mantissa(x: u64) -> int {
    ((x as int) * (SCALE as int)) / (TWO_POW_64 as int)
}

/// Map a raw 64-bit word to a unit-interval fixed-point value.
pub fn unit_from_u64(x: u64) -> (r: Fixed)
    ensures
        r@ == unit_mantissa(x),
        0 <= r@ < SCALE as int,
{
    proof {
        lemma_mul_le(x as int, SCALE as int, 0xFFFF_FFFF_FFFF_FFFF, SCALE as int);
    }
    let p: u128 = (x as u128) * (SCALE as u128);
    let q: u128 = p / TWO_POW_64;
    proof {
        vstd::arithmetic::div_mod::lemma_fundamental_div_mod(p as int, TWO_POW_64 as int);
        if q as int >= SCALE as int {
            assert((q as int) * (TWO_POW_64 as int) >= (SCALE as int) * (TWO_POW_64 as int))
                by (nonlinear_arith)
                requires
                    q as int >= SCALE as int,
                    TWO_POW_64 as int > 0;
        }
    }
    Fixed::from_scaled(q as i128)
}

/// Multiplier of the 64-bit linear congruential generator (Knuth's MMIX
/// constants).
pub const LCG_MULTIPLIER: u64 = 6364136223846793005;

/// Increment of the 64-bit linear congruential generator.
pub const LCG_INCREMENT: u64 = 1442695040888963407;

/// One step of the generator: `state * LCG_MULTIPLIER + LCG_INCREMENT`
/// modulo `2^64`.
pub open spec fn lcg_next(s: u64) -> u64 {
    (((s as int) * (LCG_MULTIPLIER as int) + (LCG_INCREMENT as int)) % (TWO_POW_64 as int)) as u64
}

/// The generator's state after `j` steps from `seed`.
pub open spec fn lcg_state(seed: u64, j: nat) -> u64
    decreases j,
{
    if j == 0 {
        seed
    } else {
        lcg_next(lcg_state(seed, (j - 1) as nat))
    }
}

fn lcg_step(s: u64) -> (r: u64)
    ensures
        r == lcg_next(s),
{
    proof {
        lemma_mul_le(s as int, LCG_MULTIPLIER as int, 0xFFFF_FFFF_FFFF_FFFF, LCG_MULTIPLIER as int);
    }
    let prod: u128 = (s as u128) * (LCG_MULTIPLIER as u128);
    let sum: u128 = prod + (LCG_INCREMENT as u128);
    (sum % TWO_POW_64) as u64
}

/// Deviate number `k` (0-based) of the seeded stream: the transform applied
/// to the generator's states `2k+1` and `2k+2`.
pub open spec fn seeded_deviate(seed: u64, k: nat) -> int {
    spec_deviate(
        unit_mantissa(lcg_state(seed, 2 * k + 1)),
        unit_mantissa(lcg_state(seed, 2 * k + 2)),
    )
}

/// The first `count` deviates of the seeded stream.
pub open spec fn seeded_deviates(seed: u64, count: nat) -> Seq<int> {
    Seq::new(count, |k: int| seeded_deviate(seed, k as nat))
}

/// A source that always returns zero: noise-free, fully deterministic runs.
pub struct ZeroDeviateSource {
    history: Ghost<Seq<int>>,
}

impl ZeroDeviateSource {
    pub fn new() -> (r: ZeroDeviateSource)
        ensures
            r.taken() == Seq::<int>::empty(),
    {
        ZeroDeviateSource { history: Ghost(Seq::empty()) }
    }
}

impl DeviateSource for ZeroDeviateSource {
    closed spec fn taken(&self) -> Seq<int> {
        self.history@
    }

    fn next_deviate(&mut self) -> (d: Fixed) {
        let d = Fixed::zero();
        self.history = Ghost(self.history@.push(0));
        d
    }
}

/// A deterministic, seeded source: a 64-bit linear congruential generator
/// advanced twice per deviate. Two sources built from the same seed hand out
/// the same sequence, which makes runs reproducible.
pub struct SeededDeviateSource {
    state: u64,
    seed: Ghost<u64>,
    count: Ghost<nat>,
    history: Ghost<Seq<int>>,
}

impl SeededDeviateSource {
    #[verifier::type_invariant]
    spec fn inv(self) -> bool {
        &&& self.state == lcg_state(self.seed@, 2 * self.count@)
        &&& self.history@ == seeded_deviates(self.seed@, self.count@)
    }

    /// The seed this source was built from.
    pub closed spec fn spec_seed(&self) -> u64 {
        self.seed@
    }

    /// How many deviates this source has handed out.
    pub closed spec fn spec_count(&self) -> nat {
        self.count@
    }

    pub fn new(seed: u64) -> (r: SeededDeviateSource)
        ensures
            r.taken() == Seq::<int>::empty(),
            r.spec_seed() == seed,
            r.spec_count() == 0,
    {
        proof {
            assert(seeded_deviates(seed, 0) =~= Seq::<int>::empty());
        }
        SeededDeviateSource {
            state: seed,
            seed: Ghost(seed),
            count: Ghost(0),
            history: Ghost(Seq::empty()),
        }
    }

    /// Hand out the next deviate of the seeded stream: deviate number
    /// `spec_count()`, a pure function of the seed alone.
    pub fn next_seeded(&mut self) -> (d: Fixed)
        ensures
            final(self).spec_seed() == old(self).spec_seed(),
            final(self).spec_count() == old(self).spec_count() + 1,
            d@ == seeded_deviate(old(self).spec_seed(), old(self).spec_count()),
            final(self).taken() == old(self).taken().push(d@),
    {
        proof {
            use_type_invariant(&*self);
        }
        let ghost seed = self.seed@;
        let ghost c = self.count@;
        let x1 = lcg_step(self.state);
        let x2 = lcg_step(x1);
        proof {
            assert(lcg_state(seed, 2 * c + 1) == lcg_next(lcg_state(seed, 2 * c)));
            assert(lcg_state(seed, 2 * c + 2) == lcg_next(lcg_state(seed, 2 * c + 1)));
        }
        let u1 = unit_from_u64(x1);
        let u2 = unit_from_u64(x2);
        let d = deviate_from_units(u1, u2);
        proof {
            assert(seeded_deviates(seed, c + 1) =~= seeded_deviates(seed, c).push(
                seeded_deviate(seed, c),
            ));
        }
        *self = SeededDeviateSource {
            state: x2,
            seed: Ghost(seed),
            count: Ghost(c + 1),
            history: Ghost(self.history@.push(d@)),
        };
        d
    }
}

impl DeviateSource for SeededDeviateSource {
    closed spec fn taken(&self) -> Seq<int> {
        self.history@
    }

    fn next_deviate(&mut self) -> (d: Fixed) {
        self.next_seeded()
    }
}

#[verifier::external_type_specification]
#[verifier::external_body]
pub struct ExThreadRng(rand::rngs::ThreadRng);

/// Relies on `rand::thread_rng`: returns a handle to the thread-local,
/// system-seeded generator. It panics only if the operating system cannot
/// supply entropy when the generator is first initialized.
#[verifier::external_body]
fn fresh_thread_rng() -> rand::rngs::ThreadRng {
    rand::thread_rng()
}

/// Relies on rand's `Rng::gen::<u64>`: one 64-bit word from the generator.
/// The value is random, so nothing is stated of it: callers hold for every
/// outcome.
#[verifier::external_body]
fn draw_u64(rng: &mut rand::rngs::ThreadRng) -> u64 {
    rng.gen::<u64>()
}

/// A source backed by rand's thread-local, system-seeded generator: each run
/// draws fresh randomness, so identical runs differ. Use the seeded source
/// where reproducibility matters.
pub struct ThreadRngDeviateSource {
    rng: rand::rngs::ThreadRng,
    history: Ghost<Seq<int>>,
}

impl ThreadRngDeviateSource {
    pub fn new() -> (r: ThreadRngDeviateSource)
        ensures
            r.taken() == Seq::<int>::empty(),
    {
        ThreadRngDeviateSource { rng: fresh_thread_rng(), history: Ghost(Seq::empty()) }
    }
}

impl DeviateSource for ThreadRngDeviateSource {
    closed spec fn taken(&self) -> Seq<int> {
        self.history@
    }

    fn next_deviate(&mut self) -> (d: Fixed) {
        let x1 = draw_u64(&mut self.rng);
        let x2 = draw_u64(&mut self.rng);
        let u1 = unit_from_u64(x1);
        let u2 = unit_from_u64(x2);
        let d = deviate_from_units(u1, u2);
        self.history = Ghost(self.history@.push(d@));
        d
    }
}

} // verus!
