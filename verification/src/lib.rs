//! A verified implementation of the PCG64S pseudorandom number generator:
//! a single 128-bit state advanced by a linear congruential recurrence
//! modulo 2^128, with each 64-bit output extracted from the state by an
//! xor-fold of the two 64-bit halves followed by a variable right rotation.
//!
//! The whole behaviour is deterministic: the output stream is a pure
//! function of the seed, and every operation is total. A `Rand` instance
//! is single-threaded mutable state; mutating one instance concurrently
//! without external synchronization is a data race and is not supported.

use vstd::prelude::*;

verus! {

/// Multiplier of the linear congruential recurrence,
/// `(2549297995355413924 << 64) + 4865540595714422341`.
pub const MULTIPLIER: u128 = 0x2360ED051FC65DA44385DF649FCCF645;

/// Increment of the linear congruential recurrence,
/// `(6364136223846793005 << 64) + 1442695040888963407`.
pub const INCREMENT: u128 = 0x5851F42D4C957F2D14057B7EF767814F;

/// The modulus of all state arithmetic: 2^128.
pub open spec fn pow2_128() -> int {
    0x1_0000_0000_0000_0000_0000_0000_0000_0000int
}

/// Addition modulo 2^128, the wraparound semantics of the state update.
pub open spec fn wrap_add128(a: u128, b: u128) -> u128 {
    ((a + b) % pow2_128()) as u128
}

/// One advance of the linear congruential recurrence:
/// `state * MULTIPLIER + INCREMENT`, modulo 2^128.
pub open spec fn lcg_next(s: u128) -> u128 {
    ((s * MULTIPLIER + INCREMENT) % pow2_128()) as u128
}

/// The low 64 bits of a state.
pub open spec fn low_half(s: u128) -> u64 {
    s as u64
}

/// The high 64 bits of a state.
pub open spec fn high_half(s: u128) -> u64 {
    (s >> 64) as u64
}

/// The 64-bit value extracted from a state: the xor-fold of its two halves,
/// rotated right by the top 6 bits of the state.
pub open spec fn pcg_output(s: u128) -> u64 {
    rotr64(high_half(s) ^ low_half(s), high_half(s) >> 58)
}

/// The state a generator holds directly after seeding with `seed`:
/// starting from zero, one recurrence step, the wrapping addition of the
/// seed, and a second recurrence step.
pub open spec fn seeded_state(seed: u128) -> u128 {
    lcg_next(wrap_add128(lcg_next(0), seed))
}

/// Circular right rotation of a 64-bit word by `n` bits, `n < 64`.
pub open spec fn rotr64(x: u64, n: u64) -> u64
    recommends
        n < 64,
{
    if n == 0 {
        x
    } else {
        (x >> n) | (x << ((64 - n) as u64))
    }
}

/// Circular right rotation of a 64-bit word: bits shifted off the low end
/// re-enter at the high end.
fn rotate_right64(x: u64, n: u64) -> (r: u64)
    requires
        n < 64,
    ensures
        r == rotr64(x, n),
{
    if n == 0 {
        x
    } else {
        (x >> n) | (x << (64 - n))
    }
}

/// The state reached from `s` after `n` draws, each of which advances the
/// recurrence once.
pub open spec fn state_after(s: u128, n: nat) -> u128
    decreases n,
{
    if n == 0 {
        s
    } else {
        lcg_next(state_after(s, (n - 1) as nat))
    }
}

/// The sequence of the first `n` values drawn from a generator whose state
/// is `s`: the i-th value is the output permutation of the state reached
/// after i + 1 advances.
pub open spec fn outputs_from(s: u128, n: nat) -> Seq<u64>
    decreases n,
{
    if n == 0 {
        Seq::empty()
    } else {
        outputs_from(s, (n - 1) as nat).push(pcg_output(state_after(s, n)))
    }
}

/// The first `n` values of the stream belonging to `seed`: what a freshly
/// seeded generator yields over its first `n` draws.
pub open spec fn stream(seed: u128, n: nat) -> Seq<u64> {
    outputs_from(seeded_state(seed), n)
}

/// Drawing `n + m` values from state `s` yields the first `n` of them
/// followed by the `m` values drawn from the state those `n` draws reach:
/// the one-draw contract of `random` composes into the whole stream.
pub proof fn lemma_outputs_split(s: u128, n: nat, m: nat)
    ensures
        outputs_from(s, n + m) == outputs_from(s, n) + outputs_from(state_after(s, n), m),
    decreases m,
{
    if m == 0 {
        assert(outputs_from(s, n + m) == outputs_from(s, n) + outputs_from(state_after(s, n), 0));
    } else {
        lemma_outputs_split(s, n, (m - 1) as nat);
        lemma_state_after_split(s, n, m);
        assert(outputs_from(s, n) + outputs_from(state_after(s, n), m)
            == (outputs_from(s, n) + outputs_from(state_after(s, n), (m - 1) as nat)).push(
            pcg_output(state_after(state_after(s, n), m)),
        ));
    }
}

/// The state after `n + m` draws is the state after `m` draws from the
/// state after `n` draws.
pub proof fn lemma_state_after_split(s: u128, n: nat, m: nat)
    ensures
        state_after(s, n + m) == state_after(state_after(s, n), m),
    decreases m,
{
    if m > 0 {
        lemma_state_after_split(s, n, (m - 1) as nat);
    }
}

/// Determinism: the stream is a pure function of the seed, so two
/// independently constructed generators with equal seeds yield identical
/// sequences of draws, of any length.
pub proof fn lemma_determinism(s1: u128, s2: u128, n: nat)
    requires
        s1 == s2,
    ensures
        stream(s1, n) == stream(s2, n),
{
}

/// Reseed equivalence: after a reseed with `s`, the generator holds
/// `seeded_state(s)` — by the contract of `seed`, whatever state it held
/// before — so its next `n` draws are exactly the first `n` values of the
/// stream of a fresh generator constructed with `s`.
pub proof fn lemma_reseed_equivalence(s: u128, n: nat)
    ensures
        outputs_from(seeded_state(s), n) == stream(s, n),
{
}

/// A value `x` below 2 * 2^128 reduces modulo 2^128 either to itself or to
/// `x - 2^128`, according to whether it already lies below 2^128.
proof fn lemma_mod2_128_once(x: int)
    requires
        0 <= x < 2 * pow2_128(),
    ensures
        x % pow2_128() == if x < pow2_128() {
            x
        } else {
            x - pow2_128()
        },
{
    if x < pow2_128() {
        vstd::arithmetic::div_mod::lemma_small_mod(x as nat, pow2_128() as nat);
    } else {
        vstd::arithmetic::div_mod::lemma_mod_multiples_vanish(1, x - pow2_128(), pow2_128());
        vstd::arithmetic::div_mod::lemma_small_mod((x - pow2_128()) as nat, pow2_128() as nat);
    }
}

/// Reducing `s * MULTIPLIER` modulo 2^128 before adding `INCREMENT` and
/// reducing again gives the same state as one reduction of the whole
/// affine step: the two wrapping operations compose to `lcg_next`.
proof fn lemma_lcg_next_decomposed(s: u128)
    ensures
        wrap_add128(((s * MULTIPLIER) % pow2_128()) as u128, INCREMENT) == lcg_next(s),
{
    let m: int = pow2_128();
    vstd::arithmetic::mul::lemma_mul_nonnegative(s as int, MULTIPLIER as int);
    vstd::arithmetic::div_mod::lemma_mod_bound(s * MULTIPLIER, m);
    vstd::arithmetic::div_mod::lemma_add_mod_noop(s * MULTIPLIER, INCREMENT as int, m);
    vstd::arithmetic::div_mod::lemma_small_mod(INCREMENT as nat, m as nat);
}

/// A PCG64S pseudorandom number generator: one 128-bit state, advanced in
/// place by every draw. Independent instances share nothing; a single
/// instance must not be mutated from several threads at once.
pub struct Rand {
    state: u128,
}

impl View for Rand {
    type V = u128;

    closed spec fn view(&self) -> u128 {
        self.state
    }
}

impl Rand {
    /// Advances the state once through the linear congruential recurrence,
    /// wrapping modulo 2^128 on both the multiplication and the addition.
    fn step(&mut self)
        ensures
            final(self)@ == lcg_next(old(self)@),
    {
        proof {
            lemma_lcg_next_decomposed(self.state);
            lemma_mod2_128_once(
                (self.state * MULTIPLIER) % pow2_128() + INCREMENT,
            );
        }
        self.state = self.state.wrapping_mul(MULTIPLIER).wrapping_add(INCREMENT);
    }

    /// Constructs a generator from a seed. Every 128-bit value is a legal
    /// seed, zero included; construction never fails.
    pub fn new(seed: u128) -> (rng: Rand)
        ensures
            rng@ == seeded_state(seed),
    {
        let mut rng: Rand = Rand { state: 0 };
        rng.seed(seed);
        rng
    }

    /// Reseeds the generator in place. The resulting state is exactly the
    /// state of a freshly constructed generator with the same seed; nothing
    /// of the previous stream carries over.
    pub fn seed(&mut self, seed: u128)
        ensures
            final(self)@ == seeded_state(seed),
    {
        self.state = 0;
        self.step();
        proof {
            lemma_mod2_128_once(self.state + seed);
        }
        self.state = self.state.wrapping_add(seed);
        self.step();
    }

    /// Draws the next 64-bit value: advances the state once, then extracts
    /// the output permutation from the new state.
    pub fn random(&mut self) -> (r: u64)
        ensures
            final(self)@ == lcg_next(old(self)@),
            r == pcg_output(final(self)@),
    {
        self.step();

        let s: u128 = self.state;
        let sl: u64 = #[verifier::truncate] (s as u64);
        assert(s >> 64 < 0x1_0000_0000_0000_0000u128) by (bit_vector);
        let sh: u64 = (s >> 64) as u64;
        let rotate_amount: u64 = sh >> 58;
        assert(sh >> 58 < 64u64) by (bit_vector);
        rotate_right64(sh ^ sl, rotate_amount)
    }

    /// The current 128-bit state, the generator's entire externally
    /// meaningful condition; an embedding system may persist it to resume
    /// the stream later.
    pub fn state(&self) -> (s: u128)
        ensures
            s == self@,
    {
        self.state
    }

    /// Restores a previously read state, resuming the stream exactly where
    /// that state was captured.
    pub fn set_state(&mut self, s: u128)
        ensures
            final(self)@ == s,
    {
        self.state = s;
    }
}

} // verus!
