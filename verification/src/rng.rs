use vstd::prelude::*;

verus! {

/// A pseudo-random generator with explicit, seedable state.
///
/// Every random decision the renderer takes is drawn from a value of this
/// type, so a render pass is a deterministic function of scene, camera and
/// seed; sharing hidden generator state between tasks is impossible.
pub struct Rng {
    pub state: u64,
}

/// One step of the xorshift64 recurrence.
pub open spec fn xorshift_step(s: u64) -> u64 {
    let a = s ^ (s << 13);
    let b = a ^ (a >> 7);
    b ^ (b << 17)
}

/// The word a generator hands out right after a step.
pub open spec fn rng_output(s: u64) -> u32 {
    (xorshift_step(s) >> 32) as u32
}

/// One step of the xorshift64 recurrence.
fn step(s: u64) -> (r: u64)
    ensures
        r == xorshift_step(s),
{
    let a = s ^ (s << 13);
    let b = a ^ (a >> 7);
    b ^ (b << 17)
}

impl Rng {
    /// Builds a generator from a seed.  A zero seed is replaced, since
    /// zero is a fixed point of the xorshift recurrence, and three warm-up
    /// steps spread small seeds over the whole state space.
    pub fn from_seed(seed: u64) -> (r: Rng)
        ensures
            r.state == seed_state(seed),
    {
        let base = if seed == 0 {
            0x9E3779B97F4A7C15u64
        } else {
            seed
        };
        Rng { state: step(step(step(base))) }
    }

    /// Advances the state and hands back its upper half.
    pub fn next_u32(&mut self) -> (r: u32)
        ensures
            final(self).state == xorshift_step(old(self).state),
            r == rng_output(old(self).state),
    {
        let s0 = self.state;
        let a = s0 ^ (s0 << 13);
        let b = a ^ (a >> 7);
        let s1 = b ^ (b << 17);
        self.state = s1;
        (s1 >> 32) as u32
    }
}

/// The state a fresh generator starts from: the seed, or a fixed
/// constant in place of zero, spread by three warm-up steps.
pub open spec fn seed_state(seed: u64) -> u64 {
    let base = if seed == 0 {
        0x9E3779B97F4A7C15u64
    } else {
        seed
    };
    xorshift_step(xorshift_step(xorshift_step(base)))
}

} // verus!
