//! The clocks of the animation.
use vstd::prelude::*;

verus! {

/// The time, in milliseconds, for which a hit on the enemy is shown.
pub const DAMAGE_FLASH: u64 = 250;

/// The two clocks, in milliseconds. Both only run forward between the
/// events that set them back to zero, and stop at the end of `u64`.
#[derive(Clone, Copy, Debug, PartialEq, Eq, Structural)]
pub struct Context {
    /// The time since the scene began.
    pub anim_t: u64,
    /// The time since the enemy was last hit.
    pub time_damage: u64,
}

/// A clock that stood at `t`, `delta` milliseconds later.
pub open spec fn later(t: u64, delta: u32) -> u64 {
    if t + delta > u64::MAX {
        u64::MAX
    } else {
        (t + delta) as u64
    }
}

/// Both clocks `delta` milliseconds later.
pub open spec fn elapsed(c: Context, delta: u32) -> Context {
    Context { anim_t: later(c.anim_t, delta), time_damage: later(c.time_damage, delta) }
}

impl Context {
    /// Both clocks at zero.
    pub fn new() -> (c: Self)
        ensures
            c == (Context { anim_t: 0, time_damage: 0 }),
    {
        Context { anim_t: 0, time_damage: 0 }
    }

    /// Lets `delta` milliseconds pass.
    pub fn advance(&mut self, delta: u32)
        ensures
            *final(self) == elapsed(*old(self), delta),
            final(self).anim_t >= old(self).anim_t,
            final(self).time_damage >= old(self).time_damage,
    {
        self.anim_t = self.anim_t.saturating_add(delta as u64);
        self.time_damage = self.time_damage.saturating_add(delta as u64);
    }

    /// Whether the last hit on the enemy is still shown.
    pub fn damage_shown(&self) -> (r: bool)
        ensures
            r == (self.time_damage < DAMAGE_FLASH),
    {
        self.time_damage < DAMAGE_FLASH
    }
}

} // verus!
