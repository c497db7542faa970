use vstd::prelude::*;

verus! {

/// Stable identifier of a gameplay entity.
pub type EntityId = u64;

/// An amount of damage in thousandths of a hit point, or an instant kill.
#[derive(Clone, Copy, Debug, PartialEq, Eq, Structural)]
pub enum Damage {
    Amount(u64),
    Infinite,
}

impl Damage {
    pub open spec fn is_positive(self) -> bool {
        match self {
            Damage::Amount(a) => a > 0,
            Damage::Infinite => true,
        }
    }

    /// Whether the damage is more than nothing.
    pub fn positive(&self) -> (r: bool)
        ensures
            r == self.is_positive(),
    {
        match self {
            Damage::Amount(a) => *a > 0,
            Damage::Infinite => true,
        }
    }
}

/// Damage addressed to one entity, with the explosion chain depth behind it.
#[derive(Clone, Copy, Debug, PartialEq, Eq, Structural)]
pub struct DamageEvent {
    pub entity: EntityId,
    pub damage: Damage,
    pub chain: u64,
}

/// Hit points in thousandths; `dead` latches the first time they reach zero.
#[derive(Clone, Copy, Debug, PartialEq, Eq, Structural)]
pub struct Health {
    pub current: i64,
    pub dead: bool,
}

/// Hit points after taking `d`; they saturate at the lowest representable value.
pub open spec fn after_damage(current: i64, d: Damage) -> i64 {
    match d {
        Damage::Amount(a) => if current - a < i64::MIN {
            i64::MIN
        } else {
            (current - a) as i64
        },
        Damage::Infinite => i64::MIN,
    }
}

impl Health {
    pub fn new(health: i64) -> (r: Health)
        ensures
            r.current == health,
            r.dead == (health <= 0),
    {
        Health { current: health, dead: health <= 0 }
    }

    /// The health after `d`, and whether this is the moment of death.
    pub open spec fn damaged(self, d: Damage) -> (Health, bool) {
        let c = after_damage(self.current, d);
        if c <= 0 && !self.dead {
            (Health { current: c, dead: true }, true)
        } else {
            (Health { current: c, dead: self.dead }, false)
        }
    }

    /// Subtracts `d` and returns true exactly when this latches death.
    pub fn apply_damage(&mut self, d: Damage) -> (died: bool)
        ensures
            (*final(self), died) == old(self).damaged(d),
    {
        let c: i64 = match d {
            Damage::Amount(a) => {
                let wide: i128 = self.current as i128 - a as i128;
                if wide < i64::MIN as i128 {
                    i64::MIN
                } else {
                    wide as i64
                }
            },
            Damage::Infinite => i64::MIN,
        };
        self.current = c;
        if c <= 0 && !self.dead {
            self.dead = true;
            true
        } else {
            false
        }
    }
}

/// Death latches: once an entity has died, no later damage reports a death again.
pub proof fn law_death_latches(h: Health, d1: Damage, d2: Damage)
    ensures
        h.damaged(d1).1 ==> h.damaged(d1).0.dead,
        h.damaged(d1).0.dead ==> !h.damaged(d1).0.damaged(d2).1,
        h.damaged(d1).0.dead ==> h.damaged(d1).0.damaged(d2).0.dead,
{
}

} // verus!
