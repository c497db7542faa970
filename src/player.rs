use vstd::prelude::*;
use crate::health::{Damage, Health};
use crate::timer::{Timer, TimerMode};

verus! {

/// Milliseconds of invulnerability after each hit.
pub const INVULNERABILITY_TIME: u64 = 200;

/// Milliseconds between the player's death and the end of the game.
pub const DEATH_TIME: u64 = 2000;

/// Player-only state: a short invulnerability window after each hit, and the
/// countdown from death to the end of the game.
#[derive(Clone, Copy, Debug, PartialEq, Eq, Structural)]
pub struct Player {
    pub invulnerability_timer: Timer,
    pub death_timer: Timer,
}

/// How a damage event against the player turned out.
#[derive(Clone, Copy, Debug, PartialEq, Eq, Structural)]
pub struct PlayerHurtEvent {
    /// Whether this hit killed the player.
    pub died: bool,
}

impl Player {
    pub open spec fn wf(self) -> bool {
        &&& self.invulnerability_timer.mode == TimerMode::Once
        &&& self.invulnerability_timer.wf()
        &&& self.death_timer.mode == TimerMode::Once
        &&& self.death_timer.wf()
    }

    pub open spec fn vulnerable(self) -> bool {
        self.invulnerability_timer.finished
    }

    /// A player who can be hurt at once and has not started dying.
    pub fn new() -> (r: Player)
        ensures
            r.wf(),
            r.vulnerable(),
            r.invulnerability_timer.duration == INVULNERABILITY_TIME,
            r.invulnerability_timer.elapsed == INVULNERABILITY_TIME,
            r.death_timer == Timer::fresh(DEATH_TIME, TimerMode::Once),
    {
        let mut timer = Timer::from_millis(INVULNERABILITY_TIME, TimerMode::Once);
        timer.tick(1_000_000);
        Player {
            invulnerability_timer: timer,
            death_timer: Timer::from_millis(DEATH_TIME, TimerMode::Once),
        }
    }

    pub fn is_vulnerable(&self) -> (r: bool)
        ensures
            r == self.vulnerable(),
    {
        self.invulnerability_timer.is_finished()
    }

    /// Lets `delta` milliseconds of the invulnerability window pass.
    pub fn update(&mut self, delta: u64)
        requires
            old(self).wf(),
            old(self).invulnerability_timer.elapsed + delta <= u64::MAX,
        ensures
            final(self).wf(),
            final(self).invulnerability_timer == old(self).invulnerability_timer.ticked(delta),
            final(self).death_timer == old(self).death_timer,
    {
        self.invulnerability_timer.tick(delta);
    }

    /// The player and health after a damage event, and the hurt event if it counted.
    pub open spec fn hit(self, health: Health, d: Damage) -> (Player, Health, Option<PlayerHurtEvent>) {
        if self.vulnerable() && d.is_positive() {
            (
                Player {
                    invulnerability_timer: Timer::fresh(
                        self.invulnerability_timer.duration,
                        TimerMode::Once,
                    ),
                    ..self
                },
                health.damaged(d).0,
                Some(PlayerHurtEvent { died: health.damaged(d).1 }),
            )
        } else {
            (self, health, None)
        }
    }

    /// Applies damage to the player: only a positive hit outside the
    /// invulnerability window counts, and it opens a new window. Returns the
    /// hurt event of a hit that counted.
    pub fn receive_damage(&mut self, health: &mut Health, d: Damage) -> (r: Option<PlayerHurtEvent>)
        requires
            old(self).wf(),
        ensures
            final(self).wf(),
            final(self).death_timer == old(self).death_timer,
            (*final(self), *final(health), r) == old(self).hit(*old(health), d),
    {
        if self.is_vulnerable() && d.positive() {
            let died = health.apply_damage(d);
            self.invulnerability_timer.reset();
            Some(PlayerHurtEvent { died })
        } else {
            None
        }
    }

    /// Runs the death countdown once the player is dead; returns true on the
    /// frame the game should end.
    pub fn death_tick(&mut self, health: &Health, delta: u64) -> (end: bool)
        requires
            old(self).wf(),
            old(self).death_timer.elapsed + delta <= u64::MAX,
        ensures
            final(self).wf(),
            final(self).invulnerability_timer == old(self).invulnerability_timer,
            !health.dead ==> *final(self) == *old(self) && !end,
            health.dead ==> final(self).death_timer == old(self).death_timer.ticked(delta) && end
                == (final(self).death_timer.times_finished_this_tick > 0),
    {
        if !health.dead {
            return false;
        }
        self.death_timer.tick(delta);
        self.death_timer.just_finished()
    }
}

} // verus!
