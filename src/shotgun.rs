use vstd::prelude::*;
use crate::health::{Damage, DamageEvent, EntityId};
use crate::timer::{Timer, TimerMode};

verus! {

/// What the shotgun announces as it cycles.
#[derive(Clone, Copy, Debug, PartialEq, Eq, Structural)]
pub enum ShotgunEvent {
    Fire,
    Reload,
}

#[derive(Clone, Copy, Debug, PartialEq, Eq, Structural)]
pub enum ShotgunState {
    Idle,
    Firing { firing_timer: Timer },
    Reloading { reload_timer: Timer },
}

impl ShotgunState {
    pub open spec fn wf(self) -> bool {
        match self {
            ShotgunState::Idle => true,
            ShotgunState::Firing { firing_timer } => firing_timer.mode == TimerMode::Once
                && firing_timer.wf(),
            ShotgunState::Reloading { reload_timer } => reload_timer.mode == TimerMode::Once
                && reload_timer.wf(),
        }
    }

    /// Whether the running timer, if any, can advance by `delta` without overflow.
    pub open spec fn can_tick(self, delta: u64) -> bool {
        match self {
            ShotgunState::Idle => true,
            ShotgunState::Firing { firing_timer } => firing_timer.elapsed + delta <= u64::MAX,
            ShotgunState::Reloading { reload_timer } => reload_timer.elapsed + delta <= u64::MAX,
        }
    }
}

/// A double-barrelled shotgun: two shots, then a reload.
///
/// Times are in milliseconds, distances in millimetres and damage in
/// thousandths of a hit point.
#[derive(Clone, Copy, Debug, PartialEq, Eq, Structural)]
pub struct Shotgun {
    pub state: ShotgunState,
    /// Where the shotgun goes when the current firing ends; decided as it fires.
    pub next_state: ShotgunState,
    pub shots: u64,
    pub firing_time: u64,
    pub reloading_time: u64,
    pub falloff_start: u64,
    pub falloff_end: u64,
    pub damage: u64,
}

/// The nearest enemy struck by the shotgun's shape cast, and how far away.
#[derive(Clone, Copy, Debug, PartialEq, Eq, Structural)]
pub struct ShapeHit {
    pub entity: EntityId,
    pub distance: u64,
}

/// Damage at distance `dist`: full up to `start`, falling linearly to nothing at `end`.
pub open spec fn shot_damage(damage: u64, start: u64, end: u64, dist: u64) -> int {
    if dist <= start {
        damage as int
    } else if dist >= end {
        0
    } else {
        damage * (end - dist) / ((end - start) as int)
    }
}

impl Shotgun {
    pub open spec fn wf(self) -> bool {
        &&& self.shots <= 2
        &&& self.falloff_start < self.falloff_end
        &&& self.state.wf()
        &&& self.next_state.wf()
    }

    /// Whether the trigger fires this frame: a full shotgun fires while the
    /// trigger is held, the second barrel when the trigger is let go.
    pub open spec fn fires(self, fire_pressed: bool, fire_just_released: bool) -> bool {
        self.state == ShotgunState::Idle && ((fire_pressed && self.shots == 2) || (
        fire_just_released && self.shots == 1))
    }

    /// The shotgun after one frame of `delta` milliseconds, with the event it raised.
    pub open spec fn stepped(self, fire_pressed: bool, fire_just_released: bool, delta: u64) -> (
        Shotgun,
        Option<ShotgunEvent>,
    ) {
        match self.state {
            ShotgunState::Idle => if !self.fires(fire_pressed, fire_just_released) {
                (self, None)
            } else {
                let firing = ShotgunState::Firing {
                    firing_timer: Timer::fresh(self.firing_time, TimerMode::Once),
                };
                if self.shots == 1 {
                    (
                        Shotgun {
                            state: firing,
                            shots: 0,
                            next_state: ShotgunState::Reloading {
                                reload_timer: Timer::fresh(self.reloading_time, TimerMode::Once),
                            },
                            ..self
                        },
                        Some(ShotgunEvent::Fire),
                    )
                } else {
                    (
                        Shotgun {
                            state: firing,
                            shots: (self.shots - 1) as u64,
                            next_state: ShotgunState::Idle,
                            ..self
                        },
                        Some(ShotgunEvent::Fire),
                    )
                }
            },
            ShotgunState::Firing { firing_timer } => {
                let t = firing_timer.ticked(delta);
                if t.finished {
                    (
                        Shotgun { state: self.next_state, ..self },
                        if self.next_state is Reloading {
                            Some(ShotgunEvent::Reload)
                        } else {
                            None
                        },
                    )
                } else {
                    (Shotgun { state: ShotgunState::Firing { firing_timer: t }, ..self }, None)
                }
            },
            ShotgunState::Reloading { reload_timer } => {
                let t = reload_timer.ticked(delta);
                if t.finished {
                    (Shotgun { state: ShotgunState::Idle, shots: 2, ..self }, None)
                } else {
                    (Shotgun { state: ShotgunState::Reloading { reload_timer: t }, ..self }, None)
                }
            },
        }
    }

    /// A loaded, idle shotgun: 50 ms per shot, one second to reload, 100 hit
    /// points of damage falling off between 15 m and 30 m.
    pub fn new() -> (r: Shotgun)
        ensures
            r.wf(),
            r.state == ShotgunState::Idle,
            r.next_state == ShotgunState::Idle,
            r.shots == 2,
            r.firing_time == 50,
            r.reloading_time == 1000,
            r.falloff_start == 15_000,
            r.falloff_end == 30_000,
            r.damage == 100_000,
    {
        Shotgun {
            state: ShotgunState::Idle,
            next_state: ShotgunState::Idle,
            shots: 2,
            firing_time: 50,
            reloading_time: 1000,
            falloff_start: 15_000,
            falloff_end: 30_000,
            damage: 100_000,
        }
    }

    pub fn should_fire(&self, fire_pressed: bool, fire_just_released: bool) -> (r: bool)
        ensures
            r == self.fires(fire_pressed, fire_just_released),
    {
        match self.state {
            ShotgunState::Idle => (fire_pressed && self.shots == 2) || (fire_just_released
                && self.shots == 1),
            _ => false,
        }
    }

    /// Runs one frame of the firing and reloading cycle.
    pub fn update(&mut self, fire_pressed: bool, fire_just_released: bool, delta: u64) -> (r:
        Option<ShotgunEvent>)
        requires
            old(self).wf(),
            old(self).state.can_tick(delta),
        ensures
            (*final(self), r) == old(self).stepped(fire_pressed, fire_just_released, delta),
            final(self).wf(),
    {
        match self.state {
            ShotgunState::Idle => {
                if !self.should_fire(fire_pressed, fire_just_released) {
                    return None;
                }
                self.state = ShotgunState::Firing {
                    firing_timer: Timer::from_millis(self.firing_time, TimerMode::Once),
                };
                if self.shots == 1 {
                    self.shots = 0;
                    self.next_state = ShotgunState::Reloading {
                        reload_timer: Timer::from_millis(self.reloading_time, TimerMode::Once),
                    };
                } else {
                    self.shots = self.shots - 1;
                    self.next_state = ShotgunState::Idle;
                }
                Some(ShotgunEvent::Fire)
            },
            ShotgunState::Firing { firing_timer } => {
                let mut t = firing_timer;
                t.tick(delta);
                if t.is_finished() {
                    self.state = self.next_state;
                    match self.next_state {
                        ShotgunState::Reloading { .. } => Some(ShotgunEvent::Reload),
                        _ => None,
                    }
                } else {
                    self.state = ShotgunState::Firing { firing_timer: t };
                    None
                }
            },
            ShotgunState::Reloading { reload_timer } => {
                let mut t = reload_timer;
                t.tick(delta);
                if t.is_finished() {
                    self.state = ShotgunState::Idle;
                    self.shots = 2;
                } else {
                    self.state = ShotgunState::Reloading { reload_timer: t };
                }
                None
            },
        }
    }

    /// Damage dealt to a target `dist` millimetres away.
    pub fn falloff_damage(&self, dist: u64) -> (r: u64)
        requires
            self.falloff_start < self.falloff_end,
        ensures
            r == shot_damage(self.damage, self.falloff_start, self.falloff_end, dist),
    {
        if dist <= self.falloff_start {
            self.damage
        } else if dist >= self.falloff_end {
            0
        } else {
            let span: u128 = (self.falloff_end - self.falloff_start) as u128;
            let left: u128 = (self.falloff_end - dist) as u128;
            assert(self.damage * left <= self.damage * span) by (nonlinear_arith)
                requires left <= span;
            assert(self.damage * left <= u64::MAX * u64::MAX) by (nonlinear_arith)
                requires left <= u64::MAX, self.damage <= u64::MAX;
            let scaled: u128 = self.damage as u128 * left;
            proof {
                vstd::arithmetic::div_mod::lemma_div_is_ordered(
                    self.damage * left,
                    self.damage * span,
                    span as int,
                );
                vstd::arithmetic::div_mod::lemma_div_by_multiple(self.damage as int, span as int);
            }
            (scaled / span) as u64
        }
    }

    /// The single damage event of a shot whose shape cast struck `hit`.
    pub fn hit_event(&self, hit: &ShapeHit) -> (r: DamageEvent)
        requires
            self.falloff_start < self.falloff_end,
        ensures
            r.entity == hit.entity,
            r.damage == Damage::Amount(
                shot_damage(self.damage, self.falloff_start, self.falloff_end, hit.distance) as u64,
            ),
            r.chain == 0,
    {
        let amount = self.falloff_damage(hit.distance);
        DamageEvent { entity: hit.entity, damage: Damage::Amount(amount), chain: 0 }
    }
}

/// A full, idle shotgun fires at once when the trigger is pressed, keeps one
/// shot, and returns to idle with that shot once the firing time has passed.
pub proof fn law_first_barrel(s: Shotgun, released: bool, d1: u64, p2: bool, r2: bool, d2: u64)
    requires
        s.wf(),
        s.state == ShotgunState::Idle,
        s.shots == 2,
        d2 >= s.firing_time,
    ensures
        s.stepped(true, released, d1).1 == Some(ShotgunEvent::Fire),
        s.stepped(true, released, d1).0.state is Firing,
        s.stepped(true, released, d1).0.shots == 1,
        s.stepped(true, released, d1).0.next_state == ShotgunState::Idle,
        s.stepped(true, released, d1).0.stepped(p2, r2, d2).0.state == ShotgunState::Idle,
        s.stepped(true, released, d1).0.stepped(p2, r2, d2).0.shots == 1,
        s.stepped(true, released, d1).0.stepped(p2, r2, d2).1 == None::<ShotgunEvent>,
{
}

/// With one shot left, holding the trigger does nothing; letting it go fires the
/// second barrel and commits to a reload, which announces itself when the firing
/// ends and refills both barrels when the reload time has passed.
pub proof fn law_second_barrel_and_reload(s: Shotgun, d1: u64, d2: u64, d3: u64, d4: u64)
    requires
        s.wf(),
        s.state == ShotgunState::Idle,
        s.shots == 1,
        d3 >= s.firing_time,
        d4 >= s.reloading_time,
    ensures
        s.stepped(true, false, d1) == (s, None::<ShotgunEvent>),
        s.stepped(false, true, d2).1 == Some(ShotgunEvent::Fire),
        s.stepped(false, true, d2).0.state is Firing,
        s.stepped(false, true, d2).0.shots == 0,
        s.stepped(false, true, d2).0.next_state is Reloading,
        s.stepped(false, true, d2).0.stepped(false, false, d3).1 == Some(ShotgunEvent::Reload),
        s.stepped(false, true, d2).0.stepped(false, false, d3).0.state is Reloading,
        s.stepped(false, true, d2).0.stepped(false, false, d3).0.stepped(false, false, d4).0.state
            == ShotgunState::Idle,
        s.stepped(false, true, d2).0.stepped(false, false, d3).0.stepped(false, false, d4).0.shots
            == 2,
{
}

} // verus!
