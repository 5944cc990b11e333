//! Health and damage resolution: clamped health mutation, the
//! invincibility window after damage, and the two-phase color flash shown
//! when health changes.

use vstd::prelude::*;
use crate::Entity;
use crate::timer::Timer;
use crate::tools::{lerp, lerp_spec};

verus! {

/// An entity's hit points and invincibility window.
#[derive(Clone, Copy, Debug)]
pub struct Health {
    /// Upper bound on `current_health`.
    pub max_health: i32,
    /// Hit points now.  Never above `max_health`; allowed to go negative,
    /// since reaching zero or less is the death signal.
    pub current_health: i32,
    /// The invincibility window after taking damage.
    pub iframes: Timer,
    /// While set, negative health changes are dropped entirely.
    pub invincible: bool,
}

impl Health {
    /// Well-formedness: a sound window clock and health within its bound.
    pub open spec fn wf(self) -> bool {
        self.iframes.wf() && self.current_health <= self.max_health
    }

    /// Full health with an invincibility window of the given length.
    pub fn new(health: i32, iframes_ms: u32) -> (r: Health)
        requires
            1 <= iframes_ms,
        ensures
            r.wf(),
            r.max_health == health,
            r.current_health == health,
            !r.invincible,
            r.iframes.duration_ms == iframes_ms,
            r.iframes.elapsed_ms == 0,
    {
        Health {
            max_health: health,
            current_health: health,
            iframes: Timer::new(iframes_ms),
            invincible: false,
        }
    }

    /// A possibly wounded entity.
    pub fn new_full(max_health: i32, current_health: i32, iframes_ms: u32) -> (r: Health)
        requires
            1 <= iframes_ms,
            current_health <= max_health,
        ensures
            r.wf(),
            r.max_health == max_health,
            r.current_health == current_health,
            !r.invincible,
            r.iframes.duration_ms == iframes_ms,
            r.iframes.elapsed_ms == 0,
    {
        Health {
            max_health,
            current_health,
            iframes: Timer::new(iframes_ms),
            invincible: false,
        }
    }

    /// Hit points now.
    pub fn get_health(&self) -> (r: i32)
        ensures
            r == self.current_health,
    {
        self.current_health
    }

    /// The upper bound on hit points.
    pub fn get_max_health(&self) -> (r: i32)
        ensures
            r == self.max_health,
    {
        self.max_health
    }

    /// Whether the entity counts as dead.  Health is never clamped below:
    /// zero or negative health is the death signal.
    pub fn is_dead(&self) -> (r: bool)
        ensures
            r == (self.current_health <= 0),
    {
        self.current_health <= 0
    }

    /// Apply a health delta.  While invincible the delta is dropped whole;
    /// otherwise health moves by the delta, clamped above at the maximum
    /// (and at the machine floor below), and any wound starts the
    /// invincibility window.
    pub fn add_health(&mut self, to_add: i32)
        requires
            old(self).wf(),
        ensures
            final(self).wf(),
            final(self).max_health == old(self).max_health,
            final(self).iframes.duration_ms == old(self).iframes.duration_ms,
            old(self).invincible ==> *final(self) == *old(self),
            !old(self).invincible ==> {
                let sum = old(self).current_health + to_add;
                let clamped = if sum > old(self).max_health { old(self).max_health as int }
                    else if sum < i32::MIN { i32::MIN as int } else { sum };
                &&& final(self).current_health == clamped
                &&& to_add < 0 ==> final(self).invincible
                    && final(self).iframes.elapsed_ms == 0
                &&& to_add >= 0 ==> !final(self).invincible
                    && final(self).iframes == old(self).iframes
            },
    {
        if self.invincible {
            return;
        }
        let sum: i64 = self.current_health as i64 + (to_add as i64);
        let capped: i64 = if sum > self.max_health as i64 {
            self.max_health as i64
        } else if sum < i32::MIN as i64 {
            i32::MIN as i64
        } else {
            sum
        };
        self.current_health = capped as i32;
        if to_add < 0 {
            self.invincible = true;
            self.iframes.reset();
        }
    }

    /// Set hit points outright, clamped above at the maximum.  Does not
    /// touch the invincibility window.
    pub fn set_health(&mut self, to_set: i32)
        requires
            old(self).wf(),
        ensures
            final(self).wf(),
            *final(self) == (Health {
                current_health: if to_set > old(self).max_health { old(self).max_health }
                    else { to_set },
                ..*old(self)
            }),
    {
        if to_set > self.max_health {
            self.current_health = self.max_health;
        } else {
            self.current_health = to_set;
        }
    }

    /// Advance the invincibility window; when it runs out the entity is
    /// vulnerable again.
    pub fn tick(&mut self, dt_ms: u32)
        requires
            old(self).wf(),
        ensures
            final(self).wf(),
            final(self).max_health == old(self).max_health,
            final(self).current_health == old(self).current_health,
            final(self).iframes.duration_ms == old(self).iframes.duration_ms,
            final(self).iframes.elapsed_ms == (if old(self).iframes.elapsed_ms + dt_ms
                >= old(self).iframes.duration_ms { old(self).iframes.duration_ms as int }
                else { old(self).iframes.elapsed_ms + dt_ms }),
            final(self).invincible == (old(self).invincible
                && old(self).iframes.elapsed_ms + dt_ms < old(self).iframes.duration_ms),
    {
        self.iframes.tick(dt_ms);
        if self.iframes.finished() {
            self.invincible = false;
        }
    }

    /// Whether the invincibility window is open.
    pub fn invincible(&self) -> (r: bool)
        ensures
            r == self.invincible,
    {
        self.invincible
    }
}

/// How a health change event moves the hit points.
#[derive(Clone, Copy, Debug)]
pub enum HealthChangeType {
    Assign { value: i32 },
    Add { value: i32 },
}

/// A queued health change; damage and healing always travel as events, so
/// one contact can fan out to several consumers.
#[derive(Clone, Copy, Debug)]
pub struct HealthChangeEvent {
    pub entity: Entity,
    pub change_type: HealthChangeType,
}

/// Emitted when an entity's health reaches zero or less.
#[derive(Clone, Copy, Debug)]
pub struct EntityDiedEvent(pub Entity);

/// The death check run after health changes settle: an entity whose
/// health stands at zero or less has died.
pub fn resolve_entity_death(entity: Entity, health: &Health) -> (r: Option<EntityDiedEvent>)
    ensures
        r is Some <==> health.current_health <= 0,
        (r matches Some(ev) ==> ev.0 == entity),
{
    if health.current_health <= 0 {
        Some(EntityDiedEvent(entity))
    } else {
        None
    }
}

/// A sprite tint in thousandths per channel.
#[derive(Clone, Copy, Debug, PartialEq, Eq, Structural)]
pub struct ColorMilli {
    pub red: u32,
    pub green: u32,
    pub blue: u32,
}

impl ColorMilli {
    /// Channels within one unit.
    pub open spec fn wf(self) -> bool {
        self.red <= 1000 && self.green <= 1000 && self.blue <= 1000
    }

    /// Plain white, the resting tint.
    pub fn white() -> (r: ColorMilli)
        ensures
            r.wf(),
            r == (ColorMilli { red: 1000, green: 1000, blue: 1000 }),
    {
        ColorMilli { red: 1000, green: 1000, blue: 1000 }
    }

    /// Full green, the healing tint.
    pub fn green() -> (r: ColorMilli)
        ensures
            r.wf(),
            r == (ColorMilli { red: 0, green: 1000, blue: 0 }),
    {
        ColorMilli { red: 0, green: 1000, blue: 0 }
    }

    /// Full red, the damage tint.
    pub fn red() -> (r: ColorMilli)
        ensures
            r.wf(),
            r == (ColorMilli { red: 1000, green: 0, blue: 0 }),
    {
        ColorMilli { red: 1000, green: 0, blue: 0 }
    }
}

/// How far a two-phase flash has interpolated from one tint to another.
pub open spec fn color_lerp(from: ColorMilli, to: ColorMilli, progress_milli: int)
    -> ColorMilli {
    ColorMilli {
        red: lerp_spec(from.red as int, to.red as int, progress_milli) as u32,
        green: lerp_spec(from.green as int, to.green as int, progress_milli) as u32,
        blue: lerp_spec(from.blue as int, to.blue as int, progress_milli) as u32,
    }
}

/// The transient tint shown when health changes: first a slide toward the
/// flash color, then a slide back to the resting tint, then removal.
#[derive(Clone, Copy, Debug)]
pub struct HealthFlash {
    /// Whether the flash is in its second phase, sliding back.
    pub returning_to_original: bool,
    /// Where the current slide started.
    pub start_color: ColorMilli,
    /// Where the current slide is headed.
    pub target_color: ColorMilli,
    /// Progress of the current slide.
    pub change_timer: Timer,
}

impl HealthFlash {
    /// Well-formed tints and clock.
    pub open spec fn wf(self) -> bool {
        self.start_color.wf() && self.target_color.wf() && self.change_timer.wf()
    }

    /// A fresh flash sliding from `start_color` to `target_color` over
    /// `time_ms` milliseconds (each phase of the flash takes this long).
    pub fn new(start_color: ColorMilli, target_color: ColorMilli, time_ms: u32) -> (r:
        HealthFlash)
        requires
            start_color.wf(),
            target_color.wf(),
            1 <= time_ms,
        ensures
            r.wf(),
            !r.returning_to_original,
            r.start_color == start_color,
            r.target_color == target_color,
            r.change_timer.duration_ms == time_ms,
            r.change_timer.elapsed_ms == 0,
    {
        HealthFlash {
            returning_to_original: false,
            start_color,
            target_color,
            change_timer: Timer::new(time_ms),
        }
    }
}

/// One channel of a tint slide.
fn lerp_channel(from: u32, to: u32, progress_milli: u32) -> (r: u32)
    requires
        from <= 1000,
        to <= 1000,
        progress_milli <= 1000,
    ensures
        r == lerp_spec(from as int, to as int, progress_milli as int),
        r <= 1000,
{
    let v: i64 = lerp(from as i64, to as i64, progress_milli);
    v as u32
}

/// Apply a queued health change: a `Set` moves the hit points outright; an
/// `Add` heals or wounds through the invincibility rules.  Returns the
/// flash to attach: green on healing, red on a wound that lands, none
/// otherwise.  Flash phases last `flash_time_ms`.
pub fn change_health(health: &mut Health, event: &HealthChangeEvent, flash_time_ms: u32)
    -> (flash: Option<HealthFlash>)
    requires
        old(health).wf(),
        1 <= flash_time_ms,
    ensures
        final(health).wf(),
        ({
            match event.change_type {
                HealthChangeType::Assign { value } => {
                    &&& *final(health) == (Health {
                        current_health: if value > old(health).max_health {
                            old(health).max_health
                        } else { value },
                        ..*old(health)
                    })
                    &&& flash is None
                },
                HealthChangeType::Add { value } => {
                    &&& (old(health).invincible ==> *final(health) == *old(health))
                    &&& (!old(health).invincible ==> {
                        let sum = old(health).current_health + value;
                        let clamped = if sum > old(health).max_health {
                            old(health).max_health as int
                        } else if sum < i32::MIN { i32::MIN as int } else { sum };
                        &&& final(health).current_health == clamped
                        &&& (value < 0 ==> final(health).invincible
                            && final(health).iframes.elapsed_ms == 0)
                        &&& (value >= 0 ==> !final(health).invincible)
                    })
                    &&& (value > 0 ==> (flash matches Some(f)
                        && f.start_color == (ColorMilli { red: 1000, green: 1000, blue: 1000 })
                        && f.target_color == (ColorMilli { red: 0, green: 1000, blue: 0 })
                        && !f.returning_to_original
                        && f.change_timer.duration_ms == flash_time_ms
                        && f.change_timer.elapsed_ms == 0))
                    &&& (value < 0 && !old(health).invincible ==> (flash matches Some(f)
                        && f.start_color == (ColorMilli { red: 1000, green: 1000, blue: 1000 })
                        && f.target_color == (ColorMilli { red: 1000, green: 0, blue: 0 })
                        && !f.returning_to_original
                        && f.change_timer.duration_ms == flash_time_ms
                        && f.change_timer.elapsed_ms == 0))
                    &&& (value == 0 || (value < 0 && old(health).invincible)
                        ==> flash is None)
                },
            }
        }),
{
    match event.change_type {
        HealthChangeType::Assign { value } => {
            health.set_health(value);
            None
        },
        HealthChangeType::Add { value } => {
            let flash: Option<HealthFlash> = if value > 0 {
                Some(HealthFlash::new(ColorMilli::white(), ColorMilli::green(),
                    flash_time_ms))
            } else if value < 0 && !health.invincible() {
                Some(HealthFlash::new(ColorMilli::white(), ColorMilli::red(),
                    flash_time_ms))
            } else {
                None
            };
            health.add_health(value);
            flash
        },
    }
}

/// Advance an entity's invincibility window by one tick.
pub fn do_iframes(health: &mut Health, dt_ms: u32)
    requires
        old(health).wf(),
    ensures
        final(health).wf(),
        final(health).max_health == old(health).max_health,
        final(health).current_health == old(health).current_health,
        final(health).iframes.duration_ms == old(health).iframes.duration_ms,
        final(health).invincible == (old(health).invincible
            && old(health).iframes.elapsed_ms + dt_ms < old(health).iframes.duration_ms),
{
    health.tick(dt_ms);
}

/// One tick of the two-phase flash: slide the tint; when a phase's time is
/// up, either turn around (first phase) or ask for removal (second).
/// Returns the tint to draw and whether the flash is over.
pub fn health_flash(flash: &mut HealthFlash, dt_ms: u32) -> (r: (ColorMilli, bool))
    requires
        old(flash).wf(),
    ensures
        final(flash).wf(),
        ({
            let t = old(flash).change_timer;
            let done = t.elapsed_ms + dt_ms >= t.duration_ms;
            let elapsed = (if done { t.duration_ms as int } else { t.elapsed_ms + dt_ms });
            let pct = elapsed * 1000 / t.duration_ms as int;
            &&& r.0 == color_lerp(old(flash).start_color, old(flash).target_color, pct)
            &&& r.1 == (done && old(flash).returning_to_original)
            &&& !done ==> final(flash).returning_to_original
                    == old(flash).returning_to_original
                && final(flash).start_color == old(flash).start_color
                && final(flash).target_color == old(flash).target_color
                && final(flash).change_timer.elapsed_ms == t.elapsed_ms + dt_ms
            &&& (done && !old(flash).returning_to_original) ==> {
                &&& final(flash).returning_to_original
                &&& final(flash).start_color == old(flash).target_color
                &&& final(flash).target_color
                    == (ColorMilli { red: 1000, green: 1000, blue: 1000 })
                &&& final(flash).change_timer.elapsed_ms == 0
            }
        }),
{
    flash.change_timer.tick(dt_ms);
    let pct: u32 = flash.change_timer.percent_milli();
    let color = ColorMilli {
        red: lerp_channel(flash.start_color.red, flash.target_color.red, pct),
        green: lerp_channel(flash.start_color.green, flash.target_color.green, pct),
        blue: lerp_channel(flash.start_color.blue, flash.target_color.blue, pct),
    };
    let mut remove: bool = false;
    if flash.change_timer.finished() {
        if flash.returning_to_original {
            remove = true;
        } else {
            flash.returning_to_original = true;
            flash.start_color = flash.target_color;
            flash.target_color = ColorMilli::white();
            flash.change_timer.reset();
        }
    }
    (color, remove)
}

} // verus!
