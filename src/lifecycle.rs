use vstd::prelude::*;
use crate::state::{CharacterState, CharacterStateMode, OnOneShotEnd};

verus! {

/// Where an actor stands on its way out: its death animation plays while it
/// is dying, and once that has played through it is dead. An actor without
/// this marker is alive.
#[derive(Clone, Copy, Debug, PartialEq, Eq, Structural)]
pub enum Death {
    Dying,
    Dead,
}

/// A point of the world, in thousandths of a world unit.
#[derive(Clone, Copy, Debug, PartialEq, Eq, Structural)]
pub struct Position {
    pub x: i64,
    pub y: i64,
    pub z: i64,
}

/// The notice that an actor has died at `position`, for whoever hands out
/// rewards.
#[derive(Clone, Copy, Debug, PartialEq, Eq, Structural)]
pub struct DeathEvent {
    pub position: Position,
}

/// Hit points.
#[derive(Clone, Copy, Debug, PartialEq, Eq, Structural)]
pub struct Health {
    pub current: u64,
    pub max: u64,
}

impl Health {
    /// Full health of `max` points.
    pub fn new(max: u64) -> (r: Health)
        ensures
            r == (Health { current: max, max }),
    {
        Health { current: max, max }
    }

    /// Whether no point is left.
    pub fn is_depleted(&self) -> (r: bool)
        ensures
            r == (self.current == 0),
    {
        self.current == 0
    }
}

/// The one-shot that a dying actor plays: its death frames, once, not to be
/// interrupted, ending in its death.
pub open spec fn death_mode() -> CharacterStateMode {
    CharacterStateMode::OneShot {
        state: CharacterState::Death,
        interruptable: false,
        on_end: OnOneShotEnd::Die,
    }
}

/// Starts a living actor's death: it plays the death one-shot, is marked
/// dying and can no longer collide. Returns whether it was alive; an actor
/// already dying or dead is left as it is.
pub fn enter_dying(mode: &mut CharacterStateMode, death: &mut Option<Death>, collider: &mut bool) -> (r:
    bool)
    ensures
        r == (*old(death) is None),
        r ==> {
            &&& *final(mode) == death_mode()
            &&& *final(death) == Some(Death::Dying)
            &&& *final(collider) == false
        },
        !r ==> {
            &&& *final(mode) == *old(mode)
            &&& *final(death) == *old(death)
            &&& *final(collider) == *old(collider)
        },
{
    if death.is_some() {
        return false;
    }
    *mode = CharacterStateMode::one_shot(CharacterState::Death, false, OnOneShotEnd::Die);
    *death = Some(Death::Dying);
    *collider = false;
    true
}

/// Takes `damage` points from an actor (never below zero); a living actor left
/// with none starts dying. Returns whether it started dying.
pub fn get_hit(
    health: &mut Health,
    mode: &mut CharacterStateMode,
    death: &mut Option<Death>,
    collider: &mut bool,
    damage: u64,
) -> (r: bool)
    ensures
        final(health).max == old(health).max,
        final(health).current == if damage >= old(health).current {
            0
        } else {
            old(health).current - damage
        },
        r == (final(health).current == 0 && *old(death) is None),
        r ==> {
            &&& *final(mode) == death_mode()
            &&& *final(death) == Some(Death::Dying)
            &&& *final(collider) == false
        },
        !r ==> {
            &&& *final(mode) == *old(mode)
            &&& *final(death) == *old(death)
            &&& *final(collider) == *old(collider)
        },
{
    health.current = health.current.saturating_sub(damage);
    if health.is_depleted() {
        enter_dying(mode, death, collider)
    } else {
        false
    }
}

/// The death notice of an actor that is dead, at its position; none for any
/// other actor.
pub fn die_when_dead(death: Option<Death>, position: Position) -> (r: Option<DeathEvent>)
    ensures
        r == if death == Some(Death::Dead) {
            Some(DeathEvent { position })
        } else {
            None::<DeathEvent>
        },
{
    match death {
        Some(Death::Dead) => Some(DeathEvent { position }),
        _ => None,
    }
}

} // verus!
