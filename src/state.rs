use vstd::prelude::*;
use crate::direction::{speed_sq, Velocity};

verus! {

/// From this squared speed (squared thousandths; a speed of about 1.41) an
/// actor that moves on its own counts as walking.
pub const WALK_SPEED_SQ: u64 = 2_000_000;

/// The animation set an actor shows; each has its own sheet and frame table.
#[derive(Clone, Copy, Debug, PartialEq, Eq, Hash, Structural)]
pub enum CharacterState {
    Idle,
    Walking,
    Death,
}

impl Default for CharacterState {
    fn default() -> (r: CharacterState)
        ensures
            r == CharacterState::Idle,
    {
        CharacterState::Idle
    }
}

/// What happens when a one-shot animation has played through.
#[derive(Clone, Copy, Debug, PartialEq, Eq, Hash, Structural)]
pub enum OnOneShotEnd {
    /// Go back to looping the given state.
    SetState(CharacterState),
    /// The actor's death is complete.
    Die,
}

/// How the current state is played: looped, or once with an end policy.
#[derive(Clone, Copy, Debug, PartialEq, Eq, Hash, Structural)]
pub enum CharacterStateMode {
    Continuous(CharacterState),
    OneShot { state: CharacterState, interruptable: bool, on_end: OnOneShotEnd },
}

impl Default for CharacterStateMode {
    fn default() -> (r: CharacterStateMode)
        ensures
            r == CharacterStateMode::Continuous(CharacterState::Idle),
    {
        CharacterStateMode::Continuous(CharacterState::default())
    }
}

/// The state whose frames a mode plays.
pub open spec fn state_of(m: CharacterStateMode) -> CharacterState {
    match m {
        CharacterStateMode::Continuous(s) => s,
        CharacterStateMode::OneShot { state, .. } => state,
    }
}

/// A looping mode can always be replaced; a one-shot only when it was made
/// interruptable.
pub open spec fn replaceable(m: CharacterStateMode) -> bool {
    match m {
        CharacterStateMode::Continuous(_) => true,
        CharacterStateMode::OneShot { interruptable, .. } => interruptable,
    }
}

/// The looping state that movement at velocity `v` calls for.
pub open spec fn movement_state(v: Velocity) -> CharacterState {
    if speed_sq(v) < WALK_SPEED_SQ {
        CharacterState::Idle
    } else {
        CharacterState::Walking
    }
}

/// The mode after an attempt to install `new_mode` over `m`.
pub open spec fn set_if_replaceable(m: CharacterStateMode, new_mode: CharacterStateMode) -> CharacterStateMode {
    if replaceable(m) {
        new_mode
    } else {
        m
    }
}

/// The mode after a movement-driven transition at velocity `v`.
pub open spec fn after_movement(m: CharacterStateMode, v: Velocity) -> CharacterStateMode {
    set_if_replaceable(m, CharacterStateMode::Continuous(movement_state(v)))
}

impl CharacterStateMode {
    pub fn get_state(&self) -> (r: CharacterState)
        ensures
            r == state_of(*self),
    {
        match self {
            CharacterStateMode::Continuous(state) => *state,
            CharacterStateMode::OneShot { state, .. } => *state,
        }
    }

    pub fn one_shot(state: CharacterState, interruptable: bool, on_end: OnOneShotEnd) -> (r:
        CharacterStateMode)
        ensures
            r == (CharacterStateMode::OneShot { state, interruptable, on_end }),
    {
        CharacterStateMode::OneShot { state, interruptable, on_end }
    }

    /// Whether another mode may take this one's place.
    pub fn can_be_replaced(&self) -> (r: bool)
        ensures
            r == replaceable(*self),
    {
        match self {
            CharacterStateMode::Continuous(_) => true,
            CharacterStateMode::OneShot { interruptable, .. } => *interruptable,
        }
    }

    /// Installs `new_mode` if the current mode allows it, and says whether it
    /// did. A one-shot that is not interruptable stays as it is.
    pub fn try_set(&mut self, new_mode: CharacterStateMode) -> (r: bool)
        ensures
            r == replaceable(*old(self)),
            *final(self) == set_if_replaceable(*old(self), new_mode),
    {
        if self.can_be_replaced() {
            *self = new_mode;
            true
        } else {
            false
        }
    }
}

/// Switches a self-moving actor between idle and walking by its speed, unless
/// its current mode may not be replaced.
pub fn velocity_state_transitions(mode: &mut CharacterStateMode, velocity: Velocity)
    ensures
        *final(mode) == after_movement(*old(mode), velocity),
{
    let new_mode = if velocity.length_squared() < WALK_SPEED_SQ {
        CharacterStateMode::Continuous(CharacterState::Idle)
    } else {
        CharacterStateMode::Continuous(CharacterState::Walking)
    };
    if mode.can_be_replaced() && *mode != new_mode {
        *mode = new_mode;
    }
}

/// A one-shot that is not interruptable survives every attempt to overwrite
/// it, whether by an explicit setter or by movement.
pub proof fn lemma_uninterruptable_rejects_overwrite(
    state: CharacterState,
    on_end: OnOneShotEnd,
    other: CharacterStateMode,
    v: Velocity,
)
    ensures
        set_if_replaceable(CharacterStateMode::OneShot { state, interruptable: false, on_end }, other)
            == (CharacterStateMode::OneShot { state, interruptable: false, on_end }),
        after_movement(CharacterStateMode::OneShot { state, interruptable: false, on_end }, v)
            == (CharacterStateMode::OneShot { state, interruptable: false, on_end }),
{
}

/// In a looping mode, every movement-driven transition lands on exactly the
/// state that the new speed calls for: crossing the walk threshold in either
/// direction switches between idle and walking, and staying on one side
/// keeps the state.
pub proof fn lemma_movement_toggles(s: CharacterState, v: Velocity)
    ensures
        after_movement(CharacterStateMode::Continuous(s), v) == CharacterStateMode::Continuous(
            movement_state(v),
        ),
        speed_sq(v) < WALK_SPEED_SQ ==> state_of(after_movement(CharacterStateMode::Continuous(s), v)) == CharacterState::Idle,
        speed_sq(v) >= WALK_SPEED_SQ ==> state_of(after_movement(CharacterStateMode::Continuous(s), v)) == CharacterState::Walking,
{
}

} // verus!
