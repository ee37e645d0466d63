use vstd::prelude::*;
use crate::direction::{next_direction, update_direction_from_velocity, Direction, Velocity};
use crate::driver::{
    death_after_wrap, directional_animation_state_or_direction_change,
    directional_animation_tick, mode_after_wrap, AnimationBundle, DirectionalAnimation, Sprite,
};
use crate::frames::{advance_offset, advance_wraps, shown_frame, AnimationIndices};
use crate::lifecycle::{death_mode, die_when_dead, get_hit, Death, DeathEvent, Health, Position};
use crate::state::{
    after_movement, replaceable, set_if_replaceable, state_of, velocity_state_transitions,
    CharacterState, CharacterStateMode,
};
use crate::timer::{elapsed_after, fires, FrameTimer};

verus! {

/// One animated actor: its animation, its movement and its lifecycle, kept
/// together so that each tick updates them in step.
#[derive(Debug)]
pub struct Actor {
    pub animation: DirectionalAnimation,
    pub direction: Direction,
    pub mode: CharacterStateMode,
    pub sprite: Sprite,
    pub indices: AnimationIndices,
    pub velocity: Velocity,
    /// Whether the velocity was set since the last tick.
    pub velocity_changed: bool,
    /// Whether the actor switches between idle and walking by its speed.
    pub follows_velocity: bool,
    pub position: Position,
    pub health: Health,
    pub death: Option<Death>,
    /// Whether the actor can still collide and so deal or take hits.
    pub collider: bool,
}

/// What a tick of an actor reads and writes.
pub struct ActorView {
    pub direction: Direction,
    pub mode: CharacterStateMode,
    pub timer: FrameTimer,
    pub last_state: CharacterState,
    pub last_direction: Direction,
    pub frames: Seq<usize>,
    pub offset: int,
    pub sprite: Sprite,
    pub velocity: Velocity,
    pub velocity_changed: bool,
    pub death: Option<Death>,
}

impl Actor {
    pub open spec fn view(&self) -> ActorView {
        ActorView {
            direction: self.direction,
            mode: self.mode,
            timer: self.animation.timer,
            last_state: self.animation.last_state,
            last_direction: self.animation.last_direction,
            frames: self.indices.indices@,
            offset: self.indices.current_offset as int,
            sprite: self.sprite,
            velocity: self.velocity,
            velocity_changed: self.velocity_changed,
            death: self.death,
        }
    }

    pub open spec fn wf(&self) -> bool {
        self.indices.wf()
    }

    /// What a tick leaves alone: the animation tables, the playing flag, the
    /// position, the health, the collider and whether the actor follows its
    /// velocity.
    pub open spec fn same_config(&self, other: &Actor) -> bool {
        &&& self.animation.same_config(&other.animation)
        &&& self.follows_velocity == other.follows_velocity
        &&& self.position == other.position
        &&& self.health == other.health
        &&& self.collider == other.collider
    }
}

/// First step of a tick: the facing follows the velocity.
pub open spec fn turn_step(v: ActorView) -> ActorView {
    ActorView { direction: next_direction(v.direction, v.velocity), ..v }
}

/// Second step: a new velocity may switch a self-moving actor between idle
/// and walking.
pub open spec fn movement_step(follows: bool, v: ActorView) -> ActorView {
    if follows && v.velocity_changed {
        ActorView { mode: after_movement(v.mode, v.velocity), velocity_changed: false, ..v }
    } else {
        ActorView { velocity_changed: false, ..v }
    }
}

/// Third step: a changed state or direction rebinds the sprite and frames,
/// the state first.
pub open spec fn rebind_step(anim: DirectionalAnimation, v: ActorView) -> ActorView {
    let s = state_of(v.mode);
    let state_changed = s != v.last_state;
    if !state_changed && v.direction == v.last_direction {
        v
    } else {
        ActorView {
            timer: FrameTimer::new_spec(
                if state_changed {
                    anim.duration_of(s)
                } else {
                    v.timer.duration
                },
            ),
            last_state: s,
            last_direction: v.direction,
            frames: anim.frames_of(s, v.direction),
            offset: 0,
            sprite: Sprite {
                index: shown_frame(anim.frames_of(s, v.direction), 0),
                ..if state_changed {
                    anim.rebound(v.sprite, s)
                } else {
                    v.sprite
                }
            },
            ..v
        }
    }
}

/// Fourth step: time runs, and a fired timer advances the frame; a wrap ends
/// a one-shot.
pub open spec fn frame_step(playing: bool, v: ActorView, delta: u64) -> ActorView {
    if !playing || !fires(v.timer, delta) {
        if !playing {
            v
        } else {
            ActorView {
                timer: FrameTimer {
                    duration: v.timer.duration,
                    elapsed: elapsed_after(v.timer, delta) as u64,
                },
                ..v
            }
        }
    } else {
        let len = v.frames.len() as int;
        let wrapped = advance_wraps(len, v.offset);
        let offset = advance_offset(len, v.offset);
        ActorView {
            timer: FrameTimer {
                duration: v.timer.duration,
                elapsed: elapsed_after(v.timer, delta) as u64,
            },
            offset,
            sprite: Sprite { index: shown_frame(v.frames, offset), ..v.sprite },
            mode: if wrapped {
                mode_after_wrap(v.mode)
            } else {
                v.mode
            },
            death: if wrapped {
                death_after_wrap(v.mode, v.death)
            } else {
                v.death
            },
            ..v
        }
    }
}

/// One tick of an actor whose tables are those of `anim`: the four steps in
/// order.
pub open spec fn actor_step(anim: DirectionalAnimation, follows: bool, v: ActorView, delta: u64) -> ActorView {
    frame_step(anim.playing, rebind_step(anim, movement_step(follows, turn_step(v))), delta)
}

/// After a change of state, the frames bound are those of the new state's
/// table, also where the direction stays the same.
pub proof fn lemma_state_change_uses_new_table(anim: DirectionalAnimation, v: ActorView)
    requires
        state_of(v.mode) != v.last_state,
    ensures
        rebind_step(anim, v).frames == anim.frames_of(state_of(v.mode), v.direction),
        rebind_step(anim, v).last_state == state_of(v.mode),
        rebind_step(anim, v).offset == 0,
{
}

impl Actor {
    /// An actor that starts as `bundle` describes, alive, able to collide,
    /// with `velocity` already taken into account.
    pub fn from_bundle(
        bundle: AnimationBundle,
        velocity: Velocity,
        follows_velocity: bool,
        position: Position,
        health: Health,
    ) -> (r: Actor)
        requires
            bundle.indices.wf(),
        ensures
            r.wf(),
            r.animation == bundle.animation,
            r.direction == bundle.direction,
            r.mode == bundle.mode,
            r.sprite == bundle.sprite,
            r.indices == bundle.indices,
            r.velocity == velocity,
            !r.velocity_changed,
            r.follows_velocity == follows_velocity,
            r.position == position,
            r.health == health,
            r.death is None,
            r.collider,
    {
        Actor {
            animation: bundle.animation,
            direction: bundle.direction,
            mode: bundle.mode,
            sprite: bundle.sprite,
            indices: bundle.indices,
            velocity,
            velocity_changed: false,
            follows_velocity,
            position,
            health,
            death: None,
            collider: true,
        }
    }

    /// Runs one tick of `delta` nanoseconds: facing, movement-driven state,
    /// rebinding, then frame advance.
    pub fn update(&mut self, delta: u64)
        requires
            old(self).wf(),
        ensures
            final(self).wf(),
            final(self).same_config(old(self)),
            final(self).view() == actor_step(
                old(self).animation,
                old(self).follows_velocity,
                old(self).view(),
                delta,
            ),
    {
        update_direction_from_velocity(&mut self.direction, self.velocity);
        if self.follows_velocity && self.velocity_changed {
            velocity_state_transitions(&mut self.mode, self.velocity);
        }
        self.velocity_changed = false;
        directional_animation_state_or_direction_change(
            &mut self.animation,
            &self.mode,
            self.direction,
            &mut self.sprite,
            &mut self.indices,
        );
        directional_animation_tick(
            &mut self.animation,
            &mut self.indices,
            &mut self.sprite,
            &mut self.mode,
            &mut self.death,
            delta,
        );
    }
}

/// How an actor's view stands after one tick of `delta`.
pub open spec fn stepped(a: Actor, delta: u64) -> ActorView {
    actor_step(a.animation, a.follows_velocity, a.view(), delta)
}

/// Whether an actor is dead at the end of a tick, and so leaves the world.
pub open spec fn dies(a: Actor, delta: u64) -> bool {
    stepped(a, delta).death == Some(Death::Dead)
}

/// Death waits for the animation: a tick never removes a living actor, nor a
/// dying one whose animation is paused.
pub proof fn lemma_death_is_animation_gated(a: Actor, delta: u64)
    ensures
        a.death is None ==> !dies(a, delta),
        a.death == Some(Death::Dying) && !a.animation.playing ==> !dies(a, delta),
{
}

/// How one slot of the world relates before and after a tick: an empty slot
/// stays empty, an actor that dies leaves it, any other actor has ticked.
pub open spec fn slot_stepped(before: Option<Actor>, after: Option<Actor>, delta: u64) -> bool {
    match before {
        None => after is None,
        Some(a) => if dies(a, delta) {
            after is None
        } else {
            &&& after is Some
            &&& after->0.view() == stepped(a, delta)
            &&& after->0.same_config(&a)
        },
    }
}

/// The death notices of a tick over `slots`, in slot order: one for each actor
/// that dies, at its position.
pub open spec fn dead_events(slots: Seq<Option<Actor>>, delta: u64) -> Seq<DeathEvent>
    decreases slots.len(),
{
    if slots.len() == 0 {
        Seq::empty()
    } else {
        let rest = dead_events(slots.drop_last(), delta);
        match slots.last() {
            Some(a) => if dies(a, delta) {
                rest.push(DeathEvent { position: a.position })
            } else {
                rest
            },
            None => rest,
        }
    }
}

/// All actors, each under the identifier it was spawned with, and the death
/// notices not yet collected.
#[derive(Debug)]
pub struct World {
    actors: Vec<Option<Actor>>,
    death_events: Vec<DeathEvent>,
}

impl World {
    /// The slot of each identifier; an empty slot is an actor that is gone.
    pub closed spec fn slots(&self) -> Seq<Option<Actor>> {
        self.actors@
    }

    /// The death notices not yet collected, oldest first.
    pub closed spec fn events(&self) -> Seq<DeathEvent> {
        self.death_events@
    }

    pub open spec fn wf(&self) -> bool {
        forall|i: int|
            0 <= i < self.slots().len() && #[trigger] self.slots()[i] is Some ==> self.slots()[i]->0.wf()
    }

    pub fn new() -> (r: World)
        ensures
            r.wf(),
            r.slots().len() == 0,
            r.events().len() == 0,
    {
        World { actors: Vec::new(), death_events: Vec::new() }
    }

    /// A world that differs from a well-formed one in slot `id` alone, where
    /// it holds a well-formed actor or none, is well formed.
    proof fn lemma_wf_after_put(&self, before: &World, id: usize)
        requires
            before.wf(),
            id < before.slots().len(),
            self.slots().len() == before.slots().len(),
            forall|j: int| 0 <= j < self.slots().len() && j != id ==> #[trigger] self.slots()[j] == before.slots()[j],
            self.slots()[id as int] is Some ==> self.slots()[id as int]->0.wf(),
        ensures
            self.wf(),
    {
        assert forall|i: int|
            0 <= i < self.slots().len() && #[trigger] self.slots()[i] is Some implies self.slots()[i]->0.wf() by {
            if i != id {
                assert(self.slots()[i] == before.slots()[i]);
            }
        }
    }

    /// Adds an actor and returns its identifier.
    pub fn spawn(&mut self, actor: Actor) -> (id: usize)
        requires
            old(self).wf(),
            actor.wf(),
        ensures
            final(self).wf(),
            id == old(self).slots().len(),
            final(self).slots() == old(self).slots().push(Some(actor)),
            final(self).events() == old(self).events(),
    {
        let id = self.actors.len();
        self.actors.push(Some(actor));
        proof {
            assert forall|i: int|
                0 <= i < self.slots().len() && #[trigger] self.slots()[i] is Some implies self.slots()[i]->0.wf() by {
                if i < id {
                    assert(old(self).slots()[i] == self.slots()[i]);
                }
            }
        }
        id
    }

    /// The actor `id`, if it is still there.
    pub fn actor(&self, id: usize) -> (r: Option<&Actor>)
        ensures
            id < self.slots().len() && self.slots()[id as int] is Some ==> r == Some(
                &self.slots()[id as int]->0,
            ),
            !(id < self.slots().len() && self.slots()[id as int] is Some) ==> r is None,
    {
        if id < self.actors.len() {
            self.actors[id].as_ref()
        } else {
            None
        }
    }

    pub open spec fn contains_spec(&self, id: usize) -> bool {
        id < self.slots().len() && self.slots()[id as int] is Some
    }

    /// Whether the actor `id` is still there.
    #[verifier::when_used_as_spec(contains_spec)]
    pub fn contains(&self, id: usize) -> (r: bool)
        ensures
            r == self.contains_spec(id),
    {
        id < self.actors.len() && self.actors[id].is_some()
    }

    /// Hands out the death notices gathered so far, oldest first.
    pub fn drain_death_events(&mut self) -> (r: Vec<DeathEvent>)
        requires
            old(self).wf(),
        ensures
            final(self).wf(),
            r@ == old(self).events(),
            final(self).events().len() == 0,
            final(self).slots() == old(self).slots(),
    {
        let mut r: Vec<DeathEvent> = Vec::new();
        std::mem::swap(&mut r, &mut self.death_events);
        r
    }

    /// Whether the world after a change of slot `id` differs from this one in
    /// that slot alone.
    pub open spec fn others_kept(&self, before: &World, id: usize) -> bool {
        &&& self.slots().len() == before.slots().len()
        &&& forall|j: int| 0 <= j < self.slots().len() && j != id ==> #[trigger] self.slots()[j] == before.slots()[j]
        &&& self.events() == before.events()
    }

    /// Takes the actor out of slot `id`, leaving it empty.
    fn take_slot(&mut self, id: usize) -> (r: Option<Actor>)
        requires
            id < old(self).slots().len(),
        ensures
            r == old(self).slots()[id as int],
            final(self).slots() == old(self).slots().update(id as int, None),
            final(self).events() == old(self).events(),
    {
        let mut slot: Option<Actor> = None;
        std::mem::swap(&mut slot, &mut self.actors[id]);
        slot
    }

    /// Puts `slot` into slot `id`.
    fn put_slot(&mut self, id: usize, slot: Option<Actor>)
        requires
            id < old(self).slots().len(),
        ensures
            final(self).slots() == old(self).slots().update(id as int, slot),
            final(self).events() == old(self).events(),
    {
        self.actors.set(id, slot);
    }

    /// Gives the actor `id` a new velocity, to be taken into account on the
    /// next tick. Returns whether the actor is there.
    pub fn set_velocity(&mut self, id: usize, velocity: Velocity) -> (r: bool)
        requires
            old(self).wf(),
        ensures
            final(self).wf(),
            r == old(self).contains_spec(id),
            !r ==> final(self).slots() == old(self).slots() && final(self).events() == old(self).events(),
            r ==> final(self).others_kept(old(self), id) && final(self).slots()[id as int] == Some(
                Actor { velocity, velocity_changed: true, ..old(self).slots()[id as int]->0 },
            ),
    {
        if id >= self.actors.len() {
            return false;
        }
        match self.take_slot(id) {
            Some(mut actor) => {
                actor.velocity = velocity;
                actor.velocity_changed = true;
                self.put_slot(id, Some(actor));
                proof { self.lemma_wf_after_put(old(self), id); }
                true
            },
            None => {
                proof { assert(self.slots() =~= old(self).slots()); }
                false
            },
        }
    }

    /// Deals `damage` to the actor `id`; one left without health starts
    /// dying. Returns whether it started dying: false where the actor is gone
    /// or was already dying.
    pub fn hit(&mut self, id: usize, damage: u64) -> (r: bool)
        requires
            old(self).wf(),
        ensures
            final(self).wf(),
            !old(self).contains_spec(id) ==> !r && final(self).slots() == old(self).slots()
                && final(self).events() == old(self).events(),
            old(self).contains_spec(id) ==> ({
                let a = old(self).slots()[id as int]->0;
                let health = if damage >= a.health.current {
                    0
                } else {
                    a.health.current - damage
                };
                &&& final(self).others_kept(old(self), id)
                &&& r == (health == 0 && a.death is None)
                &&& final(self).slots()[id as int] == Some(
                    if r {
                        Actor {
                            health: Health { current: health as u64, ..a.health },
                            mode: death_mode(),
                            death: Some(Death::Dying),
                            collider: false,
                            ..a
                        }
                    } else {
                        Actor { health: Health { current: health as u64, ..a.health }, ..a }
                    },
                )
            }),
    {
        if id >= self.actors.len() {
            return false;
        }
        match self.take_slot(id) {
            Some(mut actor) => {
                let started = get_hit(
                    &mut actor.health,
                    &mut actor.mode,
                    &mut actor.death,
                    &mut actor.collider,
                    damage,
                );
                self.put_slot(id, Some(actor));
                proof { self.lemma_wf_after_put(old(self), id); }
                started
            },
            None => {
                proof { assert(self.slots() =~= old(self).slots()); }
                false
            },
        }
    }

    /// Asks the actor `id` to play `mode`, as any gameplay rule may (an
    /// attack, say). The mode is installed only where the current one may be
    /// replaced. Returns whether it was installed.
    pub fn set_mode(&mut self, id: usize, mode: CharacterStateMode) -> (r: bool)
        requires
            old(self).wf(),
        ensures
            final(self).wf(),
            !old(self).contains_spec(id) ==> !r && final(self).slots() == old(self).slots()
                && final(self).events() == old(self).events(),
            old(self).contains_spec(id) ==> ({
                let a = old(self).slots()[id as int]->0;
                &&& final(self).others_kept(old(self), id)
                &&& r == replaceable(a.mode)
                &&& final(self).slots()[id as int] == Some(
                    Actor { mode: set_if_replaceable(a.mode, mode), ..a },
                )
            }),
    {
        if id >= self.actors.len() {
            return false;
        }
        match self.take_slot(id) {
            Some(mut actor) => {
                let installed = actor.mode.try_set(mode);
                self.put_slot(id, Some(actor));
                proof { self.lemma_wf_after_put(old(self), id); }
                installed
            },
            None => {
                proof { assert(self.slots() =~= old(self).slots()); }
                false
            },
        }
    }

    /// Runs one tick of `delta` nanoseconds for every actor, in identifier
    /// order. An actor that is dead at the end of its tick leaves the world,
    /// and a death notice at its position is queued.
    pub fn step(&mut self, delta: u64)
        requires
            old(self).wf(),
        ensures
            final(self).wf(),
            final(self).slots().len() == old(self).slots().len(),
            forall|i: int|
                0 <= i < old(self).slots().len() ==> slot_stepped(
                    #[trigger] old(self).slots()[i],
                    final(self).slots()[i],
                    delta,
                ),
            final(self).events() == old(self).events() + dead_events(old(self).slots(), delta),
    {
        let n = self.actors.len();
        let mut i: usize = 0;
        while i < n
            invariant
                self.wf(),
                0 <= i <= n,
                n == old(self).slots().len(),
                self.slots().len() == n,
                forall|j: int| 0 <= j < i ==> slot_stepped(#[trigger] old(self).slots()[j], self.slots()[j], delta),
                forall|j: int| i <= j < n ==> #[trigger] self.slots()[j] == old(self).slots()[j],
                self.events() == old(self).events() + dead_events(old(self).slots().take(i as int), delta),
            decreases n - i,
        {
            let ghost before = *self;
            let ghost olds = old(self).slots();
            assert(olds.take(i + 1).drop_last() =~= olds.take(i as int));
            assert(olds.take(i + 1).last() == olds[i as int]);
            let slot = self.take_slot(i);
            match slot {
                Some(mut actor) => {
                    assert(before.slots()[i as int] is Some);
                    actor.update(delta);
                    match die_when_dead(actor.death, actor.position) {
                        Some(event) => {
                            self.death_events.push(event);
                        },
                        None => {
                            self.put_slot(i, Some(actor));
                        },
                    }
                },
                None => {
                    self.put_slot(i, None);
                },
            }
            proof {
                self.lemma_wf_after_put(&before, i);
                assert(self.events() =~= old(self).events() + dead_events(olds.take(i + 1), delta));
            }
            i = i + 1;
        }
        assert(old(self).slots().take(n as int) =~= old(self).slots());
    }
}

} // verus!
