use vstd::prelude::*;
use crate::direction::Direction;
use crate::frames::{
    advance_offset, advance_wraps, row_frames, shown_frame, AnimationIndices, DirectionalIndices,
};
use crate::lifecycle::Death;
use crate::state::{state_of, CharacterState, CharacterStateMode, OnOneShotEnd};
use crate::table::StateTable;
use crate::timer::{elapsed_after, fires, FrameTimer};

verus! {

/// A sprite sheet, as the renderer knows it.
#[derive(Clone, Copy, Debug, PartialEq, Eq, Hash, Structural)]
pub struct TextureId(pub u64);

/// A grid layout that cuts a sprite sheet into frames, as the renderer knows it.
#[derive(Clone, Copy, Debug, PartialEq, Eq, Hash, Structural)]
pub struct AtlasId(pub u64);

/// What is drawn for an actor: a sheet, its layout, and the frame shown.
#[derive(Clone, Copy, Debug, PartialEq, Eq, Structural)]
pub struct Sprite {
    pub image: TextureId,
    pub layout: AtlasId,
    pub index: usize,
}

/// Why an actor's first sprite could not be made.
#[derive(Clone, Copy, Debug, PartialEq, Eq, Structural)]
pub enum AnimationError {
    /// No sheet is registered for the state.
    MissingTexture(CharacterState),
    /// No layout is registered for the state.
    MissingAtlas(CharacterState),
}

/// Per actor: the frame timer, what was last drawn, and what each state draws.
#[derive(Debug)]
pub struct DirectionalAnimation {
    pub timer: FrameTimer,
    /// The state whose sheet is bound.
    pub last_state: CharacterState,
    /// The direction whose frames are bound.
    pub last_direction: Direction,
    /// Per state, how long each frame shows, in nanoseconds.
    pub frame_durations: StateTable<u64>,
    pub state_textures: StateTable<TextureId>,
    pub state_atlases: StateTable<AtlasId>,
    pub state_indices: StateTable<DirectionalIndices>,
    /// While false, time does not run and no frame advances.
    pub playing: bool,
}

/// The value held in `o`, or `d`.
pub open spec fn or_default<T>(o: Option<T>, d: T) -> T {
    match o {
        Some(v) => v,
        None => d,
    }
}

impl DirectionalAnimation {
    /// The frame interval of state `s`: zero where none is configured.
    pub open spec fn duration_of(&self, s: CharacterState) -> u64 {
        or_default(self.frame_durations.lookup(s), 0)
    }

    /// The frames of state `s` facing `d`: none where the tables hold none.
    pub open spec fn frames_of(&self, s: CharacterState, d: Direction) -> Seq<usize> {
        match self.state_indices.lookup(s) {
            Some(t) => or_default(t.lookup(d), Seq::empty()),
            None => Seq::empty(),
        }
    }

    /// `sprite` bound to the sheet and layout of state `s`; a part that `s`
    /// has none of stays as it was. A new layout starts at frame 0.
    pub open spec fn rebound(&self, sprite: Sprite, s: CharacterState) -> Sprite {
        Sprite {
            image: or_default(self.state_textures.lookup(s), sprite.image),
            layout: or_default(self.state_atlases.lookup(s), sprite.layout),
            index: if self.state_atlases.lookup(s) is Some {
                0
            } else {
                sprite.index
            },
        }
    }

    /// The tables and the playing flag, which the per-tick updates never change.
    pub open spec fn same_config(&self, other: &DirectionalAnimation) -> bool {
        &&& self.frame_durations == other.frame_durations
        &&& self.state_textures == other.state_textures
        &&& self.state_atlases == other.state_atlases
        &&& self.state_indices == other.state_indices
        &&& self.playing == other.playing
    }

    /// A driver that starts out on `initial_state`, facing down-right, with a
    /// zero-length timer, playing.
    pub fn new(
        frame_durations: StateTable<u64>,
        textures: StateTable<TextureId>,
        atlases: StateTable<AtlasId>,
        indices: StateTable<DirectionalIndices>,
        initial_state: CharacterState,
    ) -> (r: DirectionalAnimation)
        ensures
            r.timer == FrameTimer::new_spec(0),
            r.last_state == initial_state,
            r.last_direction == Direction::DownRight,
            r.frame_durations == frame_durations,
            r.state_textures == textures,
            r.state_atlases == atlases,
            r.state_indices == indices,
            r.playing,
    {
        DirectionalAnimation {
            timer: FrameTimer::new(0),
            last_state: initial_state,
            last_direction: Direction::default(),
            frame_durations,
            state_textures: textures,
            state_atlases: atlases,
            state_indices: indices,
            playing: true,
        }
    }

    /// The sprite of the current state, on frame 0. Fails when that state has
    /// no sheet, or else no layout.
    pub fn to_sprite(&self) -> (r: Result<Sprite, AnimationError>)
        ensures
            self.state_textures.lookup(self.last_state) is None ==> r == Err::<
                Sprite,
                AnimationError,
            >(AnimationError::MissingTexture(self.last_state)),
            self.state_textures.lookup(self.last_state) is Some && self.state_atlases.lookup(
                self.last_state,
            ) is None ==> r == Err::<Sprite, AnimationError>(
                AnimationError::MissingAtlas(self.last_state),
            ),
            self.state_textures.lookup(self.last_state) is Some && self.state_atlases.lookup(
                self.last_state,
            ) is Some ==> r == Ok::<Sprite, AnimationError>(
                Sprite {
                    image: self.state_textures.lookup(self.last_state)->0,
                    layout: self.state_atlases.lookup(self.last_state)->0,
                    index: 0,
                },
            ),
    {
        let texture = match self.state_textures.get(self.last_state) {
            Some(t) => *t,
            None => {
                return Err(AnimationError::MissingTexture(self.last_state));
            },
        };
        let layout = match self.state_atlases.get(self.last_state) {
            Some(a) => *a,
            None => {
                return Err(AnimationError::MissingAtlas(self.last_state));
            },
        };
        Ok(Sprite { image: texture, layout, index: 0 })
    }

    /// Binds the sheet, layout and frame interval of `state`, and records it
    /// as the bound state. The time run is kept.
    pub fn set_texture_atlas_and_timer_of_state(
        &mut self,
        sprite: &mut Sprite,
        state: CharacterState,
    )
        ensures
            *final(sprite) == old(self).rebound(*old(sprite), state),
            final(self).timer == (FrameTimer {
                duration: old(self).duration_of(state),
                elapsed: old(self).timer.elapsed,
            }),
            final(self).last_state == state,
            final(self).last_direction == old(self).last_direction,
            final(self).same_config(old(self)),
    {
        if let Some(new_texture) = self.state_textures.get(state) {
            sprite.image = *new_texture;
        }
        if let Some(new_atlas) = self.state_atlases.get(state) {
            sprite.layout = *new_atlas;
            sprite.index = 0;
        }
        let duration = match self.frame_durations.get(state) {
            Some(d) => *d,
            None => 0,
        };
        self.timer.set_duration(duration);
        self.last_state = state;
    }

    /// Binds the frames of the bound state facing `direction` (none where the
    /// tables hold none, which shows frame 0), and records the direction.
    pub fn set_indices_of_direction(&mut self, indices: &mut AnimationIndices, direction: Direction)
        ensures
            final(indices).indices@ == old(self).frames_of(old(self).last_state, direction),
            final(indices).current_offset == 0,
            final(indices).wf(),
            final(self).last_direction == direction,
            final(self).last_state == old(self).last_state,
            final(self).timer == old(self).timer,
            final(self).same_config(old(self)),
    {
        let frames: Vec<usize> = match self.state_indices.get(self.last_state) {
            Some(table) => match table.get(direction) {
                Some(f) => {
                    let c = f.clone();
                    assert(c@ =~= f@);
                    c
                },
                None => Vec::new(),
            },
            None => Vec::new(),
        };
        indices.set_indices(frames);
        self.last_direction = direction;
    }
}

/// The mode after a one-shot has played through: one that ends by going back
/// to a state loops that state; any other mode stays.
pub open spec fn mode_after_wrap(m: CharacterStateMode) -> CharacterStateMode {
    match m {
        CharacterStateMode::OneShot { on_end: OnOneShotEnd::SetState(s), .. } => {
            CharacterStateMode::Continuous(s)
        },
        _ => m,
    }
}

/// Whether a mode is a one-shot whose end is the actor's death.
pub open spec fn ends_in_death(m: CharacterStateMode) -> bool {
    m matches CharacterStateMode::OneShot { on_end: OnOneShotEnd::Die, .. }
}

/// The lifecycle marker after a wrap in mode `m`: a dying (or dead) actor
/// whose death one-shot has played through is dead; an actor without the
/// marker keeps none.
pub open spec fn death_after_wrap(m: CharacterStateMode, d: Option<Death>) -> Option<Death> {
    if ends_in_death(m) && d is Some {
        Some(Death::Dead)
    } else {
        d
    }
}

/// Rebinds an actor whose state or direction differs from what its driver
/// last bound. A new state binds its sheet, layout and frame interval first;
/// then the frames are looked up in the tables of that new state for the
/// current direction, whether or not the direction changed. After any change
/// the timer and the cursor start over and the sprite shows the first frame of
/// the new list. Without a change nothing is touched.
pub fn directional_animation_state_or_direction_change(
    anim: &mut DirectionalAnimation,
    mode: &CharacterStateMode,
    direction: Direction,
    sprite: &mut Sprite,
    indices: &mut AnimationIndices,
)
    ensures
        ({
            let s = state_of(*mode);
            let state_changed = s != old(anim).last_state;
            let changed = state_changed || direction != old(anim).last_direction;
            &&& !changed ==> {
                &&& *final(anim) == *old(anim)
                &&& *final(sprite) == *old(sprite)
                &&& *final(indices) == *old(indices)
            }
            &&& changed ==> {
                &&& final(anim).same_config(old(anim))
                &&& final(anim).last_state == s
                &&& final(anim).last_direction == direction
                &&& final(anim).timer == FrameTimer::new_spec(
                    if state_changed {
                        old(anim).duration_of(s)
                    } else {
                        old(anim).timer.duration
                    },
                )
                &&& final(indices).indices@ == old(anim).frames_of(s, direction)
                &&& final(indices).current_offset == 0
                &&& final(indices).wf()
                &&& *final(sprite) == (Sprite {
                    index: shown_frame(old(anim).frames_of(s, direction), 0),
                    ..if state_changed {
                        old(anim).rebound(*old(sprite), s)
                    } else {
                        *old(sprite)
                    }
                })
            }
        }),
{
    let state = mode.get_state();
    let state_changed = state != anim.last_state;
    let direction_changed = direction != anim.last_direction;
    if state_changed {
        anim.set_texture_atlas_and_timer_of_state(sprite, state);
    }
    if state_changed || direction_changed {
        anim.set_indices_of_direction(indices, direction);
        anim.timer.reset();
        sprite.index = indices.get_index();
    }
}

/// Runs an actor's frame timer by `delta` nanoseconds. When it fires, the
/// cursor advances one frame and the sprite shows it; if that wrapped, a
/// one-shot has ended: one that ends in death marks a dying actor dead, and
/// one that ends by going back to a state loops that state. Returns whether
/// the cursor wrapped. A driver that is not playing is left as it is.
pub fn directional_animation_tick(
    anim: &mut DirectionalAnimation,
    indices: &mut AnimationIndices,
    sprite: &mut Sprite,
    mode: &mut CharacterStateMode,
    death: &mut Option<Death>,
    delta: u64,
) -> (wrapped: bool)
    requires
        old(indices).wf(),
    ensures
        final(indices).wf(),
        !old(anim).playing ==> {
            &&& !wrapped
            &&& *final(anim) == *old(anim)
            &&& *final(indices) == *old(indices)
            &&& *final(sprite) == *old(sprite)
            &&& *final(mode) == *old(mode)
            &&& *final(death) == *old(death)
        },
        old(anim).playing ==> ({
            let fired = fires(old(anim).timer, delta);
            let len = old(indices).indices.len() as int;
            let offset = old(indices).current_offset as int;
            &&& *final(anim) == (DirectionalAnimation {
                timer: FrameTimer {
                    duration: old(anim).timer.duration,
                    elapsed: elapsed_after(old(anim).timer, delta) as u64,
                },
                ..*old(anim)
            })
            &&& final(indices).indices@ == old(indices).indices@
            &&& wrapped == (fired && advance_wraps(len, offset))
            &&& final(indices).current_offset == if fired {
                advance_offset(len, offset)
            } else {
                offset
            }
            &&& *final(sprite) == if fired {
                Sprite {
                    index: shown_frame(old(indices).indices@, advance_offset(len, offset)),
                    ..*old(sprite)
                }
            } else {
                *old(sprite)
            }
            &&& *final(mode) == if wrapped {
                mode_after_wrap(*old(mode))
            } else {
                *old(mode)
            }
            &&& *final(death) == if wrapped {
                death_after_wrap(*old(mode), *old(death))
            } else {
                *old(death)
            }
        }),
{
    if !anim.playing {
        return false;
    }
    let fired = anim.timer.tick(delta);
    if !fired {
        return false;
    }
    let wrapped = indices.advance();
    if wrapped {
        match *mode {
            CharacterStateMode::OneShot { on_end: OnOneShotEnd::Die, .. } => {
                if death.is_some() {
                    *death = Some(Death::Dead);
                }
            },
            CharacterStateMode::OneShot { on_end: OnOneShotEnd::SetState(s), .. } => {
                *mode = CharacterStateMode::Continuous(s);
            },
            CharacterStateMode::Continuous(_) => {},
        }
    }
    sprite.index = indices.get_index();
    wrapped
}

/// How one state's sheet is laid out: four stacked rows (down-right,
/// down-left, up-right, up-left) of `row_length` frames, each shown for
/// `frame_duration` nanoseconds.
#[derive(Clone, Copy, Debug, PartialEq, Eq, Structural)]
pub struct DirectionalAnimationAssetPerState {
    pub row_length: usize,
    pub frame_duration: u64,
}

/// The sheet layout of each state that an actor can show.
#[derive(Clone, Debug)]
pub struct DirectionalAnimationAsset(pub StateTable<DirectionalAnimationAssetPerState>);

impl DirectionalAnimationAsset {
    /// Every row length leaves room for four rows of frame indices.
    pub open spec fn fits(&self) -> bool {
        forall|s: CharacterState| #[trigger]
            self.0.lookup(s) is Some ==> self.0.lookup(s)->0.row_length * 4 <= usize::MAX
    }
}

/// Everything an animated actor starts with.
#[derive(Debug)]
pub struct AnimationBundle {
    pub animation: DirectionalAnimation,
    pub direction: Direction,
    pub mode: CharacterStateMode,
    pub sprite: Sprite,
    pub indices: AnimationIndices,
}

/// Whether `anim`'s tables are those that `asset` describes: a frame interval
/// and a four-row frame table for each state the asset lists, and nothing
/// for the others.
pub open spec fn tables_from_asset(anim: DirectionalAnimation, asset: DirectionalAnimationAsset) -> bool {
    forall|s: CharacterState| #![trigger asset.0.lookup(s)]
        match asset.0.lookup(s) {
            Some(a) => {
                &&& anim.frame_durations.lookup(s) == Some(a.frame_duration)
                &&& anim.state_indices.lookup(s) is Some
                &&& forall|d: Direction| #[trigger]
                    anim.state_indices.lookup(s)->0.lookup(d) == Some(
                        row_frames(a.row_length as int, d),
                    )
            },
            None => {
                &&& anim.frame_durations.lookup(s) is None
                &&& anim.state_indices.lookup(s) is None
            },
        }
}

fn add_state_from_asset(
    durations: &mut StateTable<u64>,
    tables: &mut StateTable<DirectionalIndices>,
    asset: &DirectionalAnimationAsset,
    s: CharacterState,
)
    requires
        asset.fits(),
    ensures
        forall|o: CharacterState| o != s ==> final(durations).lookup(o) == old(durations).lookup(o),
        forall|o: CharacterState| o != s ==> final(tables).lookup(o) == old(tables).lookup(o),
        asset.0.lookup(s) is None ==> *final(durations) == *old(durations) && *final(tables)
            == *old(tables),
        asset.0.lookup(s) is Some ==> {
            &&& final(durations).lookup(s) == Some(asset.0.lookup(s)->0.frame_duration)
            &&& final(tables).lookup(s) is Some
            &&& forall|d: Direction| #[trigger]
                final(tables).lookup(s)->0.lookup(d) == Some(
                    row_frames(asset.0.lookup(s)->0.row_length as int, d),
                )
        },
{
    if let Some(per_state) = asset.0.get(s) {
        assert(asset.0.lookup(s) is Some);
        durations.insert(s, per_state.frame_duration);
        tables.insert(s, DirectionalIndices::of_rows(per_state.row_length));
    }
}

/// Builds an actor that walks, facing down-right, from its sheets, the
/// layouts made for them and the asset that describes them. Fails when the
/// walking state has no sheet, or else no layout.
pub fn directional_animation_bundle(
    textures: StateTable<TextureId>,
    atlases: StateTable<AtlasId>,
    asset: &DirectionalAnimationAsset,
) -> (r: Result<AnimationBundle, AnimationError>)
    requires
        asset.fits(),
    ensures
        textures.lookup(CharacterState::Walking) is None ==> r matches Err(
            AnimationError::MissingTexture(CharacterState::Walking),
        ),
        textures.lookup(CharacterState::Walking) is Some && atlases.lookup(
            CharacterState::Walking,
        ) is None ==> r matches Err(AnimationError::MissingAtlas(CharacterState::Walking)),
        textures.lookup(CharacterState::Walking) is Some && atlases.lookup(
            CharacterState::Walking,
        ) is Some ==> (r matches Ok(b) && {
            let walking = asset.0.lookup(CharacterState::Walking);
            let frames = if walking is Some {
                row_frames(walking->0.row_length as int, Direction::DownRight)
            } else {
                Seq::empty()
            };
            &&& b.mode == CharacterStateMode::Continuous(CharacterState::Walking)
            &&& b.direction == Direction::DownRight
            &&& b.animation.last_state == CharacterState::Walking
            &&& b.animation.last_direction == Direction::DownRight
            &&& b.animation.playing
            &&& b.animation.timer == FrameTimer::new_spec(
                if walking is Some {
                    walking->0.frame_duration
                } else {
                    0
                },
            )
            &&& b.animation.state_textures == textures
            &&& b.animation.state_atlases == atlases
            &&& tables_from_asset(b.animation, *asset)
            &&& b.sprite == (Sprite {
                image: textures.lookup(CharacterState::Walking)->0,
                layout: atlases.lookup(CharacterState::Walking)->0,
                index: 0,
            })
            &&& b.indices.indices@ == frames
            &&& b.indices.current_offset == 0
            &&& b.indices.wf()
        }),
{
    let character_state = CharacterStateMode::Continuous(CharacterState::Walking);
    let mut durations: StateTable<u64> = StateTable::new();
    let mut tables: StateTable<DirectionalIndices> = StateTable::new();
    add_state_from_asset(&mut durations, &mut tables, asset, CharacterState::Idle);
    add_state_from_asset(&mut durations, &mut tables, asset, CharacterState::Walking);
    add_state_from_asset(&mut durations, &mut tables, asset, CharacterState::Death);
    let mut animation = DirectionalAnimation::new(
        durations,
        textures,
        atlases,
        tables,
        character_state.get_state(),
    );
    assert forall|s: CharacterState| #![trigger asset.0.lookup(s)]
        s == CharacterState::Idle || s == CharacterState::Walking || s == CharacterState::Death by {
    }
    let direction = Direction::default();
    let mut sprite = match animation.to_sprite() {
        Ok(sprite) => sprite,
        Err(e) => {
            return Err(e);
        },
    };
    let mut indices = AnimationIndices::new();
    animation.set_texture_atlas_and_timer_of_state(&mut sprite, character_state.get_state());
    animation.set_indices_of_direction(&mut indices, direction);
    Ok(AnimationBundle { animation, direction, mode: character_state, sprite, indices })
}

} // verus!
