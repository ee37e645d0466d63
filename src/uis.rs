use vstd::prelude::*;

verus! {

/// The on-screen layers drawn over the game: the level-up cards, the fade-in
/// overlay and the main menu. They hold no animation or lifecycle rule of
/// their own; the engine glue registers them under this marker.
#[derive(Clone, Copy, Debug, PartialEq, Eq, Structural)]
pub struct UisPlugin;

} // verus!
