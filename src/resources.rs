//! Values shared by all player systems.
use vstd::prelude::*;
use crate::animation::{Indices, State};
use crate::heading::Heading;

verus! {

/// The frame range that the player's animation currently runs through.
#[derive(Clone, Copy, Debug, PartialEq, Eq, Structural)]
pub struct AnimationIndices(pub Indices);

impl Default for AnimationIndices {
    /// The three-frame idle cycle of the first row.
    fn default() -> (r: AnimationIndices)
        ensures
            r == AnimationIndices(Indices { first: 0, last: 2 }),
    {
        AnimationIndices(Indices { first: 0, last: 2 })
    }
}

impl core::ops::Deref for AnimationIndices {
    type Target = Indices;

    fn deref(&self) -> (r: &Indices)
        ensures
            *r == self.0,
    {
        &self.0
    }
}

impl core::ops::DerefMut for AnimationIndices {
    fn deref_mut(&mut self) -> (r: &mut Indices)
        ensures
            *r == old(self).0,
            final(self).0 == *final(r),
    {
        &mut self.0
    }
}

/// One sprite-sheet layout per heading and animation state, made once and
/// picked each time either changes. `H` is how a layout is referred to.
pub struct SpriteLayouts<H> {
    pub north_idle: H,
    pub north_walk: H,
    pub east_idle: H,
    pub east_walk: H,
    pub south_idle: H,
    pub south_walk: H,
    pub west_idle: H,
    pub west_walk: H,
}

impl<H> SpriteLayouts<H> {
    /// The layout kept for `heading` in `state`.
    pub open spec fn slot(&self, heading: Heading, state: State) -> H {
        match (heading, state) {
            (Heading::North, State::Idle) => self.north_idle,
            (Heading::North, State::Active) => self.north_walk,
            (Heading::East, State::Idle) => self.east_idle,
            (Heading::East, State::Active) => self.east_walk,
            (Heading::South, State::Idle) => self.south_idle,
            (Heading::South, State::Active) => self.south_walk,
            (Heading::West, State::Idle) => self.west_idle,
            (Heading::West, State::Active) => self.west_walk,
        }
    }

    /// Keeps each layout under its heading, idle or walking.
    pub fn new(
        north_idle: H,
        north_walk: H,
        east_idle: H,
        east_walk: H,
        south_idle: H,
        south_walk: H,
        west_idle: H,
        west_walk: H,
    ) -> (r: SpriteLayouts<H>)
        ensures
            r.slot(Heading::North, State::Idle) == north_idle,
            r.slot(Heading::North, State::Active) == north_walk,
            r.slot(Heading::East, State::Idle) == east_idle,
            r.slot(Heading::East, State::Active) == east_walk,
            r.slot(Heading::South, State::Idle) == south_idle,
            r.slot(Heading::South, State::Active) == south_walk,
            r.slot(Heading::West, State::Idle) == west_idle,
            r.slot(Heading::West, State::Active) == west_walk,
    {
        SpriteLayouts {
            north_idle,
            north_walk,
            east_idle,
            east_walk,
            south_idle,
            south_walk,
            west_idle,
            west_walk,
        }
    }

    /// The layout for `heading` in `animation_state`.
    pub fn resolve(&self, heading: &Heading, animation_state: &State) -> (r: &H)
        ensures
            *r == self.slot(*heading, *animation_state),
    {
        match (heading, animation_state) {
            (Heading::North, State::Idle) => &self.north_idle,
            (Heading::North, State::Active) => &self.north_walk,
            (Heading::East, State::Idle) => &self.east_idle,
            (Heading::East, State::Active) => &self.east_walk,
            (Heading::South, State::Idle) => &self.south_idle,
            (Heading::South, State::Active) => &self.south_walk,
            (Heading::West, State::Idle) => &self.west_idle,
            (Heading::West, State::Active) => &self.west_walk,
        }
    }
}

} // verus!
