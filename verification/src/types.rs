//! Shared plain types of the simulation core: 2D vectors, entity identities,
//! entity kinds, abstract input intents, and the identity allocator.

use vstd::prelude::*;

verus! {

/// Width of the visible playfield, in pixels.
pub const SCREEN_WIDTH: u32 = 800;

/// Height of the visible playfield, in pixels.
pub const SCREEN_HEIGHT: u32 = 600;

/// A generous bound on world coordinates.  Keeping every position and the
/// camera within this box guarantees that the 32-bit arithmetic of one tick
/// (moves of a few pixels, screen offsets, tile offsets) cannot overflow.
pub const COORD_LIMIT: i32 = 1_000_000_000;

/// Stable identity of an entity: assigned once at construction, never reused
/// while the entity is alive, never mutated.
pub type Id = usize;

/// A 2D vector of signed integer coordinates; used both for positions and for
/// per-tick velocities.
#[derive(Clone, Copy, Debug, PartialEq, Eq, Structural)]
pub struct Position {
    pub x: i32,
    pub y: i32,
}

/// A per-tick displacement, added to a position once per tick.
pub type Velocity = Position;

impl Position {
    pub fn new(x: i32, y: i32) -> (r: Position)
        ensures
            r.x == x,
            r.y == y,
    {
        Position { x, y }
    }

    /// The vector sum of `self` and `v`.
    pub fn translated(self, v: Velocity) -> (r: Position)
        requires
            i32::MIN <= self.x + v.x <= i32::MAX,
            i32::MIN <= self.y + v.y <= i32::MAX,
        ensures
            r.x == self.x + v.x,
            r.y == self.y + v.y,
    {
        Position { x: self.x + v.x, y: self.y + v.y }
    }
}

/// Closed enumeration of entity kinds; drives behaviour dispatch and the
/// collision policy (notably "is this entity a projectile").
#[derive(Clone, Copy, Debug, PartialEq, Eq, Structural)]
pub enum ObjectType {
    Player,
    Enemy,
    Bullet,
    Unknown,
}

/// Abstract input intents captured once per tick from the input device.
#[derive(Clone, Copy, Debug, PartialEq, Eq, Structural)]
pub enum InputState {
    Up,
    Down,
    Left,
    Right,
    Shoot,
    Quit,
}

/// Issues process-unique entity identities: strictly increasing, never
/// duplicated, starting at 1.
#[derive(Clone, Copy, Debug, PartialEq, Eq, Structural)]
pub struct IdAllocator {
    pub counter: usize,
}

impl IdAllocator {
    pub fn new() -> (r: IdAllocator)
        ensures
            r.counter == 1,
    {
        IdAllocator { counter: 1 }
    }

    /// Starts issuing above every identity already in use.
    pub fn starting_at(counter: usize) -> (r: IdAllocator)
        ensures
            r.counter == counter,
    {
        IdAllocator { counter }
    }

    /// Returns a fresh identity; every later call returns a strictly larger one.
    pub fn next_id(&mut self) -> (r: Id)
        requires
            old(self).counter < usize::MAX,
        ensures
            r == old(self).counter,
            final(self).counter == old(self).counter + 1,
    {
        let id = self.counter;
        self.counter = self.counter + 1;
        id
    }
}

} // verus!
