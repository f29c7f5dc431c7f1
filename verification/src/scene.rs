//! The scrolling world: a tile grid plus a camera position that moves up by
//! one pixel per tick.  `Scene` is the world the tick engine owns; `Level`
//! is the same data with a guarded scroll and a tile draw pass.

use vstd::prelude::*;

use crate::engine::Renderer;
use crate::types::COORD_LIMIT;
use crate::types::Position;
use crate::types::SCREEN_HEIGHT;

verus! {

/// The world state owned by the tick engine: camera position, grid extents
/// and one tile id per cell, row-major.
pub struct Scene {
    pub position: Position,
    pub width: u32,
    pub height: u32,
    pub tiles: Vec<u8>,
}

impl Scene {
    /// Starts the camera at the bottom of the map: the world is
    /// `height * 32` pixels tall and the camera shows the last
    /// `SCREEN_HEIGHT` of them.
    pub fn new(width: u32, height: u32, tiles: Vec<u8>) -> (r: Scene)
        requires
            SCREEN_HEIGHT <= height * 32 <= i32::MAX,
        ensures
            r.position.x == 0,
            r.position.y == height * 32 - SCREEN_HEIGHT,
            r.width == width,
            r.height == height,
            r.tiles@ == tiles@,
    {
        let position = Position::new(0, (height * 32 - SCREEN_HEIGHT) as i32);
        Scene { position, width, height, tiles }
    }

    /// Scrolls the camera up by one pixel, unconditionally.
    pub fn update(&mut self)
        requires
            old(self).position.y > i32::MIN,
        ensures
            final(self).position.x == old(self).position.x,
            final(self).position.y == old(self).position.y - 1,
            final(self).width == old(self).width,
            final(self).height == old(self).height,
            final(self).tiles@ == old(self).tiles@,
    {
        self.position = Position::new(self.position.x, self.position.y - 1);
    }
}

/// A loaded level: the same world data as `Scene`, with a scroll that stops
/// at the top of the map and a draw pass over the tile grid.
pub struct Level {
    pub position: Position,
    pub width: u32,
    pub height: u32,
    pub tiles: Vec<u8>,
}

impl Level {
    /// Starts the camera at the bottom of the map, as `Scene::new` does.
    pub fn new(width: u32, height: u32, tiles: Vec<u8>) -> (r: Level)
        requires
            SCREEN_HEIGHT <= height * 32 <= i32::MAX,
        ensures
            r.position.x == 0,
            r.position.y == height * 32 - SCREEN_HEIGHT,
            r.width == width,
            r.height == height,
            r.tiles@ == tiles@,
    {
        let position = Position::new(0, (height * 32 - SCREEN_HEIGHT) as i32);
        Level { position, width, height, tiles }
    }

    /// Scrolls the camera up by one pixel until it reaches the top of the
    /// map, then holds still.
    pub fn update(&mut self)
        ensures
            final(self).position.x == old(self).position.x,
            final(self).position.y == if old(self).position.y > 0 {
                old(self).position.y - 1
            } else {
                old(self).position.y as int
            },
            final(self).width == old(self).width,
            final(self).height == old(self).height,
            final(self).tiles@ == old(self).tiles@,
    {
        if self.position.y > 0 {
            self.position = Position::new(self.position.x, self.position.y - 1);
        }
    }

    /// Draws every non-empty tile at its grid position, shifted by the
    /// camera; tile id 0 marks an empty cell.
    pub fn draw<R: Renderer>(&self, renderer: &mut R)
        requires
            self.tiles@.len() == self.width * self.height,
            self.width * self.height <= usize::MAX,
            self.width * 32 <= COORD_LIMIT,
            self.height * 32 <= COORD_LIMIT,
            -COORD_LIMIT <= self.position.x <= COORD_LIMIT,
            -COORD_LIMIT <= self.position.y <= COORD_LIMIT,
    {
        let mut rows: u32 = 0;
        while rows < self.height
            invariant
                rows <= self.height,
                self.tiles@.len() == self.width * self.height,
                self.width * self.height <= usize::MAX,
                self.width * 32 <= COORD_LIMIT,
                self.height * 32 <= COORD_LIMIT,
                -COORD_LIMIT <= self.position.x <= COORD_LIMIT,
                -COORD_LIMIT <= self.position.y <= COORD_LIMIT,
            decreases self.height - rows,
        {
            let mut cols: u32 = 0;
            while cols < self.width
                invariant
                    rows < self.height,
                    cols <= self.width,
                    self.tiles@.len() == self.width * self.height,
                    self.width * self.height <= usize::MAX,
                    self.width * 32 <= COORD_LIMIT,
                    self.height * 32 <= COORD_LIMIT,
                    -COORD_LIMIT <= self.position.x <= COORD_LIMIT,
                    -COORD_LIMIT <= self.position.y <= COORD_LIMIT,
                decreases self.width - cols,
            {
                proof {
                    assert(rows * self.width + cols < self.width * self.height) by (nonlinear_arith)
                        requires
                            rows < self.height,
                            cols < self.width,
                    ;
                    assert(cols * 32 <= self.width * 32) by (nonlinear_arith)
                        requires
                            cols < self.width,
                    ;
                    assert(rows * 32 <= self.height * 32) by (nonlinear_arith)
                        requires
                            rows < self.height,
                    ;
                }
                let id = rows as usize * self.width as usize + cols as usize;
                let tile_id = self.tiles[id];
                if tile_id != 0 {
                    let x = cols as i32 * 32;
                    let y = rows as i32 * 32;
                    let tile_position = Position::new(x - self.position.x, y - self.position.y);
                    renderer.draw_tile("tiles", tile_position, tile_id - 1);
                }
                cols = cols + 1;
            }
            rows = rows + 1;
        }
    }
}

} // verus!
