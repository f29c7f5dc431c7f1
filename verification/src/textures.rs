//! Texture metadata: the sprite-sheet geometry a display surface needs to
//! cut one frame out of a texture.

use vstd::prelude::*;

use crate::geometry::Rect;

verus! {

/// Sprite-sheet geometry of one texture: frame size, the padding between
/// frames, and how many frames the sheet holds.
#[derive(Debug, PartialEq, Eq)]
pub struct TextureWrapper {
    pub texture_id: String,
    pub width: u32,
    pub height: u32,
    pub padding: u8,
    pub frames: u8,
}

impl TextureWrapper {
    pub fn new(texture_id: String, width: u32, height: u32, padding: u8, frames: u8) -> (r:
        TextureWrapper)
        ensures
            r.texture_id@ == texture_id@,
            r.width == width,
            r.height == height,
            r.padding == padding,
            r.frames == frames,
    {
        TextureWrapper { texture_id, width, height, padding, frames }
    }

    /// The source rectangle of the given frame on the sprite sheet: frames
    /// sit in a row, each one frame width plus padding apart, inset by the
    /// padding.
    pub fn src_rect(&self, frame: u32) -> (r: Rect)
        requires
            self.width + self.padding <= u32::MAX,
            frame * (self.width + self.padding) + self.padding <= i32::MAX,
        ensures
            r == (Rect {
                x: (frame * (self.width + self.padding) + self.padding) as i32,
                y: self.padding as i32,
                width: self.width,
                height: self.height,
            }),
    {
        let padding = self.padding as u32;
        let width = self.width;
        let height = self.height;
        let x = (frame * (width + padding) + padding) as i32;
        let y = padding as i32;
        Rect::new(x, y, width, height)
    }
}

} // verus!
