//! Geometry primitives and the draw-request vocabulary.
//!
//! Rendering is out of the simulation's hands: a draw pass computes an
//! ordered list of `DrawCmd` values, and an unverified front end carries
//! them out.  Colours, images and text strings appear here only as small
//! integer codes that the front end maps to real assets.

use vstd::prelude::*;

verus! {

/// Image code of the small crab sprite.
pub const ASSET_TINY_CRAB: i32 = 0;

/// Image code of the large crab logo.
pub const ASSET_BIG_CRAB: i32 = 1;

/// Text code of the lives counter; the command's `value` is the count.
pub const LABEL_LIVES: i32 = 0;

/// Text code of the score display; the command's `value` is the score.
pub const LABEL_SCORE: i32 = 1;

/// Text code of the game-over banner.
pub const LABEL_GAME_OVER: i32 = 2;

/// Text code of the game's title.
pub const LABEL_CRABBER: i32 = 3;

/// Text code of the menu's start option.
pub const LABEL_START: i32 = 4;

/// Text code of the menu's scores option.
pub const LABEL_SCORES: i32 = 5;

/// Font size of the game-over banner, in points.
pub const FONT_SIZE_BANNER: i32 = 48;

/// Font size of the lives and score displays, in points.
pub const FONT_SIZE_HUD: i32 = 16;

/// Font size of the game's title, in points.
pub const FONT_SIZE_TITLE: i32 = 56;

/// Font size of the menu options, in points.
pub const FONT_SIZE_OPTION: i32 = 20;

/// An axis-aligned rectangle in play-field units, with a palette code.
#[derive(Clone, Copy, PartialEq, Eq, Structural, Debug)]
pub struct Rectangle {
    pub x: i32,
    pub y: i32,
    pub w: i32,
    pub h: i32,
    pub colour: i32,
}

impl Rectangle {
    /// Builds a rectangle from its position, extent and palette code.
    pub fn construct(x: i32, y: i32, w: i32, h: i32, colour: i32) -> (r: Rectangle)
        ensures
            r == (Rectangle { x, y, w, h, colour }),
    {
        Rectangle { x, y, w, h, colour }
    }

    /// Requests this rectangle to be painted.
    pub fn draw(&self) -> (c: DrawCmd)
        ensures
            c == DrawCmd::Rect(*self),
    {
        DrawCmd::Rect(*self)
    }
}

/// The player's sprite: position and extent in play-field units.
#[derive(Clone, Copy, PartialEq, Eq, Structural, Debug)]
pub struct CrabSprite {
    pub x: i32,
    pub y: i32,
    pub w: i32,
    pub h: i32,
}

impl CrabSprite {
    /// Builds the player's sprite from its position and extent.
    pub fn construct(x: i32, y: i32, w: i32, h: i32) -> (r: CrabSprite)
        ensures
            r == (CrabSprite { x, y, w, h }),
    {
        CrabSprite { x, y, w, h }
    }

    /// Requests the crab image to be painted at this sprite's position.
    pub fn draw(&self) -> (c: DrawCmd)
        ensures
            c == (DrawCmd::Image { asset: ASSET_TINY_CRAB, x: self.x, y: self.y }),
    {
        DrawCmd::Image { asset: ASSET_TINY_CRAB, x: self.x, y: self.y }
    }
}

/// One draw request handed to the rendering front end.
#[derive(Clone, Copy, PartialEq, Eq, Structural, Debug)]
pub enum DrawCmd {
    /// Paint a filled rectangle.
    Rect(Rectangle),
    /// Paint the image named by `asset` with its top-left corner at (x, y).
    Image { asset: i32, x: i32, y: i32 },
    /// Paint the text named by `label` at (x, y); `value` carries the number
    /// shown by the lives and score displays, and is zero elsewhere.
    Text { label: i32, value: i64, x: i32, y: i32, size: i32 },
}

} // verus!
