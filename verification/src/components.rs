//! Leaf component data: position, per-axis velocities, sprite extents and
//! glyph descriptors, and the aggregate record that makes up one entity.
//!
//! All world-space quantities are fixed-point: [`SCALE`] units per world
//! unit.  The playfield is `[0, X_MAX] x [0, Y_MAX]` in these units.

use vstd::prelude::*;

verus! {

/// Fixed-point units per world unit.
pub const SCALE: i64 = 120;

/// Right playfield boundary (4 world units).
pub const X_MAX: i64 = 480;

/// Upper playfield boundary (3 world units).
pub const Y_MAX: i64 = 360;

/// Horizontal centre of the playfield (2 world units).
pub const CENTER_X: i64 = 240;

/// Vertical centre of the playfield (1.5 world units).
pub const CENTER_Y: i64 = 180;

/// Horizontal speed of a fresh ball: one world unit per 60 ticks.
pub const BALL_SPEED: i64 = 2;

/// Vertical speed of a driven paddle: 1.5 world units per 60 ticks.
pub const PADDLE_SPEED: i64 = 3;

/// Dead-zone radius of the tracking controller (0.2 world units).
pub const DEAD_ZONE: i64 = 24;

/// Magnitude positions saturate at; far outside the playfield, but small
/// enough that one tick of movement can never overflow an `i64`.
pub const POS_LIMIT: i64 = 1_000_000;

/// Largest velocity magnitude a well-formed component may hold.
pub const VEL_LIMIT: i64 = 100_000;

/// Smallest sprite extent: half of it is still at least one unit.
pub const SIZE_MIN: i64 = 2;

/// Largest sprite extent a well-formed component may hold.
pub const SIZE_MAX: i64 = 1_000;

/// A point in world space.
#[derive(Clone, Copy, Debug, PartialEq, Eq)]
pub struct Position {
    pub x: i64,
    pub y: i64,
}

/// Horizontal velocity, in units per simulation tick.
#[derive(Clone, Copy, Debug, PartialEq, Eq)]
pub struct HorizVelocity {
    pub x: i64,
}

/// Vertical velocity, in units per simulation tick.
#[derive(Clone, Copy, Debug, PartialEq, Eq)]
pub struct VertVelocity {
    pub y: i64,
}

/// A glyph reference into the shared character atlas: a texture handle,
/// the cell's upper-left corner, and the cell size, all in texels.
#[derive(Clone, Copy, Debug, PartialEq, Eq)]
pub struct SpriteTexture {
    pub texture: u32,
    pub texcoords: (u64, u64),
    pub texsize: (u64, u64),
}

/// Visual extents (also used for collision), an RGBA colour in
/// thousandths, and an optional glyph reference.
#[derive(Clone, Copy, Debug, PartialEq, Eq)]
pub struct Sprite {
    pub x_size: i64,
    pub y_size: i64,
    pub color: [i64; 4],
    pub texture: Option<SpriteTexture>,
}

/// The aggregate record for one entity: an optional instance of each
/// component kind.  A missing component means the entity does not take
/// part in rules that require it.
#[derive(Clone, Copy, Debug, PartialEq, Eq)]
pub struct Components {
    pub position: Option<Position>,
    pub horiz_velocity: Option<HorizVelocity>,
    pub vert_velocity: Option<VertVelocity>,
    pub sprite: Option<Sprite>,
}

impl Position {
    /// Both coordinates within the saturation range.
    pub open spec fn wf(self) -> bool {
        &&& -POS_LIMIT <= self.x <= POS_LIMIT
        &&& -POS_LIMIT <= self.y <= POS_LIMIT
    }
}

impl HorizVelocity {
    pub open spec fn wf(self) -> bool {
        -VEL_LIMIT <= self.x <= VEL_LIMIT
    }
}

impl VertVelocity {
    pub open spec fn wf(self) -> bool {
        -VEL_LIMIT <= self.y <= VEL_LIMIT
    }
}

impl Sprite {
    /// Extents are positive (at least one unit per half-extent) and bounded.
    pub open spec fn wf(self) -> bool {
        &&& SIZE_MIN <= self.x_size <= SIZE_MAX
        &&& SIZE_MIN <= self.y_size <= SIZE_MAX
    }
}

impl Components {
    /// Every component that is present is well formed.
    pub open spec fn wf(self) -> bool {
        &&& (self.position matches Some(p) ==> p.wf())
        &&& (self.horiz_velocity matches Some(v) ==> v.wf())
        &&& (self.vert_velocity matches Some(v) ==> v.wf())
        &&& (self.sprite matches Some(s) ==> s.wf())
    }
}

/// Index of a byte's cell in the character atlas, counting from `' '`
/// (byte 32), with the subtraction wrapping modulo `2^64` for bytes below
/// 32 so that the mapping is total.
pub open spec fn glyph_index(b: u8) -> int {
    if b >= 32 {
        b - 32
    } else {
        b - 32 + 0x1_0000_0000_0000_0000
    }
}

/// The atlas cell for a byte: 16 cells of 7 x 14 texels per atlas row.
pub open spec fn spec_texture_from_byte(b: u8) -> SpriteTexture {
    SpriteTexture {
        texture: 0,
        texcoords: (((glyph_index(b) % 16) * 7) as u64, ((glyph_index(b) / 16) * 14) as u64),
        texsize: (7, 14),
    }
}

/// Glyph reference for a single ASCII character given as a byte.
pub fn texture_from_byte(b: u8) -> (t: SpriteTexture)
    ensures
        t == spec_texture_from_byte(b),
{
    // 32 == ' ', the first character in the atlas
    let cb: u64 = (b as u64).wrapping_sub(32);
    let x: u64 = (cb % 16) * 7;
    let y: u64 = (cb / 16) * 14;
    SpriteTexture { texture: 0, texcoords: (x, y), texsize: (7, 14) }
}

/// Glyph reference for an ASCII character.
pub fn texture_from_char(c: char) -> (t: SpriteTexture)
    requires
        (c as u32) < 128,
    ensures
        t == spec_texture_from_byte((c as u32) as u8),
{
    texture_from_byte(c as u8)
}

/// Glyph reference for a counter value: digits map to `'0'` to `'9'`;
/// larger values run on through the atlas byte by byte, wrapping.
pub fn texture_from_uint(i: u64) -> (t: SpriteTexture)
    ensures
        t == spec_texture_from_byte(((i + 0x30) % 0x1_0000_0000_0000_0000 % 256) as u8),
{
    let b: u8 = (i.wrapping_add(0x30) % 256) as u8;
    texture_from_byte(b)
}

} // verus!
