//! Entity constructors.  Each game object is built once, at startup, with
//! a fixed shape: which components are present never changes afterwards,
//! only the contained values do.

use vstd::prelude::*;

use crate::components::BALL_SPEED;
use crate::components::CENTER_X;
use crate::components::CENTER_Y;
use crate::components::Components;
use crate::components::HorizVelocity;
use crate::components::Position;
use crate::components::Sprite;
use crate::components::VertVelocity;
use crate::components::spec_texture_from_byte;
use crate::components::texture_from_char;

verus! {

/// Which side of the playfield a paddle or score counter belongs to.
#[allow(non_camel_case_types)]
#[derive(Clone, Copy, Debug, PartialEq, Eq)]
pub enum PaddleSide {
    RIGHT,
    LEFT,
}

/// The ball: starts at the centre, moving right at one world unit per 60
/// ticks, drawn as a 0.1 x 0.2 sprite with an `'@'` glyph.
pub fn new_ball() -> (c: Components)
    ensures
        c == (Components {
            position: Some(Position { x: CENTER_X, y: CENTER_Y }),
            horiz_velocity: Some(HorizVelocity { x: BALL_SPEED }),
            vert_velocity: Some(VertVelocity { y: 0 }),
            sprite: Some(Sprite {
                x_size: 12,
                y_size: 24,
                color: [800, 700, 300, 0],
                texture: Some(spec_texture_from_byte(64)),
            }),
        }),
        c.wf(),
{
    Components {
        position: Some(Position { x: CENTER_X, y: CENTER_Y }),
        horiz_velocity: Some(HorizVelocity { x: BALL_SPEED }),
        vert_velocity: Some(VertVelocity { y: 0 }),
        sprite: Some(Sprite {
            x_size: 12,  // 0.10 world units
            y_size: 24,  // 0.20 world units
            color: [800, 700, 300, 0],
            texture: Some(texture_from_char('@')),
        }),
    }
}

/// A paddle: 0.1 world units in from its side, vertically centred, with a
/// 0.1 x 0.4 sprite whose colour shades from green (left) to red (right).
pub fn new_paddle(side: PaddleSide) -> (c: Components)
    ensures
        c == (Components {
            position: Some(Position {
                x: if side is RIGHT { 468 } else { 12 },
                y: CENTER_Y,
            }),
            horiz_velocity: None,
            vert_velocity: Some(VertVelocity { y: 0 }),
            sprite: Some(Sprite {
                x_size: 12,
                y_size: 48,
                color: [
                    if side is RIGHT { 975 } else { 25 },
                    if side is RIGHT { 25 } else { 975 },
                    300,
                    1000,
                ],
                texture: None,
            }),
        }),
        c.wf(),
{
    let (xpos, shade): (i64, i64) = match side {
        PaddleSide::RIGHT => (468, 975),  // 3.9 world units in
        PaddleSide::LEFT => (12, 25),  // 0.1 world units in
    };
    Components {
        position: Some(Position { x: xpos, y: CENTER_Y }),
        horiz_velocity: None,
        vert_velocity: Some(VertVelocity { y: 0 }),
        sprite: Some(Sprite {
            x_size: 12,  // 0.1 world units
            y_size: 48,  // 0.4 world units
            color: [shade, 1000 - shade, 300, 1000],
            texture: None,
        }),
    }
}

/// The inner backdrop: a translucent dark 3 x 2 panel over the centre.
pub fn new_background_2() -> (c: Components)
    ensures
        c == (Components {
            position: Some(Position { x: CENTER_X, y: CENTER_Y }),
            horiz_velocity: None,
            vert_velocity: None,
            sprite: Some(Sprite {
                x_size: 360,
                y_size: 240,
                color: [0, 0, 0, 300],
                texture: None,
            }),
        }),
        c.wf(),
{
    Components {
        position: Some(Position { x: CENTER_X, y: CENTER_Y }),
        horiz_velocity: None,
        vert_velocity: None,
        sprite: Some(Sprite {
            x_size: 360,  // 3.0 world units
            y_size: 240,  // 2.0 world units
            color: [0, 0, 0, 300],
            texture: None,
        }),
    }
}

/// The outer backdrop: an opaque panel covering the whole playfield.
pub fn new_background() -> (c: Components)
    ensures
        c == (Components {
            position: Some(Position { x: CENTER_X, y: CENTER_Y }),
            horiz_velocity: None,
            vert_velocity: None,
            sprite: Some(Sprite {
                x_size: 480,
                y_size: 360,
                color: [450, 400, 1000, 1000],
                texture: None,
            }),
        }),
        c.wf(),
{
    Components {
        position: Some(Position { x: CENTER_X, y: CENTER_Y }),
        horiz_velocity: None,
        vert_velocity: None,
        sprite: Some(Sprite {
            x_size: 480,  // 4.0 world units
            y_size: 360,  // 3.0 world units
            color: [450, 400, 1000, 1000],
            texture: None,
        }),
    }
}

/// A score counter: a 0.3 x 0.6 digit display near the top of its side,
/// showing `'0'` at first.
pub fn new_score_counter(side: PaddleSide) -> (c: Components)
    ensures
        c == (Components {
            position: Some(Position {
                x: if side is RIGHT { 300 } else { 180 },
                y: 300,
            }),
            horiz_velocity: None,
            vert_velocity: None,
            sprite: Some(Sprite {
                x_size: 36,
                y_size: 72,
                color: [1000, 1000, 1000, 0],
                texture: Some(spec_texture_from_byte(48)),
            }),
        }),
        c.wf(),
{
    let xpos: i64 = match side {
        PaddleSide::RIGHT => 300,  // 2.5 world units
        PaddleSide::LEFT => 180,  // 1.5 world units
    };
    Components {
        position: Some(Position { x: xpos, y: 300 }),
        horiz_velocity: None,
        vert_velocity: None,
        sprite: Some(Sprite {
            x_size: 36,  // 0.3 world units
            y_size: 72,  // 0.6 world units
            color: [1000, 1000, 1000, 0],
            texture: Some(texture_from_char('0')),
        }),
    }
}

} // verus!
