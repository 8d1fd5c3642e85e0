//! Stateless per-entity rules: movement, boundary reflection, scoring
//! detection, and paddle deflection, together with the shared
//! axis-aligned-bounding-box overlap test.
//!
//! Each rule reads and writes one entry of the world's entity table (the
//! paddle rule also reads the entry it was registered for) and is a
//! silent no-op when a component it requires is absent.  The exact effect
//! of each rule is the spec step function of the same name.

use vstd::prelude::*;

use vstd::math::abs;

use crate::channel::ScoreChannel;
use crate::components::CENTER_X;
use crate::components::CENTER_Y;
use crate::components::Components;
use crate::components::HorizVelocity;
use crate::components::POS_LIMIT;
use crate::components::Position;
use crate::components::Sprite;
use crate::components::SIZE_MAX;
use crate::components::VEL_LIMIT;
use crate::components::VertVelocity;
use crate::components::X_MAX;
use crate::components::Y_MAX;
use crate::entities::PaddleSide;

verus! {

/// Saturate a coordinate at the far limits of the representable space.
pub open spec fn clamp_pos(v: int) -> int {
    if v > POS_LIMIT {
        POS_LIMIT as int
    } else if v < -POS_LIMIT {
        -POS_LIMIT as int
    } else {
        v
    }
}

/// One movement tick: each velocity that is present is added to the
/// matching position axis; entities without a position are unchanged.
pub open spec fn movement_step(c: Components) -> Components {
    match c.position {
        Some(p) => {
            let y1 = match c.vert_velocity {
                Some(v) => clamp_pos(p.y + v.y),
                None => p.y as int,
            };
            let x1 = match c.horiz_velocity {
                Some(v) => clamp_pos(p.x + v.x),
                None => p.x as int,
            };
            Components {
                position: Some(Position { x: x1 as i64, y: y1 as i64 }),
                ..c
            }
        },
        None => c,
    }
}

/// One boundary-reflection tick.  If the top edge of the sprite reaches
/// the upper boundary the vertical velocity is inverted and the entity is
/// clamped so the top edge sits exactly on the boundary; then, on the
/// clamped value, the same symmetrically for the bottom edge.  Both
/// corrections can fire in one call only for an oversized sprite.
pub open spec fn edge_step(c: Components) -> Components {
    match (c.position, c.vert_velocity, c.sprite) {
        (Some(p), Some(v), Some(s)) => {
            let h = s.y_size as int / 2;
            let hit_top = p.y + h >= Y_MAX;
            let y1 = if hit_top { Y_MAX - h } else { p.y as int };
            let vy1 = if hit_top { -v.y as int } else { v.y as int };
            let hit_bottom = y1 - h <= 0;
            let y2 = if hit_bottom { h } else { y1 };
            let vy2 = if hit_bottom { -vy1 } else { vy1 };
            Components {
                position: Some(Position { x: p.x, y: y2 as i64 }),
                vert_velocity: Some(VertVelocity { y: vy2 as i64 }),
                ..c
            }
        },
        _ => c,
    }
}

/// The boundary a scoring candidate has left through, if any: breaching
/// the right edge reports on the right channel, the left edge on the
/// left channel.  Entities missing position or either velocity never
/// produce an event.
pub open spec fn score_event(c: Components) -> Option<PaddleSide> {
    match (c.position, c.vert_velocity, c.horiz_velocity) {
        (Some(p), Some(_vv), Some(_hv)) => if p.x > X_MAX {
            Some(PaddleSide::RIGHT)
        } else if p.x < 0 {
            Some(PaddleSide::LEFT)
        } else {
            None
        },
        _ => None,
    }
}

/// One scoring tick: on a boundary exit the entity is reset to the
/// centre in the same tick, its horizontal velocity inverted and its
/// vertical velocity zeroed; otherwise it is unchanged.
pub open spec fn score_step(c: Components) -> Components {
    if score_event(c) is Some {
        Components {
            position: Some(Position { x: CENTER_X, y: CENTER_Y }),
            horiz_velocity: Some(HorizVelocity {
                x: (-c.horiz_velocity.unwrap().x) as i64,
            }),
            vert_velocity: Some(VertVelocity { y: 0 }),
            ..c
        }
    } else {
        c
    }
}

/// Axis-aligned bounding boxes of two entities overlap.  False unless
/// both entities carry a position and a sprite.
pub open spec fn aabb_overlap(a: Components, b: Components) -> bool {
    match (a.position, a.sprite, b.position, b.sprite) {
        (Some(ap), Some(asp), Some(bp), Some(bsp)) => {
            &&& abs(ap.x - bp.x) * 2 <= asp.x_size + bsp.x_size
            &&& abs(ap.y - bp.y) * 2 <= asp.y_size + bsp.y_size
        },
        _ => false,
    }
}

/// Two table entries collide: they are distinct entries (identity, not
/// value, comparison) and their bounding boxes overlap.
pub open spec fn entities_collide(s: Seq<Components>, a: int, b: int) -> bool
    recommends
        0 <= a < s.len(),
        0 <= b < s.len(),
{
    a != b && aabb_overlap(s[a], s[b])
}

/// AABB collision detection over the entity table: entries `a` and `b`
/// collide exactly when [`entities_collide`] says so.
#[allow(non_snake_case)]
pub fn doEntitiesCollide(entities: &Vec<Components>, a: usize, b: usize) -> (r: bool)
    requires
        a < entities@.len(),
        b < entities@.len(),
        entities@[a as int].wf(),
        entities@[b as int].wf(),
    ensures
        r == entities_collide(entities@, a as int, b as int),
{
    if a == b {
        return false;
    }
    let ea = entities[a];
    let eb = entities[b];
    match (ea.position, ea.sprite, eb.position, eb.sprite) {
        (Some(ap), Some(asp), Some(bp), Some(bsp)) => {
            let dx: i64 = if ap.x >= bp.x {
                ap.x - bp.x
            } else {
                bp.x - ap.x
            };
            let dy: i64 = if ap.y >= bp.y {
                ap.y - bp.y
            } else {
                bp.y - ap.y
            };
            dx * 2 <= asp.x_size + bsp.x_size && dy * 2 <= asp.y_size + bsp.y_size
        },
        _ => false,
    }
}

/// Magnitude of the paddle deflection: the law `0.5 * hx * sinh(pi * d /
/// h)` with `pi` taken as `3.14 = 314/100`, evaluated in fixed point by
/// the degree-five Taylor polynomial `x + x^3/6 + x^5/120` of `sinh`,
/// as one exact rational truncated toward zero.
pub open spec fn deflect_mag(hx: int, d: int, h: int) -> int
    recommends
        h >= 1,
{
    let n = 314 * abs(d);
    let m = 100 * h;
    (abs(hx) * n * (120 * m * m * m * m + 20 * n * n * m * m + n * n * n * n)) / (240 * m * m
        * m * m * m)
}

/// The vertical velocity a paddle contact leaves on the moving entity:
/// [`deflect_mag`] capped at [`VEL_LIMIT`], carrying the sign of
/// `hx * d` (away from the paddle centre when moving with positive
/// horizontal velocity).
pub open spec fn deflect(hx: int, d: int, h: int) -> int
    recommends
        h >= 1,
{
    let mag = deflect_mag(hx, d, h);
    let capped = if mag > VEL_LIMIT {
        VEL_LIMIT as int
    } else {
        mag
    };
    if (hx < 0) != (d < 0) {
        -capped
    } else {
        capped
    }
}

/// Fixed-point evaluation of [`deflect`].
fn deflection(hx: i64, d: i64, h: i64) -> (r: i64)
    requires
        -VEL_LIMIT <= hx <= VEL_LIMIT,
        -SIZE_MAX <= d <= SIZE_MAX,
        1 <= h <= SIZE_MAX / 2,
    ensures
        r == deflect(hx as int, d as int, h as int),
        -VEL_LIMIT <= r <= VEL_LIMIT,
{
    let ha: u128 = if hx >= 0 {
        hx as u128
    } else {
        (-hx) as u128
    };
    let da: u128 = if d >= 0 {
        d as u128
    } else {
        (-d) as u128
    };
    assert(ha == abs(hx as int) && da == abs(d as int));
    // With ha <= 100_000, da <= 1_000 and h <= 500, each factor below is
    // bounded (n <= 314_000, m <= 50_000, fourth powers <= 2^80, the
    // polynomial <= 141 * 2^80), so every product stays far inside u128.
    let n: u128 = 314 * da;
    let m: u128 = 100 * (h as u128);
    assert(n <= 314_000 && 100 <= m && m <= 50_000);
    proof {
        assert(n * n <= 314_000 * 314_000 && m * m <= 50_000 * 50_000 && 1 <= m * m)
            by (nonlinear_arith)
            requires
                0 <= n <= 314_000,
                1 <= m <= 50_000,
        ;
    }
    let n2: u128 = n * n;
    let m2: u128 = m * m;
    proof {
        assert(n2 * n2 <= 0x1_0000_0000_0000_0000_0000 && m2 * m2
            <= 0x1_0000_0000_0000_0000_0000 && n2 * m2 <= 0x1_0000_0000_0000_0000_0000 && 1
            <= m2 * m2) by (nonlinear_arith)
            requires
                0 <= n2 <= 314_000 * 314_000,
                1 <= m2 <= 50_000 * 50_000,
        ;
    }
    let n4: u128 = n2 * n2;
    let m4: u128 = m2 * m2;
    let poly: u128 = 120 * m4 + 20 * (n2 * m2) + n4;
    proof {
        assert(ha * n <= 100_000 * 314_000) by (nonlinear_arith)
            requires
                0 <= ha <= 100_000,
                0 <= n <= 314_000,
        ;
    }
    let hn: u128 = ha * n;
    proof {
        assert(hn * poly <= (100_000 * 314_000) * (141 * 0x1_0000_0000_0000_0000_0000))
            by (nonlinear_arith)
            requires
                0 <= hn <= 100_000 * 314_000,
                0 <= poly <= 141 * 0x1_0000_0000_0000_0000_0000,
        ;
        assert((240 * m4) * m <= (240 * 0x1_0000_0000_0000_0000_0000) * 50_000 && (240 * m4)
            * m >= 240) by (nonlinear_arith)
            requires
                1 <= m <= 50_000,
                1 <= m4 <= 0x1_0000_0000_0000_0000_0000,
        ;
    }
    let num: u128 = hn * poly;
    let den: u128 = (240 * m4) * m;
    proof {
        assert(num == abs(hx as int) * n * (120 * m * m * m * m + 20 * n * n * m * m + n * n
            * n * n) && den == 240 * m * m * m * m * m) by (nonlinear_arith)
            requires
                n2 == n * n,
                m2 == m * m,
                n4 == n2 * n2,
                m4 == m2 * m2,
                poly == 120 * m4 + 20 * (n2 * m2) + n4,
                hn == ha * n,
                num == hn * poly,
                den == (240 * m4) * m,
                ha == abs(hx as int),
        ;
        assert(num / den == deflect_mag(hx as int, d as int, h as int));
    }
    let q: u128 = num / den;
    let capped: i64 = if q > VEL_LIMIT as u128 {
        VEL_LIMIT
    } else {
        q as i64
    };
    if (hx < 0) != (d < 0) {
        -capped
    } else {
        capped
    }
}

/// Bounding-box overlap is symmetric, and no entry collides with itself.
pub proof fn lemma_collide_symmetric(s: Seq<Components>, a: int, b: int)
    requires
        0 <= a < s.len(),
        0 <= b < s.len(),
    ensures
        entities_collide(s, a, b) == entities_collide(s, b, a),
        !entities_collide(s, a, a),
{
}

/// A stateless per-entity rule.  Applying it to entry `i` of the entity
/// table rewrites that entry and may send scoring messages; its exact
/// effect is the rule's [`System::sys_step`] function.
pub trait System: Sized {
    /// The registration indices the rule holds point into a table of `n`
    /// entities.
    spec fn s_valid(&self, n: int) -> bool;

    /// The exact effect of one application to entry `i`: the new entity
    /// table and the new pending messages on the left and right scoring
    /// channels.
    spec fn sys_step(
        &self,
        entities: Seq<Components>,
        i: int,
        left: Seq<u64>,
        right: Seq<u64>,
    ) -> (Seq<Components>, Seq<u64>, Seq<u64>);

    /// Apply the rule once to entry `i` of the entity table.
    fn process(
        &self,
        entities: &mut Vec<Components>,
        i: usize,
        left: &mut ScoreChannel,
        right: &mut ScoreChannel,
    )
        requires
            i < old(entities)@.len(),
            self.s_valid(old(entities)@.len() as int),
            forall|j: int| 0 <= j < old(entities)@.len() ==> (#[trigger] old(entities)@[j]).wf(),
        ensures
            final(entities)@ == self.sys_step(
                old(entities)@,
                i as int,
                old(left)@,
                old(right)@,
            ).0,
            final(left)@ == self.sys_step(old(entities)@, i as int, old(left)@, old(right)@).1,
            final(right)@ == self.sys_step(old(entities)@, i as int, old(left)@, old(right)@).2,
            final(entities)@.len() == old(entities)@.len(),
            forall|j: int|
                0 <= j < final(entities)@.len() ==> (#[trigger] final(entities)@[j]).wf(),
    ;
}

/// Saturating addition of a velocity to a coordinate.
fn add_clamped(p: i64, v: i64) -> (r: i64)
    requires
        -POS_LIMIT <= p <= POS_LIMIT,
        -VEL_LIMIT <= v <= VEL_LIMIT,
    ensures
        r == clamp_pos(p + v),
{
    let s = p + v;
    if s > POS_LIMIT {
        POS_LIMIT
    } else if s < -POS_LIMIT {
        -POS_LIMIT
    } else {
        s
    }
}

/// Adds each velocity that is present to the matching position axis.
#[derive(Clone, Copy, Debug)]
pub struct MovementSystem;

impl System for MovementSystem {
    open spec fn s_valid(&self, n: int) -> bool {
        true
    }

    open spec fn sys_step(
        &self,
        entities: Seq<Components>,
        i: int,
        left: Seq<u64>,
        right: Seq<u64>,
    ) -> (Seq<Components>, Seq<u64>, Seq<u64>) {
        (entities.update(i, movement_step(entities[i])), left, right)
    }

    fn process(
        &self,
        entities: &mut Vec<Components>,
        i: usize,
        left: &mut ScoreChannel,
        right: &mut ScoreChannel,
    ) {
        let c = entities[i];
        match c.position {
            Some(pos) => {
                let mut y: i64 = pos.y;
                let mut x: i64 = pos.x;
                match c.vert_velocity {
                    Some(v) => {
                        y = add_clamped(y, v.y);
                    },
                    None => {},
                }
                match c.horiz_velocity {
                    Some(v) => {
                        x = add_clamped(x, v.x);
                    },
                    None => {},
                }
                entities[i] = (Components { position: Some(Position { x, y }), ..c });
            },
            None => {
                proof {
                    assert(entities@.update(i as int, movement_step(c)) =~= entities@);
                }
            },
        }
    }
}

/// Reflects an entity off the upper and lower playfield boundaries.
#[derive(Clone, Copy, Debug)]
pub struct EdgeCollisionSystem;

impl System for EdgeCollisionSystem {
    open spec fn s_valid(&self, n: int) -> bool {
        true
    }

    open spec fn sys_step(
        &self,
        entities: Seq<Components>,
        i: int,
        left: Seq<u64>,
        right: Seq<u64>,
    ) -> (Seq<Components>, Seq<u64>, Seq<u64>) {
        (entities.update(i, edge_step(entities[i])), left, right)
    }

    fn process(
        &self,
        entities: &mut Vec<Components>,
        i: usize,
        left: &mut ScoreChannel,
        right: &mut ScoreChannel,
    ) {
        let c = entities[i];
        match (c.position, c.vert_velocity, c.sprite) {
            (Some(pos), Some(vel), Some(spr)) => {
                let h: i64 = ((spr.y_size as u64) / 2) as i64;
                let mut y: i64 = pos.y;
                let mut vy: i64 = vel.y;
                if y + h >= Y_MAX {
                    vy = -vy;
                    y = Y_MAX - h;
                }
                if y - h <= 0 {
                    vy = -vy;
                    y = h;
                }
                entities[i] = (Components {
                    position: Some(Position { x: pos.x, y }),
                    vert_velocity: Some(VertVelocity { y: vy }),
                    ..c
                });
            },
            _ => {
                proof {
                    assert(entities@.update(i as int, edge_step(c)) =~= entities@);
                }
            },
        }
    }
}

/// Detects boundary exits, reports them on the scoring channels, and
/// resets the exited entity to the centre.
#[derive(Clone, Copy, Debug)]
pub struct ScoreCollisionSystem;

impl System for ScoreCollisionSystem {
    open spec fn s_valid(&self, n: int) -> bool {
        true
    }

    open spec fn sys_step(
        &self,
        entities: Seq<Components>,
        i: int,
        left: Seq<u64>,
        right: Seq<u64>,
    ) -> (Seq<Components>, Seq<u64>, Seq<u64>) {
        let e2 = entities.update(i, score_step(entities[i]));
        match score_event(entities[i]) {
            Some(PaddleSide::RIGHT) => (e2, left, right.push(1)),
            Some(PaddleSide::LEFT) => (e2, left.push(1), right),
            None => (e2, left, right),
        }
    }

    fn process(
        &self,
        entities: &mut Vec<Components>,
        i: usize,
        left: &mut ScoreChannel,
        right: &mut ScoreChannel,
    ) {
        let c = entities[i];
        match (c.position, c.vert_velocity, c.horiz_velocity) {
            (Some(pos), Some(_vvel), Some(hvel)) => {
                if pos.x > X_MAX {
                    right.send(1);
                } else if pos.x < 0 {
                    left.send(1);
                } else {
                    proof {
                        assert(entities@.update(i as int, score_step(c)) =~= entities@);
                    }
                    return ;
                }
                entities[i] = (Components {
                    position: Some(Position { x: CENTER_X, y: CENTER_Y }),
                    horiz_velocity: Some(HorizVelocity { x: -hvel.x }),
                    vert_velocity: Some(VertVelocity { y: 0 }),
                    ..c
                });
            },
            _ => {
                proof {
                    assert(entities@.update(i as int, score_step(c)) =~= entities@);
                }
            },
        }
    }
}

/// Deflects an entity that is in contact with one specific paddle,
/// identified by its entry in the entity table.
#[derive(Clone, Copy, Debug)]
pub struct PaddleCollisionSystem {
    pub paddle: usize,
}

impl System for PaddleCollisionSystem {
    open spec fn s_valid(&self, n: int) -> bool {
        self.paddle < n
    }

    open spec fn sys_step(
        &self,
        entities: Seq<Components>,
        i: int,
        left: Seq<u64>,
        right: Seq<u64>,
    ) -> (Seq<Components>, Seq<u64>, Seq<u64>) {
        let c = entities[i];
        let stepped = if entities_collide(entities, self.paddle as int, i)
            && c.horiz_velocity is Some && c.vert_velocity is Some && c.position is Some {
            let paddle = entities[self.paddle as int];
            let hx2 = -(c.horiz_velocity.unwrap().x as int);
            let d = c.position.unwrap().y - paddle.position.unwrap().y;
            let h = paddle.sprite.unwrap().y_size as int / 2;
            Components {
                horiz_velocity: Some(HorizVelocity { x: hx2 as i64 }),
                vert_velocity: Some(VertVelocity { y: deflect(hx2, d, h) as i64 }),
                ..c
            }
        } else {
            c
        };
        (entities.update(i, stepped), left, right)
    }

    fn process(
        &self,
        entities: &mut Vec<Components>,
        i: usize,
        left: &mut ScoreChannel,
        right: &mut ScoreChannel,
    ) {
        if doEntitiesCollide(entities, self.paddle, i) {
            let c = entities[i];
            match (c.horiz_velocity, c.vert_velocity, c.position) {
                (Some(hvel), Some(_vvel), Some(pos)) => {
                    let paddle = entities[self.paddle];
                    let ppos = paddle.position.unwrap();
                    let pspr = paddle.sprite.unwrap();
                    let hx2: i64 = -hvel.x;
                    let d: i64 = pos.y - ppos.y;
                    let h: i64 = ((pspr.y_size as u64) / 2) as i64;
                    proof {
                        assert(abs(pos.y - ppos.y) * 2 <= pspr.y_size + c.sprite.unwrap().y_size);
                    }
                    let vy = deflection(hx2, d, h);
                    entities[i] = (Components {
                        horiz_velocity: Some(HorizVelocity { x: hx2 }),
                        vert_velocity: Some(VertVelocity { y: vy }),
                        ..c
                    });
                },
                _ => {
                    proof {
                        assert(entities@.update(i as int, c) =~= entities@);
                    }
                },
            }
        } else {
            proof {
                assert(entities@.update(i as int, entities@[i as int]) =~= entities@);
            }
        }
    }
}

/// Movement law: one movement tick adds each present velocity to the
/// matching axis (when the saturating limits are not reached), and an
/// entity without a position is unchanged.
pub proof fn lemma_movement_adds_velocity(c: Components)
    requires
        c.wf(),
    ensures
        c.position is None ==> movement_step(c) == c,
        (c.position is Some && c.horiz_velocity is Some && c.vert_velocity is Some
            && -POS_LIMIT <= c.position.unwrap().x + c.horiz_velocity.unwrap().x <= POS_LIMIT
            && -POS_LIMIT <= c.position.unwrap().y + c.vert_velocity.unwrap().y <= POS_LIMIT)
            ==> movement_step(c) == (Components {
            position: Some(
                Position {
                    x: (c.position.unwrap().x + c.horiz_velocity.unwrap().x) as i64,
                    y: (c.position.unwrap().y + c.vert_velocity.unwrap().y) as i64,
                },
            ),
            ..c
        }),
{
}

/// Edge-reflection law: an entity whose top edge has reached the upper
/// boundary while still moving upward, and whose sprite leaves room
/// above the lower boundary, comes out with its vertical velocity
/// negated and its top edge seated exactly on the boundary.
pub proof fn lemma_edge_reflects_top(c: Components)
    requires
        c.wf(),
        c.position is Some,
        c.vert_velocity is Some,
        c.sprite is Some,
        c.vert_velocity.unwrap().y > 0,
        c.position.unwrap().y + c.sprite.unwrap().y_size / 2 >= Y_MAX,
        Y_MAX - 2 * (c.sprite.unwrap().y_size / 2) > 0,
    ensures
        edge_step(c).vert_velocity == Some(
            VertVelocity { y: (-c.vert_velocity.unwrap().y) as i64 },
        ),
        edge_step(c).position == Some(
            Position {
                x: c.position.unwrap().x,
                y: (Y_MAX - c.sprite.unwrap().y_size / 2) as i64,
            },
        ),
{
}

/// Scoring-reset law, right boundary: an entity past the right edge is
/// reset to the centre with its horizontal velocity inverted and its
/// vertical velocity zeroed, and the scoring rule reports exactly one
/// one-point message on the right channel and none on the left.
pub proof fn lemma_score_reset_right(s: Seq<Components>, i: int, l: Seq<u64>, r: Seq<u64>)
    requires
        0 <= i < s.len(),
        s[i].wf(),
        s[i].position is Some,
        s[i].vert_velocity is Some,
        s[i].horiz_velocity is Some,
        s[i].position.unwrap().x > X_MAX,
    ensures
        score_event(s[i]) == Some(PaddleSide::RIGHT),
        score_step(s[i]) == (Components {
            position: Some(Position { x: CENTER_X, y: CENTER_Y }),
            horiz_velocity: Some(HorizVelocity { x: (-s[i].horiz_velocity.unwrap().x) as i64 }),
            vert_velocity: Some(VertVelocity { y: 0 }),
            ..s[i]
        }),
        (ScoreCollisionSystem).sys_step(s, i, l, r) == (s.update(i, score_step(s[i])), l, r.push(
            1u64,
        )),
{
}

/// Scoring-reset law, left boundary: the mirror image, reporting on the
/// left channel.
pub proof fn lemma_score_reset_left(s: Seq<Components>, i: int, l: Seq<u64>, r: Seq<u64>)
    requires
        0 <= i < s.len(),
        s[i].wf(),
        s[i].position is Some,
        s[i].vert_velocity is Some,
        s[i].horiz_velocity is Some,
        s[i].position.unwrap().x < 0,
    ensures
        score_event(s[i]) == Some(PaddleSide::LEFT),
        score_step(s[i]) == (Components {
            position: Some(Position { x: CENTER_X, y: CENTER_Y }),
            horiz_velocity: Some(HorizVelocity { x: (-s[i].horiz_velocity.unwrap().x) as i64 }),
            vert_velocity: Some(VertVelocity { y: 0 }),
            ..s[i]
        }),
        (ScoreCollisionSystem).sys_step(s, i, l, r) == (s.update(i, score_step(s[i])), l.push(
            1u64,
        ), r),
{
}

} // verus!
