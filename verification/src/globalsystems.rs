//! Stateful per-frame rules: score aggregation and the two paddle
//! controllers.  Each runs once per frame, before any per-entity rule,
//! and may keep state of its own across frames (the running score).
//!
//! The outside world enters only as plain values: the keyboard rule is
//! handed the two key states for the frame in an [`InputState`].
//!
//! As with the per-entity rules, a rule finding a required component
//! absent on its entity leaves the entity table unchanged rather than
//! failing; score aggregation still drains its channel in that case.

use vstd::prelude::*;

use crate::channel::ScoreChannel;
use crate::components::Components;
use crate::components::DEAD_ZONE;
use crate::components::PADDLE_SPEED;
use crate::components::Sprite;
use crate::components::VertVelocity;
use crate::components::spec_texture_from_byte;
use crate::components::texture_from_uint;
use crate::entities::PaddleSide;

verus! {

/// The state of the two logical paddle controls for one frame.
#[derive(Clone, Copy, Debug, PartialEq, Eq)]
pub struct InputState {
    pub up: bool,
    pub down: bool,
}

/// A stateful per-frame rule.  Its exact effect on itself, the entity
/// table and the two scoring channels is its [`GlobalSystem::g_step`]
/// function.
pub trait GlobalSystem: Sized {
    /// The registration indices the rule holds point into a table of `n`
    /// entities.
    spec fn g_valid(&self, n: int) -> bool;

    /// The exact effect of one frame: the rule's own new state, the new
    /// entity table, and the new pending messages on the left and right
    /// scoring channels.
    spec fn g_step(
        &self,
        input: InputState,
        entities: Seq<Components>,
        left: Seq<u64>,
        right: Seq<u64>,
    ) -> (Self, Seq<Components>, Seq<u64>, Seq<u64>);

    /// Run the rule once for this frame.
    fn process(
        &mut self,
        input: InputState,
        entities: &mut Vec<Components>,
        left: &mut ScoreChannel,
        right: &mut ScoreChannel,
    )
        requires
            old(self).g_valid(old(entities)@.len() as int),
            forall|j: int| 0 <= j < old(entities)@.len() ==> (#[trigger] old(entities)@[j]).wf(),
        ensures
            *final(self) == old(self).g_step(input, old(entities)@, old(left)@, old(right)@).0,
            final(entities)@ == old(self).g_step(
                input,
                old(entities)@,
                old(left)@,
                old(right)@,
            ).1,
            final(left)@ == old(self).g_step(input, old(entities)@, old(left)@, old(right)@).2,
            final(right)@ == old(self).g_step(input, old(entities)@, old(left)@, old(right)@).3,
            final(entities)@.len() == old(entities)@.len(),
            forall|j: int|
                0 <= j < final(entities)@.len() ==> (#[trigger] final(entities)@[j]).wf(),
            final(self).g_valid(old(entities)@.len() as int),
    ;
}

/// `u64` addition that sticks at the largest representable value.
pub open spec fn sat_add_u64(a: int, b: int) -> int {
    if a + b > u64::MAX {
        u64::MAX as int
    } else {
        a + b
    }
}

/// The score after draining a queue of pending messages front to back,
/// adding each point value with saturation.
pub open spec fn drained_score(score: int, pending: Seq<u64>) -> int
    decreases pending.len(),
{
    if pending.len() == 0 {
        score
    } else {
        drained_score(sat_add_u64(score, pending[0] as int), pending.drop_first())
    }
}

/// Draining never decreases the score.
pub proof fn lemma_drained_score_monotonic(score: int, pending: Seq<u64>)
    requires
        0 <= score <= u64::MAX,
    ensures
        drained_score(score, pending) >= score,
        drained_score(score, pending) <= u64::MAX,
    decreases pending.len(),
{
    if pending.len() > 0 {
        lemma_drained_score_monotonic(sat_add_u64(score, pending[0] as int), pending.drop_first());
    }
}

/// Total of a queue of point values.
pub open spec fn seq_sum(q: Seq<u64>) -> int
    decreases q.len(),
{
    if q.len() == 0 {
        0
    } else {
        q[0] + seq_sum(q.drop_first())
    }
}

/// A queue total is never negative.
pub proof fn lemma_seq_sum_nonneg(q: Seq<u64>)
    ensures
        seq_sum(q) >= 0,
    decreases q.len(),
{
    if q.len() > 0 {
        lemma_seq_sum_nonneg(q.drop_first());
    }
}

/// Where no saturation occurs, draining adds exactly the queue's total.
pub proof fn lemma_drained_score_exact(score: int, pending: Seq<u64>)
    requires
        0 <= score,
        score + seq_sum(pending) <= u64::MAX,
    ensures
        drained_score(score, pending) == score + seq_sum(pending),
    decreases pending.len(),
{
    if pending.len() > 0 {
        lemma_seq_sum_nonneg(pending.drop_first());
        lemma_drained_score_exact(score + pending[0] as int, pending.drop_first());
    }
}

/// Aggregates scoring messages for one side: drains its channel fully,
/// adds the point values to its running score, and shows the new value
/// on its score counter's sprite glyph.
#[derive(Clone, Copy, Debug)]
pub struct ScoreUpdateSystem {
    /// Entry of the score-counter entity in the entity table.
    pub counter: usize,
    /// The running score; this rule is its only writer.
    pub score: u64,
    /// Which scoring channel this rule drains.
    pub side: PaddleSide,
}

/// The sprite of `c` with its glyph set to the digit glyph for `score`.
pub open spec fn with_score_glyph(c: Components, score: int) -> Components {
    match c.sprite {
        Some(s) => Components {
            sprite: Some(Sprite {
                texture: Some(
                    spec_texture_from_byte(
                        ((score + 0x30) % 0x1_0000_0000_0000_0000 % 256) as u8,
                    ),
                ),
                ..s
            }),
            ..c
        },
        None => c,
    }
}

impl GlobalSystem for ScoreUpdateSystem {
    open spec fn g_valid(&self, n: int) -> bool {
        self.counter < n
    }

    open spec fn g_step(
        &self,
        input: InputState,
        entities: Seq<Components>,
        left: Seq<u64>,
        right: Seq<u64>,
    ) -> (Self, Seq<Components>, Seq<u64>, Seq<u64>) {
        let pending = if self.side is LEFT {
            left
        } else {
            right
        };
        let new_score = drained_score(self.score as int, pending);
        let me = ScoreUpdateSystem { score: new_score as u64, ..*self };
        let e2 = entities.update(
            self.counter as int,
            with_score_glyph(entities[self.counter as int], new_score),
        );
        if self.side is LEFT {
            (me, e2, Seq::empty(), right)
        } else {
            (me, e2, left, Seq::empty())
        }
    }

    fn process(
        &mut self,
        input: InputState,
        entities: &mut Vec<Components>,
        left: &mut ScoreChannel,
        right: &mut ScoreChannel,
    ) {
        let ghost score0 = self.score as int;
        let ghost pending0 = if self.side is LEFT {
            left@
        } else {
            right@
        };
        loop
            invariant
                old(self).counter == self.counter,
                old(self).side == self.side,
                drained_score(score0, pending0) == drained_score(
                    self.score as int,
                    if self.side is LEFT {
                        left@
                    } else {
                        right@
                    },
                ),
                self.side is LEFT ==> right@ == old(right)@,
                !(self.side is LEFT) ==> left@ == old(left)@,
                entities@ == old(entities)@,
            ensures
                old(self).counter == self.counter,
                old(self).side == self.side,
                self.score as int == drained_score(score0, pending0),
                (if self.side is LEFT {
                    left@
                } else {
                    right@
                }).len() == 0,
                self.side is LEFT ==> right@ == old(right)@,
                !(self.side is LEFT) ==> left@ == old(left)@,
                entities@ == old(entities)@,
            decreases (if self.side is LEFT {
                left@
            } else {
                right@
            }).len(),
        {
            let received = match self.side {
                PaddleSide::LEFT => left.try_recv(),
                PaddleSide::RIGHT => right.try_recv(),
            };
            match received {
                Some(points) => {
                    self.score = if points > u64::MAX - self.score {
                        u64::MAX
                    } else {
                        self.score + points
                    };
                },
                None => { break ; },
            }
        }
        let glyph = texture_from_uint(self.score);
        let counter = entities[self.counter];
        match counter.sprite {
            Some(spr) => {
                entities[self.counter] = (Components {
                    sprite: Some(Sprite { texture: Some(glyph), ..spr }),
                    ..counter
                });
            },
            None => {
                proof {
                    assert(entities@.update(
                        self.counter as int,
                        with_score_glyph(counter, self.score as int),
                    ) =~= entities@);
                }
            },
        }
        proof {
            if self.side is LEFT {
                assert(left@ =~= Seq::<u64>::empty());
            } else {
                assert(right@ =~= Seq::<u64>::empty());
            }
        }
    }
}

/// Tracks the ball with one paddle: outside a dead zone around the
/// ball's height the paddle is driven toward it at the fixed paddle
/// speed; inside the dead zone it is stopped.
#[derive(Clone, Copy, Debug)]
pub struct BotInputSystem {
    /// Entry of the controlled paddle in the entity table.
    pub paddle: usize,
    /// Entry of the tracked ball in the entity table.
    pub ball: usize,
}

/// `c` with its vertical velocity (if present) set to `vy`.
pub open spec fn with_vert_velocity(c: Components, vy: int) -> Components {
    match c.vert_velocity {
        Some(_) => Components { vert_velocity: Some(VertVelocity { y: vy as i64 }), ..c },
        None => c,
    }
}

impl GlobalSystem for BotInputSystem {
    open spec fn g_valid(&self, n: int) -> bool {
        self.paddle < n && self.ball < n
    }

    open spec fn g_step(
        &self,
        input: InputState,
        entities: Seq<Components>,
        left: Seq<u64>,
        right: Seq<u64>,
    ) -> (Self, Seq<Components>, Seq<u64>, Seq<u64>) {
        let e2 = match (entities[self.ball as int].position, entities[
            self.paddle as int
        ].position) {
            (Some(bp), Some(pp)) => {
                let d = bp.y - pp.y;
                let vy: int = if d > DEAD_ZONE {
                    PADDLE_SPEED as int
                } else if d < -DEAD_ZONE {
                    -PADDLE_SPEED as int
                } else {
                    0
                };
                entities.update(
                    self.paddle as int,
                    with_vert_velocity(entities[self.paddle as int], vy),
                )
            },
            _ => entities,
        };
        (*self, e2, left, right)
    }

    fn process(
        &mut self,
        input: InputState,
        entities: &mut Vec<Components>,
        left: &mut ScoreChannel,
        right: &mut ScoreChannel,
    ) {
        let ball = entities[self.ball];
        let paddle = entities[self.paddle];
        match (ball.position, paddle.position) {
            (Some(bp), Some(pp)) => {
                let d: i64 = bp.y - pp.y;
                let vy: i64 = if d > DEAD_ZONE {
                    PADDLE_SPEED
                } else if d < -DEAD_ZONE {
                    -PADDLE_SPEED
                } else {
                    0
                };
                match paddle.vert_velocity {
                    Some(_) => {
                        entities[self.paddle] = (Components {
                            vert_velocity: Some(VertVelocity { y: vy }),
                            ..paddle
                        });
                    },
                    None => {
                        proof {
                            assert(entities@.update(
                                self.paddle as int,
                                with_vert_velocity(paddle, vy as int),
                            ) =~= entities@);
                        }
                    },
                }
            },
            _ => {},
        }
    }
}

/// Drives one paddle from the two logical keys: the two directions
/// cancel when both keys are held, and the vertical velocity is
/// overwritten every frame, including to zero when no key is down.
#[derive(Clone, Copy, Debug)]
pub struct KeyboardInputSystem {
    /// Entry of the controlled paddle in the entity table.
    pub paddle: usize,
}

/// The signed direction the two key states ask for.
pub open spec fn key_direction(input: InputState) -> int {
    (if input.up {
        1int
    } else {
        0int
    }) - (if input.down {
        1int
    } else {
        0int
    })
}

impl GlobalSystem for KeyboardInputSystem {
    open spec fn g_valid(&self, n: int) -> bool {
        self.paddle < n
    }

    open spec fn g_step(
        &self,
        input: InputState,
        entities: Seq<Components>,
        left: Seq<u64>,
        right: Seq<u64>,
    ) -> (Self, Seq<Components>, Seq<u64>, Seq<u64>) {
        let e2 = entities.update(
            self.paddle as int,
            with_vert_velocity(
                entities[self.paddle as int],
                PADDLE_SPEED * key_direction(input),
            ),
        );
        (*self, e2, left, right)
    }

    fn process(
        &mut self,
        input: InputState,
        entities: &mut Vec<Components>,
        left: &mut ScoreChannel,
        right: &mut ScoreChannel,
    ) {
        let mut dir: i64 = 0;
        if input.up {
            dir = dir + 1;
        }
        if input.down {
            dir = dir - 1;
        }
        let paddle = entities[self.paddle];
        match paddle.vert_velocity {
            Some(_) => {
                entities[self.paddle] = (Components {
                    vert_velocity: Some(VertVelocity { y: PADDLE_SPEED * dir }),
                    ..paddle
                });
            },
            None => {
                proof {
                    assert(entities@.update(
                        self.paddle as int,
                        with_vert_velocity(paddle, PADDLE_SPEED * key_direction(input)),
                    ) =~= entities@);
                }
            },
        }
    }
}

/// Score-aggregation law: one frame of a score-update rule adds exactly
/// its channel's pending total to the running score — each message
/// counted once — and leaves that channel empty and the other untouched.
pub proof fn lemma_score_aggregation(
    g: ScoreUpdateSystem,
    input: InputState,
    s: Seq<Components>,
    l: Seq<u64>,
    r: Seq<u64>,
)
    requires
        g.score + seq_sum(
            if g.side is LEFT {
                l
            } else {
                r
            },
        ) <= u64::MAX,
    ensures
        g.g_step(input, s, l, r).0 == (ScoreUpdateSystem {
            score: (g.score + seq_sum(
                if g.side is LEFT {
                    l
                } else {
                    r
                },
            )) as u64,
            ..g
        }),
        g.side is LEFT ==> g.g_step(input, s, l, r).2 == Seq::<u64>::empty() && g.g_step(
            input,
            s,
            l,
            r,
        ).3 == r,
        !(g.side is LEFT) ==> g.g_step(input, s, l, r).3 == Seq::<u64>::empty() && g.g_step(
            input,
            s,
            l,
            r,
        ).2 == l,
{
    lemma_drained_score_exact(
        g.score as int,
        if g.side is LEFT {
            l
        } else {
            r
        },
    );
}

/// The running score never decreases: a frame can only add points.
pub proof fn lemma_score_monotonic(
    g: ScoreUpdateSystem,
    input: InputState,
    s: Seq<Components>,
    l: Seq<u64>,
    r: Seq<u64>,
)
    ensures
        g.g_step(input, s, l, r).0.score >= g.score,
{
    lemma_drained_score_monotonic(
        g.score as int,
        if g.side is LEFT {
            l
        } else {
            r
        },
    );
}

/// Bot dead-zone law: when the ball's height is within the dead zone of
/// the paddle's centre, the tracking rule stops the paddle instead of
/// driving it toward the ball.
pub proof fn lemma_bot_dead_zone(
    g: BotInputSystem,
    input: InputState,
    s: Seq<Components>,
    l: Seq<u64>,
    r: Seq<u64>,
)
    requires
        (g.ball as int) < s.len(),
        (g.paddle as int) < s.len(),
        s[g.ball as int].position is Some,
        s[g.paddle as int].position is Some,
        s[g.paddle as int].vert_velocity is Some,
        -DEAD_ZONE <= s[g.ball as int].position.unwrap().y - s[
            g.paddle as int
        ].position.unwrap().y <= DEAD_ZONE,
    ensures
        g.g_step(input, s, l, r).1 == s.update(
            g.paddle as int,
            (Components { vert_velocity: Some(VertVelocity { y: 0 }), ..s[g.paddle as int] }),
        ),
{
}

} // verus!
