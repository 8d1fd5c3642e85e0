use pong::channel::ScoreChannel;
use pong::components::texture_from_byte;
use pong::components::Components;
use pong::components::HorizVelocity;
use pong::components::Position;
use pong::components::Sprite;
use pong::components::VertVelocity;
use pong::entities::PaddleSide;
use pong::globalsystems::BotInputSystem;
use pong::globalsystems::GlobalSystem;
use pong::globalsystems::InputState;
use pong::globalsystems::KeyboardInputSystem;
use pong::globalsystems::ScoreUpdateSystem;

fn entity(x: i64, y: i64, hx: Option<i64>, vy: Option<i64>, size: Option<(i64, i64)>) -> Components {
    Components {
        position: Some(Position { x, y }),
        horiz_velocity: hx.map(|v| HorizVelocity { x: v }),
        vert_velocity: vy.map(|v| VertVelocity { y: v }),
        sprite: size.map(|(w, h)| Sprite { x_size: w, y_size: h, color: [0, 0, 0, 0], texture: None }),
    }
}

const NO_KEYS: InputState = InputState { up: false, down: false };

#[test]
fn score_update_sums_pending_messages_once() {
    let mut entities = vec![entity(300, 300, None, None, Some((36, 72)))];
    let mut left = ScoreChannel::new();
    let mut right = ScoreChannel::new();
    right.send(1);
    right.send(1);
    let mut system = ScoreUpdateSystem { counter: 0, score: 0, side: PaddleSide::RIGHT };
    system.process(NO_KEYS, &mut entities, &mut left, &mut right);
    assert_eq!(system.score, 2);
    assert_eq!(right.len(), 0);
    assert_eq!(entities[0].sprite.unwrap().texture.unwrap(), texture_from_byte(b'2'));
    // A second frame with nothing pending adds nothing.
    system.process(NO_KEYS, &mut entities, &mut left, &mut right);
    assert_eq!(system.score, 2);
}

#[test]
fn score_update_drains_only_its_side() {
    let mut entities = vec![entity(300, 300, None, None, Some((36, 72)))];
    let mut left = ScoreChannel::new();
    let mut right = ScoreChannel::new();
    left.send(1);
    right.send(1);
    let mut system = ScoreUpdateSystem { counter: 0, score: 3, side: PaddleSide::LEFT };
    system.process(NO_KEYS, &mut entities, &mut left, &mut right);
    assert_eq!(system.score, 4);
    assert_eq!(left.len(), 0);
    assert_eq!(right.len(), 1);
    assert_eq!(entities[0].sprite.unwrap().texture.unwrap(), texture_from_byte(b'4'));
}

#[test]
fn score_update_glyph_shows_running_total() {
    let mut entities = vec![entity(300, 300, None, None, Some((36, 72)))];
    let mut left = ScoreChannel::new();
    let mut right = ScoreChannel::new();
    let mut system = ScoreUpdateSystem { counter: 0, score: 9, side: PaddleSide::RIGHT };
    right.send(1);
    system.process(NO_KEYS, &mut entities, &mut left, &mut right);
    assert_eq!(system.score, 10);
    // Past 9 the glyph walks on through the atlas: 10 shows ':'.
    assert_eq!(entities[0].sprite.unwrap().texture.unwrap(), texture_from_byte(b':'));
}

#[test]
fn score_update_saturates_at_the_counter_limit() {
    let mut entities = vec![entity(300, 300, None, None, Some((36, 72)))];
    let mut left = ScoreChannel::new();
    let mut right = ScoreChannel::new();
    right.send(1);
    right.send(1);
    let mut system = ScoreUpdateSystem { counter: 0, score: u64::MAX - 1, side: PaddleSide::RIGHT };
    system.process(NO_KEYS, &mut entities, &mut left, &mut right);
    assert_eq!(system.score, u64::MAX);
    assert_eq!(right.len(), 0);
}

#[test]
fn bot_inside_dead_zone_stops_the_paddle() {
    // ball.y - paddle.y == 18: 0.15 world units, inside the 0.2 zone.
    let mut entities = vec![
        entity(468, 180, None, Some(3), Some((12, 48))),
        entity(240, 198, Some(2), Some(0), Some((12, 24))),
    ];
    let mut left = ScoreChannel::new();
    let mut right = ScoreChannel::new();
    let mut system = BotInputSystem { paddle: 0, ball: 1 };
    system.process(NO_KEYS, &mut entities, &mut left, &mut right);
    assert_eq!(entities[0].vert_velocity.unwrap().y, 0);
}

#[test]
fn bot_on_dead_zone_edge_still_stops() {
    // Exactly 0.2 world units away does not exceed the threshold.
    let mut entities = vec![
        entity(468, 180, None, Some(3), Some((12, 48))),
        entity(240, 204, Some(2), Some(0), Some((12, 24))),
    ];
    let mut left = ScoreChannel::new();
    let mut right = ScoreChannel::new();
    BotInputSystem { paddle: 0, ball: 1 }.process(NO_KEYS, &mut entities, &mut left, &mut right);
    assert_eq!(entities[0].vert_velocity.unwrap().y, 0);
}

#[test]
fn bot_tracks_the_ball_outside_the_dead_zone() {
    let mut entities = vec![
        entity(468, 180, None, Some(0), Some((12, 48))),
        entity(240, 240, Some(2), Some(0), Some((12, 24))),
    ];
    let mut left = ScoreChannel::new();
    let mut right = ScoreChannel::new();
    let mut system = BotInputSystem { paddle: 0, ball: 1 };
    system.process(NO_KEYS, &mut entities, &mut left, &mut right);
    assert_eq!(entities[0].vert_velocity.unwrap().y, 3);
    // Ball far below: drive the other way.
    entities[1].position = Some(Position { x: 240, y: 60 });
    system.process(NO_KEYS, &mut entities, &mut left, &mut right);
    assert_eq!(entities[0].vert_velocity.unwrap().y, -3);
}

#[test]
fn keyboard_up_drives_up() {
    let mut entities = vec![entity(12, 180, None, Some(0), Some((12, 48)))];
    let mut left = ScoreChannel::new();
    let mut right = ScoreChannel::new();
    let mut system = KeyboardInputSystem { paddle: 0 };
    system.process(InputState { up: true, down: false }, &mut entities, &mut left, &mut right);
    assert_eq!(entities[0].vert_velocity.unwrap().y, 3);
}

#[test]
fn keyboard_down_drives_down() {
    let mut entities = vec![entity(12, 180, None, Some(0), Some((12, 48)))];
    let mut left = ScoreChannel::new();
    let mut right = ScoreChannel::new();
    KeyboardInputSystem { paddle: 0 }.process(
        InputState { up: false, down: true },
        &mut entities,
        &mut left,
        &mut right,
    );
    assert_eq!(entities[0].vert_velocity.unwrap().y, -3);
}

#[test]
fn keyboard_both_keys_cancel() {
    let mut entities = vec![entity(12, 180, None, Some(5), Some((12, 48)))];
    let mut left = ScoreChannel::new();
    let mut right = ScoreChannel::new();
    KeyboardInputSystem { paddle: 0 }.process(
        InputState { up: true, down: true },
        &mut entities,
        &mut left,
        &mut right,
    );
    assert_eq!(entities[0].vert_velocity.unwrap().y, 0);
}

#[test]
fn keyboard_overwrites_every_frame() {
    let mut entities = vec![entity(12, 180, None, Some(3), Some((12, 48)))];
    let mut left = ScoreChannel::new();
    let mut right = ScoreChannel::new();
    KeyboardInputSystem { paddle: 0 }.process(NO_KEYS, &mut entities, &mut left, &mut right);
    assert_eq!(entities[0].vert_velocity.unwrap().y, 0);
}
