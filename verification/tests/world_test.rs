use pong::channel::ScoreChannel;
use pong::components::texture_from_byte;
use pong::components::Components;
use pong::components::HorizVelocity;
use pong::components::Position;
use pong::components::Sprite;
use pong::components::VertVelocity;
use pong::entities::new_ball;
use pong::entities::new_paddle;
use pong::entities::new_score_counter;
use pong::entities::PaddleSide;
use pong::globalsystems::InputState;
use pong::globalsystems::ScoreUpdateSystem;
use pong::systems::EdgeCollisionSystem;
use pong::systems::MovementSystem;
use pong::systems::PaddleCollisionSystem;
use pong::systems::ScoreCollisionSystem;
use pong::world::GlobalSystemReg;
use pong::world::SystemReg;
use pong::world::World;

fn entity(x: i64, y: i64, hx: Option<i64>, vy: Option<i64>, size: Option<(i64, i64)>) -> Components {
    Components {
        position: Some(Position { x, y }),
        horiz_velocity: hx.map(|v| HorizVelocity { x: v }),
        vert_velocity: vy.map(|v| VertVelocity { y: v }),
        sprite: size.map(|(w, h)| Sprite { x_size: w, y_size: h, color: [0, 0, 0, 0], texture: None }),
    }
}

const NO_KEYS: InputState = InputState { up: false, down: false };

#[test]
fn empty_world_does_nothing() {
    let mut world = World::new();
    world.process(NO_KEYS);
    assert_eq!(world.entities.len(), 0);
    assert_eq!(world.left_channel.len(), 0);
    assert_eq!(world.right_channel.len(), 0);
}

#[test]
fn one_frame_moves_the_ball() {
    let mut world = World::new();
    world.entities.push(new_ball());
    world.systems.push(SystemReg::Movement(MovementSystem));
    world.process(NO_KEYS);
    let pos = world.entities[0].position.unwrap();
    assert_eq!((pos.x, pos.y), (242, 180));
    world.process(NO_KEYS);
    assert_eq!(world.entities[0].position.unwrap().x, 244);
}

#[test]
fn systems_visit_entities_in_registration_order() {
    let mut world = World::new();
    world.entities.push(entity(100, 100, Some(1), None, None));
    world.entities.push(entity(200, 200, Some(10), None, None));
    world.systems.push(SystemReg::Movement(MovementSystem));
    world.process(NO_KEYS);
    assert_eq!(world.entities[0].position.unwrap().x, 101);
    assert_eq!(world.entities[1].position.unwrap().x, 210);
}

#[test]
fn wall_and_paddle_in_one_frame_apply_in_registration_order() {
    // A ball simultaneously on the upper wall and on a paddle, with the
    // edge rule registered before the paddle rule: the edge correction
    // runs first (negating the climb and seating the ball on the wall),
    // and the paddle correction then acts on the corrected state.
    let mut world = World::new();
    world.entities.push(entity(468, 336, None, Some(0), Some((12, 48))));
    world.entities.push(entity(470, 350, Some(-2), Some(3), Some((12, 24))));
    world.systems.push(SystemReg::EdgeCollision(EdgeCollisionSystem));
    world.systems.push(SystemReg::PaddleCollision(PaddleCollisionSystem { paddle: 0 }));
    world.process(NO_KEYS);
    let ball = world.entities[1];
    // Edge: top edge 350 + 12 >= 360, so y becomes 348 and vy -3.
    assert_eq!(ball.position.unwrap().y, 348);
    // Paddle: contact at 348 - 336 == 12 above the centre, half-height
    // 24, horizontal velocity inverted to 2: deflection 2 replaces -3.
    assert_eq!(ball.horiz_velocity.unwrap().x, 2);
    assert_eq!(ball.vert_velocity.unwrap().y, 2);
    // The same state with the rules registered the other way round ends
    // differently: the paddle acts on the uncorrected height first.
    let mut other = World::new();
    other.entities.push(entity(468, 336, None, Some(0), Some((12, 48))));
    other.entities.push(entity(470, 350, Some(-2), Some(3), Some((12, 24))));
    other.systems.push(SystemReg::PaddleCollision(PaddleCollisionSystem { paddle: 0 }));
    other.systems.push(SystemReg::EdgeCollision(EdgeCollisionSystem));
    other.process(NO_KEYS);
    let ball = other.entities[1];
    // Paddle first: contact 14 above the centre gives deflection 3; the
    // edge rule then negates it and seats the ball on the wall.
    assert_eq!(ball.position.unwrap().y, 348);
    assert_eq!(ball.horiz_velocity.unwrap().x, 2);
    assert_eq!(ball.vert_velocity.unwrap().y, -3);
}

#[test]
fn global_systems_run_before_per_entity_systems() {
    // The keyboard rule sets the paddle's velocity in the same frame the
    // movement rule applies it.
    let mut world = World::new();
    world.entities.push(new_paddle(PaddleSide::LEFT));
    world.systems.push(SystemReg::Movement(MovementSystem));
    world.global_systems.push(GlobalSystemReg::Keyboard(
        pong::globalsystems::KeyboardInputSystem { paddle: 0 },
    ));
    world.process(InputState { up: true, down: false });
    assert_eq!(world.entities[0].position.unwrap().y, 183);
    assert_eq!(world.entities[0].vert_velocity.unwrap().y, 3);
}

#[test]
fn a_point_is_detected_one_frame_and_counted_the_next() {
    let mut world = World::new();
    world.entities.push(new_score_counter(PaddleSide::LEFT));
    world.entities.push(entity(479, 180, Some(2), Some(0), Some((12, 24))));
    world.systems.push(SystemReg::Movement(MovementSystem));
    world.systems.push(SystemReg::ScoreCollision(ScoreCollisionSystem));
    // A breach of the right boundary is a point for the left player.
    world.global_systems.push(GlobalSystemReg::ScoreUpdate(ScoreUpdateSystem {
        counter: 0,
        score: 0,
        side: PaddleSide::RIGHT,
    }));
    // Frame 1: the ball crosses to 481, the scoring rule reports and
    // resets it, but the aggregation pass has already run this frame.
    world.process(NO_KEYS);
    assert_eq!(world.entities[1].position.unwrap().x, 240);
    assert_eq!(world.entities[1].horiz_velocity.unwrap().x, -2);
    assert_eq!(world.right_channel.len(), 1);
    match world.global_systems[0] {
        GlobalSystemReg::ScoreUpdate(s) => assert_eq!(s.score, 0),
        _ => unreachable!(),
    }
    // Frame 2: the pending message is drained and shown.
    world.process(NO_KEYS);
    assert_eq!(world.right_channel.len(), 0);
    match world.global_systems[0] {
        GlobalSystemReg::ScoreUpdate(s) => assert_eq!(s.score, 1),
        _ => unreachable!(),
    }
    assert_eq!(
        world.entities[0].sprite.unwrap().texture.unwrap(),
        texture_from_byte(b'1')
    );
}

#[test]
fn channels_start_empty_and_fifo() {
    let mut chan = ScoreChannel::new();
    assert_eq!(chan.try_recv(), None);
    chan.send(1);
    chan.send(2);
    chan.send(3);
    assert_eq!(chan.len(), 3);
    assert_eq!(chan.try_recv(), Some(1));
    assert_eq!(chan.try_recv(), Some(2));
    assert_eq!(chan.try_recv(), Some(3));
    assert_eq!(chan.try_recv(), None);
}
