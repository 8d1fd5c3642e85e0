use pong::components::texture_from_char;
use pong::entities::new_background;
use pong::entities::new_background_2;
use pong::entities::new_ball;
use pong::entities::new_paddle;
use pong::entities::new_score_counter;
use pong::entities::PaddleSide;

#[test]
fn ball_starts_centred_moving_right() {
    let b = new_ball();
    let pos = b.position.unwrap();
    assert_eq!((pos.x, pos.y), (240, 180));
    assert_eq!(b.horiz_velocity.unwrap().x, 2);
    assert_eq!(b.vert_velocity.unwrap().y, 0);
    let spr = b.sprite.unwrap();
    assert_eq!((spr.x_size, spr.y_size), (12, 24));
    assert_eq!(spr.color, [800, 700, 300, 0]);
    assert_eq!(spr.texture.unwrap(), texture_from_char('@'));
}

#[test]
fn paddles_sit_near_their_sides() {
    let right = new_paddle(PaddleSide::RIGHT);
    let left = new_paddle(PaddleSide::LEFT);
    assert_eq!(right.position.unwrap().x, 468);
    assert_eq!(left.position.unwrap().x, 12);
    assert_eq!(right.position.unwrap().y, 180);
    assert_eq!(left.position.unwrap().y, 180);
    assert!(right.horiz_velocity.is_none());
    assert_eq!(right.vert_velocity.unwrap().y, 0);
    let spr = right.sprite.unwrap();
    assert_eq!((spr.x_size, spr.y_size), (12, 48));
    assert_eq!(spr.color, [975, 25, 300, 1000]);
    assert_eq!(left.sprite.unwrap().color, [25, 975, 300, 1000]);
    assert!(spr.texture.is_none());
}

#[test]
fn backgrounds_are_still_panels() {
    let outer = new_background();
    let inner = new_background_2();
    for c in [&outer, &inner] {
        let pos = c.position.unwrap();
        assert_eq!((pos.x, pos.y), (240, 180));
        assert!(c.horiz_velocity.is_none());
        assert!(c.vert_velocity.is_none());
    }
    assert_eq!(
        (outer.sprite.unwrap().x_size, outer.sprite.unwrap().y_size),
        (480, 360)
    );
    assert_eq!(
        (inner.sprite.unwrap().x_size, inner.sprite.unwrap().y_size),
        (360, 240)
    );
    assert_eq!(outer.sprite.unwrap().color, [450, 400, 1000, 1000]);
    assert_eq!(inner.sprite.unwrap().color, [0, 0, 0, 300]);
}

#[test]
fn score_counters_show_zero() {
    let right = new_score_counter(PaddleSide::RIGHT);
    let left = new_score_counter(PaddleSide::LEFT);
    assert_eq!(right.position.unwrap().x, 300);
    assert_eq!(left.position.unwrap().x, 180);
    assert_eq!(right.position.unwrap().y, 300);
    let spr = right.sprite.unwrap();
    assert_eq!((spr.x_size, spr.y_size), (36, 72));
    assert_eq!(spr.color, [1000, 1000, 1000, 0]);
    assert_eq!(spr.texture.unwrap(), texture_from_char('0'));
}
