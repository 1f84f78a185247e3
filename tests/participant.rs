use rusty_pong::participant::{
    computer_impulse, computer_input, create_ball, create_paddle, create_paddles,
    drain_ball_resets, launch_heading, player_impulse, player_input, process_ball_reset,
    reset_ball, spawn_ball, Ball, Paddle, Player, ResetBallEvent, Side, Velocity, BALL_SPEED,
    LAUNCH_SPREAD, PADDLE_SPEED,
};
use rusty_pong::physics::{Collider, Position};

fn ball_at(y: i64, speed: u32, heading: i32) -> Ball {
    Ball { position: Position { x: 1_000, y }, velocity: Velocity { speed, heading } }
}

fn paddle(side: Side, y: i64, impulse: i64) -> Paddle {
    Paddle { player: Player(side), position: Position { x: 0, y }, impulse }
}

#[test]
fn player_impulse_covers_all_key_states() {
    assert_eq!(player_impulse(false, false), 0);
    assert_eq!(player_impulse(true, false), PADDLE_SPEED);
    assert_eq!(player_impulse(false, true), -PADDLE_SPEED);
    assert_eq!(player_impulse(true, true), 0);
    assert_eq!(PADDLE_SPEED, 200);
}

#[test]
fn player_input_sets_only_the_left_paddle() {
    let mut paddles = vec![paddle(Side::Left, 0, 55), paddle(Side::Right, 0, 77)];
    player_input(&mut paddles, true, false);
    assert_eq!(paddles[0].impulse, 200);
    assert_eq!(paddles[1].impulse, 77);
    player_input(&mut paddles, false, false);
    assert_eq!(paddles[0].impulse, 0);
    player_input(&mut paddles, false, true);
    assert_eq!(paddles[0].impulse, -200);
}

#[test]
fn computer_holds_while_ball_moves_left() {
    let receding = ball_at(50_000, BALL_SPEED, 170_000);
    assert_eq!(computer_impulse(&receding, 0), 0);
    assert_eq!(computer_impulse(&receding, 100_000), 0);
    let straight_up = ball_at(50_000, BALL_SPEED, 90_000);
    assert_eq!(computer_impulse(&straight_up, 0), 0);
    let still = ball_at(50_000, 0, 0);
    assert_eq!(computer_impulse(&still, 0), 0);
}

#[test]
fn computer_follows_ball_moving_right() {
    let above = ball_at(50_000, BALL_SPEED, 10_000);
    assert_eq!(computer_impulse(&above, 0), PADDLE_SPEED);
    let below = ball_at(-50_000, BALL_SPEED, -10_000);
    assert_eq!(computer_impulse(&below, 0), -PADDLE_SPEED);
    let level = ball_at(0, BALL_SPEED, 0);
    assert_eq!(computer_impulse(&level, 0), 0);
}

#[test]
fn computer_input_sets_only_the_right_paddle() {
    let mut paddles = vec![paddle(Side::Left, 0, 5), paddle(Side::Right, 10_000, 9)];
    computer_input(&mut paddles, &ball_at(-20_000, BALL_SPEED, 0));
    assert_eq!(paddles[0].impulse, 5);
    assert_eq!(paddles[1].impulse, -200);
    computer_input(&mut paddles, &ball_at(-20_000, BALL_SPEED, -170_000));
    assert_eq!(paddles[1].impulse, 0);
}

#[test]
fn launch_heading_spans_the_band() {
    assert_eq!(launch_heading(0), -15_000);
    assert_eq!(launch_heading(15_000), 0);
    assert_eq!(launch_heading(30_000), 15_000);
    assert_eq!(launch_heading(30_001), -15_000);
    assert_eq!(launch_heading(u32::MAX), (u32::MAX % 30_001) as i32 - 15_000);
}

#[test]
fn reset_without_events_leaves_ball() {
    let before = ball_at(12_345, 777, 123_000);
    let mut ball = before;
    let mut events: Vec<ResetBallEvent> = Vec::new();
    drain_ball_resets(&mut events, &mut ball, 99);
    assert_eq!(ball, before);
    process_ball_reset(&mut events, &mut ball);
    assert_eq!(ball, before);
}

#[test]
fn reset_with_events_centres_and_launches() {
    let mut ball = ball_at(12_345, 777, 123_000);
    let mut events = vec![ResetBallEvent, ResetBallEvent, ResetBallEvent];
    drain_ball_resets(&mut events, &mut ball, 20_000);
    assert!(events.is_empty());
    assert_eq!(ball.position, Position { x: 0, y: 0 });
    assert_eq!(ball.velocity, Velocity { speed: BALL_SPEED, heading: 5_000 });
}

#[test]
fn random_reset_stays_in_band() {
    for _ in 0..50 {
        let mut ball = ball_at(-3, 5, -100_000);
        let mut events = vec![ResetBallEvent];
        process_ball_reset(&mut events, &mut ball);
        assert!(events.is_empty());
        assert_eq!(ball.position, Position { x: 0, y: 0 });
        assert_eq!(ball.velocity.speed, BALL_SPEED);
        assert!(ball.velocity.heading.abs() <= LAUNCH_SPREAD);
    }
}

#[test]
fn reset_ball_overwrites_state() {
    let mut ball = ball_at(1, 2, 3);
    reset_ball(&mut ball, 1);
    assert_eq!(ball.position, Position { x: 0, y: 0 });
    assert_eq!(ball.velocity, Velocity { speed: 100_000, heading: -14_999 });
}

#[test]
fn paddles_spawn_beside_their_goals() {
    let (left, left_body, left_sprite) = create_paddle(Side::Left);
    assert_eq!(left.position, Position { x: -230_000, y: 0 });
    assert_eq!(left.impulse, 0);
    assert!(left_body.dynamic && left_body.locked.translation_x && left_body.locked.rotation);
    assert!(!left_body.locked.translation_y);
    assert_eq!(left_body.collider, Collider::Cuboid { half_width: 400, half_height: 500 });
    assert_eq!((left_sprite.width, left_sprite.height), (10_000, 50_000));
    let all = create_paddles();
    assert_eq!(all.len(), 2);
    assert_eq!(all[0].0.player, Player(Side::Left));
    assert_eq!(all[1].0.player, Player(Side::Right));
    assert_eq!(all[1].0.position.x, 230_000);
}

#[test]
fn ball_spawns_at_centre() {
    let (ball, body, sprite) = create_ball(30_000);
    assert_eq!(ball.position, Position { x: 0, y: 0 });
    assert_eq!(ball.velocity, Velocity { speed: BALL_SPEED, heading: 15_000 });
    assert!(body.ccd && body.collision_events && body.locked.rotation);
    assert_eq!(body.collider, Collider::Disc { radius: 50 });
    assert_eq!(body.restitution.map(|c| c.value), Some(1100));
    assert_eq!(body.friction.map(|c| c.value), Some(0));
    assert!(sprite.round && sprite.width == 10_000);
    let (random_ball, _, _) = spawn_ball();
    assert!(random_ball.velocity.heading.abs() <= LAUNCH_SPREAD);
}
