use vstd::prelude::*;

use crate::graphics::{Grey, Sprite};
use crate::physics::{
    Body, Coefficient, Collider, CombineRule, Damping, LockedAxes, Position, PIXELS_PER_METER,
};

verus! {

/// Vertical impulse that a paddle controller applies, in thousandths of an engine unit.
pub const PADDLE_SPEED: i64 = 200;

/// Width and length of a paddle, in thousandths of a metre.
pub const PADDLE_WIDTH: u32 = 100;
pub const PADDLE_LENGTH: u32 = 500;

/// Half the width of a paddle's collider, in thousandths of an engine unit: four
/// times the drawn width.
pub const PADDLE_COLLIDER_HALF_WIDTH: u32 = 4 * PADDLE_WIDTH;

/// Distance of each paddle from the field's centre, in thousandths of a metre.
pub const PADDLE_OFFSET: u32 = 2300;

/// Radius of the ball, in thousandths of a metre.
pub const BALL_RADIUS: u32 = 50;

/// Speed given to the ball whenever it is launched, in thousandths of a pixel per second.
pub const BALL_SPEED: u32 = 100_000;

/// A launch heads at most this far from straight horizontal, in thousandths of a degree.
pub const LAUNCH_SPREAD: i32 = 15_000;

/// A quarter turn, in thousandths of a degree.
pub const QUARTER_TURN: i32 = 90_000;

/// Grey level of paddles and ball: white.
pub const PARTICIPANT_GREY: u16 = 1000;

/// One of the two players, named by the side of the field its paddle is on.
#[derive(PartialEq, Eq, Structural, Clone, Copy, Debug)]
pub enum Side {
    Left,
    Right,
}

/// The side an entity belongs to.
#[derive(PartialEq, Eq, Structural, Clone, Copy, Debug)]
pub struct Player(pub Side);

/// A ball's velocity as a speed, in thousandths of a pixel per second, and a
/// heading, in thousandths of a degree counter-clockwise from the positive x
/// axis, from -180 degrees up to but not including 180 degrees.
#[derive(PartialEq, Eq, Structural, Clone, Copy, Debug)]
pub struct Velocity {
    pub speed: u32,
    pub heading: i32,
}

impl Velocity {
    /// The ball travels to the right: its horizontal velocity is positive.
    pub open spec fn moving_right(self) -> bool {
        self.speed > 0 && -QUARTER_TURN < self.heading < QUARTER_TURN
    }

    pub fn is_moving_right(&self) -> (r: bool)
        ensures
            r == self.moving_right(),
    {
        self.speed > 0 && -QUARTER_TURN < self.heading && self.heading < QUARTER_TURN
    }
}

/// A paddle: its side, where it is, and the vertical impulse that the physics
/// step applies to it next.
#[derive(PartialEq, Eq, Structural, Clone, Copy, Debug)]
pub struct Paddle {
    pub player: Player,
    pub position: Position,
    pub impulse: i64,
}

/// The ball: where it is and how it moves.
#[derive(PartialEq, Eq, Structural, Clone, Copy, Debug)]
pub struct Ball {
    pub position: Position,
    pub velocity: Velocity,
}

/// A request to put the ball back at the centre and launch it again.
#[derive(PartialEq, Eq, Structural, Clone, Copy, Debug)]
pub struct ResetBallEvent;

/// Spawns the paddles and the ball and runs their controllers.
pub struct ParticipantPlugin;

/// Impulse of the human paddle for the held keys.
pub open spec fn player_impulse_of(up: bool, down: bool) -> int {
    (if up { PADDLE_SPEED as int } else { 0 }) + (if down { -PADDLE_SPEED } else { 0 })
}

/// Impulse of the scripted paddle at height `paddle_y`: towards the ball while
/// the ball travels to the right, none otherwise.
pub open spec fn computer_impulse_of(ball: Ball, paddle_y: i64) -> int {
    if ball.velocity.moving_right() && ball.position.y > paddle_y {
        PADDLE_SPEED as int
    } else if ball.velocity.moving_right() && ball.position.y < paddle_y {
        -PADDLE_SPEED
    } else {
        0
    }
}

/// The paddle `p` after its side's controller set its impulse to `impulse`.
pub open spec fn steered(p: Paddle, side: Side, impulse: int) -> Paddle {
    if p.player.0 == side {
        Paddle { impulse: impulse as i64, ..p }
    } else {
        p
    }
}

/// Heading of a launch for the random draw `draw`: spread evenly over
/// `[-LAUNCH_SPREAD, LAUNCH_SPREAD]`.
pub open spec fn launch_heading_of(draw: u32) -> int {
    (draw as int) % (2 * LAUNCH_SPREAD + 1) - LAUNCH_SPREAD
}

/// The ball at the centre of the field, launched for the random draw `draw`.
pub open spec fn launched(draw: u32) -> Ball {
    Ball {
        position: Position { x: 0, y: 0 },
        velocity: Velocity { speed: BALL_SPEED, heading: launch_heading_of(draw) as i32 },
    }
}

pub fn player_impulse(up: bool, down: bool) -> (r: i64)
    ensures
        r == player_impulse_of(up, down),
{
    let mut direction: i64 = 0;
    if up {
        direction = direction + 1;
    }
    if down {
        direction = direction - 1;
    }
    direction * PADDLE_SPEED
}

pub fn computer_impulse(ball: &Ball, paddle_y: i64) -> (r: i64)
    ensures
        r == computer_impulse_of(*ball, paddle_y),
{
    let moving_right = ball.velocity.is_moving_right();
    let mut direction: i64 = 0;
    if ball.position.y > paddle_y && moving_right {
        direction = direction + 1;
    }
    if ball.position.y < paddle_y && moving_right {
        direction = direction - 1;
    }
    direction * PADDLE_SPEED
}

/// Sets the impulse of every paddle of `side` to `impulse`, and leaves the
/// others as they are.
fn steer(paddles: &mut Vec<Paddle>, side: Side, impulse: i64)
    ensures
        final(paddles)@.len() == old(paddles)@.len(),
        forall|i: int|
            0 <= i < old(paddles)@.len() ==> final(paddles)@[i] == steered(
                old(paddles)@[i],
                side,
                impulse as int,
            ),
{
    let mut i: usize = 0;
    while i < paddles.len()
        invariant
            0 <= i <= paddles@.len(),
            paddles@.len() == old(paddles)@.len(),
            forall|j: int|
                0 <= j < i ==> paddles@[j] == steered(old(paddles)@[j], side, impulse as int),
            forall|j: int| i <= j < paddles@.len() ==> paddles@[j] == old(paddles)@[j],
        decreases paddles@.len() - i,
    {
        let p = paddles[i];
        if p.player.0 == side {
            paddles.set(i, Paddle { impulse, ..p });
        }
        i += 1;
    }
}

/// Human control of the left paddle: its impulse is overwritten each frame
/// from the keys held, `+PADDLE_SPEED` for up and `-PADDLE_SPEED` for down,
/// added together.
pub fn player_input(paddles: &mut Vec<Paddle>, up: bool, down: bool)
    ensures
        final(paddles)@.len() == old(paddles)@.len(),
        forall|i: int|
            0 <= i < old(paddles)@.len() ==> final(paddles)@[i] == steered(
                old(paddles)@[i],
                Side::Left,
                player_impulse_of(up, down),
            ),
{
    let impulse = player_impulse(up, down);
    steer(paddles, Side::Left, impulse);
}

/// Scripted control of the right paddle: it moves towards the ball's height
/// while the ball travels to the right, and holds otherwise.
pub fn computer_input(paddles: &mut Vec<Paddle>, ball: &Ball)
    ensures
        final(paddles)@.len() == old(paddles)@.len(),
        forall|i: int|
            0 <= i < old(paddles)@.len() ==> final(paddles)@[i] == steered(
                old(paddles)@[i],
                Side::Right,
                computer_impulse_of(*ball, old(paddles)@[i].position.y),
            ),
{
    let mut i: usize = 0;
    while i < paddles.len()
        invariant
            0 <= i <= paddles@.len(),
            paddles@.len() == old(paddles)@.len(),
            forall|j: int|
                0 <= j < i ==> paddles@[j] == steered(
                    old(paddles)@[j],
                    Side::Right,
                    computer_impulse_of(*ball, old(paddles)@[j].position.y),
                ),
            forall|j: int| i <= j < paddles@.len() ==> paddles@[j] == old(paddles)@[j],
        decreases paddles@.len() - i,
    {
        let p = paddles[i];
        if p.player.0 == Side::Right {
            let impulse = computer_impulse(ball, p.position.y);
            paddles.set(i, Paddle { impulse, ..p });
        }
        i += 1;
    }
}


/// The physics body of a paddle: dynamic, free only to move vertically, damped.
pub open spec fn paddle_body() -> Body {
    Body {
        dynamic: true,
        sensor: false,
        collider: Collider::Cuboid { half_width: PADDLE_COLLIDER_HALF_WIDTH, half_height: PADDLE_LENGTH },
        locked: LockedAxes { translation_x: true, translation_y: false, rotation: true },
        ccd: false,
        collision_events: false,
        damping: Some(Damping { linear: 1000, angular: 1000 }),
        restitution: None,
        friction: None,
    }
}

/// Horizontal position of the paddle of `side`, in thousandths of a pixel.
pub open spec fn paddle_x(side: Side) -> int {
    if side == Side::Right {
        PADDLE_OFFSET * PIXELS_PER_METER
    } else {
        -(PADDLE_OFFSET * PIXELS_PER_METER)
    }
}

/// The paddle of `side` as spawned: at rest on the centre line, beside the
/// goal of its side, with no impulse yet.
pub fn create_paddle(side: Side) -> (r: (Paddle, Body, Sprite))
    ensures
        r.0 == (Paddle {
            player: Player(side),
            position: Position { x: paddle_x(side) as i64, y: 0 },
            impulse: 0,
        }),
        r.1 == paddle_body(),
        r.2 == (Sprite {
            center: r.0.position,
            width: (PADDLE_WIDTH * PIXELS_PER_METER) as u64,
            height: (PADDLE_LENGTH * PIXELS_PER_METER) as u64,
            round: false,
            color: Grey(PARTICIPANT_GREY),
            visible: true,
        }),
{
    let offset = (PADDLE_OFFSET * PIXELS_PER_METER) as i64;
    let x = if side == Side::Right { offset } else { -offset };
    let paddle = Paddle { player: Player(side), position: Position { x, y: 0 }, impulse: 0 };
    let body = Body {
        dynamic: true,
        sensor: false,
        collider: Collider::Cuboid { half_width: PADDLE_COLLIDER_HALF_WIDTH, half_height: PADDLE_LENGTH },
        locked: LockedAxes { translation_x: true, translation_y: false, rotation: true },
        ccd: false,
        collision_events: false,
        damping: Some(Damping { linear: 1000, angular: 1000 }),
        restitution: None,
        friction: None,
    };
    let sprite = Sprite {
        center: paddle.position,
        width: (PADDLE_WIDTH * PIXELS_PER_METER) as u64,
        height: (PADDLE_LENGTH * PIXELS_PER_METER) as u64,
        round: false,
        color: Grey(PARTICIPANT_GREY),
        visible: true,
    };
    (paddle, body, sprite)
}

/// Both paddles, left first.
pub fn create_paddles() -> (r: Vec<(Paddle, Body, Sprite)>)
    ensures
        r@.len() == 2,
        r@[0].0.player.0 == Side::Left,
        r@[1].0.player.0 == Side::Right,
        forall|i: int| 0 <= i < 2 ==> r@[i].0.position.x == paddle_x(r@[i].0.player.0),
        forall|i: int| 0 <= i < 2 ==> r@[i].0.position.y == 0 && r@[i].0.impulse == 0,
        forall|i: int| 0 <= i < 2 ==> r@[i].1 == paddle_body(),
{
    let mut r: Vec<(Paddle, Body, Sprite)> = Vec::new();
    r.push(create_paddle(Side::Left));
    r.push(create_paddle(Side::Right));
    r
}

/// The physics body of the ball: dynamic, never rotating, bouncy, frictionless,
/// with continuous collision detection and collision reports.
pub open spec fn ball_body() -> Body {
    Body {
        dynamic: true,
        sensor: false,
        collider: Collider::Disc { radius: BALL_RADIUS },
        locked: LockedAxes { translation_x: false, translation_y: false, rotation: true },
        ccd: true,
        collision_events: true,
        damping: None,
        restitution: Some(Coefficient { value: 1100, rule: CombineRule::Max }),
        friction: Some(Coefficient { value: 0, rule: CombineRule::Multiply }),
    }
}

/// Heading of a launch for the random draw `draw`, within `LAUNCH_SPREAD` of
/// straight to the right.
pub fn launch_heading(draw: u32) -> (r: i32)
    ensures
        r == launch_heading_of(draw),
        -LAUNCH_SPREAD <= r <= LAUNCH_SPREAD,
{
    let spread = LAUNCH_SPREAD as u32;
    ((draw % (2 * spread + 1)) as i32) - LAUNCH_SPREAD
}

/// The ball as spawned for the random draw `draw`: at the centre, launched.
pub fn create_ball(draw: u32) -> (r: (Ball, Body, Sprite))
    ensures
        r.0 == launched(draw),
        r.1 == ball_body(),
        r.2 == (Sprite {
            center: Position { x: 0, y: 0 },
            width: (2 * BALL_RADIUS * PIXELS_PER_METER) as u64,
            height: (2 * BALL_RADIUS * PIXELS_PER_METER) as u64,
            round: true,
            color: Grey(PARTICIPANT_GREY),
            visible: true,
        }),
{
    let ball = Ball {
        position: Position { x: 0, y: 0 },
        velocity: Velocity { speed: BALL_SPEED, heading: launch_heading(draw) },
    };
    let body = Body {
        dynamic: true,
        sensor: false,
        collider: Collider::Disc { radius: BALL_RADIUS },
        locked: LockedAxes { translation_x: false, translation_y: false, rotation: true },
        ccd: true,
        collision_events: true,
        damping: None,
        restitution: Some(Coefficient { value: 1100, rule: CombineRule::Max }),
        friction: Some(Coefficient { value: 0, rule: CombineRule::Multiply }),
    };
    let diameter = (2 * BALL_RADIUS * PIXELS_PER_METER) as u64;
    let sprite = Sprite {
        center: ball.position,
        width: diameter,
        height: diameter,
        round: true,
        color: Grey(PARTICIPANT_GREY),
        visible: true,
    };
    (ball, body, sprite)
}

/// Relies on rand::random for a uniformly drawn `u32`; nothing is known of it.
#[verifier::external_body]
fn random_draw() -> u32 {
    rand::random::<u32>()
}

/// The ball spawned at startup, launched in a random direction.
pub fn spawn_ball() -> (r: (Ball, Body, Sprite))
    ensures
        exists|draw: u32| r.0 == launched(draw),
        r.1 == ball_body(),
{
    create_ball(random_draw())
}

/// Puts the ball back at the centre, launched for the random draw `draw`.
pub fn reset_ball(ball: &mut Ball, draw: u32)
    ensures
        *final(ball) == launched(draw),
{
    *ball = Ball {
        position: Position { x: 0, y: 0 },
        velocity: Velocity { speed: BALL_SPEED, heading: launch_heading(draw) },
    };
}

/// Drains the pending reset requests, with `draw` as the random draw. Any
/// number of them resets the ball once; none leaves the ball as it is.
pub fn drain_ball_resets(events: &mut Vec<ResetBallEvent>, ball: &mut Ball, draw: u32)
    ensures
        final(events)@.len() == 0,
        *final(ball) == reset_outcome(old(events)@.len(), *old(ball), draw),
{
    if events.len() == 0 {
        return;
    }
    reset_ball(ball, draw);
    events.clear();
}

/// Drains the pending reset requests. Any number of them resets the ball once,
/// in a random direction; none leaves the ball as it is.
pub fn process_ball_reset(events: &mut Vec<ResetBallEvent>, ball: &mut Ball)
    ensures
        final(events)@.len() == 0,
        old(events)@.len() == 0 ==> *final(ball) == *old(ball),
        exists|draw: u32| *final(ball) == reset_outcome(old(events)@.len(), *old(ball), draw),
{
    if events.len() == 0 {
        assert(*ball == reset_outcome(0, *ball, 0));
        return;
    }
    let draw = random_draw();
    drain_ball_resets(events, ball, draw);
}

/// While the ball travels to the left or stands still, the scripted paddle
/// applies no impulse, wherever the ball is.
pub proof fn lemma_computer_idle_when_ball_recedes(ball: Ball, paddle_y: i64)
    requires
        !ball.velocity.moving_right(),
    ensures
        computer_impulse_of(ball, paddle_y) == 0,
{
}

/// While the ball travels to the right, the scripted paddle's impulse has the
/// sign of the ball's height above it, and is zero when level.
pub proof fn lemma_computer_follows_ball(ball: Ball, paddle_y: i64)
    requires
        ball.velocity.moving_right(),
    ensures
        ball.position.y > paddle_y ==> computer_impulse_of(ball, paddle_y) > 0,
        ball.position.y < paddle_y ==> computer_impulse_of(ball, paddle_y) < 0,
        ball.position.y == paddle_y ==> computer_impulse_of(ball, paddle_y) == 0,
{
}

/// The human paddle's impulse over the four key states: the up key adds
/// `PADDLE_SPEED`, the down key takes it away.
pub proof fn lemma_player_impulse_cases()
    ensures
        player_impulse_of(false, false) == 0,
        player_impulse_of(true, false) == PADDLE_SPEED,
        player_impulse_of(false, true) == -PADDLE_SPEED,
        player_impulse_of(true, true) == 0,
{
}

/// A reset handling step with `pending` requests and the random draw `draw`:
/// the ball stays as it is when none is pending, and is launched otherwise.
pub open spec fn reset_outcome(pending: nat, ball: Ball, draw: u32) -> Ball {
    if pending == 0 {
        ball
    } else {
        launched(draw)
    }
}

/// Handling resets with none pending leaves the ball's position and velocity
/// as they are, whatever is drawn.
pub proof fn lemma_reset_without_events_is_identity(ball: Ball, draw: u32)
    ensures
        reset_outcome(0, ball, draw) == ball,
{
}

/// After a reset the ball is at the centre, moves at the fixed launch speed,
/// and heads within `LAUNCH_SPREAD` of straight horizontal (to the right).
pub proof fn lemma_reset_launches(pending: nat, ball: Ball, draw: u32)
    requires
        pending > 0,
    ensures
        reset_outcome(pending, ball, draw).position == (Position { x: 0, y: 0 }),
        reset_outcome(pending, ball, draw).velocity.speed == BALL_SPEED,
        -LAUNCH_SPREAD <= reset_outcome(pending, ball, draw).velocity.heading <= LAUNCH_SPREAD,
        reset_outcome(pending, ball, draw).velocity.moving_right(),
{
}

} // verus!
