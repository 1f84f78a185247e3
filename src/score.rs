use vstd::prelude::*;
use vstd::string::*;

use crate::graphics::{Grey, Sprite};
use crate::participant::{Player, ResetBallEvent, Side};
use crate::physics::{Body, Collider, LockedAxes, Position, PIXELS_PER_METER};

verus! {

/// Font size of the score labels, in pixels.
pub const SCORE_FONT_SIZE: u32 = 40;

/// Margin between a score label and the window's top corner, in pixels.
pub const SCORE_PADDING: u32 = 5;

/// Grey level of the score labels.
pub const SCORE_GREY: u16 = 500;

/// Distance of each goal from the field's centre, in thousandths of a metre.
pub const GOAL_OFFSET: u32 = 2500;

/// Drawn width and height of a goal, in thousandths of a metre.
pub const GOAL_WIDTH: u32 = 100;
pub const GOAL_HEIGHT: u32 = 1500;

/// Half extents of a goal's sensor, in thousandths of an engine unit.
pub const GOAL_HALF_WIDTH: u32 = 400;
pub const GOAL_HALF_HEIGHT: u32 = 3000;

/// A side's points.
#[derive(PartialEq, Eq, Structural, Clone, Copy, Debug)]
pub struct Score(pub i8);

/// Marks the sensor volume that scores for its side when the ball enters it.
#[derive(PartialEq, Eq, Structural, Clone, Copy, Debug)]
pub struct Goal;

/// The ball entered the goal of a side, which scores.
#[derive(PartialEq, Eq, Structural, Clone, Copy, Debug)]
pub struct ScoreGoalEvent(pub Side);

/// Spawns the goals and score labels and keeps the score.
pub struct ScorePlugin;

/// A notification of the physics engine about two entities, named by their
/// identifiers, that began or ceased to touch.
#[derive(PartialEq, Eq, Structural, Clone, Copy, Debug)]
pub enum CollisionEvent {
    Started(u64, u64),
    Stopped(u64, u64),
}

/// The window corner where a score label stands.
#[derive(PartialEq, Eq, Structural, Clone, Copy, Debug)]
pub enum Anchor {
    TopLeft,
    TopRight,
}

/// A side's score and the label that shows it.
#[derive(Clone, Debug)]
pub struct Scoreboard {
    pub player: Player,
    pub score: Score,
    pub text: String,
    pub anchor: Anchor,
}

/// The score that follows `s`; past the largest value it wraps to the smallest.
pub open spec fn bump(s: i8) -> i8 {
    if s == i8::MAX {
        i8::MIN
    } else {
        (s + 1) as i8
    }
}

/// The score `s` after `n` points.
pub open spec fn advanced(s: i8, n: nat) -> i8
    decreases n,
{
    if n == 0 {
        s
    } else {
        bump(advanced(s, (n - 1) as nat))
    }
}

/// How many of `events` are for `side`.
pub open spec fn count_for(events: Seq<ScoreGoalEvent>, side: Side) -> nat
    decreases events.len(),
{
    if events.len() == 0 {
        0
    } else {
        count_for(events.drop_last(), side) + (if events.last().0 == side {
            1nat
        } else {
            0nat
        })
    }
}

/// The notification is the start of a contact that involves entity `id`.
pub open spec fn started_with(e: CollisionEvent, id: u64) -> bool {
    match e {
        CollisionEvent::Started(a, b) => a == id || b == id,
        CollisionEvent::Stopped(_, _) => false,
    }
}

/// The scoring events for a contact `e` of the ball: one for each goal in
/// `goals` that `e` involves, in their order.
pub open spec fn goals_hit(e: CollisionEvent, goals: Seq<(u64, Player)>) -> Seq<ScoreGoalEvent>
    decreases goals.len(),
{
    if goals.len() == 0 {
        Seq::empty()
    } else {
        goals_hit(e, goals.drop_last()) + (if started_with(e, goals.last().0) {
            seq![ScoreGoalEvent(goals.last().1.0)]
        } else {
            Seq::empty()
        })
    }
}

/// The scoring events for the notifications `events` of a frame, with `ball`
/// the ball's identifier: those of each contact that starts and involves the
/// ball, in order, with no merging of repeats.
pub open spec fn goals_scored(
    events: Seq<CollisionEvent>,
    ball: u64,
    goals: Seq<(u64, Player)>,
) -> Seq<ScoreGoalEvent>
    decreases events.len(),
{
    if events.len() == 0 {
        Seq::empty()
    } else {
        goals_scored(events.drop_last(), ball, goals) + (if started_with(events.last(), ball) {
            goals_hit(events.last(), goals)
        } else {
            Seq::empty()
        })
    }
}

fn started_with_exec(e: CollisionEvent, id: u64) -> (r: bool)
    ensures
        r == started_with(e, id),
{
    match e {
        CollisionEvent::Started(a, b) => a == id || b == id,
        CollisionEvent::Stopped(_, _) => false,
    }
}

/// Turns the frame's collision notifications into scoring events, and one
/// ball reset request for each of them.
pub fn process_goal(
    events: &Vec<CollisionEvent>,
    ball: u64,
    goals: &Vec<(u64, Player)>,
) -> (r: (Vec<ScoreGoalEvent>, Vec<ResetBallEvent>))
    ensures
        r.0@ == goals_scored(events@, ball, goals@),
        r.1@.len() == r.0@.len(),
{
    let mut scored: Vec<ScoreGoalEvent> = Vec::new();
    let mut resets: Vec<ResetBallEvent> = Vec::new();
    let mut i: usize = 0;
    while i < events.len()
        invariant
            0 <= i <= events@.len(),
            scored@ == goals_scored(events@.take(i as int), ball, goals@),
            resets@.len() == scored@.len(),
        decreases events@.len() - i,
    {
        let e = events[i];
        assert(events@.take(i + 1).drop_last() == events@.take(i as int));
        if started_with_exec(e, ball) {
            let mut k: usize = 0;
            let ghost before = scored@;
            while k < goals.len()
                invariant
                    0 <= k <= goals@.len(),
                    e == events@[i as int],
                    started_with(e, ball),
                    scored@ == before + goals_hit(e, goals@.take(k as int)),
                    resets@.len() == scored@.len(),
                decreases goals@.len() - k,
            {
                let (id, player) = goals[k];
                assert(goals@.take(k + 1).drop_last() == goals@.take(k as int));
                if started_with_exec(e, id) {
                    scored.push(ScoreGoalEvent(player.0));
                    resets.push(ResetBallEvent);
                }
                assert(scored@ == before + goals_hit(e, goals@.take(k + 1)));
                k += 1;
            }
            assert(goals@.take(goals@.len() as int) == goals@);
        }
        i += 1;
    }
    assert(events@.take(events@.len() as int) == events@);
    (scored, resets)
}


/// The scoreboard `b` with its score set to `s`, its label untouched.
pub open spec fn with_score(b: Scoreboard, s: i8) -> Scoreboard {
    Scoreboard { score: Score(s), ..b }
}

/// The next score after `s`, wrapping past the largest value.
pub fn bump_score(s: Score) -> (r: Score)
    ensures
        r.0 == bump(s.0),
{
    if s.0 == i8::MAX {
        Score(i8::MIN)
    } else {
        Score(s.0 + 1)
    }
}

/// Adds a point to every scoreboard of `side`.
fn award(boards: &mut Vec<Scoreboard>, side: Side)
    ensures
        final(boards)@.len() == old(boards)@.len(),
        forall|j: int|
            0 <= j < old(boards)@.len() ==> final(boards)@[j] == if old(boards)@[j].player.0
                == side {
                with_score(old(boards)@[j], bump(old(boards)@[j].score.0))
            } else {
                old(boards)@[j]
            },
{
    let mut j: usize = 0;
    while j < boards.len()
        invariant
            0 <= j <= boards@.len(),
            boards@.len() == old(boards)@.len(),
            forall|k: int|
                0 <= k < j ==> boards@[k] == if old(boards)@[k].player.0 == side {
                    with_score(old(boards)@[k], bump(old(boards)@[k].score.0))
                } else {
                    old(boards)@[k]
                },
            forall|k: int| j <= k < boards@.len() ==> boards@[k] == old(boards)@[k],
        decreases boards@.len() - j,
    {
        if boards[j].player.0 == side {
            let next = bump_score(boards[j].score);
            boards[j].score = next;
        }
        j += 1;
    }
}

/// Credits each scoring event to the scoreboards of its side, one point per
/// event.
pub fn score_goal(events: &Vec<ScoreGoalEvent>, boards: &mut Vec<Scoreboard>)
    ensures
        final(boards)@.len() == old(boards)@.len(),
        forall|j: int|
            0 <= j < old(boards)@.len() ==> final(boards)@[j] == with_score(
                old(boards)@[j],
                advanced(old(boards)@[j].score.0, count_for(events@, old(boards)@[j].player.0)),
            ),
{
    let mut i: usize = 0;
    while i < events.len()
        invariant
            0 <= i <= events@.len(),
            boards@.len() == old(boards)@.len(),
            forall|j: int|
                0 <= j < boards@.len() ==> boards@[j] == with_score(
                    old(boards)@[j],
                    advanced(
                        old(boards)@[j].score.0,
                        count_for(events@.take(i as int), old(boards)@[j].player.0),
                    ),
                ),
        decreases events@.len() - i,
    {
        assert(events@.take(i + 1).drop_last() == events@.take(i as int));
        award(boards, events[i].0);
        i += 1;
    }
    assert(events@.take(events@.len() as int) == events@);
}

/// The manual override: a point for each side whose key went down this frame.
pub fn cheat_score(boards: &mut Vec<Scoreboard>, left_just_pressed: bool, right_just_pressed: bool)
    ensures
        final(boards)@.len() == old(boards)@.len(),
        forall|j: int|
            0 <= j < old(boards)@.len() ==> final(boards)@[j] == if (old(boards)@[j].player.0
                == Side::Left && left_just_pressed) || (old(boards)@[j].player.0 == Side::Right
                && right_just_pressed) {
                with_score(old(boards)@[j], bump(old(boards)@[j].score.0))
            } else {
                old(boards)@[j]
            },
{
    let mut j: usize = 0;
    while j < boards.len()
        invariant
            0 <= j <= boards@.len(),
            boards@.len() == old(boards)@.len(),
            forall|k: int|
                0 <= k < j ==> boards@[k] == if (old(boards)@[k].player.0 == Side::Left
                    && left_just_pressed) || (old(boards)@[k].player.0 == Side::Right
                    && right_just_pressed) {
                    with_score(old(boards)@[k], bump(old(boards)@[k].score.0))
                } else {
                    old(boards)@[k]
                },
            forall|k: int| j <= k < boards@.len() ==> boards@[k] == old(boards)@[k],
        decreases boards@.len() - j,
    {
        let pressed = if boards[j].player.0 == Side::Left {
            left_just_pressed
        } else {
            right_just_pressed
        };
        if pressed {
            let next = bump_score(boards[j].score);
            boards[j].score = next;
        }
        j += 1;
    }
}


/// The character of the decimal digit `d`.
pub open spec fn digit_char(d: int) -> char {
    if d == 0 {
        '0'
    } else if d == 1 {
        '1'
    } else if d == 2 {
        '2'
    } else if d == 3 {
        '3'
    } else if d == 4 {
        '4'
    } else if d == 5 {
        '5'
    } else if d == 6 {
        '6'
    } else if d == 7 {
        '7'
    } else if d == 8 {
        '8'
    } else {
        '9'
    }
}

/// The decimal digits of `n`, most significant first, with no leading zero.
pub open spec fn digits(n: nat) -> Seq<char>
    decreases n,
{
    if n < 10 {
        seq![digit_char(n as int)]
    } else {
        digits(n / 10).push(digit_char((n % 10) as int))
    }
}

/// The decimal form of `n`, with a leading `-` when negative.
pub open spec fn decimal(n: int) -> Seq<char> {
    if n < 0 {
        seq!['-'] + digits((-n) as nat)
    } else {
        digits(n as nat)
    }
}

fn digit_str(d: u8) -> (r: &'static str)
    requires
        d < 10,
    ensures
        r@ == seq![digit_char(d as int)],
{
    match d {
        0 => {
            proof {
                reveal_strlit("0");
            }
            "0"
        },
        1 => {
            proof {
                reveal_strlit("1");
            }
            "1"
        },
        2 => {
            proof {
                reveal_strlit("2");
            }
            "2"
        },
        3 => {
            proof {
                reveal_strlit("3");
            }
            "3"
        },
        4 => {
            proof {
                reveal_strlit("4");
            }
            "4"
        },
        5 => {
            proof {
                reveal_strlit("5");
            }
            "5"
        },
        6 => {
            proof {
                reveal_strlit("6");
            }
            "6"
        },
        7 => {
            proof {
                reveal_strlit("7");
            }
            "7"
        },
        8 => {
            proof {
                reveal_strlit("8");
            }
            "8"
        },
        _ => {
            proof {
                reveal_strlit("9");
            }
            "9"
        },
    }
}

/// The decimal form of a score, as its label shows it.
pub fn score_text(s: Score) -> (r: String)
    ensures
        r@ == decimal(s.0 as int),
{
    let mut text = String::new();
    if s.0 < 0 {
        proof {
            reveal_strlit("-");
        }
        text.append("-");
    }
    let m: u8 = if s.0 < 0 {
        (-(s.0 as i16)) as u8
    } else {
        s.0 as u8
    };
    let ghost sign = text@;
    assert(sign == if s.0 < 0 { seq!['-'] } else { Seq::<char>::empty() });
    if m >= 100 {
        text.append(digit_str(m / 100));
        text.append(digit_str((m / 10) % 10));
        text.append(digit_str(m % 10));
        assert(digits((m / 100) as nat) == seq![digit_char((m / 100) as int)]);
        assert(digits((m / 10) as nat) == digits((m / 100) as nat).push(
            digit_char(((m / 10) % 10) as int),
        ));
        assert(digits(m as nat) == digits((m / 10) as nat).push(digit_char((m % 10) as int)));
    } else if m >= 10 {
        text.append(digit_str(m / 10));
        text.append(digit_str(m % 10));
        assert(digits((m / 10) as nat) == seq![digit_char((m / 10) as int)]);
        assert(digits(m as nat) == digits((m / 10) as nat).push(digit_char((m % 10) as int)));
    } else {
        text.append(digit_str(m));
    }
    assert(text@ == sign + digits(m as nat));
    text
}

/// Rewrites every label from its score.
pub fn update_scores(boards: &mut Vec<Scoreboard>)
    ensures
        final(boards)@.len() == old(boards)@.len(),
        forall|j: int|
            #![trigger final(boards)@[j]]
            0 <= j < old(boards)@.len() ==> {
                &&& final(boards)@[j].text@ == decimal(old(boards)@[j].score.0 as int)
                &&& final(boards)@[j].player == old(boards)@[j].player
                &&& final(boards)@[j].score == old(boards)@[j].score
                &&& final(boards)@[j].anchor == old(boards)@[j].anchor
            },
{
    let mut j: usize = 0;
    while j < boards.len()
        invariant
            0 <= j <= boards@.len(),
            boards@.len() == old(boards)@.len(),
            forall|k: int|
                #![trigger boards@[k]]
                0 <= k < j ==> {
                    &&& boards@[k].text@ == decimal(old(boards)@[k].score.0 as int)
                    &&& boards@[k].player == old(boards)@[k].player
                    &&& boards@[k].score == old(boards)@[k].score
                    &&& boards@[k].anchor == old(boards)@[k].anchor
                },
            forall|k: int| j <= k < boards@.len() ==> boards@[k] == old(boards)@[k],
        decreases boards@.len() - j,
    {
        let text = score_text(boards[j].score);
        boards[j].text = text;
        j += 1;
    }
}

/// The label of `side` as spawned: a score of zero, shown as "0", in the top
/// corner of its side.
pub fn create_board(side: Side) -> (r: Scoreboard)
    ensures
        r.player == Player(side),
        r.score == Score(0),
        r.text@ == decimal(0),
        r.anchor == if side == Side::Left {
            Anchor::TopLeft
        } else {
            Anchor::TopRight
        },
{
    let anchor = if side == Side::Left {
        Anchor::TopLeft
    } else {
        Anchor::TopRight
    };
    Scoreboard { player: Player(side), score: Score(0), text: score_text(Score(0)), anchor }
}

/// Both labels, left first.
pub fn create_scoreboard() -> (r: Vec<Scoreboard>)
    ensures
        r@.len() == 2,
        r@[0].player == Player(Side::Left) && r@[0].anchor == Anchor::TopLeft,
        r@[1].player == Player(Side::Right) && r@[1].anchor == Anchor::TopRight,
        forall|j: int| 0 <= j < 2 ==> r@[j].score == Score(0) && r@[j].text@ == decimal(0),
{
    let mut r: Vec<Scoreboard> = Vec::new();
    r.push(create_board(Side::Left));
    r.push(create_board(Side::Right));
    r
}

/// The sensor of a goal: no body of its own, overlap detection only.
pub open spec fn goal_body() -> Body {
    Body {
        dynamic: false,
        sensor: true,
        collider: Collider::Cuboid { half_width: GOAL_HALF_WIDTH, half_height: GOAL_HALF_HEIGHT },
        locked: LockedAxes { translation_x: false, translation_y: false, rotation: false },
        ccd: false,
        collision_events: false,
        damping: None,
        restitution: None,
        friction: None,
    }
}

/// Horizontal position of the goal tagged `side`, in thousandths of a pixel:
/// the goal that credits the left side stands at the right edge, and the
/// other at the left edge.
pub open spec fn goal_x(side: Side) -> int {
    if side == Side::Left {
        GOAL_OFFSET * PIXELS_PER_METER
    } else {
        -(GOAL_OFFSET * PIXELS_PER_METER)
    }
}

/// The goal tagged `side` as spawned: an invisible sensor beyond the paddles.
pub fn create_goal(side: Side) -> (r: (Goal, Player, Body, Sprite))
    ensures
        r.1 == Player(side),
        r.2 == goal_body(),
        r.3 == (Sprite {
            center: Position { x: goal_x(side) as i64, y: 0 },
            width: (GOAL_WIDTH * PIXELS_PER_METER) as u64,
            height: (GOAL_HEIGHT * PIXELS_PER_METER) as u64,
            round: false,
            color: Grey(0),
            visible: false,
        }),
{
    let offset = (GOAL_OFFSET * PIXELS_PER_METER) as i64;
    let x = if side == Side::Left { offset } else { -offset };
    let body = Body {
        dynamic: false,
        sensor: true,
        collider: Collider::Cuboid { half_width: GOAL_HALF_WIDTH, half_height: GOAL_HALF_HEIGHT },
        locked: LockedAxes { translation_x: false, translation_y: false, rotation: false },
        ccd: false,
        collision_events: false,
        damping: None,
        restitution: None,
        friction: None,
    };
    let sprite = Sprite {
        center: Position { x, y: 0 },
        width: (GOAL_WIDTH * PIXELS_PER_METER) as u64,
        height: (GOAL_HEIGHT * PIXELS_PER_METER) as u64,
        round: false,
        color: Grey(0),
        visible: false,
    };
    (Goal, Player(side), body, sprite)
}

/// Both goals: the one tagged left first.
pub fn create_goals() -> (r: Vec<(Goal, Player, Body, Sprite)>)
    ensures
        r@.len() == 2,
        r@[0].1 == Player(Side::Left) && r@[1].1 == Player(Side::Right),
        forall|j: int| 0 <= j < 2 ==> r@[j].2 == goal_body(),
        forall|j: int| 0 <= j < 2 ==> r@[j].3.center == (Position { x: goal_x(r@[j].1.0) as i64, y: 0 }),
        forall|j: int| 0 <= j < 2 ==> !r@[j].3.visible,
{
    let mut r: Vec<(Goal, Player, Body, Sprite)> = Vec::new();
    r.push(create_goal(Side::Left));
    r.push(create_goal(Side::Right));
    r
}

} // verus!
