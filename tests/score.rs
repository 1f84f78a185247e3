use rusty_pong::participant::{Player, Side};
use rusty_pong::score::{
    cheat_score, create_goals, create_scoreboard, process_goal, score_goal, score_text,
    update_scores, Anchor, CollisionEvent, Score, ScoreGoalEvent, Scoreboard,
};

const BALL: u64 = 1;
const LEFT_GOAL: u64 = 10;
const RIGHT_GOAL: u64 = 11;
const PADDLE: u64 = 20;

fn goals() -> Vec<(u64, Player)> {
    vec![(LEFT_GOAL, Player(Side::Left)), (RIGHT_GOAL, Player(Side::Right))]
}

fn board(side: Side, score: i8) -> Scoreboard {
    let anchor = if side == Side::Left { Anchor::TopLeft } else { Anchor::TopRight };
    Scoreboard { player: Player(side), score: Score(score), text: String::from("?"), anchor }
}

#[test]
fn ball_in_left_goal_scores_once() {
    let events = vec![CollisionEvent::Started(BALL, LEFT_GOAL)];
    let (scored, resets) = process_goal(&events, BALL, &goals());
    assert_eq!(scored, vec![ScoreGoalEvent(Side::Left)]);
    assert_eq!(resets.len(), 1);
}

#[test]
fn repeated_contacts_are_not_merged() {
    let events = vec![
        CollisionEvent::Started(RIGHT_GOAL, BALL),
        CollisionEvent::Started(BALL, RIGHT_GOAL),
    ];
    let (scored, resets) = process_goal(&events, BALL, &goals());
    assert_eq!(scored, vec![ScoreGoalEvent(Side::Right), ScoreGoalEvent(Side::Right)]);
    assert_eq!(resets.len(), 2);
}

#[test]
fn other_contacts_are_ignored() {
    let events = vec![
        CollisionEvent::Stopped(BALL, LEFT_GOAL),
        CollisionEvent::Started(PADDLE, LEFT_GOAL),
        CollisionEvent::Started(BALL, PADDLE),
    ];
    let (scored, resets) = process_goal(&events, BALL, &goals());
    assert!(scored.is_empty());
    assert!(resets.is_empty());
    let (none, _) = process_goal(&Vec::new(), BALL, &goals());
    assert!(none.is_empty());
}

#[test]
fn score_goal_credits_matching_side() {
    let mut boards = vec![board(Side::Left, 3), board(Side::Right, 4)];
    score_goal(
        &vec![ScoreGoalEvent(Side::Left), ScoreGoalEvent(Side::Left), ScoreGoalEvent(Side::Right)],
        &mut boards,
    );
    assert_eq!(boards[0].score, Score(5));
    assert_eq!(boards[1].score, Score(5));
    assert_eq!(boards[0].text, "?");
}

#[test]
fn score_wraps_past_largest() {
    let mut boards = vec![board(Side::Left, 127)];
    score_goal(&vec![ScoreGoalEvent(Side::Left)], &mut boards);
    assert_eq!(boards[0].score, Score(-128));
}

#[test]
fn cheat_key_adds_one_per_press() {
    let mut boards = vec![board(Side::Left, 0), board(Side::Right, 0)];
    cheat_score(&mut boards, true, false);
    assert_eq!(boards[0].score, Score(1));
    assert_eq!(boards[1].score, Score(0));
    // held on, with no new press
    cheat_score(&mut boards, false, false);
    cheat_score(&mut boards, false, false);
    assert_eq!(boards[0].score, Score(1));
    cheat_score(&mut boards, false, true);
    assert_eq!(boards[1].score, Score(1));
}

#[test]
fn score_text_is_decimal() {
    assert_eq!(score_text(Score(0)), "0");
    assert_eq!(score_text(Score(7)), "7");
    assert_eq!(score_text(Score(42)), "42");
    assert_eq!(score_text(Score(127)), "127");
    assert_eq!(score_text(Score(-5)), "-5");
    assert_eq!(score_text(Score(-10)), "-10");
    assert_eq!(score_text(Score(-128)), "-128");
}

#[test]
fn labels_follow_scores() {
    let mut boards = vec![board(Side::Left, 12), board(Side::Right, -3)];
    update_scores(&mut boards);
    assert_eq!(boards[0].text, "12");
    assert_eq!(boards[1].text, "-3");
    assert_eq!(boards[0].score, Score(12));
}

#[test]
fn scoreboard_starts_at_zero() {
    let boards = create_scoreboard();
    assert_eq!(boards.len(), 2);
    assert_eq!(boards[0].player, Player(Side::Left));
    assert_eq!(boards[0].anchor, Anchor::TopLeft);
    assert_eq!(boards[1].anchor, Anchor::TopRight);
    assert!(boards.iter().all(|b| b.score == Score(0) && b.text == "0"));
}

#[test]
fn goals_are_hidden_sensors() {
    let goals = create_goals();
    assert_eq!(goals.len(), 2);
    assert_eq!(goals[0].1, Player(Side::Left));
    assert_eq!(goals[0].3.center.x, 250_000);
    assert_eq!(goals[1].3.center.x, -250_000);
    assert!(goals.iter().all(|g| g.2.sensor && !g.2.dynamic && !g.3.visible));
}
