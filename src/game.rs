use vstd::prelude::*;

use crate::participant::{
    computer_impulse_of, computer_input, create_ball, create_paddles, drain_ball_resets,
    player_impulse_of, player_input, reset_outcome, steered, Ball, Paddle, Player, Side,
};
use crate::score::{
    advanced, bump, cheat_score, count_for, create_scoreboard, decimal, goals_scored,
    process_goal, score_goal, update_scores, CollisionEvent, Scoreboard,
};

verus! {

/// The keys read in a frame: the human paddle's up and down keys, held, and
/// the two score override keys, pressed since the last frame.
#[derive(PartialEq, Eq, Structural, Clone, Copy, Debug)]
pub struct FrameInput {
    pub up: bool,
    pub down: bool,
    pub left_cheat: bool,
    pub right_cheat: bool,
}

/// The state of a match: two paddles, one ball, the two goals by entity
/// identifier, and the two score labels.
#[derive(Debug)]
pub struct Game {
    pub paddles: Vec<Paddle>,
    pub ball: Ball,
    pub ball_id: u64,
    pub goals: Vec<(u64, Player)>,
    pub boards: Vec<Scoreboard>,
}

/// The score of a side after a frame: one point per scoring event for it, then
/// one more if its override key went down.
pub open spec fn frame_score(s: i8, goals: nat, cheat: bool) -> i8 {
    if cheat {
        bump(advanced(s, goals))
    } else {
        advanced(s, goals)
    }
}

/// Whether the override key of `side` went down this frame.
pub open spec fn cheat_for(input: FrameInput, side: Side) -> bool {
    if side == Side::Left {
        input.left_cheat
    } else {
        input.right_cheat
    }
}

impl Game {
    /// Exactly two paddles, the left one first; two labels, the left one
    /// first, each showing its score.
    pub open spec fn wf(&self) -> bool {
        &&& self.paddles@.len() == 2
        &&& self.paddles@[0].player.0 == Side::Left
        &&& self.paddles@[1].player.0 == Side::Right
        &&& self.boards@.len() == 2
        &&& self.boards@[0].player.0 == Side::Left
        &&& self.boards@[1].player.0 == Side::Right
        &&& forall|j: int|
            0 <= j < 2 ==> #[trigger] self.boards@[j].text@ == decimal(
                self.boards@[j].score.0 as int,
            )
    }

    /// A new match: paddles, ball and goals as spawned, scores at zero, the
    /// ball launched for the random draw `draw`.
    pub fn new(ball_id: u64, left_goal_id: u64, right_goal_id: u64, draw: u32) -> (r: Game)
        ensures
            r.wf(),
            r.ball == crate::participant::launched(draw),
            r.ball_id == ball_id,
            r.goals@ == seq![(left_goal_id, Player(Side::Left)), (right_goal_id, Player(Side::Right))],
            forall|j: int| 0 <= j < 2 ==> r.boards@[j].score.0 == 0,
            forall|j: int| 0 <= j < 2 ==> r.paddles@[j].impulse == 0,
    {
        let spawned = create_paddles();
        let mut paddles: Vec<Paddle> = Vec::new();
        paddles.push(spawned[0].0);
        paddles.push(spawned[1].0);
        let mut goals: Vec<(u64, Player)> = Vec::new();
        goals.push((left_goal_id, Player(Side::Left)));
        goals.push((right_goal_id, Player(Side::Right)));
        let boards = create_scoreboard();
        Game { paddles, ball: create_ball(draw).0, ball_id, goals, boards }
    }

    /// One frame, in order: both paddle controllers; goal detection on the
    /// frame's collision notifications; scoring; the score override; ball
    /// resets, with `draw` as the random draw; and the labels' update.
    pub fn frame(&mut self, input: FrameInput, collisions: &Vec<CollisionEvent>, draw: u32)
        requires
            old(self).wf(),
        ensures
            final(self).wf(),
            final(self).ball_id == old(self).ball_id,
            final(self).goals@ == old(self).goals@,
            forall|j: int|
                0 <= j < 2 ==> #[trigger] final(self).paddles@[j] == steered(
                    steered(old(self).paddles@[j], Side::Left, player_impulse_of(input.up, input.down)),
                    Side::Right,
                    computer_impulse_of(old(self).ball, old(self).paddles@[j].position.y),
                ),
            forall|j: int|
                0 <= j < 2 ==> #[trigger] final(self).boards@[j].score.0 == frame_score(
                    old(self).boards@[j].score.0,
                    count_for(
                        goals_scored(collisions@, old(self).ball_id, old(self).goals@),
                        old(self).boards@[j].player.0,
                    ),
                    cheat_for(input, old(self).boards@[j].player.0),
                ),
            final(self).ball == reset_outcome(
                goals_scored(collisions@, old(self).ball_id, old(self).goals@).len(),
                old(self).ball,
                draw,
            ),
    {
        player_input(&mut self.paddles, input.up, input.down);
        computer_input(&mut self.paddles, &self.ball);
        let (scored, mut resets) = process_goal(collisions, self.ball_id, &self.goals);
        score_goal(&scored, &mut self.boards);
        cheat_score(&mut self.boards, input.left_cheat, input.right_cheat);
        drain_ball_resets(&mut resets, &mut self.ball, draw);
        update_scores(&mut self.boards);
    }
}

} // verus!
