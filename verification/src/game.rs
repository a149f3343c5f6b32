//! Players, the score, the per-tick event flags and the queue of paddle
//! inputs.
use vstd::prelude::*;

verus! {

/// The score at which a player wins a match.
pub const WIN_SCORE: u8 = 5;

/// Identifies a player / side of the arena (0 = left, 1 = right).
#[derive(Debug, Clone, Copy, PartialEq, Eq, Structural, Hash)]
pub struct PlayerId(pub u8);

impl PlayerId {
    /// 0-based index (0 = left, 1 = right), for arrays and side-keyed lookups.
    pub fn index(self) -> (r: usize)
        ensures
            r == self.0,
    {
        self.0 as usize
    }
}

/// Game score tracking.
#[derive(Debug, Clone, Copy, PartialEq, Eq, Structural)]
pub struct Score {
    /// Left player score.
    pub left: u8,
    /// Right player score.
    pub right: u8,
}

/// The winner, if any, of a score under a win threshold: the left player is
/// checked first.
pub open spec fn spec_winner(left: u8, right: u8, win_score: u8) -> Option<PlayerId> {
    if left >= win_score {
        Some(PlayerId(0))
    } else if right >= win_score {
        Some(PlayerId(1))
    } else {
        None
    }
}

impl Score {
    /// A fresh 0:0 score.
    pub fn new() -> (s: Self)
        ensures
            s.left == 0,
            s.right == 0,
    {
        Score { left: 0, right: 0 }
    }

    /// One more point for the left player.
    pub fn increment_left(&mut self)
        requires
            old(self).left < 255,
        ensures
            final(self).left == old(self).left + 1,
            final(self).right == old(self).right,
    {
        self.left = self.left + 1;
    }

    /// One more point for the right player.
    pub fn increment_right(&mut self)
        requires
            old(self).right < 255,
        ensures
            final(self).right == old(self).right + 1,
            final(self).left == old(self).left,
    {
        self.right = self.right + 1;
    }

    /// The player who has reached `win_score`, the left one first.
    pub fn has_winner(&self, win_score: u8) -> (r: Option<PlayerId>)
        ensures
            r == spec_winner(self.left, self.right, win_score),
    {
        if self.left >= win_score {
            Some(PlayerId(0))
        } else if self.right >= win_score {
            Some(PlayerId(1))
        } else {
            None
        }
    }
}

impl Default for Score {
    fn default() -> (s: Self)
        ensures
            s.left == 0,
            s.right == 0,
    {
        Score::new()
    }
}

/// Events that occurred during one simulation frame.
#[derive(Debug, Clone, Copy, PartialEq, Eq, Structural)]
pub struct Events {
    pub left_scored: bool,
    pub right_scored: bool,
    pub ball_hit_paddle: bool,
    pub ball_hit_wall: bool,
}

impl Events {
    /// No event has happened.
    pub open spec fn is_clear(self) -> bool {
        !self.left_scored && !self.right_scored && !self.ball_hit_paddle && !self.ball_hit_wall
    }

    /// A frame in which nothing has happened yet.
    pub fn new() -> (e: Self)
        ensures
            e.is_clear(),
    {
        Events { left_scored: false, right_scored: false, ball_hit_paddle: false, ball_hit_wall: false }
    }

    /// Forget every event of the previous frame.
    pub fn clear(&mut self)
        ensures
            final(self).is_clear(),
    {
        self.left_scored = false;
        self.right_scored = false;
        self.ball_hit_paddle = false;
        self.ball_hit_wall = false;
    }
}

impl Default for Events {
    fn default() -> (e: Self)
        ensures
            e.is_clear(),
    {
        Events::new()
    }
}

/// Paddle positions received from the network and not yet applied, oldest
/// first: each is a player and an absolute y (the bits of an `f32`).
#[derive(Debug, Clone)]
pub struct NetQueue {
    pub inputs: Vec<(PlayerId, u32)>,
}

impl NetQueue {
    /// An empty queue.
    pub fn new() -> (q: Self)
        ensures
            q.inputs@ == Seq::<(PlayerId, u32)>::empty(),
    {
        NetQueue { inputs: Vec::new() }
    }

    /// Drop every queued input.
    pub fn clear(&mut self)
        ensures
            final(self).inputs@ == Seq::<(PlayerId, u32)>::empty(),
    {
        self.inputs.clear();
    }

    /// Queue an absolute y for a player's paddle.
    pub fn push_input(&mut self, player_id: PlayerId, y_bits: u32)
        ensures
            final(self).inputs@ == old(self).inputs@.push((player_id, y_bits)),
    {
        self.inputs.push((player_id, y_bits));
    }

    /// Hand out every queued input, oldest first, leaving the queue empty.
    pub fn pop_inputs(&mut self) -> (r: Vec<(PlayerId, u32)>)
        ensures
            r@ == old(self).inputs@,
            final(self).inputs@ == Seq::<(PlayerId, u32)>::empty(),
    {
        let mut out: Vec<(PlayerId, u32)> = Vec::new();
        std::mem::swap(&mut out, &mut self.inputs);
        out
    }
}

impl Default for NetQueue {
    fn default() -> (q: Self)
        ensures
            q.inputs@ == Seq::<(PlayerId, u32)>::empty(),
    {
        NetQueue::new()
    }
}

/// The tallies of a rematch: the score back to 0:0, no event pending and no
/// queued input.
pub fn reset_for_rematch(score: &mut Score, events: &mut Events, net_queue: &mut NetQueue)
    ensures
        final(score).left == 0 && final(score).right == 0,
        final(events).is_clear(),
        final(net_queue).inputs@ == Seq::<(PlayerId, u32)>::empty(),
{
    *score = Score::new();
    events.clear();
    net_queue.clear();
}

} // verus!

verus! {

/// Scores only grow, so once a player has reached the win score a winner
/// stays: another point for either side never takes the win away (though a
/// point for the left player can make the left player the one reported).
pub proof fn lemma_winner_persists(left: u8, right: u8, win_score: u8)
    requires
        spec_winner(left, right, win_score) is Some,
    ensures
        left < 255 ==> spec_winner((left + 1) as u8, right, win_score) is Some,
        right < 255 ==> spec_winner(left, (right + 1) as u8, win_score) == spec_winner(left, right, win_score),
{
}

/// A player wins exactly when their own score reaches the win score and, for
/// the right player, the left one has not.
pub proof fn lemma_winner_iff_threshold(left: u8, right: u8, win_score: u8)
    ensures
        spec_winner(left, right, win_score) == Some(PlayerId(0)) <==> left >= win_score,
        spec_winner(left, right, win_score) == Some(PlayerId(1)) <==> (left < win_score && right >= win_score),
        spec_winner(left, right, win_score) is None <==> (left < win_score && right < win_score),
{
}

} // verus!
