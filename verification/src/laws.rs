//! The general laws of the simulation, proved over the model that the
//! executable functions are proved equal to.

use vstd::prelude::*;
use crate::model::{
    accelerated, ball_after_hit, ball_moved, bounds_m, hit_of, init_m, paddle_stepped,
    rects_intersect, restart_m, update_m, wall_bounced, EntityM, GameM, HitM, InputM, PADDLE_MAX,
};
use crate::num::mag;
use crate::text::{score_text, win_text};

verus! {

/// The acceleration step never pushes a paddle's speed past the cap by way
/// of that step: from a speed within the cap it stays within the cap, and
/// whenever the result's magnitude exceeds the cap the step was suppressed
/// and the velocity is unchanged.
pub proof fn lemma_accel_capped(v: int, d: int)
    ensures
        mag(v) <= PADDLE_MAX ==> mag(accelerated(v, d)) <= PADDLE_MAX,
        mag(accelerated(v, d)) > PADDLE_MAX ==> accelerated(v, d) == v,
{
}

/// Restart is idempotent: restarting twice in succession yields exactly the
/// state a single restart yields.
pub proof fn lemma_restart_idempotent(g: GameM)
    ensures
        restart_m(restart_m(g)) == restart_m(g),
{
    assert(restart_m(restart_m(g)) =~= restart_m(g));
}

/// Collision precedence: when the ball's rectangle intersects both paddles'
/// rectangles in the same frame, only player 1's paddle effect is applied —
/// the hit resolves to the first paddle, the ball's response (reversal,
/// speed-up and spin) is computed from player 1's paddle, and exactly one
/// point is scored.
pub proof fn lemma_collision_precedence(g: GameM, inp: InputM)
    requires
        !inp.restart,
        g.playing,
        rects_intersect(
            bounds_m(ball_moved(g.ball)),
            bounds_m(paddle_stepped(g.player1, inp.p1_up, inp.p1_down)),
        ),
        rects_intersect(
            bounds_m(ball_moved(g.ball)),
            bounds_m(paddle_stepped(g.player2, inp.p2_up, inp.p2_down)),
        ),
    ensures
        hit_of(
            bounds_m(ball_moved(g.ball)),
            bounds_m(paddle_stepped(g.player1, inp.p1_up, inp.p1_down)),
            bounds_m(paddle_stepped(g.player2, inp.p2_up, inp.p2_down)),
        ) == HitM::First,
        ({
            let b2 = ball_after_hit(
                ball_moved(g.ball),
                paddle_stepped(g.player1, inp.p1_up, inp.p1_down),
            );
            update_m(g, inp).ball == (EntityM {
                w: b2.w,
                h: b2.h,
                position: b2.position,
                velocity: wall_bounced(b2),
            })
        }),
        update_m(g, inp).score.value == g.score.value + 1,
{
}

/// Scoring monotonicity: without a restart, a terminal state is left
/// entirely unchanged by an update, and while playing the score rises by
/// exactly one when a paddle hit is processed and stays equal otherwise.
pub proof fn lemma_score_step(g: GameM, inp: InputM)
    requires
        !inp.restart,
    ensures
        !g.playing ==> update_m(g, inp) == g,
        g.playing ==> ({
            let hm = hit_of(
                bounds_m(ball_moved(g.ball)),
                bounds_m(paddle_stepped(g.player1, inp.p1_up, inp.p1_down)),
                bounds_m(paddle_stepped(g.player2, inp.p2_up, inp.p2_down)),
            );
            ((hm is NoHit) ==> update_m(g, inp).score.value == g.score.value) && (!(hm is NoHit)
                ==> update_m(g, inp).score.value == g.score.value + 1)
        }),
{
}

/// The displayed text is always a deterministic rendering of the score's
/// value, or a win message carrying it.
pub open spec fn text_renders_value(g: GameM) -> bool {
    g.score.text == score_text(g.score.value) || g.score.text == win_text(true, g.score.value)
        || g.score.text == win_text(false, g.score.value)
}

/// The text invariant holds of the initial state and is preserved by every
/// update.
pub proof fn lemma_text_renders_value(g: GameM, inp: InputM, p1w: int, p1h: int, p2w: int,
    p2h: int, bw: int, bh: int)
    requires
        text_renders_value(g),
    ensures
        text_renders_value(init_m(p1w, p1h, p2w, p2h, bw, bh)),
        text_renders_value(update_m(g, inp)),
{
}

} // verus!
