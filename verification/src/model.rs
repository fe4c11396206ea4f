//! The mathematical model of the simulation: ghost mirrors of every data
//! type, and the per-frame update written as a pure function over them.
//!
//! All lengths are in milli-pixels: one pixel is [`SCALE`] units. Scaling
//! steps (damping, ball acceleration, the overcorrecting paddle bounce)
//! round towards zero, via [`tdiv`].

use vstd::prelude::*;
use crate::num::{mag, tdiv};
use crate::text::{score_text, win_text};

verus! {

/// One pixel, in the fixed-point units used throughout.
pub const SCALE: i64 = 1000;

/// The playfield width.
pub const WINDOW_WIDTH: i64 = 640 * 1000;

/// The playfield height.
pub const WINDOW_HEIGHT: i64 = 480 * 1000;

/// Velocity added to a paddle per frame per held key.
pub const PADDLE_SPEED: i64 = 800;

/// The cap on a paddle's vertical speed: an increment that would push the
/// magnitude past it is suppressed.
pub const PADDLE_MAX: i64 = 20 * 1000;

/// The ball's initial horizontal speed.
pub const BALL_SPEED: i64 = 5 * 1000;

/// The factor on the off-centre spin imparted by a paddle hit.
pub const PADDLE_SPIN: i64 = 4;

/// On each paddle hit the ball's horizontal velocity is reversed and scaled
/// by 21/20, a five percent speed-up per rally.
pub const BALL_ACC_NUM: i64 = 21;

/// Denominator of the per-hit speed-up factor.
pub const BALL_ACC_DEN: i64 = 20;

/// Bound within which every coordinate and velocity of a well-formed state
/// lies; update steps stay far from `i64` overflow inside it.
pub const BOUND: i64 = 1000 * 1000 * 1000 * 1000;

/// Largest texture dimension a well-formed entity may have.
pub const DIM_MAX: i64 = 10 * 1000 * 1000;

/// Loose magnitude bound under which the geometric helpers are overflow-free.
pub const SAFE: i64 = 1000 * 1000 * 1000 * 1000 * 1000 * 1000;

/// A 2D vector of the model.
#[verifier::ext_equal]
pub struct Vec2M {
    pub x: int,
    pub y: int,
}

/// An axis-aligned rectangle of the model.
#[verifier::ext_equal]
pub struct RectM {
    pub x: int,
    pub y: int,
    pub w: int,
    pub h: int,
}

/// A game object: its texture's dimensions, position of its top-left corner,
/// and velocity.
#[verifier::ext_equal]
pub struct EntityM {
    pub w: int,
    pub h: int,
    pub position: Vec2M,
    pub velocity: Vec2M,
}

/// The point count with its displayed text and fixed screen position.
#[verifier::ext_equal]
pub struct ScoreM {
    pub value: int,
    pub text: Seq<char>,
    pub position: Vec2M,
}

/// One frame's input: the restart chord and the four held movement keys.
#[verifier::ext_equal]
pub struct InputM {
    pub restart: bool,
    pub p1_up: bool,
    pub p1_down: bool,
    pub p2_up: bool,
    pub p2_down: bool,
}

/// The whole game state: cached initial placements for restart, the three
/// entities, the score, and whether the round is still being played.
#[verifier::ext_equal]
pub struct GameM {
    pub pos1: Vec2M,
    pub pos2: Vec2M,
    pub posball: Vec2M,
    pub vball: Vec2M,
    pub player1: EntityM,
    pub player2: EntityM,
    pub ball: EntityM,
    pub score: ScoreM,
    pub playing: bool,
}

/// Which paddle, if any, the ball struck this frame.
pub enum HitM {
    First,
    Second,
    NoHit,
}

/// A vector within the well-formedness bound.
pub open spec fn vec_ok(v: Vec2M) -> bool {
    mag(v.x) <= BOUND && mag(v.y) <= BOUND
}

/// An entity with positive, bounded dimensions and bounded position and
/// velocity.
pub open spec fn entity_ok(e: EntityM) -> bool {
    0 < e.w <= DIM_MAX && 0 < e.h <= DIM_MAX && vec_ok(e.position) && vec_ok(e.velocity)
}

/// A well-formed game state: everything bounded, the score incrementable.
pub open spec fn game_ok(g: GameM) -> bool {
    vec_ok(g.pos1) && vec_ok(g.pos2) && vec_ok(g.posball) && vec_ok(g.vball)
        && entity_ok(g.player1) && entity_ok(g.player2) && entity_ok(g.ball)
        && 0 <= g.score.value < u32::MAX
}

/// The bounding rectangle of an entity.
pub open spec fn bounds_m(e: EntityM) -> RectM {
    RectM { x: e.position.x, y: e.position.y, w: e.w, h: e.h }
}

/// The centre of an entity: its corner offset by half its dimensions.
pub open spec fn centre_m(e: EntityM) -> Vec2M {
    Vec2M { x: e.position.x + tdiv(e.w, 2), y: e.position.y + tdiv(e.h, 2) }
}

/// Strict open-interval overlap of two rectangles on both axes.
pub open spec fn rects_intersect(a: RectM, b: RectM) -> bool {
    a.x < b.x + b.w && a.x + a.w > b.x && a.y < b.y + b.h && a.y + a.h > b.y
}

/// One key's acceleration step: the increment is applied unless it would
/// push the speed's magnitude past the cap, in which case the velocity is
/// left unchanged.
pub open spec fn accelerated(v: int, d: int) -> int {
    if mag(v + d) > PADDLE_MAX {
        v
    } else {
        v + d
    }
}

/// A paddle's vertical velocity after its up key and then its down key have
/// been taken into account.
pub open spec fn paddle_input(v: int, up: bool, down: bool) -> int {
    let v1 = if up {
        accelerated(v, -PADDLE_SPEED)
    } else {
        v
    };
    if down {
        accelerated(v1, PADDLE_SPEED as int)
    } else {
        v1
    }
}

/// A position advanced by one frame of velocity.
pub open spec fn moved(p: Vec2M, v: Vec2M) -> Vec2M {
    Vec2M { x: p.x + v.x, y: p.y + v.y }
}

/// The per-frame multiplicative friction on a paddle's velocity.
pub open spec fn damped(v: Vec2M) -> Vec2M {
    Vec2M { x: tdiv(v.x * 9, 10), y: tdiv(v.y * 9, 10) }
}

/// A paddle after input, integration and damping: its position advances by
/// the accelerated velocity, which is then damped.
pub open spec fn paddle_stepped(e: EntityM, up: bool, down: bool) -> EntityM {
    let v = Vec2M { x: e.velocity.x, y: paddle_input(e.velocity.y, up, down) };
    EntityM { w: e.w, h: e.h, position: moved(e.position, v), velocity: damped(v) }
}

/// The ball after integration: position advanced, velocity kept.
pub open spec fn ball_moved(e: EntityM) -> EntityM {
    EntityM { w: e.w, h: e.h, position: moved(e.position, e.velocity), velocity: e.velocity }
}

/// Which paddle the ball struck: the first is tested first, and at most one
/// hit is processed per frame.
pub open spec fn hit_of(bb: RectM, b1: RectM, b2: RectM) -> HitM {
    if rects_intersect(bb, b1) {
        HitM::First
    } else if rects_intersect(bb, b2) {
        HitM::Second
    } else {
        HitM::NoHit
    }
}

/// The vertical velocity a hit adds to the ball: proportional to how far
/// from the struck paddle's centre the ball's centre sat, normalised by the
/// paddle's height, redirecting the ball away from the paddle's far edge.
pub open spec fn spin_delta(paddle: EntityM, ball: EntityM) -> int {
    tdiv(PADDLE_SPIN * SCALE * (centre_m(ball).y - centre_m(paddle).y), paddle.h)
}

/// The ball after striking a paddle: horizontal velocity reversed and
/// sped up by 21/20, spin added vertically.
pub open spec fn ball_after_hit(ball: EntityM, paddle: EntityM) -> EntityM {
    EntityM {
        w: ball.w,
        h: ball.h,
        position: ball.position,
        velocity: Vec2M {
            x: tdiv(-(ball.velocity.x * BALL_ACC_NUM), BALL_ACC_DEN as int),
            y: ball.velocity.y + spin_delta(paddle, ball),
        },
    }
}

/// A score one point higher, with its text refreshed.
pub open spec fn scored(s: ScoreM) -> ScoreM {
    ScoreM { value: s.value + 1, text: score_text(s.value + 1), position: s.position }
}

/// True when the entity's top or bottom edge crosses the vertical window
/// bounds.
pub open spec fn at_vertical_wall(e: EntityM) -> bool {
    e.position.y <= 0 || e.position.y + e.h >= WINDOW_HEIGHT
}

/// The ball's velocity after the vertical wall check: the vertical component
/// is negated at a wall, with magnitude preserved.
pub open spec fn wall_bounced(e: EntityM) -> Vec2M {
    if at_vertical_wall(e) {
        Vec2M { x: e.velocity.x, y: -e.velocity.y }
    } else {
        e.velocity
    }
}

/// A paddle's velocity after its wall check: multiplied by -3/2 whenever the
/// paddle crosses the vertical bounds — an overcorrecting bounce applied
/// every frame the condition holds, a known quirk kept as it is.
pub open spec fn paddle_wall_bounced(e: EntityM) -> Vec2M {
    if at_vertical_wall(e) {
        Vec2M { x: tdiv(-(e.velocity.x * 3), 2), y: tdiv(-(e.velocity.y * 3), 2) }
    } else {
        e.velocity
    }
}

/// A score overwritten by the win message when the ball has left the field,
/// player 2 taking a left exit and player 1 a right one.
pub open spec fn terminal_score(ball: EntityM, s: ScoreM) -> ScoreM {
    if ball.position.x > WINDOW_WIDTH {
        ScoreM { value: s.value, text: win_text(true, s.value), position: s.position }
    } else if ball.position.x < 0 {
        ScoreM { value: s.value, text: win_text(false, s.value), position: s.position }
    } else {
        s
    }
}

/// Whether the ball is still within the horizontal bounds.
pub open spec fn still_playing(ball: EntityM) -> bool {
    !(ball.position.x < 0 || ball.position.x > WINDOW_WIDTH)
}

/// One frame of physics while playing: paddle acceleration and integration,
/// ball integration, collision response, the wall bounces, and the terminal
/// transition.
pub open spec fn physics_m(g: GameM, inp: InputM) -> GameM {
    let p1 = paddle_stepped(g.player1, inp.p1_up, inp.p1_down);
    let p2 = paddle_stepped(g.player2, inp.p2_up, inp.p2_down);
    let ball1 = ball_moved(g.ball);
    let hit = hit_of(bounds_m(ball1), bounds_m(p1), bounds_m(p2));
    let ball2 = match hit {
        HitM::First => ball_after_hit(ball1, p1),
        HitM::Second => ball_after_hit(ball1, p2),
        HitM::NoHit => ball1,
    };
    let score1 = match hit {
        HitM::NoHit => g.score,
        _ => scored(g.score),
    };
    let ball3 = EntityM { w: ball2.w, h: ball2.h, position: ball2.position, velocity: wall_bounced(ball2) };
    let score2 = terminal_score(ball3, score1);
    let p1f = EntityM { w: p1.w, h: p1.h, position: p1.position, velocity: paddle_wall_bounced(p1) };
    let p2f = EntityM { w: p2.w, h: p2.h, position: p2.position, velocity: paddle_wall_bounced(p2) };
    GameM {
        pos1: g.pos1,
        pos2: g.pos2,
        posball: g.posball,
        vball: g.vball,
        player1: p1f,
        player2: p2f,
        ball: ball3,
        score: score2,
        playing: still_playing(ball3),
    }
}

/// The state after a restart: entities back at their cached initial
/// placements with their initial velocities, the score at zero with its text
/// refreshed, the round playing again.
pub open spec fn restart_m(g: GameM) -> GameM {
    GameM {
        pos1: g.pos1,
        pos2: g.pos2,
        posball: g.posball,
        vball: g.vball,
        player1: EntityM {
            w: g.player1.w,
            h: g.player1.h,
            position: g.pos1,
            velocity: Vec2M { x: 0, y: 0 },
        },
        player2: EntityM {
            w: g.player2.w,
            h: g.player2.h,
            position: g.pos2,
            velocity: Vec2M { x: 0, y: 0 },
        },
        ball: EntityM { w: g.ball.w, h: g.ball.h, position: g.posball, velocity: g.vball },
        score: ScoreM { value: 0, text: score_text(0), position: g.score.position },
        playing: true,
    }
}

/// One frame: a restart chord takes effect first, then physics runs if (and
/// only if) the round is playing.
pub open spec fn update_m(g: GameM, inp: InputM) -> GameM {
    let g0 = if inp.restart {
        restart_m(g)
    } else {
        g
    };
    if g0.playing {
        physics_m(g0, inp)
    } else {
        g0
    }
}

/// The initial state, from the three textures' dimensions: paddles inset and
/// vertically centred, the ball centred and moving left, the score at zero.
pub open spec fn init_m(p1w: int, p1h: int, p2w: int, p2h: int, bw: int, bh: int) -> GameM {
    let pos1 = Vec2M { x: 16 * SCALE, y: tdiv(WINDOW_HEIGHT - p1h, 2) };
    let pos2 = Vec2M { x: WINDOW_WIDTH - p2w - 16 * SCALE, y: tdiv(WINDOW_HEIGHT - p2h, 2) };
    let posball = Vec2M {
        x: tdiv(WINDOW_WIDTH as int, 2) - tdiv(bw, 2),
        y: tdiv(WINDOW_HEIGHT as int, 2) - tdiv(bh, 2),
    };
    let vball = Vec2M { x: -BALL_SPEED, y: 0 };
    GameM {
        pos1: pos1,
        pos2: pos2,
        posball: posball,
        vball: vball,
        player1: EntityM { w: p1w, h: p1h, position: pos1, velocity: Vec2M { x: 0, y: 0 } },
        player2: EntityM { w: p2w, h: p2h, position: pos2, velocity: Vec2M { x: 0, y: 0 } },
        ball: EntityM { w: bw, h: bh, position: posball, velocity: vball },
        score: ScoreM { value: 0, text: score_text(0), position: Vec2M { x: 64 * SCALE, y: 16 * SCALE } },
        playing: true,
    }
}

} // verus!
