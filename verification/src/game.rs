//! The executable simulation: the game objects in fixed-point integers, and
//! the per-frame operations, each proved equal to its model counterpart.

use vstd::prelude::*;
use crate::model::{
    accelerated, ball_after_hit, ball_moved, bounds_m, centre_m, entity_ok, game_ok, hit_of,
    init_m, paddle_stepped, paddle_wall_bounced, physics_m, rects_intersect, restart_m, scored,
    still_playing, terminal_score, update_m, vec_ok, wall_bounced, EntityM, GameM, HitM, InputM,
    RectM, ScoreM, Vec2M, BALL_ACC_DEN, BALL_ACC_NUM, BALL_SPEED, BOUND, DIM_MAX, PADDLE_MAX,
    PADDLE_SPEED, PADDLE_SPIN, SAFE, SCALE, WINDOW_HEIGHT, WINDOW_WIDTH,
};
use crate::num::{div_trunc, mag};
use crate::text::{score_content, score_text, win_content};

verus! {

/// A 2D vector in milli-pixel units.
#[derive(Clone, Copy, Debug, PartialEq, Eq, Structural)]
pub struct Vec2I {
    pub x: i64,
    pub y: i64,
}

impl View for Vec2I {
    type V = Vec2M;

    open spec fn view(&self) -> Vec2M {
        Vec2M { x: self.x as int, y: self.y as int }
    }
}

/// An axis-aligned rectangle in milli-pixel units.
#[derive(Clone, Copy, Debug, PartialEq, Eq, Structural)]
pub struct Rect {
    pub x: i64,
    pub y: i64,
    pub w: i64,
    pub h: i64,
}

impl View for Rect {
    type V = RectM;

    open spec fn view(&self) -> RectM {
        RectM { x: self.x as int, y: self.y as int, w: self.w as int, h: self.h as int }
    }
}

impl Rect {
    /// Whether this rectangle overlaps the other, strictly on both axes.
    pub fn intersects(&self, other: &Rect) -> (b: bool)
        requires
            mag(self@.x) <= SAFE,
            mag(self@.y) <= SAFE,
            mag(other@.x) <= SAFE,
            mag(other@.y) <= SAFE,
            0 <= self@.w <= DIM_MAX,
            0 <= self@.h <= DIM_MAX,
            0 <= other@.w <= DIM_MAX,
            0 <= other@.h <= DIM_MAX,
        ensures
            b == rects_intersect(self@, other@),
    {
        self.x < other.x + other.w && self.x + self.w > other.x && self.y < other.y + other.h
            && self.y + self.h > other.y
    }
}

/// A game object: its texture's dimensions in milli-pixels, the position of
/// its top-left corner, and its velocity in milli-pixels per frame.
#[derive(Clone, Copy, Debug, PartialEq, Eq, Structural)]
pub struct Entity {
    pub width: i64,
    pub height: i64,
    pub position: Vec2I,
    pub velocity: Vec2I,
}

impl View for Entity {
    type V = EntityM;

    open spec fn view(&self) -> EntityM {
        EntityM {
            w: self.width as int,
            h: self.height as int,
            position: self.position@,
            velocity: self.velocity@,
        }
    }
}

impl Entity {
    /// A new entity at the given position, standing still.
    pub fn new(width: i64, height: i64, position: Vec2I) -> (e: Entity)
        ensures
            e@ == (EntityM {
                w: width as int,
                h: height as int,
                position: position@,
                velocity: Vec2M { x: 0, y: 0 },
            }),
    {
        Entity { width, height, position, velocity: Vec2I { x: 0, y: 0 } }
    }

    /// A new entity with an explicit initial velocity.
    pub fn with_velocity(width: i64, height: i64, position: Vec2I, velocity: Vec2I) -> (e: Entity)
        ensures
            e@ == (EntityM {
                w: width as int,
                h: height as int,
                position: position@,
                velocity: velocity@,
            }),
    {
        Entity { width, height, position, velocity }
    }

    /// The entity's axis-aligned bounding rectangle.
    pub fn bounds(&self) -> (r: Rect)
        ensures
            r@ == bounds_m(self@),
    {
        Rect { x: self.position.x, y: self.position.y, w: self.width, h: self.height }
    }

    /// The entity's centre: its corner offset by half its dimensions.
    pub fn centre(&self) -> (c: Vec2I)
        requires
            0 < self@.w <= DIM_MAX,
            0 < self@.h <= DIM_MAX,
            mag(self@.position.x) <= SAFE,
            mag(self@.position.y) <= SAFE,
        ensures
            c@ == centre_m(self@),
    {
        Vec2I {
            x: self.position.x + div_trunc(self.width, 2),
            y: self.position.y + div_trunc(self.height, 2),
        }
    }
}

/// The point count, its displayed characters, and its fixed screen position.
#[derive(Clone, Debug, PartialEq, Eq)]
pub struct Score {
    pub value: u32,
    pub text: Vec<char>,
    pub position: Vec2I,
}

impl View for Score {
    type V = ScoreM;

    open spec fn view(&self) -> ScoreM {
        ScoreM { value: self.value as int, text: self.text@, position: self.position@ }
    }
}

impl Score {
    /// A fresh score: zero points, the score line rendered, the fixed
    /// on-screen position.
    pub fn new() -> (s: Score)
        ensures
            s@ == (ScoreM {
                value: 0,
                text: score_text(0),
                position: Vec2M { x: 64 * SCALE as int, y: 16 * SCALE as int },
            }),
    {
        Score { value: 0, text: score_content(0), position: Vec2I { x: 64 * 1000, y: 16 * 1000 } }
    }

    /// Replaces the displayed characters, leaving value and position alone.
    pub fn set_content(&mut self, text: Vec<char>)
        ensures
            final(self)@ == (ScoreM {
                value: old(self)@.value,
                text: text@,
                position: old(self)@.position,
            }),
    {
        self.text = text;
    }
}

/// Whether the round is being played or has ended with a winner.
#[derive(Clone, Copy, Debug, PartialEq, Eq, Structural)]
pub enum Phase {
    Playing,
    Terminal,
}

/// One frame's input: the restart chord and the four held movement keys.
#[derive(Clone, Copy, Debug, PartialEq, Eq, Structural)]
pub struct InputSnapshot {
    pub restart: bool,
    pub p1_up: bool,
    pub p1_down: bool,
    pub p2_up: bool,
    pub p2_down: bool,
}

impl View for InputSnapshot {
    type V = InputM;

    open spec fn view(&self) -> InputM {
        InputM {
            restart: self.restart,
            p1_up: self.p1_up,
            p1_down: self.p1_down,
            p2_up: self.p2_up,
            p2_down: self.p2_down,
        }
    }
}

/// The whole game: cached initial placements for restart, the three
/// entities, the score, and the play/terminal flag.
#[derive(Clone, Debug, PartialEq, Eq)]
pub struct GameState {
    pub pos1: Vec2I,
    pub pos2: Vec2I,
    pub posball: Vec2I,
    pub vball: Vec2I,
    pub player1: Entity,
    pub player2: Entity,
    pub ball: Entity,
    pub score: Score,
    pub state: Phase,
}

impl View for GameState {
    type V = GameM;

    open spec fn view(&self) -> GameM {
        GameM {
            pos1: self.pos1@,
            pos2: self.pos2@,
            posball: self.posball@,
            vball: self.vball@,
            player1: self.player1@,
            player2: self.player2@,
            ball: self.ball@,
            score: self.score@,
            playing: self.state is Playing,
        }
    }
}

/// Whether a vector lies within the well-formedness bound.
fn vec_within(v: &Vec2I) -> (b: bool)
    ensures
        b == vec_ok(v@),
{
    -BOUND <= v.x && v.x <= BOUND && -BOUND <= v.y && v.y <= BOUND
}

/// Whether an entity has positive, bounded dimensions and a bounded
/// position and velocity.
fn entity_within(e: &Entity) -> (b: bool)
    ensures
        b == entity_ok(e@),
{
    0 < e.width && e.width <= DIM_MAX && 0 < e.height && e.height <= DIM_MAX
        && vec_within(&e.position) && vec_within(&e.velocity)
}

impl GameState {
    /// The state is well formed: every coordinate and velocity bounded,
    /// dimensions positive, the score incrementable.
    pub open spec fn wf(&self) -> bool {
        game_ok(self@)
    }

    /// Checks well-formedness at run time; `update` asks for it.
    pub fn check_bounds(&self) -> (b: bool)
        ensures
            b == self.wf(),
    {
        vec_within(&self.pos1) && vec_within(&self.pos2) && vec_within(&self.posball)
            && vec_within(&self.vball) && entity_within(&self.player1)
            && entity_within(&self.player2) && entity_within(&self.ball)
            && self.score.value < u32::MAX
    }

    /// The initial state, from the dimensions of the three textures:
    /// paddles inset and vertically centred, the ball centred and moving
    /// left, the score at zero, the round playing.
    pub fn new(p1_w: i64, p1_h: i64, p2_w: i64, p2_h: i64, ball_w: i64, ball_h: i64) -> (g:
        GameState)
        requires
            0 < p1_w <= DIM_MAX,
            0 < p1_h <= DIM_MAX,
            0 < p2_w <= DIM_MAX,
            0 < p2_h <= DIM_MAX,
            0 < ball_w <= DIM_MAX,
            0 < ball_h <= DIM_MAX,
        ensures
            g@ == init_m(p1_w as int, p1_h as int, p2_w as int, p2_h as int, ball_w as int,
                ball_h as int),
            g.wf(),
    {
        let pos1 = Vec2I { x: 16 * 1000, y: div_trunc(WINDOW_HEIGHT - p1_h, 2) };
        let pos2 = Vec2I {
            x: WINDOW_WIDTH - p2_w - 16 * 1000,
            y: div_trunc(WINDOW_HEIGHT - p2_h, 2),
        };
        let posball = Vec2I {
            x: div_trunc(WINDOW_WIDTH, 2) - div_trunc(ball_w, 2),
            y: div_trunc(WINDOW_HEIGHT, 2) - div_trunc(ball_h, 2),
        };
        let vball = Vec2I { x: -BALL_SPEED, y: 0 };
        GameState {
            pos1,
            pos2,
            posball,
            vball,
            player1: Entity::new(p1_w, p1_h, pos1),
            player2: Entity::new(p2_w, p2_h, pos2),
            ball: Entity::with_velocity(ball_w, ball_h, posball, vball),
            score: Score::new(),
            state: Phase::Playing,
        }
    }

    /// Restores the entities to their cached initial placements and
    /// velocities, resets the score to zero with its text refreshed, and
    /// puts the round back in play.
    pub fn restart(&mut self)
        ensures
            final(self)@ == restart_m(old(self)@),
    {
        self.player1.position = self.pos1;
        self.player1.velocity = Vec2I { x: 0, y: 0 };
        self.player2.position = self.pos2;
        self.player2.velocity = Vec2I { x: 0, y: 0 };
        self.ball.position = self.posball;
        self.ball.velocity = self.vball;
        self.score.value = 0;
        let t = score_content(0);
        self.score.set_content(t);
        self.state = Phase::Playing;
    }
}

/// One paddle's frame step: acceleration from its held keys, integration,
/// then friction.
fn paddle_step(e: &mut Entity, up: bool, down: bool)
    requires
        entity_ok(old(e)@),
    ensures
        final(e)@ == paddle_stepped(old(e)@, up, down),
        final(e)@.w == old(e)@.w,
        final(e)@.h == old(e)@.h,
        mag(final(e)@.position.x) <= 3 * BOUND,
        mag(final(e)@.position.y) <= 3 * BOUND,
        mag(final(e)@.velocity.x) <= 2 * BOUND,
        mag(final(e)@.velocity.y) <= 2 * BOUND,
{
    let mut vy = e.velocity.y;
    if up {
        vy = accelerate(vy, -PADDLE_SPEED);
    }
    if down {
        vy = accelerate(vy, PADDLE_SPEED);
    }
    e.velocity.y = vy;
    e.position.x = e.position.x + e.velocity.x;
    e.position.y = e.position.y + e.velocity.y;
    e.velocity.x = div_trunc(e.velocity.x * 9, 10);
    e.velocity.y = div_trunc(e.velocity.y * 9, 10);
    proof {
        assert(e@ =~= paddle_stepped(old(e)@, up, down));
    }
}

/// The ball's integration step: position advanced by one frame of velocity.
fn ball_move(e: &mut Entity)
    requires
        entity_ok(old(e)@),
    ensures
        final(e)@ == ball_moved(old(e)@),
        final(e)@.w == old(e)@.w,
        final(e)@.h == old(e)@.h,
        mag(final(e)@.position.x) <= 2 * BOUND,
        mag(final(e)@.position.y) <= 2 * BOUND,
        mag(final(e)@.velocity.x) <= BOUND,
        mag(final(e)@.velocity.y) <= BOUND,
{
    e.position.x = e.position.x + e.velocity.x;
    e.position.y = e.position.y + e.velocity.y;
    proof {
        assert(e@ =~= ball_moved(old(e)@));
    }
}

/// The ball's response to striking a paddle: horizontal velocity reversed
/// and sped up by 21/20, off-centre spin added vertically.
fn hit_response(ball: &mut Entity, paddle: &Entity)
    requires
        0 < old(ball)@.w <= DIM_MAX,
        0 < old(ball)@.h <= DIM_MAX,
        mag(old(ball)@.position.x) <= 3 * BOUND,
        mag(old(ball)@.position.y) <= 3 * BOUND,
        mag(old(ball)@.velocity.x) <= 2 * BOUND,
        mag(old(ball)@.velocity.y) <= 2 * BOUND,
        0 < paddle@.w <= DIM_MAX,
        0 < paddle@.h <= DIM_MAX,
        mag(paddle@.position.x) <= 3 * BOUND,
        mag(paddle@.position.y) <= 3 * BOUND,
    ensures
        final(ball)@ == ball_after_hit(old(ball)@, paddle@),
        final(ball)@.w == old(ball)@.w,
        final(ball)@.h == old(ball)@.h,
        final(ball)@.position == old(ball)@.position,
        mag(final(ball)@.velocity.x) <= 3 * BOUND,
        mag(final(ball)@.velocity.y) <= 30000 * BOUND,
{
    let vx = ball.velocity.x;
    ball.velocity.x = div_trunc(-(vx * BALL_ACC_NUM), BALL_ACC_DEN);
    let pc = paddle.centre();
    let bc = ball.centre();
    let num = PADDLE_SPIN * SCALE * (bc.y - pc.y);
    let delta = div_trunc(num, paddle.height);
    ball.velocity.y = ball.velocity.y + delta;
    proof {
        assert(ball@ =~= ball_after_hit(old(ball)@, paddle@));
    }
}

/// The ball's vertical wall check: at the top or bottom bound its vertical
/// velocity is negated, a sign flip with magnitude preserved.
fn wall_bounce(ball: &mut Entity)
    requires
        0 < old(ball)@.h <= DIM_MAX,
        mag(old(ball)@.position.y) <= 3 * BOUND,
        mag(old(ball)@.velocity.y) <= 30000 * BOUND,
    ensures
        final(ball)@ == (EntityM {
            w: old(ball)@.w,
            h: old(ball)@.h,
            position: old(ball)@.position,
            velocity: wall_bounced(old(ball)@),
        }),
{
    if ball.position.y <= 0 || ball.position.y + ball.height >= WINDOW_HEIGHT {
        ball.velocity.y = -ball.velocity.y;
    }
}

/// A paddle's vertical wall check: crossing the bounds multiplies its
/// velocity by -3/2, the overcorrecting bounce, every frame it holds.
fn paddle_bounce(e: &mut Entity)
    requires
        0 < old(e)@.h <= DIM_MAX,
        mag(old(e)@.position.y) <= 3 * BOUND,
        mag(old(e)@.velocity.x) <= 2 * BOUND,
        mag(old(e)@.velocity.y) <= 2 * BOUND,
    ensures
        final(e)@ == (EntityM {
            w: old(e)@.w,
            h: old(e)@.h,
            position: old(e)@.position,
            velocity: paddle_wall_bounced(old(e)@),
        }),
{
    if e.position.y <= 0 || e.position.y + e.height >= WINDOW_HEIGHT {
        e.velocity.x = div_trunc(-(e.velocity.x * 3), 2);
        e.velocity.y = div_trunc(-(e.velocity.y * 3), 2);
    }
}

impl GameState {
    /// One frame: the restart chord takes effect first; while the round is
    /// playing, the paddles accelerate from the held keys and integrate
    /// with friction, the ball integrates, at most one paddle hit is
    /// processed (player 1's tested first), the ball bounces off the
    /// horizontal walls, a horizontal exit ends the round naming the
    /// winner, and paddles that crossed the vertical bounds get their
    /// overcorrecting bounce.
    #[verifier::rlimit(100)]
    #[verifier::spinoff_prover]
    pub fn update(&mut self, input: &InputSnapshot)
        requires
            old(self).wf(),
        ensures
            final(self)@ == update_m(old(self)@, input@),
    {
        if input.restart {
            self.restart();
        }
        let ghost g0: GameM = self@;
        if self.state == Phase::Playing {
            paddle_step(&mut self.player1, input.p1_up, input.p1_down);
            paddle_step(&mut self.player2, input.p2_up, input.p2_down);
            ball_move(&mut self.ball);
            let ghost p1s = paddle_stepped(g0.player1, input.p1_up, input.p1_down);
            let ghost p2s = paddle_stepped(g0.player2, input.p2_up, input.p2_down);
            let ghost bmv = ball_moved(g0.ball);
            // collision detection: player 1's paddle is tested first, and
            // at most one hit is processed per frame
            let p1bounds = self.player1.bounds();
            let p2bounds = self.player2.bounds();
            let ballbounds = self.ball.bounds();
            let hit: Option<Entity> = if ballbounds.intersects(&p1bounds) {
                Some(self.player1)
            } else if ballbounds.intersects(&p2bounds) {
                Some(self.player2)
            } else {
                None
            };
            let ghost hm = hit_of(bounds_m(bmv), bounds_m(p1s), bounds_m(p2s));
            // collision response: reverse and speed up the ball, spin it
            // away from the struck paddle's far edge, count the point
            if let Some(paddle) = hit {
                hit_response(&mut self.ball, &paddle);
                self.score.value = self.score.value + 1;
                let t = score_content(self.score.value);
                self.score.set_content(t);
            }
            let ghost b2 = (match hm {
                HitM::First => ball_after_hit(bmv, p1s),
                HitM::Second => ball_after_hit(bmv, p2s),
                HitM::NoHit => bmv,
            });
            let ghost s1 = (match hm {
                HitM::NoHit => g0.score,
                _ => scored(g0.score),
            });
            proof {
                assert(self.ball@ =~= b2);
                assert(self.score@ =~= s1);
            }
            // vertical wall bounce: sign flip only, magnitude preserved
            wall_bounce(&mut self.ball);
            let ghost b3 = (EntityM { w: b2.w, h: b2.h, position: b2.position, velocity: wall_bounced(b2) });
            // horizontal exit: the round ends and the winner is named
            if self.ball.position.x < 0 {
                self.state = Phase::Terminal;
                let t = win_content(false, self.score.value);
                self.score.set_content(t);
            }
            if self.ball.position.x > WINDOW_WIDTH {
                self.state = Phase::Terminal;
                let t = win_content(true, self.score.value);
                self.score.set_content(t);
            }
            proof {
                assert(self.score@ =~= terminal_score(b3, s1));
                assert((self.state is Playing) == still_playing(b3));
            }
            // the overcorrecting paddle bounce, every frame it holds
            paddle_bounce(&mut self.player1);
            paddle_bounce(&mut self.player2);
            proof {
                assert(self@ =~= physics_m(g0, input@));
            }
        }
    }
}

/// One key's acceleration step on a paddle's vertical velocity: the
/// increment is applied unless it would push the magnitude past the cap.
pub fn accelerate(v: i64, d: i64) -> (r: i64)
    requires
        i64::MIN < v + d < i64::MAX,
    ensures
        r == accelerated(v as int, d as int),
{
    let s = v + d;
    let m = if s < 0 {
        -s
    } else {
        s
    };
    if m > PADDLE_MAX {
        v
    } else {
        s
    }
}

} // verus!
