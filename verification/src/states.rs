//! Per-kind behaviour state of the entities: player, enemy and bullet.
//! Each variant owns its position and velocity and exposes input handling,
//! a per-tick update, draw delegation and a destroyed flag.

use vstd::prelude::*;

use crate::engine::Renderer;
use crate::game_object::spec_bullet_object;
use crate::game_object::GameObject;
use crate::scene::Scene;
use crate::types::COORD_LIMIT;
use crate::types::Id;
use crate::types::IdAllocator;
use crate::types::InputState;
use crate::types::ObjectType;
use crate::types::Position;
use crate::types::SCREEN_HEIGHT;
use crate::types::SCREEN_WIDTH;
use crate::types::Velocity;

verus! {

/// Milliseconds that must pass after a shot before the player may shoot again.
pub const SHOOT_DELAY_MS: u64 = 200;

/// A generous bound on how many intents one capture may hand to the core:
/// summing the per-intent velocity deltas of this many intents stays far
/// inside 32-bit range.
pub const MAX_INTENTS: usize = 1_000_000;

/// A bound on per-tick velocities that the velocity computed from a capture
/// of at most `MAX_INTENTS` intents always satisfies, and under which one
/// tick of movement from a `COORD_LIMIT`-bounded position cannot overflow.
pub const VEL_LIMIT: i32 = 10_000_000;

/// Horizontal velocity delta of one input intent.
pub open spec fn intent_dx(i: InputState) -> int {
    match i {
        InputState::Left => -2,
        InputState::Right => 2,
        _ => 0,
    }
}

/// Vertical velocity delta of one input intent.
pub open spec fn intent_dy(i: InputState) -> int {
    match i {
        InputState::Up => -2,
        InputState::Down => 2,
        _ => 0,
    }
}

/// Sum of the horizontal deltas of a capture, in order.
pub open spec fn summed_dx(s: Seq<InputState>) -> int
    decreases s.len(),
{
    if s.len() == 0 {
        0
    } else {
        summed_dx(s.drop_last()) + intent_dx(s.last())
    }
}

/// Sum of the vertical deltas of a capture, in order.
pub open spec fn summed_dy(s: Seq<InputState>) -> int
    decreases s.len(),
{
    if s.len() == 0 {
        0
    } else {
        summed_dy(s.drop_last()) + intent_dy(s.last())
    }
}

/// Whether a capture holds a Shoot intent.
pub open spec fn has_shoot(s: Seq<InputState>) -> bool
    decreases s.len(),
{
    if s.len() == 0 {
        false
    } else {
        has_shoot(s.drop_last()) || s.last() is Shoot
    }
}

/// Each summed delta is at most twice the number of intents in magnitude.
pub proof fn lemma_summed_bounds(s: Seq<InputState>)
    ensures
        -2 * s.len() <= summed_dx(s) <= 2 * s.len(),
        -2 * s.len() <= summed_dy(s) <= 2 * s.len(),
    decreases s.len(),
{
    if s.len() > 0 {
        lemma_summed_bounds(s.drop_last());
    }
}

/// The shoot cooldown has elapsed at `now` for a last shot at `last`.
pub open spec fn cooldown_elapsed(last: u64, now: u64) -> bool {
    now >= last + SHOOT_DELAY_MS
}

/// Behaviour state of the player: moved by input intents each tick, clamped
/// to the playfield, may spawn one bullet per tick when shooting.
#[derive(Clone, Copy, Debug, PartialEq, Eq, Structural)]
pub struct PlayerState {
    pub id: Id,
    pub position: Position,
    pub frame: u8,
    pub is_shooting: bool,
    pub is_destroyed: bool,
    pub last_shot_millis: u64,
    pub velocity: Velocity,
    pub width: u32,
    pub height: u32,
}

/// The player state after one capture of input intents at time `now`:
/// the velocity is the fixed drift `(0, -1)` plus the summed per-intent
/// deltas, and the shooting flag is raised when a Shoot intent is present
/// and the cooldown has elapsed.
pub open spec fn spec_player_input(
    p: PlayerState,
    ins: Seq<InputState>,
    now: u64,
) -> PlayerState {
    PlayerState {
        velocity: Velocity { x: summed_dx(ins) as i32, y: (-1 + summed_dy(ins)) as i32 },
        is_shooting: p.is_shooting || (has_shoot(ins) && cooldown_elapsed(p.last_shot_millis, now)),
        ..p
    }
}

/// The velocity actually applied this tick: the stored velocity with the
/// horizontal component zeroed when the move would cross the left or right
/// playfield edge, and the vertical component reduced to the scroll drift
/// `-1` when it would cross the top or bottom of the visible scene.
pub open spec fn spec_calculate_velocity(p: PlayerState, scene: Scene) -> Velocity {
    let nx = p.position.x + p.velocity.x;
    let ny = p.position.y + p.velocity.y;
    Velocity {
        x: if nx <= 0 || nx + p.width >= SCREEN_WIDTH {
            0
        } else {
            p.velocity.x
        },
        y: if ny <= scene.position.y || ny + p.height >= scene.position.y + SCREEN_HEIGHT {
            -1i32
        } else {
            p.velocity.y
        },
    }
}

/// Bounds under which one player tick cannot overflow 32-bit arithmetic.
pub open spec fn player_step_ok(p: PlayerState, scene: Scene) -> bool {
    &&& -COORD_LIMIT <= p.position.x <= COORD_LIMIT
    &&& -COORD_LIMIT <= p.position.y <= COORD_LIMIT
    &&& -VEL_LIMIT <= p.velocity.x <= VEL_LIMIT
    &&& -VEL_LIMIT <= p.velocity.y <= VEL_LIMIT
    &&& p.width <= COORD_LIMIT
    &&& p.height <= COORD_LIMIT
    &&& -COORD_LIMIT <= scene.position.y <= COORD_LIMIT
}

/// The player state after one tick: the animation frame advances cyclically
/// modulo 3, the position moves by the clamped velocity, and a pending shot
/// is spent (the flag cleared and the shot time stamped).
pub open spec fn spec_player_update(p: PlayerState, scene: Scene, now: u64) -> PlayerState {
    let v = spec_calculate_velocity(p, scene);
    PlayerState {
        frame: ((p.frame + 1) % 3) as u8,
        position: Position {
            x: (p.position.x + v.x) as i32,
            y: (p.position.y + v.y) as i32,
        },
        is_shooting: false,
        last_shot_millis: if p.is_shooting {
            now
        } else {
            p.last_shot_millis
        },
        ..p
    }
}

impl PlayerState {
    pub fn new(id: Id, position: Position, width: u32, height: u32) -> (r: PlayerState)
        ensures
            r == (PlayerState {
                id,
                position,
                frame: 0,
                is_shooting: false,
                is_destroyed: false,
                last_shot_millis: 0,
                velocity: Velocity { x: 0, y: 0 },
                width,
                height,
            }),
    {
        PlayerState {
            id,
            position,
            frame: 0,
            is_shooting: false,
            is_destroyed: false,
            last_shot_millis: 0,
            velocity: Velocity { x: 0, y: 0 },
            width,
            height,
        }
    }

    /// Applies one capture of input intents: recomputes the velocity from
    /// the per-direction deltas and raises the shooting flag when a Shoot
    /// intent is present and the cooldown has elapsed since the last shot.
    pub fn input(&mut self, input_state: &Vec<InputState>, now_ms: u64)
        requires
            input_state@.len() <= MAX_INTENTS,
        ensures
            *final(self) == spec_player_input(*old(self), input_state@, now_ms),
    {
        let mut vx: i32 = 0;
        let mut vy: i32 = -1;
        let mut shoot_seen = false;
        let mut i: usize = 0;
        while i < input_state.len()
            invariant
                i <= input_state@.len() <= MAX_INTENTS,
                vx == summed_dx(input_state@.take(i as int)),
                vy == -1 + summed_dy(input_state@.take(i as int)),
                shoot_seen == has_shoot(input_state@.take(i as int)),
            decreases input_state@.len() - i,
        {
            proof {
                lemma_summed_bounds(input_state@.take(i as int));
                assert(input_state@.take(i + 1).drop_last() =~= input_state@.take(i as int));
                assert(input_state@.take(i + 1).last() == input_state@[i as int]);
            }
            match input_state[i] {
                InputState::Up => {
                    vy = vy - 2;
                },
                InputState::Down => {
                    vy = vy + 2;
                },
                InputState::Left => {
                    vx = vx - 2;
                },
                InputState::Right => {
                    vx = vx + 2;
                },
                InputState::Shoot => {
                    shoot_seen = true;
                },
                InputState::Quit => {},
            }
            i = i + 1;
        }
        proof {
            assert(input_state@.take(input_state@.len() as int) =~= input_state@);
            lemma_summed_bounds(input_state@);
        }
        self.velocity = Velocity { x: vx, y: vy };
        if shoot_seen && now_ms >= SHOOT_DELAY_MS && now_ms - SHOOT_DELAY_MS
            >= self.last_shot_millis {
            self.is_shooting = true;
        }
    }

    /// One tick of player behaviour: advance the animation frame, move by
    /// the clamped velocity, and spend a pending shot by spawning a bullet
    /// just above the player with a fixed upward velocity.
    pub fn update(&mut self, scene: &Scene, alloc: &mut IdAllocator, now_ms: u64) -> (r: Option<
        GameObject,
    >)
        requires
            player_step_ok(*old(self), *scene),
            old(alloc).counter < usize::MAX,
        ensures
            *final(self) == spec_player_update(*old(self), *scene, now_ms),
            r is Some <==> old(self).is_shooting,
            old(self).is_shooting ==> r == Some(
                spec_bullet_object(
                    old(alloc).counter,
                    spec_player_update(*old(self), *scene, now_ms).position,
                    ObjectType::Player,
                    old(self).id,
                ),
            ) && final(alloc).counter == old(alloc).counter + 1,
            !old(self).is_shooting ==> *final(alloc) == *old(alloc),
    {
        self.frame = ((self.frame as u32 + 1) % 3) as u8;
        let v = self.calculate_velocity(scene);
        self.position = self.position.translated(v);

        if self.is_shooting {
            self.is_shooting = false;
            self.last_shot_millis = now_ms;
            let id = alloc.next_id();
            Some(GameObject::new_bullet(id, self.position, ObjectType::Player, self.id))
        } else {
            None
        }
    }

    /// The velocity applied this tick, clamped at the playfield borders.
    fn calculate_velocity(&self, scene: &Scene) -> (r: Velocity)
        requires
            player_step_ok(*self, *scene),
        ensures
            r == spec_calculate_velocity(*self, *scene),
    {
        let mut fixed_velocity = self.velocity;
        let new_x = self.position.x + self.velocity.x;
        let new_y = self.position.y + self.velocity.y;

        if new_x <= 0 || new_x as i64 + self.width as i64 >= SCREEN_WIDTH as i64 {
            fixed_velocity.x = 0;
        }

        if new_y <= scene.position.y || new_y as i64 + self.height as i64 >= scene.position.y as i64
            + SCREEN_HEIGHT as i64 {
            fixed_velocity.y = -1;
        }

        fixed_velocity
    }

    pub fn draw<R: Renderer>(&mut self, renderer: &mut R, scene: &Scene)
        ensures
            *final(self) == *old(self),
    {
        renderer.draw_frame("plane", self.position, self.frame, scene);
    }
}

/// A player that is idle — no input intents captured at all — keeps its
/// horizontal position unchanged and moves only by the configured passive
/// drift of one pixel up per tick, while the animation frame still advances
/// cyclically modulo 3.
pub proof fn lemma_idle_player_drifts(
    p: PlayerState,
    scene: Scene,
    ins: Seq<InputState>,
    now: u64,
    later: u64,
)
    requires
        ins.len() == 0,
        p.position.y - 1 >= i32::MIN,
    ensures
        ({
            let after = spec_player_update(spec_player_input(p, ins, now), scene, later);
            &&& after.position.x == p.position.x
            &&& after.position.y == p.position.y - 1
            &&& after.frame == (p.frame + 1) % 3
        }),
{
}

/// Behaviour state of an enemy: patrols horizontally, reversing direction at
/// the playfield edges, while drifting with its vertical velocity.
#[derive(Clone, Copy, Debug, PartialEq, Eq, Structural)]
pub struct EnemyState {
    pub id: Id,
    pub position: Position,
    pub velocity: Velocity,
    pub is_destroyed: bool,
    pub width: u32,
    pub height: u32,
}

/// Bounds under which one enemy tick cannot overflow 32-bit arithmetic.
pub open spec fn enemy_step_ok(e: EnemyState) -> bool {
    &&& -COORD_LIMIT <= e.position.x <= COORD_LIMIT
    &&& -COORD_LIMIT <= e.position.y <= COORD_LIMIT
    &&& -VEL_LIMIT <= e.velocity.x <= VEL_LIMIT
    &&& -VEL_LIMIT <= e.velocity.y <= VEL_LIMIT
    &&& e.width <= COORD_LIMIT
}

/// The enemy state after one tick: at the left edge the patrol turns right,
/// exactly at the right edge it turns left, then the position moves by the
/// (possibly reversed) velocity.
pub open spec fn spec_enemy_update(e: EnemyState) -> EnemyState {
    let vx: i32 = if e.position.x == 0 {
        1i32
    } else if e.position.x + e.width == SCREEN_WIDTH {
        -1i32
    } else {
        e.velocity.x
    };
    EnemyState {
        position: Position {
            x: (e.position.x + vx) as i32,
            y: (e.position.y + e.velocity.y) as i32,
        },
        velocity: Velocity { x: vx, y: e.velocity.y },
        ..e
    }
}

impl EnemyState {
    pub fn new(id: Id, position: Position, width: u32, height: u32) -> (r: EnemyState)
        ensures
            r == (EnemyState {
                id,
                position,
                velocity: Velocity { x: 1, y: -1i32 },
                is_destroyed: false,
                width,
                height,
            }),
    {
        EnemyState {
            id,
            position,
            is_destroyed: false,
            width,
            height,
            velocity: Velocity { x: 1, y: -1 },
        }
    }

    /// Enemies are not player-controlled: input is ignored.
    pub fn input(&mut self, _input_state: &Vec<InputState>)
        ensures
            *final(self) == *old(self),
    {
    }

    pub fn draw<R: Renderer>(&mut self, renderer: &mut R, scene: &Scene)
        ensures
            *final(self) == *old(self),
    {
        renderer.draw_texture("whitePlane", self.position, scene);
    }

    /// One tick of patrol movement; enemies spawn nothing.
    pub fn update(&mut self) -> (r: Option<GameObject>)
        requires
            enemy_step_ok(*old(self)),
        ensures
            *final(self) == spec_enemy_update(*old(self)),
            r is None,
    {
        if self.position.x == 0 {
            self.velocity.x = 1;
        } else if self.position.x as i64 + self.width as i64 == SCREEN_WIDTH as i64 {
            self.velocity.x = -1;
        }
        self.position = self.position.translated(self.velocity);
        None
    }
}

/// Behaviour state of a bullet: moves by its fixed velocity each tick and
/// remembers who fired it, only to suppress self-collision.
#[derive(Clone, Copy, Debug, PartialEq, Eq, Structural)]
pub struct BulletState {
    pub position: Position,
    pub velocity: Velocity,
    pub shooter_type: ObjectType,
    pub shooter_id: Id,
    pub is_destroyed: bool,
}

/// Bounds under which one bullet tick cannot overflow 32-bit arithmetic.
pub open spec fn bullet_step_ok(b: BulletState) -> bool {
    &&& -COORD_LIMIT <= b.position.x <= COORD_LIMIT
    &&& -COORD_LIMIT <= b.position.y <= COORD_LIMIT
    &&& -VEL_LIMIT <= b.velocity.x <= VEL_LIMIT
    &&& -VEL_LIMIT <= b.velocity.y <= VEL_LIMIT
}

/// The bullet state after one tick: the position moves by the velocity.
pub open spec fn spec_bullet_update(b: BulletState) -> BulletState {
    BulletState {
        position: Position {
            x: (b.position.x + b.velocity.x) as i32,
            y: (b.position.y + b.velocity.y) as i32,
        },
        ..b
    }
}

impl BulletState {
    /// A bullet as an enemy would fire it: at the enemy's position, moving
    /// straight down.
    pub fn _enemy_bullet(enemy: &EnemyState) -> (r: BulletState)
        ensures
            r == (BulletState {
                shooter_type: ObjectType::Enemy,
                shooter_id: enemy.id,
                position: enemy.position,
                velocity: Velocity { x: 0, y: 8 },
                is_destroyed: false,
            }),
    {
        BulletState {
            shooter_type: ObjectType::Enemy,
            shooter_id: enemy.id,
            position: enemy.position,
            velocity: Velocity { x: 0, y: 8 },
            is_destroyed: false,
        }
    }

    pub fn draw<R: Renderer>(&mut self, renderer: &mut R, scene: &Scene)
        ensures
            *final(self) == *old(self),
    {
        renderer.draw_texture("bullet", self.position, scene);
    }

    /// One tick of flight; bullets spawn nothing.
    pub fn update(&mut self) -> (r: Option<GameObject>)
        requires
            bullet_step_ok(*old(self)),
        ensures
            *final(self) == spec_bullet_update(*old(self)),
            r is None,
    {
        self.position = self.position.translated(self.velocity);
        None
    }

    /// True iff this bullet was fired by the given entity; used exclusively
    /// to suppress self-collision.
    pub fn is_fired_by(&self, shooter: &GameObject) -> (r: bool)
        ensures
            r == (self.shooter_id == shooter.id),
    {
        self.shooter_id == shooter.id
    }
}

} // verus!
