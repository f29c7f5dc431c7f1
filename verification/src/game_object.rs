//! A game entity: a stable identity, a kind tag, and at most one active
//! behaviour state.  Dispatches input, draw, update and collision checks to
//! the active state and resolves the collision policy between two entities.

use vstd::prelude::*;

use crate::engine::Renderer;
use crate::geometry::Rect;
use crate::scene::Scene;
use crate::states::bullet_step_ok;
use crate::states::enemy_step_ok;
use crate::states::player_step_ok;
use crate::states::spec_bullet_update;
use crate::states::spec_enemy_update;
use crate::states::spec_player_input;
use crate::states::spec_player_update;
use crate::states::BulletState;
use crate::states::EnemyState;
use crate::states::PlayerState;
use crate::states::MAX_INTENTS;
use crate::types::COORD_LIMIT;
use crate::types::Id;
use crate::types::IdAllocator;
use crate::types::InputState;
use crate::types::ObjectType;
use crate::types::Position;
use crate::types::Velocity;

verus! {

/// Exactly one behaviour state; an entity with none (the `Unknown`
/// placeholder) has no behaviour and no collision shape.
#[derive(Clone, Copy, Debug, PartialEq, Eq, Structural)]
pub enum EntityState {
    Player(PlayerState),
    Enemy(EnemyState),
    Bullet(BulletState),
}

/// A pooled entity: stable identity, kind tag, and at most one active state.
#[derive(Clone, Copy, Debug, PartialEq, Eq, Structural)]
pub struct GameObject {
    pub id: Id,
    pub object_type: ObjectType,
    pub state: Option<EntityState>,
}

/// The position a state variant currently occupies.
pub open spec fn spec_state_position(s: EntityState) -> Position {
    match s {
        EntityState::Player(p) => p.position,
        EntityState::Enemy(e) => e.position,
        EntityState::Bullet(b) => b.position,
    }
}

/// The axis-aligned box used for intersection tests: the variant's position
/// and size, shrunk by a fixed per-kind padding to make hitboxes more
/// forgiving than sprite bounds.  Bullets use a fixed 32x32 sprite size.
pub open spec fn spec_collision_rect(s: EntityState) -> Rect {
    match s {
        EntityState::Player(p) => Rect {
            x: (p.position.x + 3) as i32,
            y: (p.position.y + 10) as i32,
            width: (p.width - 3) as u32,
            height: (p.height - 10) as u32,
        },
        EntityState::Enemy(e) => Rect {
            x: (e.position.x + 5) as i32,
            y: (e.position.y + 10) as i32,
            width: (e.width - 5) as u32,
            height: (e.height - 10) as u32,
        },
        EntityState::Bullet(b) => Rect {
            x: (b.position.x + 5) as i32,
            y: (b.position.y + 25) as i32,
            width: 27,
            height: 7,
        },
    }
}

/// Bounds under which a variant's collision rectangle can be built without
/// overflow: coordinates in the world box and sizes at least the padding.
pub open spec fn collision_ready(s: EntityState) -> bool {
    match s {
        EntityState::Player(p) => {
            &&& -COORD_LIMIT <= p.position.x <= COORD_LIMIT
            &&& -COORD_LIMIT <= p.position.y <= COORD_LIMIT
            &&& 3 <= p.width <= COORD_LIMIT
            &&& 10 <= p.height <= COORD_LIMIT
        },
        EntityState::Enemy(e) => {
            &&& -COORD_LIMIT <= e.position.x <= COORD_LIMIT
            &&& -COORD_LIMIT <= e.position.y <= COORD_LIMIT
            &&& 5 <= e.width <= COORD_LIMIT
            &&& 10 <= e.height <= COORD_LIMIT
        },
        EntityState::Bullet(b) => {
            &&& -COORD_LIMIT <= b.position.x <= COORD_LIMIT
            &&& -COORD_LIMIT <= b.position.y <= COORD_LIMIT
        },
    }
}

impl EntityState {
    /// The collision rectangle of this variant.
    pub fn collision_rect(&self) -> (r: Rect)
        requires
            collision_ready(*self),
        ensures
            r == spec_collision_rect(*self),
            r.in_range(),
    {
        match self {
            EntityState::Player(p) => Rect::new(
                p.position.x + 3,
                p.position.y + 10,
                p.width - 3,
                p.height - 10,
            ),
            EntityState::Enemy(e) => Rect::new(
                e.position.x + 5,
                e.position.y + 10,
                e.width - 5,
                e.height - 10,
            ),
            EntityState::Bullet(b) => Rect::new(b.position.x + 5, b.position.y + 25, 27, 7),
        }
    }

    /// Whether the two variants' collision rectangles overlap.
    pub fn is_colliding(&self, other: &EntityState) -> (r: bool)
        requires
            collision_ready(*self),
            collision_ready(*other),
        ensures
            r == spec_collision_rect(*self).spec_intersects(spec_collision_rect(*other)),
    {
        let a = self.collision_rect();
        let b = other.collision_rect();
        a.has_intersection(&b)
    }
}

/// Whether the two entities geometrically collide: both must have an active
/// state, and the collision rectangles must overlap.  An entity with no
/// active state never collides.
pub open spec fn spec_pair_collides(a: GameObject, b: GameObject) -> bool {
    match (a.state, b.state) {
        (Some(sa), Some(sb)) => spec_collision_rect(sa).spec_intersects(spec_collision_rect(sb)),
        _ => false,
    }
}

/// Whether contact between the two entities applies damage:
/// - exactly one side is a bullet: damage applies unless the bullet was
///   fired by the other side (no friendly self-hit);
/// - neither side is a bullet: bodies colliding destroy each other;
/// - both sides are bullets: they pass through each other.
pub open spec fn spec_pair_hit(a: GameObject, b: GameObject) -> bool {
    if a.object_type is Bullet && !(b.object_type is Bullet) {
        match a.state {
            Some(EntityState::Bullet(ab)) => ab.shooter_id != b.id,
            _ => false,
        }
    } else if b.object_type is Bullet && !(a.object_type is Bullet) {
        match b.state {
            Some(EntityState::Bullet(bb)) => bb.shooter_id != a.id,
            _ => false,
        }
    } else if !(a.object_type is Bullet) && !(b.object_type is Bullet) {
        true
    } else {
        false
    }
}

/// The first entity of a checked pair after resolution: destroyed when the
/// pair collides geometrically and the contact applies damage.
pub open spec fn spec_resolve_first(a: GameObject, b: GameObject) -> GameObject {
    if spec_pair_collides(a, b) && spec_pair_hit(a, b) {
        a.spec_destroy()
    } else {
        a
    }
}

/// The second entity of a checked pair after resolution.
pub open spec fn spec_resolve_second(a: GameObject, b: GameObject) -> GameObject {
    if spec_pair_collides(a, b) && spec_pair_hit(a, b) {
        b.spec_destroy()
    } else {
        b
    }
}

/// The entity the factory constructs: a player or enemy of the given kind
/// at the given position, with a fresh state of that kind (for any other
/// kind tag, the player shape — constructors reject those kinds up front).
pub open spec fn spec_new_object(
    id: Id,
    position: Position,
    object_type: ObjectType,
    width: u32,
    height: u32,
) -> GameObject {
    if object_type is Enemy {
        GameObject {
            id,
            object_type,
            state: Some(
                EntityState::Enemy(
                    EnemyState {
                        id,
                        position,
                        velocity: Velocity { x: 1, y: -1i32 },
                        is_destroyed: false,
                        width,
                        height,
                    },
                ),
            ),
        }
    } else {
        GameObject {
            id,
            object_type,
            state: Some(
                EntityState::Player(
                    PlayerState {
                        id,
                        position,
                        frame: 0,
                        is_shooting: false,
                        is_destroyed: false,
                        last_shot_millis: 0,
                        velocity: Velocity { x: 0, y: 0 },
                        width,
                        height,
                    },
                ),
            ),
        }
    }
}

/// The bullet entity spawned by a shooter of the given kind: it appears 35
/// pixels above the given position and flies straight up for a player
/// shooter, straight down for an enemy shooter.
pub open spec fn spec_bullet_object(
    id: Id,
    position: Position,
    shooter_type: ObjectType,
    shooter_id: Id,
) -> GameObject {
    GameObject {
        id,
        object_type: ObjectType::Bullet,
        state: Some(
            EntityState::Bullet(
                BulletState {
                    position: Position { x: position.x, y: (position.y - 35) as i32 },
                    velocity: Velocity {
                        x: 0,
                        y: if shooter_type is Enemy {
                            4i32
                        } else {
                            -4i32
                        },
                    },
                    shooter_type,
                    shooter_id,
                    is_destroyed: false,
                },
            ),
        ),
    }
}

/// The active state after one tick of behaviour.
pub open spec fn spec_updated_state(s: EntityState, scene: Scene, now: u64) -> EntityState {
    match s {
        EntityState::Player(p) => EntityState::Player(spec_player_update(p, scene, now)),
        EntityState::Enemy(e) => EntityState::Enemy(spec_enemy_update(e)),
        EntityState::Bullet(b) => EntityState::Bullet(spec_bullet_update(b)),
    }
}

/// Bounds under which one tick of this entity cannot overflow.
pub open spec fn object_step_ok(o: GameObject, scene: Scene) -> bool {
    match o.state {
        Some(EntityState::Player(p)) => player_step_ok(p, scene),
        Some(EntityState::Enemy(e)) => enemy_step_ok(e),
        Some(EntityState::Bullet(b)) => bullet_step_ok(b),
        None => true,
    }
}

/// The entity after one tick: the active state updated, then the entity
/// destroyed when its new position has scrolled off above the scene.
pub open spec fn spec_object_update(o: GameObject, scene: Scene, now: u64) -> GameObject
    recommends
        o.state is Some,
{
    match o.state {
        Some(s) => {
            let s1 = spec_updated_state(s, scene, now);
            let o1 = GameObject { state: Some(s1), ..o };
            if spec_state_position(s1).y < scene.position.y {
                o1.spec_destroy()
            } else {
                o1
            }
        },
        None => o,
    }
}

/// The entity this tick spawns, if any: a shooting player spawns one bullet
/// carrying the next fresh identity; nothing else spawns.
pub open spec fn spec_object_spawn(o: GameObject, scene: Scene, now: u64, next: Id) -> Option<
    GameObject,
> {
    match o.state {
        Some(EntityState::Player(p)) => if p.is_shooting {
            Some(
                spec_bullet_object(
                    next,
                    spec_player_update(p, scene, now).position,
                    ObjectType::Player,
                    p.id,
                ),
            )
        } else {
            None
        },
        _ => None,
    }
}

/// The entity after its input pass: only a player reacts to intents.
pub open spec fn spec_object_input(
    o: GameObject,
    ins: Seq<InputState>,
    now: u64,
) -> GameObject {
    match o.state {
        Some(EntityState::Player(p)) => GameObject {
            state: Some(EntityState::Player(spec_player_input(p, ins, now))),
            ..o
        },
        _ => o,
    }
}

impl GameObject {
    /// Whether this entity carries an active behaviour state.
    pub open spec fn has_state(self) -> bool {
        self.state is Some
    }

    /// Whether the active state is marked destroyed; an entity with no
    /// active state counts as not destroyed.
    pub open spec fn spec_is_destroyed(self) -> bool {
        match self.state {
            Some(EntityState::Player(p)) => p.is_destroyed,
            Some(EntityState::Enemy(e)) => e.is_destroyed,
            Some(EntityState::Bullet(b)) => b.is_destroyed,
            None => false,
        }
    }

    /// The entity with its active state marked destroyed; an entity with no
    /// active state is unchanged.
    pub open spec fn spec_destroy(self) -> GameObject {
        match self.state {
            Some(EntityState::Player(p)) => GameObject {
                state: Some(EntityState::Player(PlayerState { is_destroyed: true, ..p })),
                ..self
            },
            Some(EntityState::Enemy(e)) => GameObject {
                state: Some(EntityState::Enemy(EnemyState { is_destroyed: true, ..e })),
                ..self
            },
            Some(EntityState::Bullet(b)) => GameObject {
                state: Some(EntityState::Bullet(BulletState { is_destroyed: true, ..b })),
                ..self
            },
            None => self,
        }
    }

    /// The position of the active state.
    pub open spec fn spec_position(self) -> Position
        recommends
            self.has_state(),
    {
        match self.state {
            Some(s) => spec_state_position(s),
            None => Position { x: 0, y: 0 },
        }
    }

    /// Constructs a player or enemy entity of the given kind at the given
    /// position; other kinds are rejected by construction.
    pub fn new(id: Id, position: Position, object_type: ObjectType, width: u32, height: u32) -> (r:
        GameObject)
        requires
            object_type is Player || object_type is Enemy,
        ensures
            r == spec_new_object(id, position, object_type, width, height),
    {
        let state = match object_type {
            ObjectType::Enemy => EntityState::Enemy(EnemyState::new(id, position, width, height)),
            _ => EntityState::Player(PlayerState::new(id, position, width, height)),
        };
        GameObject { id, object_type, state: Some(state) }
    }

    /// Constructs a bullet entity fired by a shooter of the given kind.
    pub fn new_bullet(id: Id, position: Position, shooter_type: ObjectType, shooter_id: Id) -> (r:
        GameObject)
        requires
            shooter_type is Player || shooter_type is Enemy,
            position.y - 35 >= i32::MIN,
        ensures
            r == spec_bullet_object(id, position, shooter_type, shooter_id),
    {
        let velocity = match shooter_type {
            ObjectType::Enemy => Velocity::new(0, 4),
            _ => Velocity::new(0, -4),
        };

        let bullet = BulletState {
            position: Position::new(position.x, position.y - 35),
            shooter_type,
            shooter_id,
            velocity,
            is_destroyed: false,
        };

        GameObject { id, object_type: ObjectType::Bullet, state: Some(EntityState::Bullet(bullet)) }
    }

    /// Hands one capture of input intents to the active state.
    pub fn handle_input(&mut self, input_state: &Vec<InputState>, now_ms: u64)
        requires
            input_state@.len() <= MAX_INTENTS,
        ensures
            *final(self) == spec_object_input(*old(self), input_state@, now_ms),
    {
        match self.state {
            Some(EntityState::Player(mut p)) => {
                p.input(input_state, now_ms);
                self.state = Some(EntityState::Player(p));
            },
            Some(EntityState::Enemy(mut e)) => {
                e.input(input_state);
                self.state = Some(EntityState::Enemy(e));
            },
            _ => {},
        }
    }

    /// Delegates drawing to the active state; an entity must not reach the
    /// draw pass without one.
    pub fn draw<R: Renderer>(&mut self, renderer: &mut R, scene: &Scene)
        requires
            old(self).has_state(),
        ensures
            *final(self) == *old(self),
    {
        match self.state {
            Some(EntityState::Player(mut p)) => {
                p.draw(renderer, scene);
                self.state = Some(EntityState::Player(p));
            },
            Some(EntityState::Enemy(mut e)) => {
                e.draw(renderer, scene);
                self.state = Some(EntityState::Enemy(e));
            },
            Some(EntityState::Bullet(mut b)) => {
                b.draw(renderer, scene);
                self.state = Some(EntityState::Bullet(b));
            },
            None => {},
        }
    }

    /// One tick of behaviour: updates the active state, appends any spawned
    /// entity to `new_objects` (so spawns never mutate the pool
    /// mid-iteration), and destroys the entity when it has scrolled off
    /// above the scene.
    pub fn update(
        &mut self,
        new_objects: &mut Vec<Option<GameObject>>,
        scene: &Scene,
        alloc: &mut IdAllocator,
        now_ms: u64,
    )
        requires
            old(self).has_state(),
            object_step_ok(*old(self), *scene),
            old(alloc).counter < usize::MAX,
        ensures
            *final(self) == spec_object_update(*old(self), *scene, now_ms),
            ({
                let spawn = spec_object_spawn(*old(self), *scene, now_ms, old(alloc).counter);
                match spawn {
                    Some(b) => {
                        &&& final(new_objects)@ == old(new_objects)@.push(Some(b))
                        &&& final(alloc).counter == old(alloc).counter + 1
                    },
                    None => {
                        &&& final(new_objects)@ == old(new_objects)@
                        &&& *final(alloc) == *old(alloc)
                    },
                }
            }),
    {
        let new_object: Option<GameObject> = match self.state {
            Some(EntityState::Player(mut p)) => {
                let r = p.update(scene, alloc, now_ms);
                self.state = Some(EntityState::Player(p));
                r
            },
            Some(EntityState::Enemy(mut e)) => {
                let r = e.update();
                self.state = Some(EntityState::Enemy(e));
                r
            },
            Some(EntityState::Bullet(mut b)) => {
                let r = b.update();
                self.state = Some(EntityState::Bullet(b));
                r
            },
            None => None,
        };

        if new_object.is_some() {
            new_objects.push(new_object);
        }

        let position = self.position();

        if position.y < scene.position.y {
            self.destroy();
        }
    }

    /// The position of the active state.
    fn position(&self) -> (r: Position)
        requires
            self.has_state(),
        ensures
            r == self.spec_position(),
    {
        match self.state {
            Some(EntityState::Player(p)) => p.position,
            Some(EntityState::Enemy(e)) => e.position,
            Some(EntityState::Bullet(b)) => b.position,
            None => Position::new(0, 0),
        }
    }

    /// Whether the active state is marked destroyed.
    pub fn is_destroyed(&self) -> (r: bool)
        ensures
            r == self.spec_is_destroyed(),
    {
        match self.state {
            Some(EntityState::Player(p)) => p.is_destroyed,
            Some(EntityState::Enemy(e)) => e.is_destroyed,
            Some(EntityState::Bullet(b)) => b.is_destroyed,
            None => false,
        }
    }

    /// Marks the active state destroyed, permanently; idempotent, and a
    /// no-op on an entity with no active state.
    pub fn destroy(&mut self)
        ensures
            *final(self) == old(self).spec_destroy(),
    {
        match self.state {
            Some(EntityState::Player(mut p)) => {
                p.is_destroyed = true;
                self.state = Some(EntityState::Player(p));
            },
            Some(EntityState::Enemy(mut e)) => {
                e.is_destroyed = true;
                self.state = Some(EntityState::Enemy(e));
            },
            Some(EntityState::Bullet(mut b)) => {
                b.is_destroyed = true;
                self.state = Some(EntityState::Bullet(b));
            },
            None => {},
        }
    }

    /// Applies the damage policy to a pair that geometrically collided:
    /// when damage applies, both entities are destroyed (destruction is the
    /// sole damage model).
    fn collided_with(&mut self, collider: &mut GameObject)
        ensures
            *final(self) == if spec_pair_hit(*old(self), *old(collider)) {
                old(self).spec_destroy()
            } else {
                *old(self)
            },
            *final(collider) == if spec_pair_hit(*old(self), *old(collider)) {
                old(collider).spec_destroy()
            } else {
                *old(collider)
            },
    {
        let mut hit = false;
        if self.is_bullet() && !collider.is_bullet() {
            hit = match self.state {
                Some(EntityState::Bullet(b)) => !b.is_fired_by(collider),
                _ => false,
            };
        } else if collider.is_bullet() && !self.is_bullet() {
            hit = match collider.state {
                Some(EntityState::Bullet(b)) => !b.is_fired_by(self),
                _ => false,
            };
        } else if !collider.is_bullet() && !self.is_bullet() {
            hit = true;
        }

        if hit {
            collider.destroy();
            self.destroy();
        }
    }

    /// Checks one unordered pair: returns whether a geometric collision
    /// occurred (independent of whether damage was applied), and resolves
    /// the damage policy when it did.
    pub fn check_collision(&mut self, collider: &mut GameObject) -> (r: bool)
        requires
            old(self).collision_ready_object(),
            old(collider).collision_ready_object(),
        ensures
            r == spec_pair_collides(*old(self), *old(collider)),
            *final(self) == spec_resolve_first(*old(self), *old(collider)),
            *final(collider) == spec_resolve_second(*old(self), *old(collider)),
    {
        let collided = match (self.state, collider.state) {
            (Some(a), Some(b)) => a.is_colliding(&b),
            _ => false,
        };

        if collided {
            self.collided_with(collider);
        }

        collided
    }

    /// Bounds under which this entity's collision rectangle can be built.
    pub open spec fn collision_ready_object(self) -> bool {
        match self.state {
            Some(s) => collision_ready(s),
            None => true,
        }
    }

    /// Whether the kind tag marks this entity as a projectile.
    fn is_bullet(&self) -> (r: bool)
        ensures
            r == (self.object_type is Bullet),
    {
        match self.object_type {
            ObjectType::Bullet => true,
            _ => false,
        }
    }
}

/// Destruction changes only the destroyed flag, so it never disturbs the
/// bounds under which an entity's collision rectangle is built.
pub proof fn lemma_destroy_preserves_ready(o: GameObject)
    requires
        o.collision_ready_object(),
    ensures
        o.spec_destroy().collision_ready_object(),
{
}

/// Destruction is permanent and idempotent: after `destroy`, an entity with
/// an active state reports destroyed, and destroying it again changes
/// nothing.  (An entity with no active state is the one exception: it has
/// nothing to mark, and reports not destroyed.)
pub proof fn lemma_destroy_idempotent(o: GameObject)
    requires
        o.has_state(),
    ensures
        o.spec_destroy().spec_is_destroyed(),
        o.spec_destroy().spec_destroy() == o.spec_destroy(),
{
}

/// A bullet never damages its own shooter: whatever the geometric overlap,
/// contact between a bullet and the entity that fired it applies no damage,
/// and resolution leaves both unchanged.
pub proof fn lemma_bullet_spares_shooter(bullet: GameObject, shooter: GameObject)
    requires
        bullet.object_type is Bullet,
        bullet.state matches Some(EntityState::Bullet(b)) && b.shooter_id == shooter.id,
        !(shooter.object_type is Bullet),
    ensures
        !spec_pair_hit(bullet, shooter),
        !spec_pair_hit(shooter, bullet),
        spec_resolve_first(bullet, shooter) == bullet,
        spec_resolve_second(bullet, shooter) == shooter,
        spec_resolve_first(shooter, bullet) == shooter,
        spec_resolve_second(shooter, bullet) == bullet,
{
}

/// Two bullets never destroy each other: whatever the geometric overlap,
/// resolution of a bullet-bullet pair leaves both unchanged.
pub proof fn lemma_bullets_pass_through(a: GameObject, b: GameObject)
    requires
        a.object_type is Bullet,
        b.object_type is Bullet,
    ensures
        !spec_pair_hit(a, b),
        !spec_pair_hit(b, a),
        spec_resolve_first(a, b) == a,
        spec_resolve_second(a, b) == b,
{
}

} // verus!
