//! The entity pool and tick engine, with the two ports the core consumes:
//! an abstract display surface and an abstract input device.
//!
//! Each tick runs a fixed pipeline over the pool of optional entities:
//! input, update (collecting spawns), spawn-merge, pairwise collision, reap,
//! then the scene scroll.  Slots are never compacted, so surviving entities
//! keep their positions between ticks.

use vstd::prelude::*;

use crate::game_object::spec_object_input;
use crate::game_object::spec_object_spawn;
use crate::game_object::spec_object_update;
use crate::game_object::spec_resolve_first;
use crate::game_object::spec_resolve_second;
use crate::game_object::EntityState;
use crate::game_object::GameObject;
use crate::scene::Scene;
use crate::states::MAX_INTENTS;
use crate::states::VEL_LIMIT;
use crate::types::COORD_LIMIT;
use crate::types::IdAllocator;
use crate::types::InputState;
use crate::types::Position;

verus! {

/// Positions this far inside the world box keep every coordinate of the
/// next tick — moves, bullet offsets, screen offsets — inside `COORD_LIMIT`.
pub const SAFE_COORD: i32 = 900_000_000;

/// Abstract display surface, implemented outside the core.  The engine and
/// the entities call these once per entity per frame during the draw pass;
/// nothing is promised of the surface, so no contract constrains it.
pub trait Renderer {
    fn clear_scene(&mut self);

    fn draw_scene(&mut self);

    fn render(&mut self, game_objects: &mut Vec<Option<GameObject>>, scene: &Scene);

    fn draw_texture(&mut self, texture_id: &str, position: Position, scene: &Scene);

    fn draw_frame(&mut self, texture_id: &str, position: Position, frame: u8, scene: &Scene);

    fn draw_tile(&mut self, texture_id: &str, position: Position, tile_id: u8);
}

/// Abstract input device, implemented outside the core: polled once per
/// tick; an empty capture means "no movement, no shoot, continue running".
/// Nothing is promised of the device's answer.
pub trait InputHandler {
    fn capture(&mut self) -> Vec<InputState>;
}

/// Relies on `std::time::SystemTime::now`: the current time as milliseconds
/// since the Unix epoch (or 0 if the clock reads before the epoch).  Nothing
/// is promised of the clock's answer.
#[verifier::external_body]
fn now_millis() -> u64 {
    std::time::SystemTime::now().duration_since(std::time::UNIX_EPOCH).map(
        |d| d.as_millis() as u64,
    ).unwrap_or(0)
}

/// A live entity fit for one tick: it has an active state whose coordinates
/// sit well inside the world box, whose velocity is bounded, and whose size
/// covers the collision padding of its kind.
pub open spec fn live_entity_ok(o: GameObject) -> bool {
    match o.state {
        Some(EntityState::Player(p)) => {
            &&& -SAFE_COORD <= p.position.x <= SAFE_COORD
            &&& -SAFE_COORD <= p.position.y <= SAFE_COORD
            &&& -VEL_LIMIT <= p.velocity.x <= VEL_LIMIT
            &&& -VEL_LIMIT <= p.velocity.y <= VEL_LIMIT
            &&& 3 <= p.width <= COORD_LIMIT
            &&& 10 <= p.height <= COORD_LIMIT
        },
        Some(EntityState::Enemy(e)) => {
            &&& -SAFE_COORD <= e.position.x <= SAFE_COORD
            &&& -SAFE_COORD <= e.position.y <= SAFE_COORD
            &&& -VEL_LIMIT <= e.velocity.x <= VEL_LIMIT
            &&& -VEL_LIMIT <= e.velocity.y <= VEL_LIMIT
            &&& 5 <= e.width <= COORD_LIMIT
            &&& 10 <= e.height <= COORD_LIMIT
        },
        Some(EntityState::Bullet(b)) => {
            &&& -SAFE_COORD <= b.position.x <= SAFE_COORD
            &&& -SAFE_COORD <= b.position.y <= SAFE_COORD
            &&& -VEL_LIMIT <= b.velocity.x <= VEL_LIMIT
            &&& -VEL_LIMIT <= b.velocity.y <= VEL_LIMIT
        },
        None => false,
    }
}

/// An empty slot, or a filled slot holding an entity fit for one tick.
pub open spec fn slot_live_ok(s: Option<GameObject>) -> bool {
    match s {
        Some(o) => live_entity_ok(o),
        None => true,
    }
}

/// Every filled slot of the pool holds an entity fit for one tick.
pub open spec fn pool_ok(p: Seq<Option<GameObject>>) -> bool {
    forall|k: int| 0 <= k < p.len() ==> slot_live_ok(#[trigger] p[k])
}

/// An empty slot, or a filled slot that can build its collision rectangle.
pub open spec fn slot_collision_ready(s: Option<GameObject>) -> bool {
    match s {
        Some(o) => o.collision_ready_object(),
        None => true,
    }
}

/// Every filled slot can build its collision rectangle.
pub open spec fn pool_collision_ready(p: Seq<Option<GameObject>>) -> bool {
    forall|k: int| 0 <= k < p.len() ==> slot_collision_ready(#[trigger] p[k])
}

/// The slot is empty, or its entity's identity lies below `bound`.
pub open spec fn slot_id_below(s: Option<GameObject>, bound: int) -> bool {
    match s {
        Some(o) => o.id < bound,
        None => true,
    }
}

/// A slot after the reap phase: cleared when it held a destroyed entity,
/// unchanged otherwise.
pub open spec fn spec_reap_slot(s: Option<GameObject>) -> Option<GameObject> {
    match s {
        Some(o) => if o.spec_is_destroyed() {
            None
        } else {
            Some(o)
        },
        None => None,
    }
}

/// The pool after the reap phase: every slot reaped in place, no slot
/// compacted or moved.
pub open spec fn spec_reap(p: Seq<Option<GameObject>>) -> Seq<Option<GameObject>> {
    p.map_values(|s: Option<GameObject>| spec_reap_slot(s))
}

/// Whether a capture holds a Quit intent.
pub open spec fn spec_contains_quit(s: Seq<InputState>) -> bool
    decreases s.len(),
{
    if s.len() == 0 {
        false
    } else {
        spec_contains_quit(s.drop_last()) || s.last() is Quit
    }
}

/// The pool after the input pass: every live entity handed the capture.
pub open spec fn spec_apply_inputs(
    p: Seq<Option<GameObject>>,
    ins: Seq<InputState>,
    now: u64,
) -> Seq<Option<GameObject>> {
    p.map_values(
        |s: Option<GameObject>|
            match s {
                Some(o) => Some(spec_object_input(o, ins, now)),
                None => None,
            },
    )
}

/// The filled entries of a spawn list, in order: `None` placeholders dropped.
pub open spec fn spec_live(xs: Seq<Option<GameObject>>) -> Seq<Option<GameObject>>
    decreases xs.len(),
{
    if xs.len() == 0 {
        Seq::empty()
    } else {
        spec_live(xs.drop_last()) + if xs.last() is Some {
            seq![xs.last()]
        } else {
            Seq::empty()
        }
    }
}

/// The pool after the spawn-merge phase: scanning from the start, each
/// empty slot is filled with the next spawned entity; once no empty slot
/// remains, the remaining spawns are appended to the end in order.  The
/// relative order of pre-existing live entities is preserved.
pub open spec fn spec_merge(
    p: Seq<Option<GameObject>>,
    q: Seq<Option<GameObject>>,
) -> Seq<Option<GameObject>>
    decreases p.len(),
{
    if p.len() == 0 {
        q
    } else if p.first() is None && q.len() > 0 {
        seq![q.first()] + spec_merge(p.drop_first(), q.drop_first())
    } else {
        seq![p.first()] + spec_merge(p.drop_first(), q)
    }
}

/// Dropping the `None` placeholders keeps every slot able to build its
/// collision rectangle.
pub proof fn lemma_live_preserves_ready(xs: Seq<Option<GameObject>>)
    requires
        pool_collision_ready(xs),
    ensures
        pool_collision_ready(spec_live(xs)),
    decreases xs.len(),
{
    if xs.len() > 0 {
        assert forall|j: int| 0 <= j < xs.drop_last().len() implies slot_collision_ready(
            #[trigger] xs.drop_last()[j],
        ) by {
            assert(xs.drop_last()[j] == xs[j]);
        }
        lemma_live_preserves_ready(xs.drop_last());
        let r = spec_live(xs);
        let r0 = spec_live(xs.drop_last());
        assert forall|j: int| 0 <= j < r.len() implies slot_collision_ready(#[trigger] r[j]) by {
            if j < r0.len() {
                assert(r[j] == r0[j]);
            } else {
                assert(r[j] == xs.last());
                assert(xs.last() == xs[xs.len() - 1]);
            }
        }
    }
}

/// Merging keeps every slot able to build its collision rectangle, since
/// every slot of the result comes from the pool or from the spawns.
pub proof fn lemma_merge_preserves_ready(
    p: Seq<Option<GameObject>>,
    q: Seq<Option<GameObject>>,
)
    requires
        pool_collision_ready(p),
        pool_collision_ready(q),
    ensures
        pool_collision_ready(spec_merge(p, q)),
    decreases p.len(),
{
    if p.len() > 0 {
        assert forall|j: int| 0 <= j < p.drop_first().len() implies slot_collision_ready(
            #[trigger] p.drop_first()[j],
        ) by {
            assert(p.drop_first()[j] == p[j + 1]);
        }
        if p.first() is None && q.len() > 0 {
            assert forall|j: int| 0 <= j < q.drop_first().len() implies slot_collision_ready(
                #[trigger] q.drop_first()[j],
            ) by {
                assert(q.drop_first()[j] == q[j + 1]);
            }
            lemma_merge_preserves_ready(p.drop_first(), q.drop_first());
            let m = spec_merge(p.drop_first(), q.drop_first());
            let r = spec_merge(p, q);
            assert forall|j: int| 0 <= j < r.len() implies slot_collision_ready(
                #[trigger] r[j],
            ) by {
                if j == 0 {
                    assert(r[0] == q.first());
                    assert(q.first() == q[0]);
                } else {
                    assert(r[j] == m[j - 1]);
                }
            }
        } else {
            lemma_merge_preserves_ready(p.drop_first(), q);
            let m = spec_merge(p.drop_first(), q);
            let r = spec_merge(p, q);
            assert forall|j: int| 0 <= j < r.len() implies slot_collision_ready(
                #[trigger] r[j],
            ) by {
                if j == 0 {
                    assert(r[0] == p.first());
                    assert(p.first() == p[0]);
                } else {
                    assert(r[j] == m[j - 1]);
                }
            }
        }
    }
}

/// One collision check between slots `i` and `j`: two filled slots resolve
/// the pair (each destroyed when the contact applies damage); anything else
/// leaves the pool unchanged.
pub open spec fn spec_pair_step(
    p: Seq<Option<GameObject>>,
    i: int,
    j: int,
) -> Seq<Option<GameObject>> {
    if 0 <= i < p.len() && 0 <= j < p.len() {
        match (p[i], p[j]) {
            (Some(a), Some(b)) => p.update(i, Some(spec_resolve_first(a, b))).update(
                j,
                Some(spec_resolve_second(a, b)),
            ),
            _ => p,
        }
    } else {
        p
    }
}

/// The pool after checking slot `i` against each of the slots `j .. n`, in
/// order.
pub open spec fn spec_collide_row(
    p: Seq<Option<GameObject>>,
    i: int,
    j: int,
    n: int,
) -> Seq<Option<GameObject>>
    decreases n - j,
{
    if j >= n {
        p
    } else {
        spec_collide_row(spec_pair_step(p, i, j), i, j + 1, n)
    }
}

/// The pool after checking every unordered pair of distinct slots `(i, j)`
/// with `from <= i < j < n`, in lexicographic order — each unordered pair
/// exactly once.
pub open spec fn spec_collide_from(p: Seq<Option<GameObject>>, from: int, n: int) -> Seq<
    Option<GameObject>,
>
    decreases n - from,
{
    if from >= n {
        p
    } else {
        spec_collide_from(spec_collide_row(p, from, from + 1, n), from + 1, n)
    }
}

/// The pool after the collision phase.
pub open spec fn spec_collide_all(p: Seq<Option<GameObject>>) -> Seq<Option<GameObject>> {
    spec_collide_from(p, 0, p.len() as int)
}

/// The update phase over slots `k .. n` of the pool: each live entity
/// updated in place (slot positions never move), the spawned entities
/// collected in slot order, and the identity counter advanced once per
/// spawn.  Returns the updated pool, the spawn list and the final counter.
pub open spec fn spec_update_slots(
    p: Seq<Option<GameObject>>,
    scene: Scene,
    now: u64,
    next: int,
    k: int,
    n: int,
) -> (Seq<Option<GameObject>>, Seq<Option<GameObject>>, int)
    decreases n - k,
{
    if k < 0 || k >= n {
        (p, Seq::empty(), next)
    } else {
        match p[k] {
            Some(o) => {
                let o1 = spec_object_update(o, scene, now);
                let spawn = spec_object_spawn(o, scene, now, next as usize);
                let next1: int = if spawn is Some {
                    next + 1
                } else {
                    next
                };
                let rest = spec_update_slots(p.update(k, Some(o1)), scene, now, next1, k + 1, n);
                match spawn {
                    Some(b) => (rest.0, seq![Some(b)] + rest.1, rest.2),
                    None => rest,
                }
            },
            None => spec_update_slots(p, scene, now, next, k + 1, n),
        }
    }
}

/// One tick keeps an entity able to build its collision rectangle: the
/// update moves it by at most the velocity bound, which keeps it inside the
/// world box, and changes neither its size nor its kind.
pub proof fn lemma_update_keeps_ready(o: GameObject, scene: Scene, now: u64)
    requires
        live_entity_ok(o),
        -SAFE_COORD <= scene.position.y <= SAFE_COORD,
    ensures
        spec_object_update(o, scene, now).collision_ready_object(),
{
    crate::game_object::lemma_destroy_preserves_ready(
        GameObject {
            state: Some(
                crate::game_object::spec_updated_state(o.state.unwrap(), scene, now),
            ),
            ..o
        },
    );
}

/// A bullet spawned this tick can build its collision rectangle: it appears
/// near its shooter, inside the world box.
pub proof fn lemma_spawn_keeps_ready(o: GameObject, scene: Scene, now: u64, next: usize)
    requires
        live_entity_ok(o),
        -SAFE_COORD <= scene.position.y <= SAFE_COORD,
    ensures
        match spec_object_spawn(o, scene, now, next) {
            Some(b) => b.collision_ready_object(),
            None => true,
        },
{
}

/// The identity held in a slot, if any.
pub open spec fn slot_id(s: Option<GameObject>) -> Option<crate::types::Id> {
    match s {
        Some(o) => Some(o.id),
        None => None,
    }
}

/// The update phase touches no identity: every slot of the updated pool
/// holds the same identity (or none) as before.
proof fn lemma_update_slots_keep_ids(
    p: Seq<Option<GameObject>>,
    scene: Scene,
    now: u64,
    next: int,
    k: int,
    n: int,
)
    requires
        n == p.len(),
        0 <= k,
    ensures
        ({
            let s = spec_update_slots(p, scene, now, next, k, n);
            &&& s.0.len() == p.len()
            &&& forall|m: int| 0 <= m < p.len() ==> slot_id(#[trigger] s.0[m]) == slot_id(p[m])
        }),
    decreases n - k,
{
    if 0 <= k < n {
        match p[k] {
            Some(o) => {
                let o1 = spec_object_update(o, scene, now);
                let spawn = spec_object_spawn(o, scene, now, next as usize);
                let next1: int = if spawn is Some {
                    next + 1
                } else {
                    next
                };
                let p1 = p.update(k, Some(o1));
                lemma_update_slots_keep_ids(p1, scene, now, next1, k + 1, n);
                let s = spec_update_slots(p, scene, now, next, k, n);
                let s1 = spec_update_slots(p1, scene, now, next1, k + 1, n);
                assert(o1.id == o.id);
                assert forall|m: int| 0 <= m < p.len() implies slot_id(#[trigger] s.0[m])
                    == slot_id(p[m]) by {
                    assert(slot_id(s1.0[m]) == slot_id(p1[m]));
                    if m != k {
                        assert(p1[m] == p[m]);
                    }
                }
            },
            None => {
                lemma_update_slots_keep_ids(p, scene, now, next, k + 1, n);
            },
        }
    }
}

/// The update phase over slots `k .. n` issues identities in order: the
/// `t`-th spawn carries identity `next + t`, and the counter advances
/// exactly once per spawn.
proof fn lemma_update_slots_spawn_ids(
    p: Seq<Option<GameObject>>,
    scene: Scene,
    now: u64,
    next: int,
    k: int,
    n: int,
)
    requires
        n == p.len(),
        0 <= next,
        k <= n ==> next + n - k <= usize::MAX,
        0 <= k,
    ensures
        ({
            let s = spec_update_slots(p, scene, now, next, k, n);
            &&& s.2 == next + s.1.len()
            &&& forall|t: int|
                0 <= t < s.1.len() ==> (#[trigger] s.1[t] matches Some(b) && b.id == next + t)
        }),
    decreases n - k,
{
    if 0 <= k < n {
        let s = spec_update_slots(p, scene, now, next, k, n);
        match p[k] {
            Some(o) => {
                let o1 = spec_object_update(o, scene, now);
                let spawn = spec_object_spawn(o, scene, now, next as usize);
                let next1: int = if spawn is Some {
                    next + 1
                } else {
                    next
                };
                let p1 = p.update(k, Some(o1));
                lemma_update_slots_spawn_ids(p1, scene, now, next1, k + 1, n);
                let rest = spec_update_slots(p1, scene, now, next1, k + 1, n);
                match spawn {
                    Some(b) => {
                        assert(b.id == next);
                        assert forall|t: int| 0 <= t < s.1.len() implies (#[trigger] s.1[t] matches
                        Some(b2) && b2.id == next + t) by {
                            if t == 0 {
                                assert(s.1[0] == Some(b));
                            } else {
                                assert(s.1[t] == rest.1[t - 1]);
                            }
                        }
                    },
                    None => {},
                }
            },
            None => {
                lemma_update_slots_spawn_ids(p, scene, now, next, k + 1, n);
            },
        }
    }
}

/// Fresh identities, never reissued: over one whole update pass starting
/// with counter `next`, the `t`-th spawned entity carries identity
/// `next + t` — strictly above every identity issued before the pass — and
/// the counter ends exactly one past the last identity issued.
pub proof fn lemma_update_pass_issues_fresh_ids(
    p: Seq<Option<GameObject>>,
    scene: Scene,
    now: u64,
    next: int,
)
    requires
        0 <= next,
        next + p.len() <= usize::MAX,
    ensures
        ({
            let s = spec_update_slots(p, scene, now, next, 0, p.len() as int);
            &&& s.2 == next + s.1.len()
            &&& forall|t: int|
                0 <= t < s.1.len() ==> (#[trigger] s.1[t] matches Some(b) && b.id == next + t)
        }),
{
    lemma_update_slots_spawn_ids(p, scene, now, next, 0, p.len() as int);
}

/// The spawn-merge phase only fills empty slots and appends: a slot that
/// was filled before the merge is untouched by it.
proof fn lemma_merge_keeps_live_slots(p: Seq<Option<GameObject>>, q: Seq<Option<GameObject>>)
    ensures
        spec_merge(p, q).len() >= p.len(),
        forall|m: int|
            0 <= m < p.len() && p[m] is Some ==> #[trigger] spec_merge(p, q)[m] == p[m],
    decreases p.len(),
{
    if p.len() > 0 {
        let r = spec_merge(p, q);
        if p.first() is None && q.len() > 0 {
            lemma_merge_keeps_live_slots(p.drop_first(), q.drop_first());
            let m0 = spec_merge(p.drop_first(), q.drop_first());
            assert forall|m: int| 0 <= m < p.len() && p[m] is Some implies #[trigger] r[m]
                == p[m] by {
                assert(r[m] == m0[m - 1]);
                assert(p.drop_first()[m - 1] == p[m]);
            }
        } else {
            lemma_merge_keeps_live_slots(p.drop_first(), q);
            let m0 = spec_merge(p.drop_first(), q);
            assert forall|m: int| 0 <= m < p.len() && p[m] is Some implies #[trigger] r[m]
                == p[m] by {
                if m == 0 {
                    assert(r[0] == p.first());
                } else {
                    assert(r[m] == m0[m - 1]);
                    assert(p.drop_first()[m - 1] == p[m]);
                }
            }
        }
    }
}

/// One collision check touches no identity.
proof fn lemma_pair_step_keeps_ids(p: Seq<Option<GameObject>>, i: int, j: int)
    ensures
        spec_pair_step(p, i, j).len() == p.len(),
        forall|m: int|
            0 <= m < p.len() ==> slot_id(#[trigger] spec_pair_step(p, i, j)[m]) == slot_id(p[m]),
{
}

/// A whole row of collision checks touches no identity.
proof fn lemma_collide_row_keeps_ids(p: Seq<Option<GameObject>>, i: int, j: int, n: int)
    ensures
        spec_collide_row(p, i, j, n).len() == p.len(),
        forall|m: int|
            0 <= m < p.len() ==> slot_id(#[trigger] spec_collide_row(p, i, j, n)[m]) == slot_id(
                p[m],
            ),
    decreases n - j,
{
    if j < n {
        lemma_pair_step_keeps_ids(p, i, j);
        lemma_collide_row_keeps_ids(spec_pair_step(p, i, j), i, j + 1, n);
    }
}

/// The whole collision phase touches no identity.
proof fn lemma_collide_from_keeps_ids(p: Seq<Option<GameObject>>, from: int, n: int)
    ensures
        spec_collide_from(p, from, n).len() == p.len(),
        forall|m: int|
            0 <= m < p.len() ==> slot_id(#[trigger] spec_collide_from(p, from, n)[m]) == slot_id(
                p[m],
            ),
    decreases n - from,
{
    if from < n {
        lemma_collide_row_keeps_ids(p, from, from + 1, n);
        lemma_collide_from_keeps_ids(spec_collide_row(p, from, from + 1, n), from + 1, n);
    }
}

/// Stable identity across a tick: a slot that held an entity before the
/// tick and still holds one after it holds the same identity — no phase of
/// the pipeline ever mutates an identity or moves a surviving entity to
/// another slot.  (A slot may instead be cleared by the reap phase, or an
/// empty slot filled by a spawn.)
pub proof fn lemma_tick_preserves_identity(
    p: Seq<Option<GameObject>>,
    scene: Scene,
    now: u64,
    next: int,
)
    ensures
        ({
            let s = spec_update_slots(p, scene, now, next, 0, p.len() as int);
            let after = spec_reap(spec_collide_all(spec_merge(s.0, spec_live(s.1))));
            forall|m: int|
                0 <= m < p.len() && p[m] is Some && #[trigger] after[m] is Some ==> slot_id(
                    after[m],
                ) == slot_id(p[m])
        }),
{
    let s = spec_update_slots(p, scene, now, next, 0, p.len() as int);
    let merged = spec_merge(s.0, spec_live(s.1));
    let collided = spec_collide_all(merged);
    let after = spec_reap(collided);
    lemma_update_slots_keep_ids(p, scene, now, next, 0, p.len() as int);
    lemma_merge_keeps_live_slots(s.0, spec_live(s.1));
    lemma_collide_from_keeps_ids(merged, 0, merged.len() as int);
    assert forall|m: int|
        0 <= m < p.len() && p[m] is Some && #[trigger] after[m] is Some implies slot_id(after[m])
        == slot_id(p[m]) by {
        assert(slot_id(s.0[m]) == slot_id(p[m]));
        assert(s.0[m] is Some);
        assert(merged[m] == s.0[m]);
        assert(slot_id(collided[m]) == slot_id(merged[m]));
        assert(after[m] == spec_reap_slot(collided[m]));
    }
}

/// One identity past the largest identity held in the pool (or 1 for an
/// empty pool): the first identity an allocator may issue without ever
/// duplicating a live one.
pub open spec fn spec_pool_next_id(p: Seq<Option<GameObject>>) -> int
    decreases p.len(),
{
    if p.len() == 0 {
        1
    } else {
        let r = spec_pool_next_id(p.drop_last());
        match p.last() {
            Some(o) => if o.id + 1 > r {
                o.id + 1
            } else {
                r
            },
            None => r,
        }
    }
}

/// Every identity in the pool lies below `spec_pool_next_id`.
pub proof fn lemma_pool_next_id_bounds(p: Seq<Option<GameObject>>)
    ensures
        spec_pool_next_id(p) >= 1,
        forall|k: int| 0 <= k < p.len() ==> slot_id_below(#[trigger] p[k], spec_pool_next_id(p)),
    decreases p.len(),
{
    if p.len() > 0 {
        lemma_pool_next_id_bounds(p.drop_last());
        assert forall|k: int| 0 <= k < p.len() implies slot_id_below(
            #[trigger] p[k],
            spec_pool_next_id(p),
        ) by {
            if k < p.len() - 1 {
                assert(p.drop_last()[k] == p[k]);
            } else {
                assert(p[k] == p.last());
            }
        }
    }
}

/// The tick engine: owns the pool of optional entities, the scrolling
/// scene, the identity allocator for runtime spawns, and the two ports.
pub struct Engine<R: Renderer, I: InputHandler> {
    pub is_running: bool,
    pub renderer: R,
    pub input_handler: I,
    pub scene: Scene,
    pub game_objects: Vec<Option<GameObject>>,
    pub id_alloc: IdAllocator,
}

impl<R: Renderer, I: InputHandler> Engine<R, I> {
    /// Builds a running engine over the given pool and scene.  The identity
    /// allocator starts above every identity already in the pool, so
    /// runtime spawns never duplicate a loaded entity's identity.
    pub fn new(game_objects: Vec<Option<GameObject>>, scene: Scene, renderer: R, input_handler: I)
        -> (r: Engine<R, I>)
        requires
            spec_pool_next_id(game_objects@) <= usize::MAX,
        ensures
            r.is_running,
            r.game_objects@ == game_objects@,
            r.scene == scene,
            r.id_alloc.counter == spec_pool_next_id(game_objects@),
            forall|k: int|
                0 <= k < r.game_objects@.len() ==> slot_id_below(
                    #[trigger] r.game_objects@[k],
                    r.id_alloc.counter as int,
                ),
    {
        let mut counter: usize = 1;
        let mut i: usize = 0;
        while i < game_objects.len()
            invariant
                i <= game_objects@.len(),
                counter == spec_pool_next_id(game_objects@.take(i as int)),
                spec_pool_next_id(game_objects@) <= usize::MAX,
            decreases game_objects@.len() - i,
        {
            proof {
                assert(game_objects@.take(i + 1).drop_last() =~= game_objects@.take(i as int));
                assert(game_objects@.take(i + 1).last() == game_objects@[i as int]);
                lemma_pool_next_id_prefix(game_objects@, i + 1);
            }
            match game_objects[i] {
                Some(o) => {
                    if o.id >= counter {
                        counter = o.id + 1;
                    }
                },
                None => {},
            }
            i = i + 1;
        }
        proof {
            assert(game_objects@.take(game_objects@.len() as int) =~= game_objects@);
            lemma_pool_next_id_bounds(game_objects@);
        }
        Engine {
            is_running: true,
            renderer,
            input_handler,
            scene,
            game_objects,
            id_alloc: IdAllocator::starting_at(counter),
        }
    }

    /// True iff the capture holds a Quit intent.
    pub fn should_quit(inputs: &Vec<InputState>) -> (r: bool)
        ensures
            r == spec_contains_quit(inputs@),
    {
        let mut i: usize = 0;
        let mut found = false;
        while i < inputs.len()
            invariant
                i <= inputs@.len(),
                found == spec_contains_quit(inputs@.take(i as int)),
            decreases inputs@.len() - i,
        {
            proof {
                assert(inputs@.take(i + 1).drop_last() =~= inputs@.take(i as int));
                assert(inputs@.take(i + 1).last() == inputs@[i as int]);
            }
            match inputs[i] {
                InputState::Quit => {
                    found = true;
                },
                _ => {},
            }
            i = i + 1;
        }
        proof {
            assert(inputs@.take(inputs@.len() as int) =~= inputs@);
        }
        found
    }

    /// What one tick does, relating the engine before (`pre`) and after
    /// (`post`) for the tick time `now`: the update phase folds over the
    /// slots producing the updated pool, the spawn list and the advanced
    /// identity counter; the spawns are merged into empty slots; every
    /// unordered pair is collision-checked once; destroyed entities are
    /// reaped; and the scene scrolls up one pixel.
    pub open spec fn spec_tick_rel(pre: Engine<R, I>, post: Engine<R, I>, now: u64) -> bool {
        let s = spec_update_slots(
            pre.game_objects@,
            pre.scene,
            now,
            pre.id_alloc.counter as int,
            0,
            pre.game_objects@.len() as int,
        );
        &&& post.game_objects@ == spec_reap(spec_collide_all(spec_merge(s.0, spec_live(s.1))))
        &&& post.id_alloc.counter == s.2
        &&& post.scene.position.x == pre.scene.position.x
        &&& post.scene.position.y == pre.scene.position.y - 1
        &&& post.scene.width == pre.scene.width
        &&& post.scene.height == pre.scene.height
        &&& post.scene.tiles@ == pre.scene.tiles@
        &&& post.is_running == pre.is_running
    }

    /// One tick of the pipeline at the given time: update, spawn-merge,
    /// collision, reap, then the scene scroll — in that fixed order, with
    /// no interleaving.
    pub fn update_at(&mut self, now_ms: u64)
        requires
            old(self).wf(),
        ensures
            Self::spec_tick_rel(*old(self), *final(self), now_ms),
    {
        self.update_objects(now_ms);
        self.check_collisions();
        self.remove_destroyed_objects();
        self.scene.update();
    }

    /// One tick of the pipeline at the time the system clock gives: some
    /// tick time exists for which the engine stepped exactly one tick.
    pub fn update(&mut self)
        requires
            old(self).wf(),
        ensures
            exists|now: u64| Self::spec_tick_rel(*old(self), *final(self), now),
    {
        let ghost pre = *self;
        let now_ms = now_millis();
        self.update_at(now_ms);
        proof {
            assert(Self::spec_tick_rel(pre, *self, now_ms));
        }
    }

    /// What the input pass does, relating the engine before and after for a
    /// capture `ins` at time `now`: a Quit intent stops the engine and
    /// leaves the pool alone; otherwise every live entity is handed the
    /// capture once.
    pub open spec fn spec_input_rel(
        pre: Engine<R, I>,
        post: Engine<R, I>,
        ins: Seq<InputState>,
        now: u64,
    ) -> bool {
        &&& post.game_objects@ == if spec_contains_quit(ins) {
            pre.game_objects@
        } else {
            spec_apply_inputs(pre.game_objects@, ins, now)
        }
        &&& post.is_running == (pre.is_running && !spec_contains_quit(ins))
        &&& post.scene == pre.scene
        &&& post.id_alloc == pre.id_alloc
    }

    /// The input pass for a given capture at a given time.
    pub fn handle_input_with(&mut self, input_state: &Vec<InputState>, now_ms: u64)
        requires
            input_state@.len() <= MAX_INTENTS,
        ensures
            Self::spec_input_rel(*old(self), *final(self), input_state@, now_ms),
    {
        if Self::should_quit(input_state) {
            self.is_running = false;
            return;
        }

        let n = self.game_objects.len();
        let mut i: usize = 0;
        while i < n
            invariant
                i <= n == self.game_objects@.len(),
                input_state@.len() <= MAX_INTENTS,
                forall|k: int|
                    0 <= k < i ==> self.game_objects@[k] == match #[trigger] old(
                        self,
                    ).game_objects@[k] {
                        Some(o) => Some(spec_object_input(o, input_state@, now_ms)),
                        None => None,
                    },
                forall|k: int|
                    i <= k < n ==> self.game_objects@[k] == #[trigger] old(self).game_objects@[k],
                self.is_running == old(self).is_running,
                self.scene == old(self).scene,
                self.id_alloc == old(self).id_alloc,
            decreases n - i,
        {
            let slot = self.game_objects[i];
            match slot {
                Some(mut o) => {
                    o.handle_input(input_state, now_ms);
                    self.game_objects.set(i, Some(o));
                },
                None => {},
            }
            i = i + 1;
        }
        proof {
            assert(self.game_objects@ =~= spec_apply_inputs(
                old(self).game_objects@,
                input_state@,
                now_ms,
            ));
        }
    }

    /// The input phase: captures the current intents once and applies them,
    /// unless the capture is absurdly large (more intents than
    /// `MAX_INTENTS`), in which case this tick's input is ignored and the
    /// simulation state is left untouched.
    pub fn handle_input(&mut self)
        ensures
            ({
                ||| exists|ins: Seq<InputState>, now: u64|
                    ins.len() <= MAX_INTENTS && Self::spec_input_rel(
                        *old(self),
                        *final(self),
                        ins,
                        now,
                    )
                ||| {
                    &&& final(self).game_objects@ == old(self).game_objects@
                    &&& final(self).scene == old(self).scene
                    &&& final(self).id_alloc == old(self).id_alloc
                    &&& final(self).is_running == old(self).is_running
                }
            }),
    {
        let ghost pre = *self;
        let input_state = self.input_handler.capture();
        if input_state.len() <= MAX_INTENTS {
            let now_ms = now_millis();
            self.handle_input_with(&input_state, now_ms);
            proof {
                assert(pre.game_objects@ == old(self).game_objects@);
                assert(Self::spec_input_rel(*old(self), *self, input_state@, now_ms));
            }
        }
    }

    /// The draw pass: hands the pool and the scene to the display surface.
    /// Nothing is promised of the surface, which may touch the pool.
    pub fn draw(&mut self)
        ensures
            final(self).scene == old(self).scene,
            final(self).is_running == old(self).is_running,
            final(self).id_alloc == old(self).id_alloc,
    {
        self.renderer.render(&mut self.game_objects, &self.scene);
    }

    /// The spawn-merge phase: fills the first empty slots, scanning from the
    /// start, with the spawned entities in order; spawns left over once no
    /// empty slot remains are appended to the end.  `None` entries in the
    /// spawn list are ignored.
    pub fn add_new_objects(&mut self, new_objects: Vec<Option<GameObject>>)
        ensures
            final(self).game_objects@ == spec_merge(
                old(self).game_objects@,
                spec_live(new_objects@),
            ),
            final(self).is_running == old(self).is_running,
            final(self).scene == old(self).scene,
            final(self).id_alloc == old(self).id_alloc,
            pool_collision_ready(old(self).game_objects@) && pool_collision_ready(new_objects@)
                ==> pool_collision_ready(final(self).game_objects@),
    {
        let ghost old_pool = old(self).game_objects@;

        let mut live: Vec<Option<GameObject>> = Vec::new();
        let mut t: usize = 0;
        while t < new_objects.len()
            invariant
                t <= new_objects@.len(),
                live@ == spec_live(new_objects@.take(t as int)),
            decreases new_objects@.len() - t,
        {
            proof {
                assert(new_objects@.take(t + 1).drop_last() =~= new_objects@.take(t as int));
                assert(new_objects@.take(t + 1).last() == new_objects@[t as int]);
            }
            match new_objects[t] {
                Some(o) => {
                    live.push(Some(o));
                    proof {
                        assert(live@ =~= spec_live(new_objects@.take(t as int)) + seq![
                            new_objects@[t as int],
                        ]);
                    }
                },
                None => {},
            }
            t = t + 1;
        }
        proof {
            assert(new_objects@.take(new_objects@.len() as int) =~= new_objects@);
        }

        let n = self.game_objects.len();
        let mut i: usize = 0;
        let mut k: usize = 0;
        proof {
            assert(old_pool.skip(0) =~= old_pool);
            assert(live@.skip(0) =~= live@);
            assert(self.game_objects@.take(0) =~= Seq::<Option<GameObject>>::empty());
            assert(self.game_objects@.take(0) + spec_merge(old_pool, live@) =~= spec_merge(
                old_pool,
                live@,
            ));
        }
        while i < n
            invariant
                i <= n == self.game_objects@.len(),
                old_pool.len() == n,
                k <= live@.len(),
                live@ == spec_live(new_objects@),
                spec_merge(old_pool, live@) == self.game_objects@.take(i as int) + spec_merge(
                    old_pool.skip(i as int),
                    live@.skip(k as int),
                ),
                forall|j: int| i <= j < n ==> self.game_objects@[j] == #[trigger] old_pool[j],
                self.is_running == old(self).is_running,
                self.scene == old(self).scene,
                self.id_alloc == old(self).id_alloc,
                pool_collision_ready(old_pool) && pool_collision_ready(live@)
                    ==> pool_collision_ready(self.game_objects@.take(i as int)),
            decreases n - i,
        {
            let ghost pool_before = self.game_objects@;
            proof {
                assert(old_pool.skip(i as int).first() == old_pool[i as int]);
                assert(old_pool.skip(i as int).drop_first() =~= old_pool.skip(i + 1));
                if k < live@.len() {
                    assert(live@.skip(k as int).first() == live@[k as int]);
                    assert(live@.skip(k as int).drop_first() =~= live@.skip(k + 1));
                }
            }
            if self.game_objects[i].is_none() && k < live.len() {
                let spawn = live[k];
                self.game_objects.set(i, spawn);
                k = k + 1;
                proof {
                    assert(self.game_objects@.take(i + 1) =~= pool_before.take(i as int) + seq![
                        live@[k - 1],
                    ]);
                    assert(self.game_objects@.take(i + 1) + spec_merge(
                        old_pool.skip(i + 1),
                        live@.skip(k as int),
                    ) =~= pool_before.take(i as int) + (seq![live@[k - 1]] + spec_merge(
                        old_pool.skip(i + 1),
                        live@.skip(k as int),
                    )));
                }
            } else {
                proof {
                    assert(self.game_objects@.take(i + 1) =~= pool_before.take(i as int) + seq![
                        old_pool[i as int],
                    ]);
                    assert(self.game_objects@.take(i + 1) + spec_merge(
                        old_pool.skip(i + 1),
                        live@.skip(k as int),
                    ) =~= pool_before.take(i as int) + (seq![old_pool[i as int]] + spec_merge(
                        old_pool.skip(i + 1),
                        live@.skip(k as int),
                    )));
                }
            }
            i = i + 1;
            proof {
                if pool_collision_ready(old_pool) && pool_collision_ready(live@) {
                    assert forall|j: int| 0 <= j < i implies slot_collision_ready(
                        #[trigger] self.game_objects@.take(i as int)[j],
                    ) by {
                        if j < i - 1 {
                            assert(self.game_objects@.take(i as int)[j] == pool_before.take(
                                i - 1,
                            )[j]);
                        }
                    }
                }
            }
        }

        proof {
            assert(self.game_objects@.take(n as int) =~= self.game_objects@);
            assert(old_pool.skip(n as int) =~= Seq::<Option<GameObject>>::empty());
        }

        while k < live.len()
            invariant
                k <= live@.len(),
                spec_merge(old_pool, live@) == self.game_objects@ + live@.skip(k as int),
                self.is_running == old(self).is_running,
                self.scene == old(self).scene,
                self.id_alloc == old(self).id_alloc,
                pool_collision_ready(old_pool) && pool_collision_ready(live@)
                    ==> pool_collision_ready(self.game_objects@),
            decreases live@.len() - k,
        {
            let ghost pool_before = self.game_objects@;
            self.game_objects.push(live[k]);
            k = k + 1;
            proof {
                assert(live@.skip(k - 1) =~= seq![live@[k - 1]] + live@.skip(k as int));
                assert(self.game_objects@ + live@.skip(k as int) =~= pool_before + live@.skip(
                    k - 1,
                ));
                if pool_collision_ready(old_pool) && pool_collision_ready(live@) {
                    assert forall|j: int| 0 <= j < self.game_objects@.len()
                        implies slot_collision_ready(#[trigger] self.game_objects@[j]) by {
                        if j < pool_before.len() {
                            assert(self.game_objects@[j] == pool_before[j]);
                        } else {
                            assert(self.game_objects@[j] == live@[k - 1]);
                        }
                    }
                }
            }
        }
        proof {
            assert(live@.skip(live@.len() as int) =~= Seq::<Option<GameObject>>::empty());
            assert(self.game_objects@ =~= spec_merge(old_pool, live@));
            if pool_collision_ready(new_objects@) {
                lemma_live_preserves_ready(new_objects@);
            }
        }
    }

    /// Bounds under which one whole tick cannot overflow: every live entity
    /// sits well inside the world box, the camera does too, and the
    /// identity counter has room for one spawn per slot.
    pub open spec fn wf(self) -> bool {
        &&& pool_ok(self.game_objects@)
        &&& -SAFE_COORD <= self.scene.position.x <= SAFE_COORD
        &&& -SAFE_COORD <= self.scene.position.y <= SAFE_COORD
        &&& self.id_alloc.counter + self.game_objects@.len() <= usize::MAX
    }

    /// Checks `wf` at run time, so that an unverified caller can test the
    /// tick preconditions before each tick, as the update phases require.
    pub fn is_well_formed(&self) -> (r: bool)
        ensures
            r == self.wf(),
    {
        if !(-SAFE_COORD <= self.scene.position.x && self.scene.position.x <= SAFE_COORD
            && -SAFE_COORD <= self.scene.position.y && self.scene.position.y <= SAFE_COORD) {
            return false;
        }
        if !(self.id_alloc.counter <= usize::MAX - self.game_objects.len()) {
            return false;
        }
        let n = self.game_objects.len();
        let mut i: usize = 0;
        while i < n
            invariant
                i <= n == self.game_objects@.len(),
                forall|k: int| 0 <= k < i ==> slot_live_ok(#[trigger] self.game_objects@[k]),
            decreases n - i,
        {
            let ok = match &self.game_objects[i] {
                None => true,
                Some(o) => match &o.state {
                    Some(EntityState::Player(p)) => -SAFE_COORD <= p.position.x && p.position.x
                        <= SAFE_COORD && -SAFE_COORD <= p.position.y && p.position.y <= SAFE_COORD
                        && -VEL_LIMIT <= p.velocity.x && p.velocity.x <= VEL_LIMIT && -VEL_LIMIT
                        <= p.velocity.y && p.velocity.y <= VEL_LIMIT && 3 <= p.width && p.width
                        <= COORD_LIMIT as u32 && 10 <= p.height && p.height <= COORD_LIMIT as u32,
                    Some(EntityState::Enemy(e)) => -SAFE_COORD <= e.position.x && e.position.x
                        <= SAFE_COORD && -SAFE_COORD <= e.position.y && e.position.y <= SAFE_COORD
                        && -VEL_LIMIT <= e.velocity.x && e.velocity.x <= VEL_LIMIT && -VEL_LIMIT
                        <= e.velocity.y && e.velocity.y <= VEL_LIMIT && 5 <= e.width && e.width
                        <= COORD_LIMIT as u32 && 10 <= e.height && e.height <= COORD_LIMIT as u32,
                    Some(EntityState::Bullet(b)) => -SAFE_COORD <= b.position.x && b.position.x
                        <= SAFE_COORD && -SAFE_COORD <= b.position.y && b.position.y <= SAFE_COORD
                        && -VEL_LIMIT <= b.velocity.x && b.velocity.x <= VEL_LIMIT && -VEL_LIMIT
                        <= b.velocity.y && b.velocity.y <= VEL_LIMIT,
                    None => false,
                },
            };
            if !ok {
                return false;
            }
            i = i + 1;
        }
        true
    }

    /// The update phase: every live entity takes one tick of behaviour, the
    /// spawned entities are collected without touching the pool
    /// mid-iteration, and the spawn-merge phase then places them.
    fn update_objects(&mut self, now_ms: u64)
        requires
            old(self).wf(),
        ensures
            ({
                let s = spec_update_slots(
                    old(self).game_objects@,
                    old(self).scene,
                    now_ms,
                    old(self).id_alloc.counter as int,
                    0,
                    old(self).game_objects@.len() as int,
                );
                &&& final(self).game_objects@ == spec_merge(s.0, spec_live(s.1))
                &&& final(self).id_alloc.counter == s.2
            }),
            pool_collision_ready(final(self).game_objects@),
            final(self).is_running == old(self).is_running,
            final(self).scene == old(self).scene,
    {
        let ghost old_pool = old(self).game_objects@;
        let ghost scene0 = old(self).scene;
        let ghost next0 = old(self).id_alloc.counter as int;
        let n = self.game_objects.len();
        let ghost s_full = spec_update_slots(old_pool, scene0, now_ms, next0, 0, n as int);

        let mut new_objects: Vec<Option<GameObject>> = Vec::new();
        let mut idx: usize = 0;
        while idx < n
            invariant
                idx <= n == self.game_objects@.len(),
                old_pool.len() == n,
                pool_ok(old_pool),
                s_full == spec_update_slots(old_pool, scene0, now_ms, next0, 0, n as int),
                -SAFE_COORD <= scene0.position.y <= SAFE_COORD,
                next0 + n <= usize::MAX,
                next0 <= self.id_alloc.counter as int <= next0 + idx,
                ({
                    let rem = spec_update_slots(
                        self.game_objects@,
                        scene0,
                        now_ms,
                        self.id_alloc.counter as int,
                        idx as int,
                        n as int,
                    );
                    &&& rem.0 == s_full.0
                    &&& new_objects@ + rem.1 == s_full.1
                    &&& rem.2 == s_full.2
                }),
                forall|m: int| idx <= m < n ==> self.game_objects@[m] == #[trigger] old_pool[m],
                forall|m: int|
                    0 <= m < idx ==> slot_collision_ready(#[trigger] self.game_objects@[m]),
                pool_collision_ready(new_objects@),
                self.is_running == old(self).is_running,
                self.scene == scene0,
            decreases n - idx,
        {
            let ghost pool_b = self.game_objects@;
            let ghost spawns_b = new_objects@;
            let ghost counter_b = self.id_alloc.counter;
            let slot = self.game_objects[idx];
            match slot {
                Some(mut o) => {
                    proof {
                        assert(slot_live_ok(old_pool[idx as int]));
                        lemma_update_keeps_ready(o, scene0, now_ms);
                        lemma_spawn_keeps_ready(o, scene0, now_ms, counter_b);
                    }
                    o.update(&mut new_objects, &self.scene, &mut self.id_alloc, now_ms);
                    self.game_objects.set(idx, Some(o));
                    proof {
                        assert(self.game_objects@ =~= pool_b.update(
                            idx as int,
                            Some(spec_object_update(old_pool[idx as int].unwrap(), scene0, now_ms)),
                        ));
                        let spawn = spec_object_spawn(
                            old_pool[idx as int].unwrap(),
                            scene0,
                            now_ms,
                            counter_b,
                        );
                        match spawn {
                            Some(b) => {
                                assert(spawns_b + (seq![Some(b)] + spec_update_slots(
                                    self.game_objects@,
                                    scene0,
                                    now_ms,
                                    self.id_alloc.counter as int,
                                    idx + 1,
                                    n as int,
                                ).1) =~= new_objects@ + spec_update_slots(
                                    self.game_objects@,
                                    scene0,
                                    now_ms,
                                    self.id_alloc.counter as int,
                                    idx + 1,
                                    n as int,
                                ).1);
                                assert forall|m: int| 0 <= m < new_objects@.len()
                                    implies slot_collision_ready(
                                    #[trigger] new_objects@[m],
                                ) by {
                                    if m < spawns_b.len() {
                                        assert(new_objects@[m] == spawns_b[m]);
                                    } else {
                                        assert(new_objects@[m] == Some(b));
                                    }
                                }
                            },
                            None => {},
                        }
                        assert forall|m: int| 0 <= m < idx + 1 implies slot_collision_ready(
                            #[trigger] self.game_objects@[m],
                        ) by {
                            if m < idx {
                                assert(self.game_objects@[m] == pool_b[m]);
                            }
                        }
                    }
                },
                None => {},
            }
            idx = idx + 1;
        }
        proof {
            let rem = spec_update_slots(
                self.game_objects@,
                scene0,
                now_ms,
                self.id_alloc.counter as int,
                n as int,
                n as int,
            );
            assert(rem.1 =~= Seq::<Option<GameObject>>::empty());
            assert(new_objects@ + rem.1 =~= new_objects@);
        }
        self.add_new_objects(new_objects);
    }

    /// The collision phase: checks every unordered pair of distinct filled
    /// slots exactly once, in lexicographic order, resolving the damage
    /// policy on each geometric collision.
    pub fn check_collisions(&mut self)
        requires
            pool_collision_ready(old(self).game_objects@),
        ensures
            final(self).game_objects@ == spec_collide_all(old(self).game_objects@),
            pool_collision_ready(final(self).game_objects@),
            final(self).game_objects@.len() == old(self).game_objects@.len(),
            final(self).is_running == old(self).is_running,
            final(self).scene == old(self).scene,
            final(self).id_alloc == old(self).id_alloc,
    {
        let n = self.game_objects.len();
        let mut i: usize = 0;
        while i < n
            invariant
                i <= n == self.game_objects@.len(),
                spec_collide_from(old(self).game_objects@, 0, n as int) == spec_collide_from(
                    self.game_objects@,
                    i as int,
                    n as int,
                ),
                pool_collision_ready(self.game_objects@),
                self.is_running == old(self).is_running,
                self.scene == old(self).scene,
                self.id_alloc == old(self).id_alloc,
            decreases n - i,
        {
            let ghost row_start = self.game_objects@;
            let mut j: usize = i + 1;
            while j < n
                invariant
                    i < n,
                    i < j <= n,
                    n == self.game_objects@.len(),
                    row_start.len() == n,
                    spec_collide_from(old(self).game_objects@, 0, n as int) == spec_collide_from(
                        row_start,
                        i as int,
                        n as int,
                    ),
                    spec_collide_row(row_start, i as int, i + 1, n as int) == spec_collide_row(
                        self.game_objects@,
                        i as int,
                        j as int,
                        n as int,
                    ),
                    pool_collision_ready(self.game_objects@),
                    self.is_running == old(self).is_running,
                    self.scene == old(self).scene,
                    self.id_alloc == old(self).id_alloc,
                decreases n - j,
            {
                let ghost pool_before = self.game_objects@;
                let sa = self.game_objects[i];
                let sb = self.game_objects[j];
                match (sa, sb) {
                    (Some(mut a), Some(mut b)) => {
                        proof {
                            assert(slot_collision_ready(pool_before[i as int]));
                            assert(slot_collision_ready(pool_before[j as int]));
                        }
                        let _ = a.check_collision(&mut b);
                        self.game_objects.set(i, Some(a));
                        self.game_objects.set(j, Some(b));
                        proof {
                            assert(self.game_objects@ =~= spec_pair_step(
                                pool_before,
                                i as int,
                                j as int,
                            ));
                            crate::game_object::lemma_destroy_preserves_ready(sa.unwrap());
                            crate::game_object::lemma_destroy_preserves_ready(sb.unwrap());
                            assert forall|k: int| 0 <= k < self.game_objects@.len()
                                implies slot_collision_ready(#[trigger] self.game_objects@[k]) by {
                                if k != i && k != j {
                                    assert(self.game_objects@[k] == pool_before[k]);
                                }
                            }
                        }
                    },
                    _ => {
                        proof {
                            assert(self.game_objects@ =~= spec_pair_step(
                                pool_before,
                                i as int,
                                j as int,
                            ));
                        }
                    },
                }
                proof {
                    assert(spec_collide_row(pool_before, i as int, j as int, n as int)
                        == spec_collide_row(self.game_objects@, i as int, j + 1, n as int));
                }
                j = j + 1;
            }
            proof {
                assert(spec_collide_row(self.game_objects@, i as int, n as int, n as int)
                    == self.game_objects@);
                assert(spec_collide_from(row_start, i as int, n as int) == spec_collide_from(
                    spec_collide_row(row_start, i as int, i + 1, n as int),
                    i + 1,
                    n as int,
                ));
            }
            i = i + 1;
        }
        proof {
            assert(spec_collide_from(self.game_objects@, n as int, n as int)
                == self.game_objects@);
        }
    }

    /// The reap phase: clears every slot whose entity is destroyed, leaving
    /// every other slot — empty or live — exactly in place.
    pub fn remove_destroyed_objects(&mut self)
        ensures
            final(self).game_objects@ == spec_reap(old(self).game_objects@),
            final(self).is_running == old(self).is_running,
            final(self).scene == old(self).scene,
            final(self).id_alloc == old(self).id_alloc,
    {
        let n = self.game_objects.len();
        let mut i: usize = 0;
        while i < n
            invariant
                i <= n == self.game_objects@.len(),
                self.game_objects@.len() == old(self).game_objects@.len(),
                forall|k: int|
                    0 <= k < i ==> self.game_objects@[k] == spec_reap_slot(
                        #[trigger] old(self).game_objects@[k],
                    ),
                forall|k: int|
                    i <= k < n ==> self.game_objects@[k] == #[trigger] old(self).game_objects@[k],
                self.is_running == old(self).is_running,
                self.scene == old(self).scene,
                self.id_alloc == old(self).id_alloc,
            decreases n - i,
        {
            let should_remove = match &self.game_objects[i] {
                Some(obj) => obj.is_destroyed(),
                None => false,
            };

            if should_remove {
                self.game_objects.set(i, None);
            }
            i = i + 1;
        }
        proof {
            assert(self.game_objects@ =~= spec_reap(old(self).game_objects@));
        }
    }
}

/// `spec_pool_next_id` of a prefix never exceeds that of the whole pool.
proof fn lemma_pool_next_id_prefix(p: Seq<Option<GameObject>>, i: int)
    requires
        0 <= i <= p.len(),
    ensures
        spec_pool_next_id(p.take(i)) <= spec_pool_next_id(p),
    decreases p.len() - i,
{
    if i < p.len() {
        assert(p.take(i + 1).drop_last() =~= p.take(i));
        lemma_pool_next_id_prefix(p, i + 1);
    } else {
        assert(p.take(i) =~= p);
    }
}

} // verus!
