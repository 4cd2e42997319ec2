//! Enemies: initial spawning, per-frame movement, direction reflection at
//! the arena edges, confinement, and spawn-over-time.

use crate::geometry::{
    clamp_spec, clamp_coord, dir_in_range, in_arena, pos_in_play, normalize_dir, scaled_step,
    step_milli, Arena, Vec2, MAX_DELTA_MS, SCALE,
};
use crate::rng::random_in_range;
use crate::store::{EntityStore, Enemy};
use crate::timer::Timer;
use vstd::math::abs;
use vstd::prelude::*;

verus! {

/// How many enemies the Game phase starts with.
pub const NUMBER_OF_ENEMIES: usize = 4;

/// Full visual size of an enemy, in milliunits (64 world units).
pub const ENEMY_SIZE: i64 = 64_000;

/// Half the enemy size: its collision and confinement half-extent.
pub const ENEMY_HALF_SIZE: i64 = 32_000;

/// Enemy speed, in world units per second.
pub const ENEMY_SPEED: i64 = 200;

/// One additional enemy spawns every five seconds of running time.
pub const ENEMY_SPAWN_PERIOD_MS: u64 = 5000;

/// The repeating timer that paces enemy spawn-over-time.
#[derive(Clone, Copy, PartialEq, Eq, Structural, Debug)]
pub struct EnemySpawnTimer {
    pub timer: Timer,
}

impl EnemySpawnTimer {
    pub open spec fn wf(self) -> bool {
        self.timer.wf()
    }
}

impl Default for EnemySpawnTimer {
    /// A fresh five-second repeating spawn timer.
    fn default() -> (t: Self)
        ensures
            t.timer == Timer::spec_new(ENEMY_SPAWN_PERIOD_MS),
    {
        EnemySpawnTimer { timer: Timer::new(ENEMY_SPAWN_PERIOD_MS) }
    }
}

/// Creates one enemy at a random position inside the arena box, with a
/// random direction of length about one world unit.
fn spawn_enemy(store: &mut EntityStore, arena: &Arena)
    requires
        old(store).wf(),
        arena.wf(),
        old(store).next_id < u64::MAX,
        forall|i: int|
            0 <= i < old(store).enemies@.len() ==> pos_in_play(
                (#[trigger] old(store).enemies@[i]).1.position,
            ) && dir_in_range(old(store).enemies@[i].1.direction),
    ensures
        forall|i: int|
            0 <= i < final(store).enemies@.len() ==> pos_in_play(
                (#[trigger] final(store).enemies@[i]).1.position,
            ) && dir_in_range(final(store).enemies@[i].1.direction),
        final(store).wf(),
        final(store).player == old(store).player,
        final(store).stars@ == old(store).stars@,
        final(store).next_id == old(store).next_id + 1,
        final(store).enemies@.len() == old(store).enemies@.len() + 1,
        forall|k: int|
            0 <= k < old(store).enemies@.len() ==> final(store).enemies@[k] == old(
                store,
            ).enemies@[k],
        in_arena(final(store).enemies@.last().1.position, *arena, ENEMY_HALF_SIZE as int),
        pos_in_play(final(store).enemies@.last().1.position),
        dir_in_range(final(store).enemies@.last().1.direction),
{
    let x = random_in_range(ENEMY_HALF_SIZE, arena.width - ENEMY_HALF_SIZE);
    let y = random_in_range(ENEMY_HALF_SIZE, arena.height - ENEMY_HALF_SIZE);
    let dx = random_in_range(-SCALE, SCALE);
    let dy = random_in_range(-SCALE, SCALE);
    let direction = normalize_dir(dx, dy);
    store.create_enemy(Vec2 { x, y }, direction);
    proof {
        assert forall|i: int| 0 <= i < store.enemies@.len() implies pos_in_play(
            (#[trigger] store.enemies@[i]).1.position,
        ) && dir_in_range(store.enemies@[i].1.direction) by {
            if i < old(store).enemies@.len() {
                assert(store.enemies@[i] == old(store).enemies@[i]);
            }
        }
    }
}

/// On Game-phase entry: creates exactly `NUMBER_OF_ENEMIES` enemies, each at
/// a random position inside the arena box with a random direction.
pub fn spawn_enemies(store: &mut EntityStore, arena: &Arena)
    requires
        old(store).wf(),
        arena.wf(),
        old(store).next_id + NUMBER_OF_ENEMIES <= u64::MAX,
        forall|i: int|
            0 <= i < old(store).enemies@.len() ==> pos_in_play(
                (#[trigger] old(store).enemies@[i]).1.position,
            ) && dir_in_range(old(store).enemies@[i].1.direction),
    ensures
        final(store).wf(),
        final(store).player == old(store).player,
        final(store).stars@ == old(store).stars@,
        final(store).next_id == old(store).next_id + NUMBER_OF_ENEMIES,
        forall|i: int|
            0 <= i < final(store).enemies@.len() ==> pos_in_play(
                (#[trigger] final(store).enemies@[i]).1.position,
            ) && dir_in_range(final(store).enemies@[i].1.direction),
        final(store).enemies@.len() == old(store).enemies@.len() + NUMBER_OF_ENEMIES,
        forall|k: int|
            0 <= k < old(store).enemies@.len() ==> final(store).enemies@[k] == old(
                store,
            ).enemies@[k],
        forall|k: int|
            old(store).enemies@.len() <= k < final(store).enemies@.len() ==> {
                &&& in_arena((#[trigger] final(store).enemies@[k]).1.position, *arena,
                ENEMY_HALF_SIZE as int)
                &&& pos_in_play(final(store).enemies@[k].1.position)
                &&& dir_in_range(final(store).enemies@[k].1.direction)
            },
{
    let mut i: usize = 0;
    while i < NUMBER_OF_ENEMIES
        invariant
            store.wf(),
            arena.wf(),
            i <= NUMBER_OF_ENEMIES,
            store.player == old(store).player,
            store.stars@ == old(store).stars@,
            store.next_id == old(store).next_id + i,
            old(store).next_id + NUMBER_OF_ENEMIES <= u64::MAX,
            store.enemies@.len() == old(store).enemies@.len() + i,
            forall|k: int|
                0 <= k < store.enemies@.len() ==> pos_in_play(
                    (#[trigger] store.enemies@[k]).1.position,
                ) && dir_in_range(store.enemies@[k].1.direction),
            forall|k: int|
                0 <= k < old(store).enemies@.len() ==> store.enemies@[k] == old(
                    store,
                ).enemies@[k],
            forall|k: int|
                old(store).enemies@.len() <= k < store.enemies@.len() ==> {
                    &&& in_arena((#[trigger] store.enemies@[k]).1.position, *arena,
                    ENEMY_HALF_SIZE as int)
                    &&& pos_in_play(store.enemies@[k].1.position)
                    &&& dir_in_range(store.enemies@[k].1.direction)
                },
        decreases NUMBER_OF_ENEMIES - i,
    {
        spawn_enemy(store, arena);
        i = i + 1;
    }
}

/// On Game-phase exit: removes every enemy.
pub fn despawn_enemies(store: &mut EntityStore)
    requires
        old(store).wf(),
    ensures
        final(store).wf(),
        final(store).player == old(store).player,
        final(store).enemies@.len() == 0,
        final(store).stars@ == old(store).stars@,
        final(store).next_id == old(store).next_id,
{
    store.clear_enemies();
}

/// Advances every enemy by its direction times `ENEMY_SPEED` times the
/// elapsed time. Directions are unchanged; nothing else moves.
pub fn enemy_movement(store: &mut EntityStore, delta_ms: u64)
    requires
        old(store).wf(),
        delta_ms <= MAX_DELTA_MS,
        forall|i: int|
            0 <= i < old(store).enemies@.len() ==> pos_in_play(
                (#[trigger] old(store).enemies@[i]).1.position,
            ) && dir_in_range(old(store).enemies@[i].1.direction),
    ensures
        final(store).wf(),
        final(store).player == old(store).player,
        final(store).stars@ == old(store).stars@,
        final(store).next_id == old(store).next_id,
        final(store).enemies@.len() == old(store).enemies@.len(),
        forall|i: int|
            0 <= i < old(store).enemies@.len() ==> {
                let e = (#[trigger] old(store).enemies@[i]).1;
                &&& final(store).enemies@[i].0 == old(store).enemies@[i].0
                &&& final(store).enemies@[i].1.direction == e.direction
                &&& final(store).enemies@[i].1.position.x == e.position.x + step_milli(
                    e.direction.x as int,
                    ENEMY_SPEED as int,
                    delta_ms as int,
                )
                &&& final(store).enemies@[i].1.position.y == e.position.y + step_milli(
                    e.direction.y as int,
                    ENEMY_SPEED as int,
                    delta_ms as int,
                )
            },
{
    let mut moved: Vec<(u64, Enemy)> = Vec::new();
    let mut i: usize = 0;
    while i < store.enemies.len()
        invariant
            store.wf(),
            *store == *old(store),
            delta_ms <= MAX_DELTA_MS,
            forall|k: int|
                0 <= k < store.enemies@.len() ==> pos_in_play(
                    (#[trigger] store.enemies@[k]).1.position,
                ) && dir_in_range(store.enemies@[k].1.direction),
            i <= store.enemies@.len(),
            moved@.len() == i,
            forall|k: int|
                0 <= k < i ==> {
                    let e = (#[trigger] store.enemies@[k]).1;
                    &&& moved@[k].0 == store.enemies@[k].0
                    &&& moved@[k].1.direction == e.direction
                    &&& moved@[k].1.position.x == e.position.x + step_milli(
                        e.direction.x as int,
                        ENEMY_SPEED as int,
                        delta_ms as int,
                    )
                    &&& moved@[k].1.position.y == e.position.y + step_milli(
                        e.direction.y as int,
                        ENEMY_SPEED as int,
                        delta_ms as int,
                    )
                },
        decreases store.enemies@.len() - i,
    {
        let (id, e) = store.enemies[i];
        let sx = scaled_step(e.direction.x, ENEMY_SPEED, delta_ms);
        let sy = scaled_step(e.direction.y, ENEMY_SPEED, delta_ms);
        let np = Vec2 { x: e.position.x + sx, y: e.position.y + sy };
        moved.push((id, Enemy { position: np, direction: e.direction }));
        i = i + 1;
    }
    store.enemies = moved;
    proof {
        assert forall|k: int| 0 <= k < store.enemies@.len() implies (
        #[trigger] store.enemies@[k]).0 == old(store).enemies@[k].0 by {}
        assert(store.wf());
    }
}

/// The x direction component after the reflection pass: forced positive past
/// the low edge, negative past the high edge, otherwise unchanged.
pub open spec fn reflected_x(e: Enemy, arena: Arena) -> int {
    if e.position.x < ENEMY_HALF_SIZE {
        (abs(e.direction.x as int) as int)
    } else if e.position.x > arena.width - ENEMY_HALF_SIZE {
        -(abs(e.direction.x as int) as int)
    } else {
        e.direction.x as int
    }
}

/// The y direction component after the reflection pass.
pub open spec fn reflected_y(e: Enemy, arena: Arena) -> int {
    if e.position.y < ENEMY_HALF_SIZE {
        (abs(e.direction.y as int) as int)
    } else if e.position.y > arena.height - ENEMY_HALF_SIZE {
        -(abs(e.direction.y as int) as int)
    } else {
        e.direction.y as int
    }
}

/// Whether the reflection pass actually changes this enemy's direction:
/// some component's reflected value differs from its current one. An enemy
/// past an edge whose component already points inward changes nothing.
pub open spec fn enemy_direction_changed(e: Enemy, arena: Arena) -> bool {
    reflected_x(e, arena) != e.direction.x || reflected_y(e, arena) != e.direction.y
}

/// After the reflection pass, the reflected axis points back into the
/// arena: an enemy past the low edge gets a nonnegative component, one past
/// the high edge a nonpositive one.
pub proof fn lemma_reflected_direction_points_inward(e: Enemy, arena: Arena)
    requires
        arena.wf(),
    ensures
        e.position.x < ENEMY_HALF_SIZE ==> reflected_x(e, arena) >= 0,
        e.position.x > arena.width - ENEMY_HALF_SIZE ==> reflected_x(e, arena) <= 0,
        e.position.y < ENEMY_HALF_SIZE ==> reflected_y(e, arena) >= 0,
        e.position.y > arena.height - ENEMY_HALF_SIZE ==> reflected_y(e, arena) <= 0,
{
}

/// For every enemy past an arena edge, flips that axis's direction
/// component to point inward; positions are untouched. Returns whether any
/// enemy's direction actually changed this pass (the boundary-bounce
/// signal for the audio collaborator); a component that already pointed
/// inward does not count as a change.
#[verifier::spinoff_prover]
pub fn update_enemy_direction(store: &mut EntityStore, arena: &Arena) -> (changed: bool)
    requires
        old(store).wf(),
        arena.wf(),
        forall|i: int|
            0 <= i < old(store).enemies@.len() ==> dir_in_range(
                (#[trigger] old(store).enemies@[i]).1.direction,
            ),
    ensures
        final(store).wf(),
        final(store).player == old(store).player,
        final(store).stars@ == old(store).stars@,
        final(store).next_id == old(store).next_id,
        final(store).enemies@.len() == old(store).enemies@.len(),
        forall|i: int|
            0 <= i < old(store).enemies@.len() ==> {
                let e = (#[trigger] old(store).enemies@[i]).1;
                &&& final(store).enemies@[i].0 == old(store).enemies@[i].0
                &&& final(store).enemies@[i].1.position == e.position
                &&& final(store).enemies@[i].1.direction.x == reflected_x(e, *arena)
                &&& final(store).enemies@[i].1.direction.y == reflected_y(e, *arena)
                &&& dir_in_range(final(store).enemies@[i].1.direction)
            },
        changed == (exists|i: int|
            0 <= i < old(store).enemies@.len() && enemy_direction_changed(
                (#[trigger] old(store).enemies@[i]).1,
                *arena,
            )),
{
    let x_min = ENEMY_HALF_SIZE;
    let x_max = arena.width - ENEMY_HALF_SIZE;
    let y_min = ENEMY_HALF_SIZE;
    let y_max = arena.height - ENEMY_HALF_SIZE;
    let mut updated: Vec<(u64, Enemy)> = Vec::new();
    let mut changed = false;
    let mut i: usize = 0;
    while i < store.enemies.len()
        invariant
            store.wf(),
            *store == *old(store),
            arena.wf(),
            x_min == ENEMY_HALF_SIZE,
            x_max == arena.width - ENEMY_HALF_SIZE,
            y_min == ENEMY_HALF_SIZE,
            y_max == arena.height - ENEMY_HALF_SIZE,
            forall|k: int|
                0 <= k < store.enemies@.len() ==> dir_in_range(
                    (#[trigger] store.enemies@[k]).1.direction,
                ),
            i <= store.enemies@.len(),
            updated@.len() == i,
            forall|k: int|
                0 <= k < i ==> {
                    let e = (#[trigger] store.enemies@[k]).1;
                    &&& updated@[k].0 == store.enemies@[k].0
                    &&& updated@[k].1.position == e.position
                    &&& updated@[k].1.direction.x == reflected_x(e, *arena)
                    &&& updated@[k].1.direction.y == reflected_y(e, *arena)
                    &&& dir_in_range(updated@[k].1.direction)
                },
            changed == (exists|k: int|
                0 <= k < i && enemy_direction_changed((#[trigger] store.enemies@[k]).1, *arena)),
        decreases store.enemies@.len() - i,
    {
        let (id, e) = store.enemies[i];
        let ax = if e.direction.x < 0 {
            -e.direction.x
        } else {
            e.direction.x
        };
        let ay = if e.direction.y < 0 {
            -e.direction.y
        } else {
            e.direction.y
        };
        let mut nd = e.direction;
        if e.position.x < x_min {
            nd.x = ax;
        } else if e.position.x > x_max {
            nd.x = -ax;
        }
        if e.position.y < y_min {
            nd.y = ay;
        } else if e.position.y > y_max {
            nd.y = -ay;
        }
        let touched = nd.x != e.direction.x || nd.y != e.direction.y;
        proof {
            assert(nd.x == reflected_x(e, *arena));
            assert(nd.y == reflected_y(e, *arena));
            assert(touched == enemy_direction_changed(e, *arena));
        }
        let ghost upre = updated@;
        updated.push((id, Enemy { position: e.position, direction: nd }));
        proof {
            assert forall|k: int|
                0 <= k < i + 1 implies {
                    let e2 = (#[trigger] store.enemies@[k]).1;
                    &&& updated@[k].0 == store.enemies@[k].0
                    &&& updated@[k].1.position == e2.position
                    &&& updated@[k].1.direction.x == reflected_x(e2, *arena)
                    &&& updated@[k].1.direction.y == reflected_y(e2, *arena)
                    &&& dir_in_range(updated@[k].1.direction)
                } by {
                if k < i {
                    assert(updated@[k] == upre[k]);
                } else {
                    assert(updated@[k] == (id, (Enemy { position: e.position, direction: nd })));
                }
            }
        }
        changed = changed || touched;
        i = i + 1;
    }
    store.enemies = updated;
    proof {
        assert forall|k: int| 0 <= k < store.enemies@.len() implies (
        #[trigger] store.enemies@[k]).0 == old(store).enemies@[k].0 by {}
        assert(store.wf());
    }
    changed
}

/// Clamps every enemy's position into the arena box. The clamp is applied
/// to each enemy record in turn, not only to the first one encountered.
#[verifier::spinoff_prover]
pub fn confine_enemy_movement(store: &mut EntityStore, arena: &Arena)
    requires
        old(store).wf(),
        arena.wf(),
        forall|i: int|
            0 <= i < old(store).enemies@.len() ==> dir_in_range(
                (#[trigger] old(store).enemies@[i]).1.direction,
            ),
    ensures
        final(store).wf(),
        forall|i: int|
            0 <= i < final(store).enemies@.len() ==> pos_in_play(
                (#[trigger] final(store).enemies@[i]).1.position,
            ) && dir_in_range(final(store).enemies@[i].1.direction),
        final(store).player == old(store).player,
        final(store).stars@ == old(store).stars@,
        final(store).next_id == old(store).next_id,
        final(store).enemies@.len() == old(store).enemies@.len(),
        forall|i: int|
            0 <= i < old(store).enemies@.len() ==> {
                let e = (#[trigger] old(store).enemies@[i]).1;
                &&& final(store).enemies@[i].0 == old(store).enemies@[i].0
                &&& final(store).enemies@[i].1.direction == e.direction
                &&& final(store).enemies@[i].1.position.x == clamp_spec(
                    e.position.x as int,
                    ENEMY_HALF_SIZE as int,
                    arena.width - ENEMY_HALF_SIZE,
                )
                &&& final(store).enemies@[i].1.position.y == clamp_spec(
                    e.position.y as int,
                    ENEMY_HALF_SIZE as int,
                    arena.height - ENEMY_HALF_SIZE,
                )
                &&& in_arena(final(store).enemies@[i].1.position, *arena, ENEMY_HALF_SIZE as int)
                &&& pos_in_play(final(store).enemies@[i].1.position)
            },
{
    let x_min = ENEMY_HALF_SIZE;
    let x_max = arena.width - ENEMY_HALF_SIZE;
    let y_min = ENEMY_HALF_SIZE;
    let y_max = arena.height - ENEMY_HALF_SIZE;
    let mut confined: Vec<(u64, Enemy)> = Vec::new();
    let mut i: usize = 0;
    while i < store.enemies.len()
        invariant
            store.wf(),
            *store == *old(store),
            arena.wf(),
            x_min == ENEMY_HALF_SIZE,
            x_max == arena.width - ENEMY_HALF_SIZE,
            y_min == ENEMY_HALF_SIZE,
            y_max == arena.height - ENEMY_HALF_SIZE,
            forall|k: int|
                0 <= k < store.enemies@.len() ==> dir_in_range(
                    (#[trigger] store.enemies@[k]).1.direction,
                ),
            i <= store.enemies@.len(),
            confined@.len() == i,
            forall|k: int|
                0 <= k < i ==> {
                    let e = (#[trigger] store.enemies@[k]).1;
                    &&& confined@[k].0 == store.enemies@[k].0
                    &&& confined@[k].1.direction == e.direction
                    &&& confined@[k].1.position.x == clamp_spec(
                        e.position.x as int,
                        ENEMY_HALF_SIZE as int,
                        arena.width - ENEMY_HALF_SIZE,
                    )
                    &&& confined@[k].1.position.y == clamp_spec(
                        e.position.y as int,
                        ENEMY_HALF_SIZE as int,
                        arena.height - ENEMY_HALF_SIZE,
                    )
                    &&& in_arena(confined@[k].1.position, *arena, ENEMY_HALF_SIZE as int)
                    &&& pos_in_play(confined@[k].1.position)
                },
        decreases store.enemies@.len() - i,
    {
        let (id, e) = store.enemies[i];
        let np = Vec2 {
            x: clamp_coord(e.position.x, x_min, x_max),
            y: clamp_coord(e.position.y, y_min, y_max),
        };
        let ghost cpre = confined@;
        confined.push((id, Enemy { position: np, direction: e.direction }));
        proof {
            assert forall|k: int|
                0 <= k < i + 1 implies {
                    let e2 = (#[trigger] store.enemies@[k]).1;
                    &&& confined@[k].0 == store.enemies@[k].0
                    &&& confined@[k].1.direction == e2.direction
                    &&& confined@[k].1.position.x == clamp_spec(
                        e2.position.x as int,
                        ENEMY_HALF_SIZE as int,
                        arena.width - ENEMY_HALF_SIZE,
                    )
                    &&& confined@[k].1.position.y == clamp_spec(
                        e2.position.y as int,
                        ENEMY_HALF_SIZE as int,
                        arena.height - ENEMY_HALF_SIZE,
                    )
                    &&& in_arena(confined@[k].1.position, *arena, ENEMY_HALF_SIZE as int)
                    &&& pos_in_play(confined@[k].1.position)
                } by {
                if k < i {
                    assert(confined@[k] == cpre[k]);
                } else {
                    assert(confined@[k] == (id, (Enemy { position: np, direction: e.direction })));
                }
            }
        }
        i = i + 1;
    }
    store.enemies = confined;
    proof {
        assert forall|k: int| 0 <= k < store.enemies@.len() implies (
        #[trigger] store.enemies@[k]).0 == old(store).enemies@[k].0 by {}
        assert forall|k: int| 0 <= k < store.enemies@.len() implies pos_in_play(
            (#[trigger] store.enemies@[k]).1.position,
        ) && dir_in_range(store.enemies@[k].1.direction) by {
            assert(dir_in_range(old(store).enemies@[k].1.direction));
        }
        assert(store.wf());
    }
}

/// Advances the enemy spawn timer by the elapsed frame time.
pub fn tick_enemy_spawn_timer(timer: &mut EnemySpawnTimer, delta_ms: u64)
    requires
        old(timer).wf(),
    ensures
        final(timer).timer == old(timer).timer.spec_tick(delta_ms),
        final(timer).wf(),
{
    timer.timer.tick(delta_ms);
}

/// If the enemy spawn timer fired this tick, creates exactly one additional
/// enemy at a random in-bounds position; otherwise changes nothing.
pub fn spawn_enemies_over_time(store: &mut EntityStore, timer: &EnemySpawnTimer, arena: &Arena)
    requires
        old(store).wf(),
        arena.wf(),
        old(store).next_id < u64::MAX,
        forall|i: int|
            0 <= i < old(store).enemies@.len() ==> pos_in_play(
                (#[trigger] old(store).enemies@[i]).1.position,
            ) && dir_in_range(old(store).enemies@[i].1.direction),
    ensures
        final(store).wf(),
        forall|i: int|
            0 <= i < final(store).enemies@.len() ==> pos_in_play(
                (#[trigger] final(store).enemies@[i]).1.position,
            ) && dir_in_range(final(store).enemies@[i].1.direction),
        final(store).player == old(store).player,
        final(store).stars@ == old(store).stars@,
        !timer.timer.fired ==> *final(store) == *old(store),
        timer.timer.fired ==> {
            &&& final(store).enemies@.len() == old(store).enemies@.len() + 1
            &&& final(store).next_id == old(store).next_id + 1
            &&& (forall|k: int|
                0 <= k < old(store).enemies@.len() ==> final(store).enemies@[k] == old(
                    store,
                ).enemies@[k])
            &&& in_arena(final(store).enemies@.last().1.position, *arena, ENEMY_HALF_SIZE as int)
            &&& pos_in_play(final(store).enemies@.last().1.position)
            &&& dir_in_range(final(store).enemies@.last().1.direction)
        },
{
    if timer.timer.finished() {
        spawn_enemy(store, arena);
    }
}

} // verus!
