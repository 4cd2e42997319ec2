//! Stars: initial spawning and spawn-over-time.

use crate::geometry::{in_arena, pos_in_play, Arena, Vec2};
use crate::rng::random_in_range;
use crate::store::EntityStore;
use crate::timer::Timer;
use vstd::prelude::*;

verus! {

/// How many stars the Game phase starts with.
pub const NUMBER_OF_STARS: usize = 10;

/// Full visual size of a star, in milliunits (30 world units).
pub const STAR_SIZE: i64 = 30_000;

/// Half the star size: its collision and confinement half-extent.
pub const STAR_HALF_SIZE: i64 = 15_000;

/// One additional star spawns every second of running time.
pub const STAR_SPAWN_PERIOD_MS: u64 = 1000;

/// The repeating timer that paces star spawn-over-time.
#[derive(Clone, Copy, PartialEq, Eq, Structural, Debug)]
pub struct StarSpawnTimer {
    pub timer: Timer,
}

impl StarSpawnTimer {
    pub open spec fn wf(self) -> bool {
        self.timer.wf()
    }
}

impl Default for StarSpawnTimer {
    /// A fresh one-second repeating spawn timer.
    fn default() -> (t: Self)
        ensures
            t.timer == Timer::spec_new(STAR_SPAWN_PERIOD_MS),
    {
        StarSpawnTimer { timer: Timer::new(STAR_SPAWN_PERIOD_MS) }
    }
}

/// Creates one star at a random position inside the arena box.
fn spawn_star(store: &mut EntityStore, arena: &Arena)
    requires
        old(store).wf(),
        arena.wf(),
        old(store).next_id < u64::MAX,
        forall|i: int|
            0 <= i < old(store).stars@.len() ==> pos_in_play(
                (#[trigger] old(store).stars@[i]).1.position,
            ),
    ensures
        forall|i: int|
            0 <= i < final(store).stars@.len() ==> pos_in_play(
                (#[trigger] final(store).stars@[i]).1.position,
            ),
        final(store).wf(),
        final(store).player == old(store).player,
        final(store).enemies@ == old(store).enemies@,
        final(store).next_id == old(store).next_id + 1,
        final(store).stars@.len() == old(store).stars@.len() + 1,
        forall|k: int|
            0 <= k < old(store).stars@.len() ==> final(store).stars@[k] == old(store).stars@[k],
        in_arena(final(store).stars@.last().1.position, *arena, STAR_HALF_SIZE as int),
        pos_in_play(final(store).stars@.last().1.position),
{
    let x = random_in_range(STAR_HALF_SIZE, arena.width - STAR_HALF_SIZE);
    let y = random_in_range(STAR_HALF_SIZE, arena.height - STAR_HALF_SIZE);
    store.create_star(Vec2 { x, y });
    proof {
        assert forall|i: int| 0 <= i < store.stars@.len() implies pos_in_play(
            (#[trigger] store.stars@[i]).1.position,
        ) by {
            if i < old(store).stars@.len() {
                assert(store.stars@[i] == old(store).stars@[i]);
            }
        }
    }
}

/// On Game-phase entry: creates exactly `NUMBER_OF_STARS` stars, each at a
/// random position inside the arena box.
pub fn spawn_stars(store: &mut EntityStore, arena: &Arena)
    requires
        old(store).wf(),
        arena.wf(),
        old(store).next_id + NUMBER_OF_STARS <= u64::MAX,
        forall|i: int|
            0 <= i < old(store).stars@.len() ==> pos_in_play(
                (#[trigger] old(store).stars@[i]).1.position,
            ),
    ensures
        final(store).wf(),
        final(store).player == old(store).player,
        final(store).enemies@ == old(store).enemies@,
        final(store).next_id == old(store).next_id + NUMBER_OF_STARS,
        forall|i: int|
            0 <= i < final(store).stars@.len() ==> pos_in_play(
                (#[trigger] final(store).stars@[i]).1.position,
            ),
        final(store).stars@.len() == old(store).stars@.len() + NUMBER_OF_STARS,
        forall|k: int|
            0 <= k < old(store).stars@.len() ==> final(store).stars@[k] == old(store).stars@[k],
        forall|k: int|
            old(store).stars@.len() <= k < final(store).stars@.len() ==> in_arena(
                (#[trigger] final(store).stars@[k]).1.position,
                *arena,
                STAR_HALF_SIZE as int,
            ) && pos_in_play(final(store).stars@[k].1.position),
{
    let mut i: usize = 0;
    while i < NUMBER_OF_STARS
        invariant
            store.wf(),
            arena.wf(),
            i <= NUMBER_OF_STARS,
            store.player == old(store).player,
            store.enemies@ == old(store).enemies@,
            store.next_id == old(store).next_id + i,
            old(store).next_id + NUMBER_OF_STARS <= u64::MAX,
            store.stars@.len() == old(store).stars@.len() + i,
            forall|k: int|
                0 <= k < store.stars@.len() ==> pos_in_play(
                    (#[trigger] store.stars@[k]).1.position,
                ),
            forall|k: int|
                0 <= k < old(store).stars@.len() ==> store.stars@[k] == old(store).stars@[k],
            forall|k: int|
                old(store).stars@.len() <= k < store.stars@.len() ==> in_arena(
                    (#[trigger] store.stars@[k]).1.position,
                    *arena,
                    STAR_HALF_SIZE as int,
                ) && pos_in_play(store.stars@[k].1.position),
        decreases NUMBER_OF_STARS - i,
    {
        spawn_star(store, arena);
        i = i + 1;
    }
}

/// On Game-phase exit: removes every star.
pub fn despawn_stars(store: &mut EntityStore)
    requires
        old(store).wf(),
    ensures
        final(store).wf(),
        final(store).player == old(store).player,
        final(store).enemies@ == old(store).enemies@,
        final(store).stars@.len() == 0,
        final(store).next_id == old(store).next_id,
{
    store.clear_stars();
}

/// Advances the star spawn timer by the elapsed frame time.
pub fn tick_star_spawn_timer(timer: &mut StarSpawnTimer, delta_ms: u64)
    requires
        old(timer).wf(),
    ensures
        final(timer).timer == old(timer).timer.spec_tick(delta_ms),
        final(timer).wf(),
{
    timer.timer.tick(delta_ms);
}

/// If the star spawn timer fired this tick, creates exactly one additional
/// star at a random in-bounds position; otherwise changes nothing.
pub fn spawn_stars_over_time(store: &mut EntityStore, timer: &StarSpawnTimer, arena: &Arena)
    requires
        old(store).wf(),
        arena.wf(),
        old(store).next_id < u64::MAX,
        forall|i: int|
            0 <= i < old(store).stars@.len() ==> pos_in_play(
                (#[trigger] old(store).stars@[i]).1.position,
            ),
    ensures
        final(store).wf(),
        forall|i: int|
            0 <= i < final(store).stars@.len() ==> pos_in_play(
                (#[trigger] final(store).stars@[i]).1.position,
            ),
        final(store).player == old(store).player,
        final(store).enemies@ == old(store).enemies@,
        !timer.timer.fired ==> *final(store) == *old(store),
        timer.timer.fired ==> {
            &&& final(store).stars@.len() == old(store).stars@.len() + 1
            &&& final(store).next_id == old(store).next_id + 1
            &&& (forall|k: int|
                0 <= k < old(store).stars@.len() ==> final(store).stars@[k] == old(
                    store,
                ).stars@[k])
            &&& in_arena(final(store).stars@.last().1.position, *arena, STAR_HALF_SIZE as int)
            &&& pos_in_play(final(store).stars@.last().1.position)
        },
{
    if timer.timer.finished() {
        spawn_star(store, arena);
    }
}

} // verus!
