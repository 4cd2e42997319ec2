//! The player: spawning at the arena center, input-driven movement,
//! confinement, and the two distance-based collision resolvers.

use crate::enemy::ENEMY_HALF_SIZE;
use crate::events::GameOver;
use crate::geometry::{
    clamp_spec, clamp_coord, dist_sq, in_arena, in_pos_range, normalize_dir, normalized_x,
    normalized_y, pos_in_play, scaled_step, step_milli, within_distance, Arena, Vec2,
    MAX_DELTA_MS, SCALE,
};
use crate::score::Score;
use crate::star::STAR_HALF_SIZE;
use crate::state::FrameInput;
use crate::store::{EntityStore, Enemy, Player, Star};
use vstd::prelude::*;

verus! {

/// Player speed, in world units per second.
pub const PLAYER_SPEED: i64 = 500;

/// Full visual size of the player, in milliunits (64 world units).
pub const PLAYER_SIZE: i64 = 64_000;

/// Half the player size: its collision and confinement half-extent.
pub const PLAYER_HALF_SIZE: i64 = 32_000;

/// Center distance at or below which an enemy touches the player: the two
/// half sizes summed.
pub const ENEMY_TOUCH_DISTANCE: i64 = ENEMY_HALF_SIZE + PLAYER_HALF_SIZE;

/// Center distance at or below which the player collects a star: the two
/// half sizes summed.
pub const STAR_TOUCH_DISTANCE: i64 = STAR_HALF_SIZE + PLAYER_HALF_SIZE;

/// On Game-phase entry: creates the player at the center of the arena.
pub fn spawn_player(store: &mut EntityStore, arena: &Arena)
    requires
        old(store).wf(),
        arena.wf(),
        old(store).player.is_none(),
        old(store).next_id < u64::MAX,
    ensures
        final(store).wf(),
        (final(store).player matches Some(p) && {
            &&& p.0 == old(store).next_id
            &&& p.1.position.x == arena.width / 2
            &&& p.1.position.y == arena.height / 2
            &&& pos_in_play(p.1.position)
        }),
        final(store).enemies@ == old(store).enemies@,
        final(store).stars@ == old(store).stars@,
        final(store).next_id == old(store).next_id + 1,
{
    store.create_player(Vec2 { x: arena.width / 2, y: arena.height / 2 });
}

/// On Game-phase exit: removes the player record.
pub fn despawn_player(store: &mut EntityStore)
    requires
        old(store).wf(),
    ensures
        final(store).wf(),
        final(store).player.is_none(),
        final(store).enemies@ == old(store).enemies@,
        final(store).stars@ == old(store).stars@,
        final(store).next_id == old(store).next_id,
{
    store.remove_player();
}

/// The contribution of one opposed key pair to an axis: +1, -1 or 0.
pub open spec fn key_axis(pos: bool, neg: bool) -> int {
    (if pos {
        1int
    } else {
        0int
    }) - (if neg {
        1int
    } else {
        0int
    })
}

/// The x component of the player's movement direction for this frame's
/// held keys: the axis contributions, normalized if nonzero.
pub open spec fn player_dir_x(input: FrameInput) -> int {
    normalized_x(
        key_axis(input.right, input.left) * (SCALE as int),
        key_axis(input.up, input.down) * (SCALE as int),
    )
}

/// The y component of the player's movement direction for this frame.
pub open spec fn player_dir_y(input: FrameInput) -> int {
    normalized_y(
        key_axis(input.right, input.left) * (SCALE as int),
        key_axis(input.up, input.down) * (SCALE as int),
    )
}

/// Moves the player by the held-key direction times `PLAYER_SPEED` times
/// the elapsed time. Velocity is purely input-driven: no inertia. With no
/// player present this is a silent no-op.
pub fn player_movement(store: &mut EntityStore, input: &FrameInput, delta_ms: u64)
    requires
        old(store).wf(),
        delta_ms <= MAX_DELTA_MS,
        (old(store).player matches Some(p) ==> pos_in_play(p.1.position)),
    ensures
        final(store).wf(),
        final(store).enemies@ == old(store).enemies@,
        final(store).stars@ == old(store).stars@,
        final(store).next_id == old(store).next_id,
        old(store).player.is_none() ==> final(store).player.is_none(),
        (old(store).player matches Some(p) ==> (final(store).player matches Some(q) && {
            &&& q.0 == p.0
            &&& q.1.position.x == p.1.position.x + step_milli(
                player_dir_x(*input),
                PLAYER_SPEED as int,
                delta_ms as int,
            )
            &&& q.1.position.y == p.1.position.y + step_milli(
                player_dir_y(*input),
                PLAYER_SPEED as int,
                delta_ms as int,
            )
        })),
{
    let p_opt = store.player;
    if let Some((id, p)) = p_opt {
        let ax: i64 = (if input.right {
            1
        } else {
            0
        }) - (if input.left {
            1
        } else {
            0
        });
        let ay: i64 = (if input.up {
            1
        } else {
            0
        }) - (if input.down {
            1
        } else {
            0
        });
        let dir = normalize_dir(ax * SCALE, ay * SCALE);
        let sx = scaled_step(dir.x, PLAYER_SPEED, delta_ms);
        let sy = scaled_step(dir.y, PLAYER_SPEED, delta_ms);
        let np = Vec2 { x: p.position.x + sx, y: p.position.y + sy };
        store.player = Some((id, Player { position: np }));
    }
}

/// Clamps the player's position into the arena box. With no player present
/// this is a silent no-op.
pub fn confine_player_movement(store: &mut EntityStore, arena: &Arena)
    requires
        old(store).wf(),
        arena.wf(),
    ensures
        final(store).wf(),
        final(store).enemies@ == old(store).enemies@,
        final(store).stars@ == old(store).stars@,
        final(store).next_id == old(store).next_id,
        old(store).player.is_none() ==> final(store).player.is_none(),
        (old(store).player matches Some(p) ==> (final(store).player matches Some(q) && {
            &&& q.0 == p.0
            &&& q.1.position.x == clamp_spec(
                p.1.position.x as int,
                PLAYER_HALF_SIZE as int,
                arena.width - PLAYER_HALF_SIZE,
            )
            &&& q.1.position.y == clamp_spec(
                p.1.position.y as int,
                PLAYER_HALF_SIZE as int,
                arena.height - PLAYER_HALF_SIZE,
            )
            &&& in_arena(q.1.position, *arena, PLAYER_HALF_SIZE as int)
            &&& pos_in_play(q.1.position)
        })),
{
    let p_opt = store.player;
    if let Some((id, p)) = p_opt {
        let np = Vec2 {
            x: clamp_coord(p.position.x, PLAYER_HALF_SIZE, arena.width - PLAYER_HALF_SIZE),
            y: clamp_coord(p.position.y, PLAYER_HALF_SIZE, arena.height - PLAYER_HALF_SIZE),
        };
        store.player = Some((id, Player { position: np }));
    }
}

/// Whether an enemy's center is within touch distance of the player's.
pub open spec fn enemy_touches_player(e: Enemy, p: Vec2) -> bool {
    dist_sq(e.position, p) <= (ENEMY_TOUCH_DISTANCE as int) * (ENEMY_TOUCH_DISTANCE as int)
}

/// How many of the enemies touch the player.
pub open spec fn enemy_hits(enemies: Seq<(u64, Enemy)>, p: Vec2) -> nat
    decreases enemies.len(),
{
    if enemies.len() == 0 {
        0
    } else {
        enemy_hits(enemies.drop_last(), p) + (if enemy_touches_player(enemies.last().1, p) {
            1nat
        } else {
            0nat
        })
    }
}

/// Player-enemy collision: for every enemy within touch distance of the
/// player, emits one game-over signal carrying the current score; if any
/// enemy touched, the player record is removed. With no player present this
/// is a silent no-op.
pub fn enemy_hit_player(store: &mut EntityStore, score: &Score, events: &mut Vec<GameOver>)
    requires
        old(store).wf(),
        (old(store).player matches Some(p) ==> in_pos_range(p.1.position)),
        forall|i: int|
            0 <= i < old(store).enemies@.len() ==> in_pos_range(
                (#[trigger] old(store).enemies@[i]).1.position,
            ),
    ensures
        final(store).wf(),
        final(store).enemies@ == old(store).enemies@,
        final(store).stars@ == old(store).stars@,
        final(store).next_id == old(store).next_id,
        old(store).player.is_none() ==> (*final(store) == *old(store) && final(events)@ == old(
            events,
        )@),
        (old(store).player matches Some(p) ==> {
            let hits = enemy_hits(old(store).enemies@, p.1.position);
            &&& (hits == 0 ==> final(store).player == old(store).player && final(events)@ == old(
                events,
            )@)
            &&& (hits > 0 ==> final(store).player.is_none())
            &&& final(events)@.len() == old(events)@.len() + hits
            &&& (forall|k: int|
                0 <= k < old(events)@.len() ==> final(events)@[k] == old(events)@[k])
            &&& (forall|k: int|
                old(events)@.len() <= k < final(events)@.len() ==> final(events)@[k] == (GameOver {
                    score: score.value,
                }))
        }),
{
    let p_opt = store.player;
    if let Some((pid, p)) = p_opt {
        let mut any = false;
        let mut i: usize = 0;
        while i < store.enemies.len()
            invariant
                store.wf(),
                *store == *old(store),
                old(store).player == Some((pid, p)),
                in_pos_range(p.position),
                forall|k: int|
                    0 <= k < store.enemies@.len() ==> in_pos_range(
                        (#[trigger] store.enemies@[k]).1.position,
                    ),
                i <= store.enemies@.len(),
                events@.len() == old(events)@.len() + enemy_hits(
                    store.enemies@.take(i as int),
                    p.position,
                ),
                forall|k: int| 0 <= k < old(events)@.len() ==> events@[k] == old(events)@[k],
                forall|k: int|
                    old(events)@.len() <= k < events@.len() ==> events@[k] == (GameOver {
                        score: score.value,
                    }),
                any == (enemy_hits(store.enemies@.take(i as int), p.position) > 0),
            decreases store.enemies@.len() - i,
        {
            let (eid, e) = store.enemies[i];
            proof {
                let pre = store.enemies@.take(i as int + 1);
                assert(pre.drop_last() =~= store.enemies@.take(i as int));
                assert(pre.last() == store.enemies@[i as int]);
            }
            if within_distance(e.position, p.position, ENEMY_TOUCH_DISTANCE) {
                events.push(GameOver { score: score.value });
                any = true;
            }
            i = i + 1;
        }
        proof {
            assert(store.enemies@.take(store.enemies@.len() as int) =~= store.enemies@);
        }
        if any {
            store.remove_player();
        } else {
            proof {
                assert(events@ =~= old(events)@);
            }
        }
    }
}

/// Whether a star's center is within collection distance of the player's.
pub open spec fn star_collected(s: Star, p: Vec2) -> bool {
    dist_sq(s.position, p) <= (STAR_TOUCH_DISTANCE as int) * (STAR_TOUCH_DISTANCE as int)
}

/// The stars that remain after the player collects every star within
/// collection distance, in their original order.
pub open spec fn surviving_stars(stars: Seq<(u64, Star)>, p: Vec2) -> Seq<(u64, Star)>
    decreases stars.len(),
{
    if stars.len() == 0 {
        Seq::empty()
    } else {
        let rest = surviving_stars(stars.drop_last(), p);
        if star_collected(stars.last().1, p) {
            rest
        } else {
            rest.push(stars.last())
        }
    }
}

/// How many of the stars the player collects.
pub open spec fn stars_collected(stars: Seq<(u64, Star)>, p: Vec2) -> nat
    decreases stars.len(),
{
    if stars.len() == 0 {
        0
    } else {
        stars_collected(stars.drop_last(), p) + (if star_collected(stars.last().1, p) {
            1nat
        } else {
            0nat
        })
    }
}

/// A player standing exactly at a star's center is at distance zero, so the
/// star is always collected: zero never exceeds the radius sum.
pub proof fn lemma_star_at_player_is_collected(s: Star, p: Vec2)
    requires
        s.position == p,
    ensures
        star_collected(s, p),
{
    crate::geometry::lemma_coincident_within_radius(p, STAR_TOUCH_DISTANCE);
}

/// No more stars are collected than exist.
pub proof fn lemma_stars_collected_le_len(stars: Seq<(u64, Star)>, p: Vec2)
    ensures
        stars_collected(stars, p) <= stars.len(),
    decreases stars.len(),
{
    if stars.len() > 0 {
        lemma_stars_collected_le_len(stars.drop_last(), p);
    }
}

/// Whether the given record is among the star records.
pub open spec fn star_record_in(stars: Seq<(u64, Star)>, r: (u64, Star)) -> bool {
    exists|j: int| 0 <= j < stars.len() && (#[trigger] stars[j]) == r
}

/// The surviving stars are a sub-collection of the original ones: together
/// with the collected count they exhaust the list, every surviving
/// identifier was already live, and distinct identifiers stay distinct.
pub proof fn lemma_surviving_stars_ids(stars: Seq<(u64, Star)>, p: Vec2)
    ensures
        surviving_stars(stars, p).len() + stars_collected(stars, p) == stars.len(),
        forall|k: int|
            0 <= k < surviving_stars(stars, p).len() ==> star_record_in(
                stars,
                #[trigger] surviving_stars(stars, p)[k],
            ),
        (forall|i: int, j: int|
            0 <= i < j < stars.len() ==> (#[trigger] stars[i]).0 != (#[trigger] stars[j]).0)
            ==> (forall|i: int, j: int|
            0 <= i < j < surviving_stars(stars, p).len() ==> (#[trigger] surviving_stars(
                stars,
                p,
            )[i]).0 != (#[trigger] surviving_stars(stars, p)[j]).0),
    decreases stars.len(),
{
    if stars.len() > 0 {
        let prior = stars.drop_last();
        lemma_surviving_stars_ids(prior, p);
        let rest = surviving_stars(prior, p);
        let surv = surviving_stars(stars, p);
        assert forall|k: int|
            0 <= k < rest.len() implies star_record_in(stars, #[trigger] rest[k]) by {
            let j = choose|j: int| 0 <= j < prior.len() && (#[trigger] prior[j]) == rest[k];
            assert(stars[j] == prior[j]);
        }
        if star_collected(stars.last().1, p) {
            assert(surv == rest);
        } else {
            assert(surv == rest.push(stars.last()));
            assert(stars[stars.len() - 1] == stars.last());
            assert forall|k: int|
                0 <= k < surv.len() implies star_record_in(stars, #[trigger] surv[k]) by {
                if k < rest.len() {
                    assert(surv[k] == rest[k]);
                } else {
                    assert(surv[k] == stars.last());
                }
            }
            if (forall|i: int, j: int|
                0 <= i < j < stars.len() ==> (#[trigger] stars[i]).0 != (#[trigger] stars[j]).0) {
                assert forall|i: int, j: int|
                    0 <= i < j < prior.len() implies (#[trigger] prior[i]).0 != (
                #[trigger] prior[j]).0 by {
                    assert(prior[i] == stars[i]);
                    assert(prior[j] == stars[j]);
                }
                assert forall|i: int| 0 <= i < rest.len() implies (#[trigger] rest[i]).0
                    != stars.last().0 by {
                    assert(star_record_in(prior, rest[i]));
                    let j = choose|j: int| 0 <= j < prior.len() && (#[trigger] prior[j]) == rest[i];
                    assert(stars[j] == prior[j]);
                    assert(stars[j].0 != stars[stars.len() - 1].0);
                }
            }
        }
    }
}

/// Player-star collision: collects every star within collection distance,
/// removing it and scoring one point, all in the same frame; the other
/// stars keep their order. With no player present this is a silent no-op.
pub fn player_hit_star(store: &mut EntityStore, score: &mut Score)
    requires
        old(store).wf(),
        (old(store).player matches Some(p) ==> in_pos_range(p.1.position)),
        forall|i: int|
            0 <= i < old(store).stars@.len() ==> pos_in_play(
                (#[trigger] old(store).stars@[i]).1.position,
            ),
        old(score).value + old(store).stars@.len() <= u32::MAX,
    ensures
        final(store).wf(),
        final(store).player == old(store).player,
        final(store).enemies@ == old(store).enemies@,
        final(store).next_id == old(store).next_id,
        forall|i: int|
            0 <= i < final(store).stars@.len() ==> pos_in_play(
                (#[trigger] final(store).stars@[i]).1.position,
            ),
        old(store).player.is_none() ==> (*final(store) == *old(store) && *final(score) == *old(
            score,
        )),
        (old(store).player matches Some(p) ==> {
            &&& final(store).stars@ == surviving_stars(old(store).stars@, p.1.position)
            &&& final(score).value == old(score).value + stars_collected(
                old(store).stars@,
                p.1.position,
            )
            &&& (forall|k: int|
                0 <= k < final(store).stars@.len() ==> star_record_in(
                    old(store).stars@,
                    #[trigger] final(store).stars@[k],
                ))
        }),
{
    let p_opt = store.player;
    if let Some((pid, p)) = p_opt {
        let mut kept: Vec<(u64, Star)> = Vec::new();
        let mut i: usize = 0;
        while i < store.stars.len()
            invariant
                store.wf(),
                *store == *old(store),
                old(store).player == Some((pid, p)),
                in_pos_range(p.position),
                forall|k: int|
                    0 <= k < store.stars@.len() ==> pos_in_play(
                        (#[trigger] store.stars@[k]).1.position,
                    ),
                old(score).value + store.stars@.len() <= u32::MAX,
                i <= store.stars@.len(),
                kept@ == surviving_stars(store.stars@.take(i as int), p.position),
                score.value == old(score).value + stars_collected(
                    store.stars@.take(i as int),
                    p.position,
                ),
            decreases store.stars@.len() - i,
        {
            let (sid, s) = store.stars[i];
            proof {
                let pre = store.stars@.take(i as int + 1);
                assert(pre.drop_last() =~= store.stars@.take(i as int));
                assert(pre.last() == store.stars@[i as int]);
                lemma_stars_collected_le_len(store.stars@.take(i as int), p.position);
            }
            if within_distance(s.position, p.position, STAR_TOUCH_DISTANCE) {
                score.value = score.value + 1;
            } else {
                kept.push((sid, s));
            }
            i = i + 1;
        }
        proof {
            assert(store.stars@.take(store.stars@.len() as int) =~= store.stars@);
            lemma_surviving_stars_ids(store.stars@, p.position);
        }
        store.stars = kept;
        proof {
            assert forall|k: int|
                0 <= k < store.stars@.len() implies star_record_in(
                old(store).stars@,
                #[trigger] store.stars@[k],
            ) by {}
            assert forall|k: int| 0 <= k < store.stars@.len() implies (
            #[trigger] store.stars@[k]).0 < store.next_id by {
                let j = choose|j: int|
                    0 <= j < old(store).stars@.len() && (#[trigger] old(store).stars@[j])
                        == store.stars@[k];
            }
            assert forall|k: int, l: int|
                0 <= k < store.enemies@.len() && 0 <= l < store.stars@.len() implies (
            #[trigger] store.enemies@[k]).0 != (#[trigger] store.stars@[l]).0 by {
                let j = choose|j: int|
                    0 <= j < old(store).stars@.len() && (#[trigger] old(store).stars@[j])
                        == store.stars@[l];
            }
            assert forall|k: int|
                0 <= k < store.stars@.len() implies (#[trigger] store.stars@[k]).0 != pid by {
                let j = choose|j: int|
                    0 <= j < old(store).stars@.len() && (#[trigger] old(store).stars@[j])
                        == store.stars@[k];
            }
            assert forall|k: int| 0 <= k < store.stars@.len() implies pos_in_play(
                (#[trigger] store.stars@[k]).1.position,
            ) by {
                let j = choose|j: int|
                    0 <= j < old(store).stars@.len() && (#[trigger] old(store).stars@[j])
                        == store.stars@[k];
            }
            assert(store.wf());
        }
    }
}

} // verus!
