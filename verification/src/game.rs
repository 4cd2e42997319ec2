//! The whole simulation: the aggregate state, the outer phase transitions,
//! and the per-frame tick that the host loop drives.

use crate::enemy::{
    confine_enemy_movement, despawn_enemies, enemy_direction_changed, enemy_movement,
    reflected_x, reflected_y, spawn_enemies, spawn_enemies_over_time, tick_enemy_spawn_timer,
    update_enemy_direction, EnemySpawnTimer, ENEMY_HALF_SIZE, ENEMY_SPAWN_PERIOD_MS, ENEMY_SPEED,
    NUMBER_OF_ENEMIES,
};
use crate::events::GameOver;
use crate::geometry::{
    clamp_spec, dir_in_range, in_arena, pos_in_play, step_milli, Arena, Vec2, MAX_DELTA_MS,
};
use crate::player::{
    confine_player_movement, despawn_player, enemy_hit_player, enemy_hits, player_dir_x,
    player_dir_y, player_hit_star, player_movement, spawn_player, stars_collected,
    surviving_stars, PLAYER_HALF_SIZE, PLAYER_SPEED,
};
use crate::score::{
    insert_score, remove_score, update_high_scores_on_game_over, HighScores, Score,
};
use crate::star::{
    despawn_stars, spawn_stars, spawn_stars_over_time, tick_star_spawn_timer, StarSpawnTimer,
    NUMBER_OF_STARS, STAR_HALF_SIZE, STAR_SPAWN_PERIOD_MS,
};
use crate::state::{pause_simulation, resume_simulation, AppState, FrameInput, SimulationState};
use crate::store::{Enemy, EntityStore, Player, Star};
use crate::timer::Timer;
use vstd::prelude::*;

verus! {

/// The whole simulation state, owned by the host loop and advanced one tick
/// per rendered frame.
pub struct Game {
    pub app_state: AppState,
    pub simulation_state: SimulationState,
    pub store: EntityStore,
    pub score: Option<Score>,
    pub high_scores: HighScores,
    pub enemy_spawn_timer: EnemySpawnTimer,
    pub star_spawn_timer: StarSpawnTimer,
    pub game_over_events: Vec<GameOver>,
    /// Some enemy's direction changed at an arena edge during the last
    /// tick (an audio cue).
    pub bounce_this_frame: bool,
    /// How many stars the player collected during the last tick (an audio cue).
    pub stars_collected_this_frame: u32,
    /// The player was destroyed during the last tick (an audio cue).
    pub player_destroyed_this_frame: bool,
}

impl Game {
    /// Everything the simulation maintains between the systems of one tick:
    /// a well-formed store, well-formed timers, the score living exactly
    /// while the phase is Game, an empty board outside the Game phase, and
    /// every entity inside the playable coordinate range.
    pub open spec fn wf_core(self) -> bool {
        &&& self.store.wf()
        &&& self.enemy_spawn_timer.wf()
        &&& self.star_spawn_timer.wf()
        &&& (self.app_state == AppState::Game ==> self.score.is_some())
        &&& (self.app_state != AppState::Game ==> self.score.is_none()
            && self.store.player.is_none() && self.store.enemies@.len() == 0
            && self.store.stars@.len() == 0)
        &&& (self.store.player matches Some(p) ==> pos_in_play(p.1.position))
        &&& (forall|i: int|
            0 <= i < self.store.enemies@.len() ==> pos_in_play(
                (#[trigger] self.store.enemies@[i]).1.position,
            ) && dir_in_range(self.store.enemies@[i].1.direction))
        &&& (forall|i: int|
            0 <= i < self.store.stars@.len() ==> pos_in_play(
                (#[trigger] self.store.stars@[i]).1.position,
            ))
    }

    /// Well-formedness between ticks: the game-over queue has also been
    /// drained.
    pub open spec fn wf(self) -> bool {
        &&& self.wf_core()
        &&& self.game_over_events@.len() == 0
    }

    /// The two states agree with the fields the world is made of: the
    /// entity records, the score and the history, the phases and the
    /// timers. The per-frame audio cues are left out.
    pub open spec fn same_world(a: Game, b: Game) -> bool {
        &&& a.app_state == b.app_state
        &&& a.simulation_state == b.simulation_state
        &&& a.store.player == b.store.player
        &&& a.store.enemies@ == b.store.enemies@
        &&& a.store.stars@ == b.store.stars@
        &&& a.store.next_id == b.store.next_id
        &&& a.score == b.score
        &&& a.high_scores.scores@ == b.high_scores.scores@
        &&& a.enemy_spawn_timer == b.enemy_spawn_timer
        &&& a.star_spawn_timer == b.star_spawn_timer
        &&& a.game_over_events@ == b.game_over_events@
    }

    /// A fresh simulation: main menu, empty board, empty history, fresh
    /// spawn timers.
    pub fn new() -> (g: Game)
        ensures
            g.wf(),
            g.app_state == AppState::MainMenu,
            g.simulation_state == SimulationState::Running,
            g.store.player.is_none(),
            g.store.enemies@.len() == 0,
            g.store.stars@.len() == 0,
            g.score.is_none(),
            g.high_scores.scores@.len() == 0,
            g.enemy_spawn_timer.timer == Timer::spec_new(ENEMY_SPAWN_PERIOD_MS),
            g.star_spawn_timer.timer == Timer::spec_new(STAR_SPAWN_PERIOD_MS),
    {
        Game {
            app_state: AppState::MainMenu,
            simulation_state: SimulationState::Running,
            store: EntityStore::new(),
            score: None,
            high_scores: HighScores::new(),
            enemy_spawn_timer: EnemySpawnTimer { timer: Timer::new(ENEMY_SPAWN_PERIOD_MS) },
            star_spawn_timer: StarSpawnTimer { timer: Timer::new(STAR_SPAWN_PERIOD_MS) },
            game_over_events: Vec::new(),
            bounce_this_frame: false,
            stars_collected_this_frame: 0,
            player_destroyed_this_frame: false,
        }
    }
}

/// On the explicit start trigger, and only when not already in the Game
/// phase: enters the Game phase. Phase entry spawns the player at the arena
/// center, the initial enemies and stars, creates the score at zero, and
/// forces the sub-state to Paused.
pub fn transition_to_game_state(game: &mut Game, arena: &Arena, pressed: bool)
    requires
        old(game).wf(),
        arena.wf(),
        old(game).store.next_id + 32 <= u64::MAX,
    ensures
        final(game).wf(),
        (!pressed || old(game).app_state == AppState::Game) ==> *final(game) == *old(game),
        (pressed && old(game).app_state != AppState::Game) ==> {
            &&& final(game).app_state == AppState::Game
            &&& final(game).simulation_state == SimulationState::Paused
            &&& final(game).score == Some((Score { value: 0 }))
            &&& (final(game).store.player matches Some(p) && p.1.position.x == arena.width / 2
                && p.1.position.y == arena.height / 2)
            &&& final(game).store.enemies@.len() == NUMBER_OF_ENEMIES
            &&& final(game).store.stars@.len() == NUMBER_OF_STARS
            &&& final(game).high_scores.scores@ == old(game).high_scores.scores@
            &&& final(game).enemy_spawn_timer == old(game).enemy_spawn_timer
            &&& final(game).star_spawn_timer == old(game).star_spawn_timer
            &&& final(game).store.next_id == old(game).store.next_id + 1 + NUMBER_OF_ENEMIES
                + NUMBER_OF_STARS
        },
{
    if pressed && !(game.app_state == AppState::Game) {
        game.app_state = AppState::Game;
        spawn_player(&mut game.store, arena);
        spawn_enemies(&mut game.store, arena);
        spawn_stars(&mut game.store, arena);
        insert_score(&mut game.score);
        pause_simulation(&mut game.simulation_state);
    }
}

/// On the explicit menu trigger, and only when not already in the main
/// menu: returns to the main menu, forcing the sub-state to Paused. Leaving
/// the Game phase despawns the player, every enemy and every star, destroys
/// the score, and then forces the sub-state to Running — entry pauses, exit
/// resumes.
pub fn transition_to_main_menu(game: &mut Game, pressed: bool)
    requires
        old(game).wf(),
    ensures
        final(game).wf(),
        (!pressed || old(game).app_state == AppState::MainMenu) ==> *final(game) == *old(game),
        (pressed && old(game).app_state != AppState::MainMenu) ==> {
            &&& final(game).app_state == AppState::MainMenu
            &&& final(game).store.player.is_none()
            &&& final(game).store.enemies@.len() == 0
            &&& final(game).store.stars@.len() == 0
            &&& final(game).score.is_none()
            &&& final(game).high_scores.scores@ == old(game).high_scores.scores@
            &&& final(game).enemy_spawn_timer == old(game).enemy_spawn_timer
            &&& final(game).star_spawn_timer == old(game).star_spawn_timer
            &&& final(game).simulation_state == (if old(game).app_state == AppState::Game {
                SimulationState::Running
            } else {
                SimulationState::Paused
            })
            &&& final(game).store.next_id == old(game).store.next_id
        },
{
    if pressed && !(game.app_state == AppState::MainMenu) {
        let was_game = game.app_state == AppState::Game;
        game.app_state = AppState::MainMenu;
        pause_simulation(&mut game.simulation_state);
        if was_game {
            despawn_player(&mut game.store);
            despawn_enemies(&mut game.store);
            despawn_stars(&mut game.store);
            remove_score(&mut game.score);
            resume_simulation(&mut game.simulation_state);
        }
    }
}

/// On the pause trigger, and only while the phase is Game: toggles the
/// sub-state between Running and Paused.
pub fn toggle_simulation(game: &mut Game, pressed: bool)
    requires
        old(game).wf_core(),
    ensures
        final(game).wf_core(),
        final(game).app_state == old(game).app_state,
        final(game).store == old(game).store,
        final(game).score == old(game).score,
        final(game).high_scores.scores@ == old(game).high_scores.scores@,
        final(game).enemy_spawn_timer == old(game).enemy_spawn_timer,
        final(game).star_spawn_timer == old(game).star_spawn_timer,
        final(game).game_over_events@ == old(game).game_over_events@,
        final(game).bounce_this_frame == old(game).bounce_this_frame,
        final(game).stars_collected_this_frame == old(game).stars_collected_this_frame,
        final(game).player_destroyed_this_frame == old(game).player_destroyed_this_frame,
        (!pressed || old(game).app_state != AppState::Game) ==> final(game).simulation_state == old(
            game,
        ).simulation_state,
        (pressed && old(game).app_state == AppState::Game) ==> final(game).simulation_state == (if (
        old(game).simulation_state == SimulationState::Running) {
            SimulationState::Paused
        } else {
            SimulationState::Running
        }),
{
    if pressed && game.app_state == AppState::Game {
        if game.simulation_state == SimulationState::Running {
            game.simulation_state = SimulationState::Paused;
        } else {
            game.simulation_state = SimulationState::Running;
        }
    }
}

/// Drains the game-over queue: if any signal was produced this tick, the
/// score each signal carries is appended to the history, in order, and the
/// phase moves to GameOver. Leaving the Game phase clears the board,
/// destroys the score and forces the sub-state to Running.
pub fn handle_game_over(game: &mut Game)
    requires
        old(game).wf_core(),
    ensures
        final(game).wf(),
        old(game).game_over_events@.len() == 0 ==> *final(game) == *old(game),
        old(game).game_over_events@.len() > 0 ==> {
            &&& final(game).app_state == AppState::GameOver
            &&& final(game).store.player.is_none()
            &&& final(game).store.enemies@.len() == 0
            &&& final(game).store.stars@.len() == 0
            &&& final(game).score.is_none()
            &&& final(game).high_scores.scores@ == old(game).high_scores.scores@ + old(
                game,
            ).game_over_events@.map_values(|e: GameOver| e.score)
            &&& final(game).enemy_spawn_timer == old(game).enemy_spawn_timer
            &&& final(game).star_spawn_timer == old(game).star_spawn_timer
            &&& (old(game).app_state == AppState::Game ==> final(game).simulation_state
                == SimulationState::Running)
            &&& (old(game).app_state != AppState::Game ==> final(game).simulation_state == old(
                game,
            ).simulation_state)
            &&& final(game).store.next_id == old(game).store.next_id
            &&& final(game).bounce_this_frame == old(game).bounce_this_frame
            &&& final(game).stars_collected_this_frame == old(game).stars_collected_this_frame
            &&& final(game).player_destroyed_this_frame == old(game).player_destroyed_this_frame
        },
{
    if game.game_over_events.len() > 0 {
        update_high_scores_on_game_over(&game.game_over_events, &mut game.high_scores);
        let was_game = game.app_state == AppState::Game;
        game.app_state = AppState::GameOver;
        if was_game {
            despawn_player(&mut game.store);
            despawn_enemies(&mut game.store);
            despawn_stars(&mut game.store);
            remove_score(&mut game.score);
            resume_simulation(&mut game.simulation_state);
        }
        game.game_over_events.clear();
    }
}

/// An enemy after the movement integrator: its position advanced by its
/// direction times `ENEMY_SPEED` times the frame time.
pub open spec fn stepped_enemy(e: Enemy, dt: u64) -> Enemy {
    Enemy {
        position: Vec2 {
            x: (e.position.x + step_milli(e.direction.x as int, ENEMY_SPEED as int, dt as int))
                as i64,
            y: (e.position.y + step_milli(e.direction.y as int, ENEMY_SPEED as int, dt as int))
                as i64,
        },
        direction: e.direction,
    }
}

/// An enemy after one full frame of systems: moved, its direction
/// reflected at the arena edges, and its position clamped into the box.
pub open spec fn enemy_after_systems(e: Enemy, arena: Arena, dt: u64) -> Enemy {
    let moved = stepped_enemy(e, dt);
    Enemy {
        position: Vec2 {
            x: clamp_spec(
                moved.position.x as int,
                ENEMY_HALF_SIZE as int,
                arena.width - ENEMY_HALF_SIZE,
            ) as i64,
            y: clamp_spec(
                moved.position.y as int,
                ENEMY_HALF_SIZE as int,
                arena.height - ENEMY_HALF_SIZE,
            ) as i64,
        },
        direction: Vec2 { x: reflected_x(moved, arena) as i64, y: reflected_y(moved, arena) as i64 },
    }
}

/// Every enemy record after one full frame of systems, in order.
pub open spec fn enemies_after_systems(
    enemies: Seq<(u64, Enemy)>,
    arena: Arena,
    dt: u64,
) -> Seq<(u64, Enemy)> {
    enemies.map_values(|r: (u64, Enemy)| (r.0, enemy_after_systems(r.1, arena, dt)))
}

/// The player after one frame of systems: moved by the held keys and
/// clamped into the arena box.
pub open spec fn player_after_systems(p: Player, arena: Arena, input: FrameInput, dt: u64) -> Player {
    Player {
        position: Vec2 {
            x: clamp_spec(
                p.position.x + step_milli(player_dir_x(input), PLAYER_SPEED as int, dt as int),
                PLAYER_HALF_SIZE as int,
                arena.width - PLAYER_HALF_SIZE,
            ) as i64,
            y: clamp_spec(
                p.position.y + step_milli(player_dir_y(input), PLAYER_SPEED as int, dt as int),
                PLAYER_HALF_SIZE as int,
                arena.height - PLAYER_HALF_SIZE,
            ) as i64,
        },
    }
}

/// Whether the reflection pass changes some direction this frame: decided
/// on the moved enemies, since movement runs before reflection.
pub open spec fn bounce_after_movement(enemies: Seq<(u64, Enemy)>, arena: Arena, dt: u64) -> bool {
    exists|i: int|
        0 <= i < enemies.len() && enemy_direction_changed(
            stepped_enemy((#[trigger] enemies[i]).1, dt),
            arena,
        )
}

/// What one running frame does, given the two records the spawn timers may
/// have added (their positions are random, so they are quantified in
/// `tick_rel`): every old enemy is moved, reflected and confined; the
/// player is moved and confined; the spawn timers advance and append at
/// most one record each; then either no enemy touches the player and the
/// stars within reach are collected, or the fatal collisions each emit one
/// game-over signal, the history grows by them, and the run ends.
pub open spec fn tick_rel_with(
    pre: Game,
    post: Game,
    arena: Arena,
    input: FrameInput,
    dt: u64,
    spawned_enemies: Seq<(u64, Enemy)>,
    spawned_stars: Seq<(u64, Star)>,
) -> bool {
    &&& post.enemy_spawn_timer.timer == pre.enemy_spawn_timer.timer.spec_tick(dt)
    &&& post.star_spawn_timer.timer == pre.star_spawn_timer.timer.spec_tick(dt)
    &&& post.bounce_this_frame == bounce_after_movement(pre.store.enemies@, arena, dt)
    &&& post.game_over_events@.len() == 0
    &&& post.store.next_id == pre.store.next_id + spawned_enemies.len() + spawned_stars.len()
    &&& spawned_enemies.len() == (if pre.enemy_spawn_timer.timer.spec_tick(dt).fired {
        1int
    } else {
        0int
    })
    &&& spawned_stars.len() == (if pre.star_spawn_timer.timer.spec_tick(dt).fired {
        1int
    } else {
        0int
    })
    &&& (forall|i: int|
        0 <= i < spawned_enemies.len() ==> in_arena(
            (#[trigger] spawned_enemies[i]).1.position,
            arena,
            ENEMY_HALF_SIZE as int,
        ) && dir_in_range(spawned_enemies[i].1.direction))
    &&& (forall|i: int|
        0 <= i < spawned_stars.len() ==> in_arena(
            (#[trigger] spawned_stars[i]).1.position,
            arena,
            STAR_HALF_SIZE as int,
        ))
    &&& ({
        let board_enemies = enemies_after_systems(pre.store.enemies@, arena, dt) + spawned_enemies;
        let board_stars = pre.store.stars@ + spawned_stars;
        match pre.store.player {
            None => {
                &&& post.app_state == AppState::Game
                &&& post.simulation_state == SimulationState::Running
                &&& post.store.player.is_none()
                &&& post.store.enemies@ == board_enemies
                &&& post.store.stars@ == board_stars
                &&& post.score == pre.score
                &&& post.high_scores.scores@ == pre.high_scores.scores@
                &&& !post.player_destroyed_this_frame
                &&& post.stars_collected_this_frame == 0
            },
            Some(p) => {
                let q = player_after_systems(p.1, arena, input, dt);
                let hits = enemy_hits(board_enemies, q.position);
                &&& (hits == 0 ==> {
                    &&& post.app_state == AppState::Game
                    &&& post.simulation_state == SimulationState::Running
                    &&& post.store.player == Some((p.0, q))
                    &&& post.store.enemies@ == board_enemies
                    &&& post.store.stars@ == surviving_stars(board_stars, q.position)
                    &&& (pre.score matches Some(sc) ==> post.score == Some(
                        (Score { value: (sc.value + stars_collected(board_stars, q.position)) as u32 }),
                    ))
                    &&& post.high_scores.scores@ == pre.high_scores.scores@
                    &&& !post.player_destroyed_this_frame
                    &&& post.stars_collected_this_frame == stars_collected(board_stars, q.position)
                })
                &&& (hits > 0 ==> {
                    &&& post.app_state == AppState::GameOver
                    &&& post.simulation_state == SimulationState::Running
                    &&& post.store.player.is_none()
                    &&& post.store.enemies@.len() == 0
                    &&& post.store.stars@.len() == 0
                    &&& post.score.is_none()
                    &&& (pre.score matches Some(sc) ==> post.high_scores.scores@
                        == pre.high_scores.scores@ + Seq::new(hits, |j: int| sc.value))
                    &&& post.player_destroyed_this_frame
                    &&& post.stars_collected_this_frame == 0
                })
            },
        }
    })
}

/// What one running frame does, with the randomly placed spawned records
/// quantified away: the rest of the world is fixed by the per-system
/// specifications, composed in the order the frame runs them.
pub open spec fn tick_rel(pre: Game, post: Game, arena: Arena, input: FrameInput, dt: u64) -> bool {
    exists|se: Seq<(u64, Enemy)>, ss: Seq<(u64, Star)>|
        #[trigger] tick_rel_with(pre, post, arena, input, dt, se, ss)
}

/// One simulation tick, driven by the host loop once per rendered frame
/// with the elapsed time, the current arena bounds and this frame's input.
///
/// The tick first applies the input-driven transitions (start, menu, pause
/// toggle). Then, only while the phase is Game and the sub-state Running,
/// it runs the per-frame systems in order: player and enemy movement,
/// direction reflection, confinement, the spawn timers and
/// spawn-over-time, and the two collision resolvers. Finally the game-over
/// queue is drained. On such a running frame the resulting world is fixed,
/// up to the randomly placed spawned records, by `tick_rel`: the
/// per-system specifications composed in that order.
#[verifier::rlimit(60)]
#[verifier::spinoff_prover]
pub fn tick(game: &mut Game, arena: &Arena, input: &FrameInput, delta_ms: u64)
    requires
        old(game).wf(),
        arena.wf(),
        delta_ms <= MAX_DELTA_MS,
        old(game).store.next_id + 32 <= u64::MAX,
        (old(game).score matches Some(s) ==> s.value + old(game).store.stars@.len() + 1
            <= u32::MAX),
    ensures
        final(game).wf(),
// While paused (or outside the Game phase) and with no trigger pressed,
// the world is frozen: nothing moves, spawns, scores or transitions.

        (!(old(game).app_state == AppState::Game && old(game).simulation_state
            == SimulationState::Running) && !input.pause_pressed && !input.start_pressed
            && !input.menu_pressed) ==> (Game::same_world(*final(game), *old(game))
            && !final(game).bounce_this_frame && final(game).stars_collected_this_frame == 0
            && !final(game).player_destroyed_this_frame),
// The pause trigger while running flips the sub-state to Paused, and the
// very frame it lands on is already frozen.

        (old(game).app_state == AppState::Game && old(game).simulation_state
            == SimulationState::Running && input.pause_pressed && !input.start_pressed
            && !input.menu_pressed) ==> {
            &&& final(game).app_state == AppState::Game
            &&& final(game).simulation_state == SimulationState::Paused
            &&& final(game).store.player == old(game).store.player
            &&& final(game).store.enemies@ == old(game).store.enemies@
            &&& final(game).store.stars@ == old(game).store.stars@
            &&& final(game).store.next_id == old(game).store.next_id
            &&& final(game).score == old(game).score
            &&& final(game).high_scores.scores@ == old(game).high_scores.scores@
            &&& final(game).enemy_spawn_timer == old(game).enemy_spawn_timer
            &&& final(game).star_spawn_timer == old(game).star_spawn_timer
            &&& !final(game).bounce_this_frame
            &&& final(game).stars_collected_this_frame == 0
            &&& !final(game).player_destroyed_this_frame
        },
// The per-frame systems run exactly when the frame starts (or is unpaused
// into) Game and Running: the whole world after the frame is then fixed by
// the per-system specifications, composed.

        (old(game).app_state == AppState::Game && !input.start_pressed && !input.menu_pressed && (
        (old(game).simulation_state == SimulationState::Running && !input.pause_pressed) || (old(
            game,
        ).simulation_state == SimulationState::Paused && input.pause_pressed))) ==> tick_rel(
            *old(game),
            *final(game),
            *arena,
            *input,
            delta_ms,
        ),
// The start trigger from the menu or the game-over screen enters the Game
// phase: a fresh board and a fresh score, paused until resumed.

        (input.start_pressed && !input.menu_pressed && !input.pause_pressed && old(game).app_state
            != AppState::Game) ==> {
            &&& final(game).app_state == AppState::Game
            &&& final(game).simulation_state == SimulationState::Paused
            &&& final(game).score == Some((Score { value: 0 }))
            &&& final(game).store.player.is_some()
            &&& final(game).store.enemies@.len() == NUMBER_OF_ENEMIES
            &&& final(game).store.stars@.len() == NUMBER_OF_STARS
            &&& final(game).high_scores.scores@ == old(game).high_scores.scores@
        },
// The menu trigger from the Game phase clears the board and the score.

        (!input.start_pressed && input.menu_pressed && old(game).app_state == AppState::Game) ==> {
            &&& final(game).app_state == AppState::MainMenu
            &&& final(game).store.player.is_none()
            &&& final(game).store.enemies@.len() == 0
            &&& final(game).store.stars@.len() == 0
            &&& final(game).score.is_none()
            &&& final(game).high_scores.scores@ == old(game).high_scores.scores@
        },
// The score history is only ever appended to.

        final(game).high_scores.scores@.len() >= old(game).high_scores.scores@.len(),
        forall|k: int|
            0 <= k < old(game).high_scores.scores@.len() ==> final(game).high_scores.scores@[k]
                == old(game).high_scores.scores@[k],
// A running frame without triggers advances both spawn timers by the
// frame time and ends in the Game phase unless a fatal collision ended the
// run; ending the run appends at least one entry to the history.

        (old(game).app_state == AppState::Game && old(game).simulation_state
            == SimulationState::Running && !input.pause_pressed && !input.start_pressed
            && !input.menu_pressed) ==> {
            &&& final(game).enemy_spawn_timer.timer == old(
                game,
            ).enemy_spawn_timer.timer.spec_tick(delta_ms)
            &&& final(game).star_spawn_timer.timer == old(
                game,
            ).star_spawn_timer.timer.spec_tick(delta_ms)
            &&& (final(game).app_state == AppState::Game || final(game).app_state
                == AppState::GameOver)
            &&& (final(game).app_state == AppState::Game ==> {
                &&& final(game).simulation_state == SimulationState::Running
                &&& (final(game).score matches Some(s) && old(game).score matches Some(t)
                    && s.value >= t.value)
                &&& final(game).high_scores.scores@ == old(game).high_scores.scores@
            })
            &&& (final(game).app_state == AppState::GameOver ==> {
                &&& final(game).store.player.is_none()
                &&& final(game).score.is_none()
                &&& final(game).high_scores.scores@.len() > old(game).high_scores.scores@.len()
            })
        },
{
    game.bounce_this_frame = false;
    game.stars_collected_this_frame = 0;
    game.player_destroyed_this_frame = false;
    transition_to_game_state(game, arena, input.start_pressed);
    transition_to_main_menu(game, input.menu_pressed);
    toggle_simulation(game, input.pause_pressed);
    let ghost g1 = *game;
    let ghost rel_case = old(game).app_state == AppState::Game && !input.start_pressed
        && !input.menu_pressed && ((old(game).simulation_state == SimulationState::Running
        && !input.pause_pressed) || (old(game).simulation_state == SimulationState::Paused
        && input.pause_pressed));
    if game.app_state == AppState::Game && game.simulation_state == SimulationState::Running {
        player_movement(&mut game.store, input, delta_ms);
        let ghost pre_move = game.store;
        enemy_movement(&mut game.store, delta_ms);
        proof {
            assert forall|i: int| 0 <= i < game.store.enemies@.len() implies dir_in_range(
                (#[trigger] game.store.enemies@[i]).1.direction,
            ) by {
                assert(dir_in_range(pre_move.enemies@[i].1.direction));
            }
        }
        let ghost pre_reflect = game.store;
        let bounced = update_enemy_direction(&mut game.store, arena);
        game.bounce_this_frame = bounced;
        proof {
            assert forall|i: int| 0 <= i < game.store.enemies@.len() implies dir_in_range(
                (#[trigger] game.store.enemies@[i]).1.direction,
            ) by {
                assert(0 <= i < pre_reflect.enemies@.len());
                assert(dir_in_range(pre_reflect.enemies@[i].1.direction));
            }
        }
        proof {
            if rel_case {
                assert forall|i: int| 0 <= i < pre_reflect.enemies@.len() implies (
                #[trigger] pre_reflect.enemies@[i]).1 == stepped_enemy(
                    old(game).store.enemies@[i].1,
                    delta_ms,
                ) by {
                    assert(pre_move.enemies@[i] == old(game).store.enemies@[i]);
                }
                assert(bounced == bounce_after_movement(
                    old(game).store.enemies@,
                    *arena,
                    delta_ms,
                )) by {
                    if bounced {
                        let i = choose|i: int|
                            0 <= i < pre_reflect.enemies@.len() && enemy_direction_changed(
                                (#[trigger] pre_reflect.enemies@[i]).1,
                                *arena,
                            );
                        assert(enemy_direction_changed(
                            stepped_enemy((old(game).store.enemies@[i]).1, delta_ms),
                            *arena,
                        ));
                    }
                    if bounce_after_movement(old(game).store.enemies@, *arena, delta_ms) {
                        let i = choose|i: int|
                            0 <= i < old(game).store.enemies@.len() && enemy_direction_changed(
                                stepped_enemy((#[trigger] old(game).store.enemies@[i]).1, delta_ms),
                                *arena,
                            );
                        assert(enemy_direction_changed(pre_reflect.enemies@[i].1, *arena));
                    }
                }
            }
        }
        let ghost post_reflect = game.store;
        confine_player_movement(&mut game.store, arena);
        confine_enemy_movement(&mut game.store, arena);
        let ghost post_confine = game.store;
        proof {
            if rel_case {
                assert forall|i: int| 0 <= i < old(game).store.enemies@.len() implies (
                #[trigger] post_confine.enemies@[i]) == (
                old(game).store.enemies@[i].0,
                enemy_after_systems(old(game).store.enemies@[i].1, *arena, delta_ms),
                ) by {
                    assert(pre_move.enemies@[i] == old(game).store.enemies@[i]);
                    assert(pre_reflect.enemies@[i].1 == stepped_enemy(
                        old(game).store.enemies@[i].1,
                        delta_ms,
                    ));
                    assert(post_reflect.enemies@[i].1.direction.x == reflected_x(
                        pre_reflect.enemies@[i].1,
                        *arena,
                    ));
                }
                assert(post_confine.enemies@ =~= enemies_after_systems(
                    old(game).store.enemies@,
                    *arena,
                    delta_ms,
                ));
            }
        }
        tick_enemy_spawn_timer(&mut game.enemy_spawn_timer, delta_ms);
        spawn_enemies_over_time(&mut game.store, &game.enemy_spawn_timer, arena);
        let ghost post_espawn = game.store;
        tick_star_spawn_timer(&mut game.star_spawn_timer, delta_ms);
        spawn_stars_over_time(&mut game.store, &game.star_spawn_timer, arena);
        let ghost post_sspawn = game.store;
        let ghost se = post_espawn.enemies@.skip(post_confine.enemies@.len() as int);
        let ghost ss = post_sspawn.stars@.skip(post_espawn.stars@.len() as int);
        proof {
            if rel_case {
                assert(post_espawn.enemies@ =~= post_confine.enemies@ + se);
                assert(post_sspawn.stars@ =~= post_espawn.stars@ + ss);
                assert(post_espawn.stars@ == old(game).store.stars@);
            }
        }
        let had_player = game.store.player.is_some();
        let score_snapshot = game.score;
        if let Some(s) = score_snapshot {
            enemy_hit_player(&mut game.store, &s, &mut game.game_over_events);
        }
        match &mut game.score {
            Some(s) => {
                let before = s.value;
                player_hit_star(&mut game.store, s);
                game.stars_collected_this_frame = s.value - before;
            },
            None => {},
        }
        game.player_destroyed_this_frame = had_player && game.store.player.is_none();
        let ghost pre_drain = *game;
        handle_game_over(game);
        proof {
            if rel_case {
                let pre = *old(game);
                let post = *game;
                let board_enemies = enemies_after_systems(pre.store.enemies@, *arena, delta_ms)
                    + se;
                let board_stars = pre.store.stars@ + ss;
                assert(g1.store.player == pre.store.player);
                assert(board_enemies =~= post_sspawn.enemies@);
                assert(board_stars =~= post_sspawn.stars@);
                assert forall|i: int|
                    0 <= i < se.len() implies in_arena(
                    (#[trigger] se[i]).1.position,
                    *arena,
                    ENEMY_HALF_SIZE as int,
                ) && dir_in_range(se[i].1.direction) by {
                    assert(se[i] == post_espawn.enemies@[post_confine.enemies@.len() + i]);
                    assert(se[i] == post_espawn.enemies@.last());
                }
                assert forall|i: int|
                    0 <= i < ss.len() implies in_arena(
                    (#[trigger] ss[i]).1.position,
                    *arena,
                    STAR_HALF_SIZE as int,
                ) by {
                    assert(ss[i] == post_sspawn.stars@[post_espawn.stars@.len() + i]);
                    assert(ss[i] == post_sspawn.stars@.last());
                }
                match pre.store.player {
                    None => {
                        assert(pre_drain.game_over_events@.len() == 0);
                        assert(post == pre_drain);
                    },
                    Some(p) => {
                        let q = player_after_systems(p.1, *arena, *input, delta_ms);
                        assert(post_confine.player == Some((p.0, q)));
                        let hits = enemy_hits(board_enemies, q.position);
                        assert(hits == enemy_hits(post_sspawn.enemies@, q.position));
                        if hits == 0 {
                            assert(pre_drain.game_over_events@.len() == 0);
                            assert(post == pre_drain);
                            crate::player::lemma_stars_collected_le_len(board_stars, q.position);
                        } else {
                            assert(pre_drain.game_over_events@.len() == hits);
                            match pre.score {
                                Some(sc) => {
                                    assert(pre_drain.game_over_events@.map_values(
                                        |e: GameOver| e.score,
                                    ) =~= Seq::new(hits, |j: int| sc.value));
                                },
                                None => {},
                            }
                        }
                    },
                }
                assert(tick_rel_with(pre, post, *arena, *input, delta_ms, se, ss));
                assert(tick_rel(pre, post, *arena, *input, delta_ms));
            }
        }
    } else {
        handle_game_over(game);
    }
}

} // verus!
