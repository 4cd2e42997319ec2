//! Tests of the per-frame systems, the state machine and whole-game
//! scenarios driven through `tick`.

use ball_game::enemy::{
    confine_enemy_movement, enemy_movement, spawn_enemies, spawn_enemies_over_time,
    tick_enemy_spawn_timer, update_enemy_direction, EnemySpawnTimer,
};
use ball_game::events::GameOver;
use ball_game::game::{handle_game_over, tick, toggle_simulation, transition_to_main_menu, Game};
use ball_game::geometry::{Arena, Vec2};
use ball_game::player::{
    confine_player_movement, enemy_hit_player, player_hit_star, player_movement,
};
use ball_game::score::{update_high_scores_on_game_over, HighScores, Score};
use ball_game::star::spawn_stars;
use ball_game::state::{AppState, FrameInput, SimulationState};
use ball_game::store::EntityStore;

fn arena_800_by_600() -> Arena {
    // 800 x 600 world units, in milliunits.
    Arena { width: 800_000, height: 600_000 }
}

/// A game mid-run: phase Game, sub-state Running, the given board.
fn running_game(store: EntityStore, score: u32) -> Game {
    let mut game = Game::new();
    game.app_state = AppState::Game;
    game.simulation_state = SimulationState::Running;
    game.store = store;
    game.score = Some(Score { value: score });
    game
}

#[test]
fn player_moves_by_held_keys() {
    let mut store = EntityStore::new();
    store.create_player(Vec2 { x: 400_000, y: 300_000 });
    let mut input = FrameInput::none();
    input.right = true;
    player_movement(&mut store, &input, 1000);
    let (_, player) = store.get_player().unwrap();
    // 500 world units per second for one second, to the right.
    assert_eq!(player.position, Vec2 { x: 900_000, y: 300_000 });
}

#[test]
fn player_moves_diagonally_normalized() {
    let mut store = EntityStore::new();
    store.create_player(Vec2 { x: 100_000, y: 100_000 });
    let mut input = FrameInput::none();
    input.right = true;
    input.up = true;
    player_movement(&mut store, &input, 1000);
    let (_, player) = store.get_player().unwrap();
    // The diagonal is normalized: 707/1000 of the speed on each axis.
    assert_eq!(player.position, Vec2 { x: 453_500, y: 453_500 });
}

#[test]
fn opposed_keys_cancel() {
    let mut store = EntityStore::new();
    store.create_player(Vec2 { x: 100_000, y: 100_000 });
    let mut input = FrameInput::none();
    input.left = true;
    input.right = true;
    player_movement(&mut store, &input, 1000);
    let (_, player) = store.get_player().unwrap();
    assert_eq!(player.position, Vec2 { x: 100_000, y: 100_000 });
}

#[test]
fn player_confined_into_arena_box() {
    let arena = arena_800_by_600();
    let mut store = EntityStore::new();
    store.create_player(Vec2 { x: -1_000_000, y: 10_000_000 });
    confine_player_movement(&mut store, &arena);
    let (_, player) = store.get_player().unwrap();
    assert_eq!(player.position, Vec2 { x: 32_000, y: 568_000 });
}

#[test]
fn enemy_moves_by_direction_and_speed() {
    let mut store = EntityStore::new();
    store.create_enemy(Vec2 { x: 500_000, y: 400_000 }, Vec2 { x: 707, y: -707 });
    enemy_movement(&mut store, 100);
    let e = &store.iter_enemies()[0].1;
    // 707/1000 direction at 200 units per second for 100 ms.
    assert_eq!(e.position, Vec2 { x: 514_140, y: 385_860 });
    assert_eq!(e.direction, Vec2 { x: 707, y: -707 });
}

#[test]
fn reflected_directions_point_back_inward() {
    let arena = arena_800_by_600();
    let mut store = EntityStore::new();
    // Past the low x edge, moving further out.
    store.create_enemy(Vec2 { x: 10_000, y: 300_000 }, Vec2 { x: -707, y: 200 });
    // Past the high x edge.
    store.create_enemy(Vec2 { x: 790_000, y: 300_000 }, Vec2 { x: 500, y: -500 });
    // Inside on both axes.
    store.create_enemy(Vec2 { x: 400_000, y: 300_000 }, Vec2 { x: 300, y: 300 });
    let changed = update_enemy_direction(&mut store, &arena);
    assert!(changed);
    let enemies = store.iter_enemies();
    assert_eq!(enemies[0].1.direction, Vec2 { x: 707, y: 200 });
    assert_eq!(enemies[1].1.direction, Vec2 { x: -500, y: -500 });
    assert_eq!(enemies[2].1.direction, Vec2 { x: 300, y: 300 });
    // Positions are untouched by the reflection pass.
    assert_eq!(enemies[0].1.position, Vec2 { x: 10_000, y: 300_000 });
}

#[test]
fn already_inward_direction_gives_no_bounce_signal() {
    let arena = arena_800_by_600();
    let mut store = EntityStore::new();
    // Past the low x edge but already heading back inside: the reflection
    // pass leaves the direction as it is, so no bounce is signalled.
    store.create_enemy(Vec2 { x: 10_000, y: 300_000 }, Vec2 { x: 707, y: 200 });
    let changed = update_enemy_direction(&mut store, &arena);
    assert!(!changed);
    assert_eq!(store.iter_enemies()[0].1.direction, Vec2 { x: 707, y: 200 });
}

#[test]
fn no_bounce_signal_when_everyone_is_inside() {
    let arena = arena_800_by_600();
    let mut store = EntityStore::new();
    store.create_enemy(Vec2 { x: 400_000, y: 300_000 }, Vec2 { x: 1000, y: 0 });
    let changed = update_enemy_direction(&mut store, &arena);
    assert!(!changed);
}

#[test]
fn every_enemy_is_confined() {
    let arena = arena_800_by_600();
    let mut store = EntityStore::new();
    store.create_enemy(Vec2 { x: -50_000, y: 700_000 }, Vec2 { x: 1000, y: 0 });
    store.create_enemy(Vec2 { x: 900_000, y: -1 }, Vec2 { x: 0, y: 1000 });
    confine_enemy_movement(&mut store, &arena);
    let enemies = store.iter_enemies();
    assert_eq!(enemies[0].1.position, Vec2 { x: 32_000, y: 568_000 });
    assert_eq!(enemies[1].1.position, Vec2 { x: 768_000, y: 32_000 });
}

#[test]
fn spawned_enemies_are_inside_bounds() {
    let arena = arena_800_by_600();
    let mut store = EntityStore::new();
    spawn_enemies(&mut store, &arena);
    let enemies = store.iter_enemies();
    assert_eq!(enemies.len(), 4);
    for (_, e) in enemies.iter() {
        assert!(32_000 <= e.position.x && e.position.x <= 768_000);
        assert!(32_000 <= e.position.y && e.position.y <= 568_000);
        assert!(-1000 <= e.direction.x && e.direction.x <= 1000);
        assert!(-1000 <= e.direction.y && e.direction.y <= 1000);
    }
}

#[test]
fn spawned_stars_are_inside_bounds() {
    let arena = arena_800_by_600();
    let mut store = EntityStore::new();
    spawn_stars(&mut store, &arena);
    let stars = store.iter_stars();
    assert_eq!(stars.len(), 10);
    for (_, s) in stars.iter() {
        assert!(15_000 <= s.position.x && s.position.x <= 785_000);
        assert!(15_000 <= s.position.y && s.position.y <= 585_000);
    }
}

#[test]
fn walking_onto_a_star_scores_exactly_one() {
    // Ten stars in a spread-out row; the player stands exactly on the
    // fourth one.
    let mut store = EntityStore::new();
    let mut star_ids = Vec::new();
    for k in 0..10i64 {
        star_ids.push(store.create_star(Vec2 { x: 32_000 + k * 70_000, y: 100_000 }));
    }
    let target = Vec2 { x: 32_000 + 3 * 70_000, y: 100_000 };
    store.create_player(target);
    let mut score = Score { value: 0 };
    player_hit_star(&mut store, &mut score);
    assert_eq!(score.value, 1);
    let stars = store.iter_stars();
    assert_eq!(stars.len(), 9);
    assert!(stars.iter().all(|(id, _)| *id != star_ids[3]));
    // The other stars keep their order.
    let expected: Vec<u64> = star_ids
        .iter()
        .enumerate()
        .filter(|(k, _)| *k != 3)
        .map(|(_, id)| *id)
        .collect();
    let remaining: Vec<u64> = stars.iter().map(|(id, _)| *id).collect();
    assert_eq!(remaining, expected);
}

#[test]
fn overlapping_enemy_emits_one_game_over_with_current_score() {
    let mut store = EntityStore::new();
    store.create_player(Vec2 { x: 400_000, y: 300_000 });
    // Distance 10 world units, radius sum 64: fatal.
    store.create_enemy(Vec2 { x: 410_000, y: 300_000 }, Vec2 { x: 1000, y: 0 });
    // A second enemy far away: harmless.
    store.create_enemy(Vec2 { x: 700_000, y: 100_000 }, Vec2 { x: 1000, y: 0 });
    let score = Score { value: 3 };
    let mut events: Vec<GameOver> = Vec::new();
    enemy_hit_player(&mut store, &score, &mut events);
    assert_eq!(events.len(), 1);
    assert_eq!(events[0].score, 3);
    assert!(store.get_player().is_none());
}

#[test]
fn every_overlapping_enemy_emits_its_own_signal() {
    let mut store = EntityStore::new();
    store.create_player(Vec2 { x: 400_000, y: 300_000 });
    store.create_enemy(Vec2 { x: 410_000, y: 300_000 }, Vec2 { x: 1000, y: 0 });
    store.create_enemy(Vec2 { x: 400_000, y: 290_000 }, Vec2 { x: 0, y: 1000 });
    let score = Score { value: 8 };
    let mut events: Vec<GameOver> = Vec::new();
    enemy_hit_player(&mut store, &score, &mut events);
    assert_eq!(events.len(), 2);
    assert!(events.iter().all(|e| e.score == 8));
    assert!(store.get_player().is_none());
}

#[test]
fn fatal_collision_moves_the_game_to_game_over() {
    let arena = arena_800_by_600();
    let mut store = EntityStore::new();
    store.create_player(Vec2 { x: 400_000, y: 300_000 });
    store.create_enemy(Vec2 { x: 410_000, y: 300_000 }, Vec2 { x: 0, y: 0 });
    let mut game = running_game(store, 3);
    tick(&mut game, &arena, &FrameInput::none(), 0);
    assert_eq!(game.app_state, AppState::GameOver);
    assert!(game.store.get_player().is_none());
    assert_eq!(game.store.count_enemies(), 0);
    assert!(game.score.is_none());
    assert_eq!(game.high_scores.scores, vec![3]);
    assert!(game.player_destroyed_this_frame);
    assert!(game.game_over_events.is_empty());
}

#[test]
fn pause_freezes_positions_until_toggled_again() {
    let arena = arena_800_by_600();
    let mut store = EntityStore::new();
    store.create_player(Vec2 { x: 400_000, y: 300_000 });
    store.create_enemy(Vec2 { x: 700_000, y: 500_000 }, Vec2 { x: 707, y: 707 });
    let mut game = running_game(store, 0);

    // Toggling pause gates the systems of this very tick already.
    let mut pause = FrameInput::none();
    pause.pause_pressed = true;
    tick(&mut game, &arena, &pause, 100);
    assert_eq!(game.simulation_state, SimulationState::Paused);
    assert_eq!(game.store.get_player().unwrap().1.position, Vec2 { x: 400_000, y: 300_000 });
    assert_eq!(game.store.iter_enemies()[0].1.position, Vec2 { x: 700_000, y: 500_000 });

    // Held movement keys and elapsed time change nothing while paused.
    let mut held = FrameInput::none();
    held.right = true;
    tick(&mut game, &arena, &held, 500);
    tick(&mut game, &arena, &held, 500);
    assert_eq!(game.store.get_player().unwrap().1.position, Vec2 { x: 400_000, y: 300_000 });
    assert_eq!(game.store.iter_enemies()[0].1.position, Vec2 { x: 700_000, y: 500_000 });

    // Toggling again resumes: the same tick integrates movement.
    let mut resume_and_move = FrameInput::none();
    resume_and_move.pause_pressed = true;
    resume_and_move.right = true;
    tick(&mut game, &arena, &resume_and_move, 100);
    assert_eq!(game.simulation_state, SimulationState::Running);
    assert_eq!(game.store.get_player().unwrap().1.position, Vec2 { x: 450_000, y: 300_000 });
    assert_eq!(game.store.iter_enemies()[0].1.position, Vec2 { x: 714_140, y: 514_140 });
}

#[test]
fn menu_round_trip_resets_the_board() {
    let arena = arena_800_by_600();
    let mut game = Game::new();
    assert_eq!(game.app_state, AppState::MainMenu);

    let mut start = FrameInput::none();
    start.start_pressed = true;
    tick(&mut game, &arena, &start, 16);
    assert_eq!(game.app_state, AppState::Game);
    assert_eq!(game.simulation_state, SimulationState::Paused);
    assert_eq!(game.store.count_enemies(), 4);
    assert_eq!(game.store.count_stars(), 10);
    assert!(game.store.get_player().is_some());
    assert_eq!(game.score, Some(Score { value: 0 }));

    let mut menu = FrameInput::none();
    menu.menu_pressed = true;
    tick(&mut game, &arena, &menu, 16);
    assert_eq!(game.app_state, AppState::MainMenu);
    assert_eq!(game.store.count_enemies(), 0);
    assert_eq!(game.store.count_stars(), 0);
    assert!(game.store.get_player().is_none());
    assert!(game.score.is_none());

    // Re-entering the Game phase re-spawns exactly 4 enemies and 10 stars.
    tick(&mut game, &arena, &start, 16);
    assert_eq!(game.store.count_enemies(), 4);
    assert_eq!(game.store.count_stars(), 10);
    assert_eq!(game.score, Some(Score { value: 0 }));
}

#[test]
fn idle_main_menu_tick_changes_nothing() {
    let arena = arena_800_by_600();
    let mut game = Game::new();
    tick(&mut game, &arena, &FrameInput::none(), 1000);
    assert_eq!(game.app_state, AppState::MainMenu);
    assert_eq!(game.store.count_enemies(), 0);
    assert_eq!(game.store.count_stars(), 0);
    assert!(game.score.is_none());
    assert!(game.high_scores.scores.is_empty());
}

#[test]
fn enemy_spawn_timer_spawns_exactly_one_after_five_seconds() {
    let arena = arena_800_by_600();
    let mut store = EntityStore::new();
    let mut timer = EnemySpawnTimer::default();
    for frame in 1..=5 {
        tick_enemy_spawn_timer(&mut timer, 1000);
        spawn_enemies_over_time(&mut store, &timer, &arena);
        let expected = if frame < 5 { 0 } else { 1 };
        assert_eq!(store.count_enemies(), expected);
    }
    // Another five seconds: exactly one more.
    for _ in 0..5 {
        tick_enemy_spawn_timer(&mut timer, 1000);
        spawn_enemies_over_time(&mut store, &timer, &arena);
    }
    assert_eq!(store.count_enemies(), 2);
}

#[test]
fn running_ticks_spawn_stars_over_time() {
    let arena = arena_800_by_600();
    let mut store = EntityStore::new();
    store.create_player(Vec2 { x: 400_000, y: 300_000 });
    let mut game = running_game(store, 0);
    // Five seconds in one-second frames: five star spawns, one enemy spawn.
    for _ in 0..5 {
        tick(&mut game, &arena, &FrameInput::none(), 1000);
        if game.app_state != AppState::Game {
            // A randomly placed enemy may land on the player and end the
            // run; the spawn cadence itself is covered deterministically
            // in the timer tests.
            return;
        }
    }
    // A randomly placed star may land on the player and be collected in
    // the same frame: spawned stars are then live or already scored.
    let collected = game.score.unwrap().value as usize;
    assert_eq!(game.store.count_stars() + collected, 5);
    assert_eq!(game.store.count_enemies(), 1);
}

#[test]
fn high_scores_append_in_order() {
    let mut high = HighScores::new();
    let events = vec![GameOver { score: 2 }, GameOver { score: 9 }];
    update_high_scores_on_game_over(&events, &mut high);
    assert_eq!(high.scores, vec![2, 9]);
    let later = vec![GameOver { score: 4 }];
    update_high_scores_on_game_over(&later, &mut high);
    assert_eq!(high.scores, vec![2, 9, 4]);
}

#[test]
fn handle_game_over_drains_the_queue() {
    let mut store = EntityStore::new();
    store.create_player(Vec2 { x: 400_000, y: 300_000 });
    let mut game = running_game(store, 4);
    game.game_over_events.push(GameOver { score: 4 });
    handle_game_over(&mut game);
    assert_eq!(game.app_state, AppState::GameOver);
    assert_eq!(game.high_scores.scores, vec![4]);
    assert!(game.score.is_none());
    assert!(game.store.get_player().is_none());
    assert!(game.game_over_events.is_empty());
    assert_eq!(game.simulation_state, SimulationState::Running);
}

#[test]
fn toggle_only_works_in_game_phase() {
    let mut game = Game::new();
    let mut store = EntityStore::new();
    store.create_player(Vec2 { x: 400_000, y: 300_000 });
    // In the main menu the toggle does nothing.
    toggle_simulation(&mut game, true);
    assert_eq!(game.simulation_state, SimulationState::Running);
    // In the Game phase it flips the sub-state.
    let mut game = running_game(store, 0);
    toggle_simulation(&mut game, true);
    assert_eq!(game.simulation_state, SimulationState::Paused);
    toggle_simulation(&mut game, true);
    assert_eq!(game.simulation_state, SimulationState::Running);
    toggle_simulation(&mut game, false);
    assert_eq!(game.simulation_state, SimulationState::Running);
}

#[test]
fn leaving_game_over_for_the_menu_pauses() {
    let mut game = Game::new();
    game.app_state = AppState::GameOver;
    game.simulation_state = SimulationState::Running;
    transition_to_main_menu(&mut game, true);
    assert_eq!(game.app_state, AppState::MainMenu);
    assert_eq!(game.simulation_state, SimulationState::Paused);
}
