use rogue_core::components::{CombatStats, InBackpack};
use rogue_core::map::{SIZE, TileType};
use rogue_core::saveload::{load_store, save_store};
use rogue_core::state::{RunState, State};
use rogue_core::templates;

fn prepared_state() -> State {
    let mut state = State::new();
    state.setup();
    state
}

fn names_equal(a: &State, b: &State) -> bool {
    a.store.names.len() == b.store.names.len()
        && a.store
            .names
            .iter()
            .zip(b.store.names.iter())
            .all(|(x, y)| match (x, y) {
                (Some(n1), Some(n2)) => n1.name == n2.name,
                (None, None) => true,
                _ => false,
            })
}

#[test]
fn save_and_load_round_trips_the_whole_population() {
    let state = prepared_state();
    let data = save_store(&state);
    let mut restored = State::new();
    let ok = load_store(&mut restored, data);
    assert!(ok);

    assert_eq!(restored.store.alive, state.store.alive);
    assert_eq!(restored.store.positions, state.store.positions);
    assert_eq!(restored.store.players, state.store.players);
    assert_eq!(restored.store.monsters, state.store.monsters);
    assert_eq!(restored.store.blocks_tile, state.store.blocks_tile);
    assert_eq!(restored.store.combat_stats, state.store.combat_stats);
    assert_eq!(restored.store.items, state.store.items);
    assert_eq!(restored.store.consumables, state.store.consumables);
    assert_eq!(restored.store.ranged, state.store.ranged);
    assert_eq!(restored.store.inflicts_damage, state.store.inflicts_damage);
    assert_eq!(restored.store.aoe, state.store.aoe);
    assert_eq!(restored.store.confusion, state.store.confusion);
    assert_eq!(restored.store.provides_healing, state.store.provides_healing);
    assert_eq!(restored.store.in_backpack, state.store.in_backpack);
    assert!(names_equal(&restored, &state));

    assert_eq!(restored.map.tiles, state.map.tiles);
    assert_eq!(restored.map.rooms, state.map.rooms);
    assert_eq!(restored.map.revealed_tiles, state.map.revealed_tiles);
    assert_eq!(restored.map.visible_tiles, state.map.visible_tiles);
    assert_eq!(restored.map.blocked, state.map.blocked);
    assert_eq!(restored.map.depth, state.map.depth);
    // the occupant index is never persisted: it comes back empty
    assert!(restored.map.tile_content.iter().all(|c| c.is_empty()));

    assert_eq!(restored.player_entity, state.player_entity);
    // the cached player position is rebuilt from the player's position
    // component on load
    let ppos = state.store.positions[state.player_entity].unwrap();
    assert_eq!(
        (restored.player_data.position.x, restored.player_data.position.y),
        (ppos.x, ppos.y)
    );
}

#[test]
fn saving_leaves_the_simulation_untouched() {
    let state = prepared_state();
    let alive_before = state.store.alive.clone();
    let tiles_before = state.map.tiles.clone();
    let _ = save_store(&state);
    assert_eq!(state.store.alive, alive_before);
    assert_eq!(state.map.tiles, tiles_before);
}

#[test]
fn a_truncated_artifact_is_rejected_whole() {
    let state = prepared_state();
    let mut data = save_store(&state);
    data.positions.pop();
    let mut fresh = State::new();
    fresh.run_state = RunState::AwaitingInput;
    let n_before = fresh.store.alive.len();
    let ok = load_store(&mut fresh, data);
    assert!(!ok);
    assert_eq!(fresh.store.alive.len(), n_before);
    assert_eq!(fresh.run_state, RunState::AwaitingInput);
}

#[test]
fn an_artifact_without_a_player_is_rejected() {
    let state = prepared_state();
    let mut data = save_store(&state);
    let player = state.player_entity;
    data.players[player] = false;
    let mut fresh = State::new();
    assert!(!load_store(&mut fresh, data));
}

#[test]
fn descending_keeps_the_player_and_backpack_and_nothing_else() {
    let mut state = prepared_state();
    let player = state.player_entity;

    // an item in the player's backpack
    let potion = templates::health_potion(&mut state.store, 10, 10);
    state.store.positions[potion] = None;
    state.store.in_backpack[potion] = Some(InBackpack { owner: player });

    // wound the player below half so the transition heal shows
    state.store.combat_stats[player] = Some(CombatStats {
        max_hp: 30,
        hp: 5,
        defense: 2,
        power: 5,
    });

    let others: Vec<usize> = (0..state.store.alive.len())
        .filter(|e| state.store.alive[*e] && *e != player && *e != potion)
        .collect();

    state.goto_next_level();

    assert_eq!(state.map.depth, 2);
    assert!(state.store.alive[player]);
    assert!(state.store.alive[potion]);
    assert_eq!(state.store.in_backpack[potion].unwrap().owner, player);
    assert!(state.store.consumables[potion]);
    for e in others {
        assert!(!state.store.alive[e]);
    }
    // hp is max(current, max/2)
    assert_eq!(state.store.combat_stats[player].unwrap().hp, 15);
    // a healthier player keeps the higher value
    state.store.combat_stats[player] = Some(CombatStats {
        max_hp: 30,
        hp: 28,
        defense: 2,
        power: 5,
    });
    state.goto_next_level();
    assert_eq!(state.store.combat_stats[player].unwrap().hp, 28);
    assert_eq!(state.map.depth, 3);

    // the player stands at the new first room's center
    let first = state.map.rooms[0];
    let pos = state.store.positions[player].unwrap();
    assert_eq!((pos.x, pos.y), ((first.x1 + first.x2) / 2, (first.y1 + first.y2) / 2));
    assert_eq!(
        (state.player_data.position.x, state.player_data.position.y),
        (pos.x, pos.y)
    );
}

#[test]
fn new_level_has_stairs_and_full_arrays() {
    let mut state = prepared_state();
    state.goto_next_level();
    let stairs = state
        .map
        .tiles
        .iter()
        .filter(|t| **t == TileType::DownStairs)
        .count();
    assert_eq!(stairs, 1);
    assert_eq!(state.map.tiles.len(), SIZE);
    assert!(state.map.tile_content.iter().all(|c| c.is_empty()));
}

#[test]
fn fresh_session_starts_in_the_main_menu() {
    let state = State::new();
    match state.run_state {
        RunState::MainMenu { menu_selection } => {
            assert_eq!(
                menu_selection,
                rogue_core::menu::MainMenuSelection::NewGame
            );
        }
        _ => panic!("expected the main menu"),
    }
}
