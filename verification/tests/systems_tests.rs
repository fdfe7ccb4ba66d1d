use rogue_core::components::{CombatStats, Point, SufferDamage, WantsToMelee, WantsToUseItem};
use rogue_core::map::{SIZE, TileType};
use rogue_core::player::{get_item, player_input, skip_turn, try_move_player, Command};
use rogue_core::menu::{main_menu_transition, MainMenuResult, MainMenuSelection};
use rogue_core::state::{tick_transition, PlayerData, RunState, State};
use rogue_core::system::damage::DamageSystem;
use rogue_core::system::inventory_system::{ItemDropSystem, ItemUseSystem};
use rogue_core::system::item_pickup::ItemCollectionSystem;
use rogue_core::system::map_indexing::MapIndexingSystem;
use rogue_core::system::melee_combat::MeleeCombatSystem;
use rogue_core::system::monster::MonsterAI;
use rogue_core::system::visibility::VisibilitySystem;
use rogue_core::system::run_systems;
use rogue_core::templates;

fn idx(x: i32, y: i32) -> usize {
    (y * 80 + x) as usize
}

/// A state on a fully open floor with the player at (10, 10).
fn open_state() -> State {
    let mut state = State::new();
    state.map.tiles = vec![TileType::Floor; SIZE];
    state.map.blocked = vec![false; SIZE];
    let player = templates::create_player(&mut state.store, 10, 10);
    state.player_entity = player;
    state.player_data = PlayerData::new(10, 10);
    state.run_state = RunState::AwaitingInput;
    state
}

#[test]
fn melee_formula_no_effect_at_equal_power_and_defense() {
    let mut state = open_state();
    let player = state.player_entity;
    let goblin = templates::goblin(&mut state.store, 11, 10);
    // attacker power 5 (player) against defense 5: no effect
    state.store.combat_stats[goblin] = Some(CombatStats {
        max_hp: 16,
        hp: 16,
        defense: 5,
        power: 4,
    });
    state.store.wants_melee[player] = Some(WantsToMelee { target: goblin });
    MeleeCombatSystem::run(&mut state);
    assert!(state.store.suffer_damage[goblin].is_none());
    assert_eq!(
        state.log.entries.last().unwrap(),
        "Player is unable to hurt Goblin"
    );
    assert!(state.store.wants_melee[player].is_none());
}

#[test]
fn melee_hit_queues_damage_and_logs_amount() {
    let mut state = open_state();
    let player = state.player_entity;
    let goblin = templates::goblin(&mut state.store, 11, 10);
    // player power 5 vs goblin defense 1: 4 damage
    state.store.wants_melee[player] = Some(WantsToMelee { target: goblin });
    MeleeCombatSystem::run(&mut state);
    let pending = state.store.suffer_damage[goblin].as_ref().unwrap();
    assert_eq!(pending.amount, vec![4]);
    assert_eq!(
        state.log.entries.last().unwrap(),
        "Player is hits Goblin, for 4 hp."
    );
}

#[test]
fn damage_accumulates_hits_of_three_and_five_to_eight() {
    let mut state = open_state();
    let goblin = templates::goblin(&mut state.store, 12, 10);
    SufferDamage::new_damage(&mut state.store.suffer_damage, goblin, 3);
    SufferDamage::new_damage(&mut state.store.suffer_damage, goblin, 5);
    assert_eq!(
        state.store.suffer_damage[goblin].as_ref().unwrap().amount,
        vec![3, 5]
    );
    DamageSystem::run(&mut state);
    assert_eq!(state.store.combat_stats[goblin].unwrap().hp, 16 - 8);
    assert!(state.store.suffer_damage[goblin].is_none());
}

#[test]
fn two_attackers_reduce_hp_by_exactly_the_sum() {
    let mut state = open_state();
    let player = state.player_entity;
    let g1 = templates::goblin(&mut state.store, 11, 10);
    let g2 = templates::goblin(&mut state.store, 9, 10);
    // player defense is 2: powers 5 and 7 give hits of 3 and 5
    state.store.combat_stats[g1] = Some(CombatStats {
        max_hp: 16,
        hp: 16,
        defense: 1,
        power: 5,
    });
    state.store.combat_stats[g2] = Some(CombatStats {
        max_hp: 16,
        hp: 16,
        defense: 1,
        power: 7,
    });
    state.store.wants_melee[g1] = Some(WantsToMelee { target: player });
    state.store.wants_melee[g2] = Some(WantsToMelee { target: player });
    MeleeCombatSystem::run(&mut state);
    assert_eq!(
        state.store.suffer_damage[player].as_ref().unwrap().amount,
        vec![3, 5]
    );
    DamageSystem::run(&mut state);
    assert_eq!(state.store.combat_stats[player].unwrap().hp, 30 - 8);
    assert!(state.store.suffer_damage[player].is_none());
}

#[test]
fn dead_monsters_are_swept_and_logged() {
    let mut state = open_state();
    let goblin = templates::goblin(&mut state.store, 11, 10);
    state.store.combat_stats[goblin] = Some(CombatStats {
        max_hp: 16,
        hp: 0,
        defense: 1,
        power: 4,
    });
    let player_died = DamageSystem::delete_the_dead(&mut state);
    assert!(!player_died);
    assert!(!state.store.alive[goblin]);
    assert_eq!(state.log.entries.last().unwrap(), "Goblin died.");
}

#[test]
fn player_death_is_signalled_without_deletion() {
    let mut state = open_state();
    let player = state.player_entity;
    state.store.combat_stats[player] = Some(CombatStats {
        max_hp: 30,
        hp: 0,
        defense: 2,
        power: 5,
    });
    let player_died = DamageSystem::delete_the_dead(&mut state);
    assert!(player_died);
    assert!(state.store.alive[player]);
}

#[test]
fn pickup_moves_item_into_backpack_and_logs() {
    let mut state = open_state();
    let player = state.player_entity;
    let potion = templates::health_potion(&mut state.store, 10, 10);
    get_item(&mut state);
    assert!(state.store.wants_pickup[player].is_some());
    ItemCollectionSystem::run(&mut state);
    assert!(state.store.positions[potion].is_none());
    assert_eq!(state.store.in_backpack[potion].unwrap().owner, player);
    assert_eq!(
        state.log.entries.last().unwrap(),
        "You pick up the Health Potion."
    );
    assert!(state.store.wants_pickup[player].is_none());
}

#[test]
fn pickup_with_nothing_underfoot_only_logs() {
    let mut state = open_state();
    let player = state.player_entity;
    get_item(&mut state);
    assert!(state.store.wants_pickup[player].is_none());
    assert_eq!(
        state.log.entries.last().unwrap(),
        "There is nothing here to pickup"
    );
}

#[test]
fn drop_puts_item_at_the_droppers_feet() {
    let mut state = open_state();
    let player = state.player_entity;
    let potion = templates::health_potion(&mut state.store, 10, 10);
    state.store.positions[potion] = None;
    state.store.in_backpack[potion] = Some(rogue_core::components::InBackpack { owner: player });
    state.store.wants_drop[player] = Some(rogue_core::components::WantsToDropItem { item: potion });
    ItemDropSystem::run(&mut state);
    let pos = state.store.positions[potion].unwrap();
    assert_eq!((pos.x, pos.y), (10, 10));
    assert!(state.store.in_backpack[potion].is_none());
    assert_eq!(
        state.log.entries.last().unwrap(),
        "You drop the Health Potion."
    );
}

#[test]
fn healing_potion_heals_up_to_the_maximum() {
    let mut state = open_state();
    let player = state.player_entity;
    let potion = templates::health_potion(&mut state.store, 10, 10);
    state.store.combat_stats[player] = Some(CombatStats {
        max_hp: 30,
        hp: 1,
        defense: 2,
        power: 5,
    });
    state.store.wants_use[player] = Some(WantsToUseItem {
        item: potion,
        target: None,
    });
    ItemUseSystem::run(&mut state);
    assert_eq!(state.store.combat_stats[player].unwrap().hp, 9);
    assert!(state
        .log
        .entries
        .last()
        .unwrap()
        .contains("You drink the Health Potion, healing 8"));
    state.store.maintain();
    assert!(!state.store.alive[potion]);
}

#[test]
fn aoe_consumable_is_removed_even_with_no_targets() {
    let mut state = open_state();
    let player = state.player_entity;
    let scroll = templates::fireball_scroll(&mut state.store, 10, 10);
    state.store.wants_use[player] = Some(WantsToUseItem {
        item: scroll,
        target: Some(Point { x: 40, y: 20 }),
    });
    ItemUseSystem::run(&mut state);
    // the effect found nobody, but the consumable is still queued to go
    assert!(state.store.pending_delete.contains(&scroll));
    state.store.maintain();
    assert!(!state.store.alive[scroll]);
    assert!(state.store.wants_use[player].is_none());
}

#[test]
fn aoe_damage_reaches_occupants_of_the_blast() {
    let mut state = open_state();
    let player = state.player_entity;
    let goblin = templates::goblin(&mut state.store, 30, 20);
    let scroll = templates::fireball_scroll(&mut state.store, 10, 10);
    MapIndexingSystem::run(&mut state);
    state.store.wants_use[player] = Some(WantsToUseItem {
        item: scroll,
        target: Some(Point { x: 30, y: 20 }),
    });
    ItemUseSystem::run(&mut state);
    assert_eq!(
        state.store.suffer_damage[goblin].as_ref().unwrap().amount,
        vec![20]
    );
    state.store.maintain();
    assert!(!state.store.alive[scroll]);
}

#[test]
fn confusion_scroll_confuses_the_tile_occupants() {
    let mut state = open_state();
    let player = state.player_entity;
    let goblin = templates::goblin(&mut state.store, 20, 10);
    let scroll = templates::confusion_scroll(&mut state.store, 10, 10);
    MapIndexingSystem::run(&mut state);
    state.store.wants_use[player] = Some(WantsToUseItem {
        item: scroll,
        target: Some(Point { x: 20, y: 10 }),
    });
    ItemUseSystem::run(&mut state);
    assert_eq!(state.store.confusion[goblin].unwrap().turns, 4);
    assert!(state
        .log
        .entries
        .iter()
        .any(|m| m == "You use Confusion Scroll on Goblin, confusing them."));
}

#[test]
fn visibility_recompute_clears_dirty_and_marks_bitmaps() {
    let mut state = open_state();
    let player = state.player_entity;
    assert!(state.store.viewsheds[player].as_ref().unwrap().dirty);
    VisibilitySystem::run(&mut state);
    let vs = state.store.viewsheds[player].as_ref().unwrap();
    assert!(!vs.dirty);
    assert!(vs.visible_tiles.iter().any(|p| p.x == 10 && p.y == 10));
    assert!(state.map.visible_tiles[idx(10, 10)]);
    assert!(state.map.revealed_tiles[idx(10, 10)]);
    // out of range tiles stay dark
    assert!(!state.map.visible_tiles[idx(40, 40)]);
}

#[test]
fn adjacent_monster_attacks_the_player() {
    let mut state = open_state();
    let player = state.player_entity;
    let goblin = templates::goblin(&mut state.store, 11, 10);
    state.run_state = RunState::MonsterTurn;
    MonsterAI::run(&mut state);
    assert_eq!(state.store.wants_melee[goblin].unwrap().target, player);
}

#[test]
fn seeing_monster_steps_toward_the_player() {
    let mut state = open_state();
    let goblin = templates::goblin(&mut state.store, 15, 10);
    state.run_state = RunState::MonsterTurn;
    VisibilitySystem::run(&mut state);
    MapIndexingSystem::run(&mut state);
    MonsterAI::run(&mut state);
    let pos = state.store.positions[goblin].unwrap();
    assert_eq!((pos.x, pos.y), (14, 10));
    assert!(state.store.viewsheds[goblin].as_ref().unwrap().dirty);
}

#[test]
fn confused_monster_loses_its_turn() {
    let mut state = open_state();
    let goblin = templates::goblin(&mut state.store, 11, 10);
    state.store.confusion[goblin] = Some(rogue_core::components::Confusion { turns: 2 });
    state.run_state = RunState::MonsterTurn;
    MonsterAI::run(&mut state);
    assert!(state.store.wants_melee[goblin].is_none());
    assert_eq!(state.store.confusion[goblin].unwrap().turns, 1);
    MonsterAI::run(&mut state);
    assert!(state.store.confusion[goblin].is_none());
}

#[test]
fn monster_ai_is_inactive_outside_the_monster_turn() {
    let mut state = open_state();
    let goblin = templates::goblin(&mut state.store, 11, 10);
    state.run_state = RunState::PlayerTurn;
    MonsterAI::run(&mut state);
    assert!(state.store.wants_melee[goblin].is_none());
}

#[test]
fn moving_into_an_open_tile_walks_the_player() {
    let mut state = open_state();
    let player = state.player_entity;
    try_move_player(1, 0, &mut state);
    let pos = state.store.positions[player].unwrap();
    assert_eq!((pos.x, pos.y), (11, 10));
    assert_eq!(
        (state.player_data.position.x, state.player_data.position.y),
        (11, 10)
    );
    assert!(state.store.viewsheds[player].as_ref().unwrap().dirty);
}

#[test]
fn moving_into_a_monster_queues_melee_instead() {
    let mut state = open_state();
    let player = state.player_entity;
    let goblin = templates::goblin(&mut state.store, 11, 10);
    MapIndexingSystem::run(&mut state);
    try_move_player(1, 0, &mut state);
    assert_eq!(state.store.wants_melee[player].unwrap().target, goblin);
    let pos = state.store.positions[player].unwrap();
    assert_eq!((pos.x, pos.y), (10, 10));
}

#[test]
fn moving_into_a_blocked_tile_does_nothing() {
    let mut state = open_state();
    let player = state.player_entity;
    state.map.tiles[idx(11, 10)] = TileType::Wall;
    state.map.populate_blocked();
    try_move_player(1, 0, &mut state);
    let pos = state.store.positions[player].unwrap();
    assert_eq!((pos.x, pos.y), (10, 10));
}

#[test]
fn waiting_heals_when_no_monster_is_in_sight() {
    let mut state = open_state();
    let player = state.player_entity;
    VisibilitySystem::run(&mut state);
    state.store.combat_stats[player] = Some(CombatStats {
        max_hp: 30,
        hp: 29,
        defense: 2,
        power: 5,
    });
    let next = skip_turn(&mut state);
    assert_eq!(next, RunState::PlayerTurn);
    assert_eq!(state.store.combat_stats[player].unwrap().hp, 30);
    // waiting never overshoots the maximum
    let _ = skip_turn(&mut state);
    assert_eq!(state.store.combat_stats[player].unwrap().hp, 30);
}

#[test]
fn waiting_next_to_a_monster_does_not_heal() {
    let mut state = open_state();
    let player = state.player_entity;
    templates::goblin(&mut state.store, 12, 10);
    VisibilitySystem::run(&mut state);
    MapIndexingSystem::run(&mut state);
    state.store.combat_stats[player] = Some(CombatStats {
        max_hp: 30,
        hp: 20,
        defense: 2,
        power: 5,
    });
    let _ = skip_turn(&mut state);
    assert_eq!(state.store.combat_stats[player].unwrap().hp, 20);
}

#[test]
fn input_commands_map_to_the_stated_phases() {
    let mut state = open_state();
    assert_eq!(
        player_input(&mut state, Command::OpenInventory),
        RunState::ShowInventory
    );
    assert_eq!(
        player_input(&mut state, Command::OpenDropMenu),
        RunState::ShowDropItem
    );
    assert_eq!(
        player_input(&mut state, Command::SaveAndExit),
        RunState::SaveGame
    );
    assert_eq!(
        player_input(&mut state, Command::Move { dx: 0, dy: 1 }),
        RunState::PlayerTurn
    );
}

#[test]
fn descend_requires_standing_on_the_stairs() {
    let mut state = open_state();
    assert_eq!(
        player_input(&mut state, Command::Descend),
        RunState::AwaitingInput
    );
    assert_eq!(
        state.log.entries.last().unwrap(),
        "There is no way down from here"
    );
    state.map.tiles[idx(10, 10)] = TileType::DownStairs;
    assert_eq!(
        player_input(&mut state, Command::Descend),
        RunState::NextLevel
    );
}

#[test]
fn full_pipeline_consumes_every_intent() {
    let mut state = open_state();
    let player = state.player_entity;
    templates::goblin(&mut state.store, 11, 10);
    state.run_state = RunState::MonsterTurn;
    run_systems(&mut state);
    assert!(state.store.wants_melee.iter().all(|w| w.is_none()));
    assert!(state.store.wants_use.iter().all(|w| w.is_none()));
    assert!(state.store.wants_pickup.iter().all(|w| w.is_none()));
    assert!(state.store.wants_drop.iter().all(|w| w.is_none()));
    assert!(state.store.pending_delete.is_empty());
    assert!(state.store.alive[player]);
}

#[test]
fn pipeline_resolves_a_monster_attack_into_damage() {
    let mut state = open_state();
    let player = state.player_entity;
    templates::goblin(&mut state.store, 11, 10);
    state.run_state = RunState::MonsterTurn;
    run_systems(&mut state);
    // goblin power 4 vs player defense 2: one hit of 2
    assert_eq!(state.store.combat_stats[player].unwrap().hp, 28);
}

#[test]
fn spawner_populates_rooms_beyond_the_first() {
    let mut state = State::new();
    state.setup();
    let player = state.player_entity;
    assert!(state.store.alive[player]);
    assert!(state.store.players[player]);
    // everything else spawned is a monster or an item, never a player
    for e in 0..state.store.alive.len() {
        if e != player {
            assert!(!state.store.players[e]);
        }
    }
}

#[test]
fn untargeted_use_heals_the_user_not_the_player() {
    let mut state = open_state();
    let player = state.player_entity;
    let goblin = templates::goblin(&mut state.store, 20, 10);
    let potion = templates::health_potion(&mut state.store, 20, 10);
    state.store.combat_stats[goblin] = Some(CombatStats {
        max_hp: 16,
        hp: 2,
        defense: 1,
        power: 4,
    });
    state.store.combat_stats[player] = Some(CombatStats {
        max_hp: 30,
        hp: 7,
        defense: 2,
        power: 5,
    });
    state.store.wants_use[goblin] = Some(WantsToUseItem {
        item: potion,
        target: None,
    });
    ItemUseSystem::run(&mut state);
    // the sole target of an untargeted use is the user
    assert_eq!(state.store.combat_stats[goblin].unwrap().hp, 10);
    assert_eq!(state.store.combat_stats[player].unwrap().hp, 7);
}

#[test]
fn targeted_use_without_area_hits_the_tile_occupants() {
    let mut state = open_state();
    let player = state.player_entity;
    let goblin = templates::goblin(&mut state.store, 25, 10);
    let scroll = templates::magic_missile_scroll(&mut state.store, 10, 10);
    MapIndexingSystem::run(&mut state);
    state.store.wants_use[player] = Some(WantsToUseItem {
        item: scroll,
        target: Some(Point { x: 25, y: 10 }),
    });
    ItemUseSystem::run(&mut state);
    assert_eq!(
        state.store.suffer_damage[goblin].as_ref().unwrap().amount,
        vec![8]
    );
    state.store.maintain();
    assert!(!state.store.alive[scroll]);
}

#[test]
fn tick_transition_advances_the_fixed_phases() {
    let stay = RunState::AwaitingInput;
    assert_eq!(
        tick_transition(RunState::PreRun, stay, false),
        RunState::AwaitingInput
    );
    assert_eq!(
        tick_transition(RunState::PlayerTurn, stay, false),
        RunState::MonsterTurn
    );
    assert_eq!(
        tick_transition(RunState::MonsterTurn, stay, false),
        RunState::AwaitingInput
    );
    assert_eq!(
        tick_transition(RunState::SaveGame, stay, false),
        RunState::MainMenu {
            menu_selection: MainMenuSelection::LoadGame
        }
    );
    assert_eq!(
        tick_transition(RunState::NextLevel, stay, false),
        RunState::PreRun
    );
    assert_eq!(
        tick_transition(RunState::AwaitingInput, RunState::ShowInventory, false),
        RunState::ShowInventory
    );
}

#[test]
fn player_death_overrides_any_transition() {
    assert_eq!(
        tick_transition(RunState::PlayerTurn, RunState::MonsterTurn, true),
        RunState::MainMenu {
            menu_selection: MainMenuSelection::NewGame
        }
    );
}

#[test]
fn main_menu_transition_follows_the_selection() {
    assert_eq!(
        main_menu_transition(
            MainMenuSelection::NewGame,
            MainMenuResult::Selected {
                selected: MainMenuSelection::NewGame
            },
            false,
        ),
        RunState::PreRun
    );
    assert_eq!(
        main_menu_transition(
            MainMenuSelection::LoadGame,
            MainMenuResult::Selected {
                selected: MainMenuSelection::LoadGame
            },
            true,
        ),
        RunState::AwaitingInput
    );
    assert_eq!(
        main_menu_transition(
            MainMenuSelection::LoadGame,
            MainMenuResult::Selected {
                selected: MainMenuSelection::LoadGame
            },
            false,
        ),
        RunState::MainMenu {
            menu_selection: MainMenuSelection::NewGame
        }
    );
    assert_eq!(
        main_menu_transition(
            MainMenuSelection::NewGame,
            MainMenuResult::NoSelection {
                selected: MainMenuSelection::Quit
            },
            false,
        ),
        RunState::MainMenu {
            menu_selection: MainMenuSelection::Quit
        }
    );
}
