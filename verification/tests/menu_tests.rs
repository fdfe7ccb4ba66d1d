use rogue_core::components::Point;
use rogue_core::map::{SIZE, TileType};
use rogue_core::menu::{
    backpack_items, drop_menu_transition, inventory_menu_transition, targeting_transition,
    ItemMenuResult, TargetMenuResult,
};
use rogue_core::state::{PlayerData, RunState, State};
use rogue_core::templates;

fn open_state() -> State {
    let mut state = State::new();
    state.map.tiles = vec![TileType::Floor; SIZE];
    state.map.blocked = vec![false; SIZE];
    let player = templates::create_player(&mut state.store, 10, 10);
    state.player_entity = player;
    state.player_data = PlayerData::new(10, 10);
    state.run_state = RunState::ShowInventory;
    state
}

#[test]
fn backpack_listing_returns_owned_items_in_entity_order() {
    let mut state = open_state();
    let player = state.player_entity;
    let a = templates::health_potion(&mut state.store, 10, 10);
    let b = templates::confusion_scroll(&mut state.store, 10, 10);
    let stray = templates::magic_missile_scroll(&mut state.store, 12, 12);
    for item in [a, b] {
        state.store.positions[item] = None;
        state.store.in_backpack[item] =
            Some(rogue_core::components::InBackpack { owner: player });
    }
    let listed = backpack_items(&state, player);
    assert_eq!(listed, vec![a, b]);
    assert!(!listed.contains(&stray));
}

#[test]
fn selecting_an_unranged_item_queues_a_self_use() {
    let mut state = open_state();
    let player = state.player_entity;
    let potion = templates::health_potion(&mut state.store, 10, 10);
    let next = inventory_menu_transition(&mut state, ItemMenuResult::Selected(potion));
    assert_eq!(next, RunState::PlayerTurn);
    let intent = state.store.wants_use[player].unwrap();
    assert_eq!(intent.item, potion);
    assert!(intent.target.is_none());
}

#[test]
fn selecting_a_ranged_item_opens_targeting() {
    let mut state = open_state();
    let scroll = templates::fireball_scroll(&mut state.store, 10, 10);
    let next = inventory_menu_transition(&mut state, ItemMenuResult::Selected(scroll));
    assert_eq!(
        next,
        RunState::ShowTargeting {
            range: 6,
            item: scroll
        }
    );
}

#[test]
fn cancelling_a_menu_returns_to_input() {
    let mut state = open_state();
    assert_eq!(
        inventory_menu_transition(&mut state, ItemMenuResult::Cancel),
        RunState::AwaitingInput
    );
    assert_eq!(
        drop_menu_transition(&mut state, ItemMenuResult::Cancel),
        RunState::AwaitingInput
    );
}

#[test]
fn selecting_a_drop_queues_the_drop_intent() {
    let mut state = open_state();
    let player = state.player_entity;
    let potion = templates::health_potion(&mut state.store, 10, 10);
    let next = drop_menu_transition(&mut state, ItemMenuResult::Selected(potion));
    assert_eq!(next, RunState::PlayerTurn);
    assert_eq!(state.store.wants_drop[player].unwrap().item, potion);
}

#[test]
fn selecting_a_target_queues_a_targeted_use() {
    let mut state = open_state();
    let player = state.player_entity;
    let scroll = templates::fireball_scroll(&mut state.store, 10, 10);
    let next = targeting_transition(
        &mut state,
        6,
        scroll,
        TargetMenuResult::Selected(Point { x: 14, y: 10 }),
    );
    assert_eq!(next, RunState::PlayerTurn);
    let intent = state.store.wants_use[player].unwrap();
    assert_eq!(intent.item, scroll);
    let target = intent.target.unwrap();
    assert_eq!((target.x, target.y), (14, 10));
}

#[test]
fn targeting_without_a_response_stays_in_targeting() {
    let mut state = open_state();
    let scroll = templates::fireball_scroll(&mut state.store, 10, 10);
    assert_eq!(
        targeting_transition(&mut state, 6, scroll, TargetMenuResult::NoResponse),
        RunState::ShowTargeting {
            range: 6,
            item: scroll
        }
    );
}
