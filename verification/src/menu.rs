use vstd::prelude::*;
use crate::components::{Entity, Point, WantsToDropItem, WantsToUseItem};
use crate::map::in_bounds_pt;
use crate::state::{RunState, State, melee_intents_ok};
use crate::store::EntityStore;

verus! {

/// The three lines of the main menu.
#[derive(PartialEq, Eq, Structural, Clone, Copy, Debug)]
pub enum MainMenuSelection {
    NewGame,
    LoadGame,
    Quit,
}

impl Default for MainMenuSelection {
    fn default() -> (r: Self)
        ensures
            r == MainMenuSelection::NewGame,
    {
        MainMenuSelection::NewGame
    }
}

/// What the main-menu collaborator reports back each tick.
#[derive(PartialEq, Eq, Structural, Clone, Copy, Debug)]
pub enum MainMenuResult {
    NoSelection { selected: MainMenuSelection },
    Selected { selected: MainMenuSelection },
}

/// What an item menu (inventory or drop) reports back each tick.
#[derive(PartialEq, Eq, Structural, Clone, Copy, Debug)]
pub enum ItemMenuResult {
    Cancel,
    NoResponse,
    Selected(Entity),
}

/// What the targeting overlay reports back each tick.
#[derive(PartialEq, Eq, Structural, Clone, Copy, Debug)]
pub enum TargetMenuResult {
    Cancel,
    NoResponse,
    Selected(Point),
}

/// The menu line below `selection`, skipping LoadGame when there is no
/// save artifact.
pub open spec fn spec_selection_next(selection: MainMenuSelection, save_exists: bool)
    -> MainMenuSelection {
    match selection {
        MainMenuSelection::NewGame => if save_exists {
            MainMenuSelection::LoadGame
        } else {
            MainMenuSelection::Quit
        },
        MainMenuSelection::LoadGame => MainMenuSelection::Quit,
        MainMenuSelection::Quit => MainMenuSelection::NewGame,
    }
}

/// The menu line above `selection`, skipping LoadGame when there is no
/// save artifact.
pub open spec fn spec_selection_prev(selection: MainMenuSelection, save_exists: bool)
    -> MainMenuSelection {
    match selection {
        MainMenuSelection::NewGame => MainMenuSelection::Quit,
        MainMenuSelection::LoadGame => MainMenuSelection::NewGame,
        MainMenuSelection::Quit => if save_exists {
            MainMenuSelection::LoadGame
        } else {
            MainMenuSelection::NewGame
        },
    }
}

pub open spec fn selection_rank(selection: MainMenuSelection) -> int {
    match selection {
        MainMenuSelection::NewGame => 1,
        _ => 0,
    }
}

pub fn selection_next(selection: MainMenuSelection, save_exists: bool) -> (r: MainMenuSelection)
    ensures
        r == spec_selection_next(selection, save_exists),
    decreases selection_rank(selection),
{
    let next = match selection {
        MainMenuSelection::NewGame => MainMenuSelection::LoadGame,
        MainMenuSelection::LoadGame => MainMenuSelection::Quit,
        MainMenuSelection::Quit => MainMenuSelection::NewGame,
    };
    if !save_exists && next == MainMenuSelection::LoadGame {
        selection_next(next, save_exists)
    } else {
        next
    }
}

pub open spec fn selection_rank_prev(selection: MainMenuSelection) -> int {
    match selection {
        MainMenuSelection::Quit => 1,
        _ => 0,
    }
}

pub fn selection_prev(selection: MainMenuSelection, save_exists: bool) -> (r: MainMenuSelection)
    ensures
        r == spec_selection_prev(selection, save_exists),
    decreases selection_rank_prev(selection),
{
    let prev = match selection {
        MainMenuSelection::NewGame => MainMenuSelection::Quit,
        MainMenuSelection::LoadGame => MainMenuSelection::NewGame,
        MainMenuSelection::Quit => MainMenuSelection::LoadGame,
    };
    if !save_exists && prev == MainMenuSelection::LoadGame {
        selection_prev(prev, save_exists)
    } else {
        prev
    }
}

/// The player's backpack as the inventory menus list it: every alive,
/// named item owned by `owner`, in entity order.
pub open spec fn backpack_list(s: EntityStore, owner: int, upto: int) -> Seq<usize>
    decreases upto,
{
    if upto <= 0 {
        Seq::<usize>::empty()
    } else {
        let prev = backpack_list(s, owner, upto - 1);
        let e = upto - 1;
        if s.alive@[e] && s.in_backpack@[e] is Some && s.in_backpack@[e].unwrap().owner == owner
            && s.names@[e] is Some {
            prev.push(e as usize)
        } else {
            prev
        }
    }
}

/// The entities an item menu would list for `owner`.
pub fn backpack_items(state: &State, owner: Entity) -> (r: Vec<Entity>)
    requires
        state.store.wf(),
    ensures
        r@ == backpack_list(state.store, owner as int, state.store.n()),
{
    let n = state.store.alive.len();
    let mut out: Vec<Entity> = Vec::new();
    let mut e: usize = 0;
    while e < n
        invariant
            state.store.wf(),
            n == state.store.n(),
            0 <= e <= n,
            out@ == backpack_list(state.store, owner as int, e as int),
        decreases n - e,
    {
        let keep = state.store.alive[e] && state.store.in_backpack[e].is_some()
            && state.store.names[e].is_some();
        if keep {
            let bp = state.store.in_backpack[e].unwrap();
            if bp.owner == owner {
                out.push(e);
            }
        }
        e = e + 1;
    }
    out
}

/// Resolve an inventory-menu report: a ranged selection opens
/// targeting, any other selection queues a use intent for the player.
pub fn inventory_menu_transition(state: &mut State, result: ItemMenuResult) -> (r: RunState)
    requires
        old(state).inv(),
        melee_intents_ok(old(state).store),
    ensures
        final(state).inv(),
        melee_intents_ok(final(state).store),
        final(state).map == old(state).map,
        final(state).run_state == old(state).run_state,
        final(state).player_entity == old(state).player_entity,
        r == (match result {
            ItemMenuResult::NoResponse => RunState::ShowInventory,
            ItemMenuResult::Cancel => RunState::AwaitingInput,
            ItemMenuResult::Selected(entity) => if entity < old(state).store.n() {
                if old(state).store.ranged@[entity as int] is Some {
                    (RunState::ShowTargeting {
                        range: old(state).store.ranged@[entity as int].unwrap().range,
                        item: entity,
                    })
                } else {
                    RunState::PlayerTurn
                }
            } else {
                RunState::AwaitingInput
            }
        }),
        (match result {
            ItemMenuResult::Selected(entity) => entity < old(state).store.n() && old(state).store.ranged@[entity as int] is None ==> final(state).store.wants_use@[old(state).player_entity as int] == Some(WantsToUseItem { item: entity, target: None }),
            _ => *final(state) == *old(state),
        }),
{
    match result {
        ItemMenuResult::NoResponse => RunState::ShowInventory,
        ItemMenuResult::Cancel => RunState::AwaitingInput,
        ItemMenuResult::Selected(entity) => {
            if entity < state.store.alive.len() {
                let ranged_opt = state.store.ranged[entity];
                if let Some(is_ranged) = ranged_opt {
                    RunState::ShowTargeting { range: is_ranged.range, item: entity }
                } else {
                    let player = state.player_entity;
                    state.store.wants_use[player] = Some(
                        WantsToUseItem { item: entity, target: None },
                    );
                    RunState::PlayerTurn
                }
            } else {
                RunState::AwaitingInput
            }
        },
    }
}

/// Resolve a drop-menu report: a selection queues a drop intent.
pub fn drop_menu_transition(state: &mut State, result: ItemMenuResult) -> (r: RunState)
    requires
        old(state).inv(),
        melee_intents_ok(old(state).store),
    ensures
        final(state).inv(),
        melee_intents_ok(final(state).store),
        final(state).map == old(state).map,
        final(state).run_state == old(state).run_state,
        final(state).player_entity == old(state).player_entity,
        r == (match result {
            ItemMenuResult::NoResponse => RunState::ShowDropItem,
            ItemMenuResult::Cancel => RunState::AwaitingInput,
            ItemMenuResult::Selected(item) => if item < old(state).store.n() {
                RunState::PlayerTurn
            } else {
                RunState::AwaitingInput
            }
        }),
        (match result {
            ItemMenuResult::Selected(item) => item < old(state).store.n() ==> final(state).store.wants_drop@[old(state).player_entity as int] == Some(
                WantsToDropItem { item },
            ),
            _ => *final(state) == *old(state),
        }),
{
    match result {
        ItemMenuResult::NoResponse => RunState::ShowDropItem,
        ItemMenuResult::Cancel => RunState::AwaitingInput,
        ItemMenuResult::Selected(item) => {
            if item < state.store.alive.len() {
                let player = state.player_entity;
                state.store.wants_drop[player] = Some(WantsToDropItem { item });
                RunState::PlayerTurn
            } else {
                RunState::AwaitingInput
            }
        },
    }
}

/// Resolve a targeting report for a ranged item: a selected point in
/// bounds queues a targeted use intent.
pub fn targeting_transition(
    state: &mut State,
    range: i32,
    item: Entity,
    result: TargetMenuResult,
) -> (r: RunState)
    requires
        old(state).inv(),
        melee_intents_ok(old(state).store),
    ensures
        final(state).inv(),
        melee_intents_ok(final(state).store),
        final(state).map == old(state).map,
        final(state).run_state == old(state).run_state,
        final(state).player_entity == old(state).player_entity,
        r == (match result {
            TargetMenuResult::NoResponse => (RunState::ShowTargeting { range, item }),
            TargetMenuResult::Cancel => RunState::AwaitingInput,
            TargetMenuResult::Selected(target) => if item < old(state).store.n() && in_bounds_pt(
                (target.x as int, target.y as int),
            ) {
                RunState::PlayerTurn
            } else {
                RunState::AwaitingInput
            }
        }),
        (match result {
            TargetMenuResult::Selected(target) => (item < old(state).store.n() && in_bounds_pt(
                (target.x as int, target.y as int),
            )) ==> final(state).store.wants_use@[old(state).player_entity as int] == Some(
                WantsToUseItem { item, target: Some(target) },
            ),
            _ => *final(state) == *old(state),
        }),
{
    match result {
        TargetMenuResult::NoResponse => RunState::ShowTargeting { range, item },
        TargetMenuResult::Cancel => RunState::AwaitingInput,
        TargetMenuResult::Selected(target) => {
            if item < state.store.alive.len() && target.x >= 0 && target.x < 80 && target.y >= 0
                && target.y < 43 {
                let player = state.player_entity;
                state.store.wants_use[player] = Some(
                    WantsToUseItem { item, target: Some(target) },
                );
                RunState::PlayerTurn
            } else {
                RunState::AwaitingInput
            }
        },
    }
}


/// Resolve a main-menu report: a new game starts the pre-run phase; a
/// load hands over to input when the artifact restored (`load_ok`),
/// else falls back to a fresh menu; quitting is a process signal, not a
/// phase, so the menu stays as it was.
pub fn main_menu_transition(
    selection: MainMenuSelection,
    result: MainMenuResult,
    load_ok: bool,
) -> (r: RunState)
    ensures
        r == (match result {
            MainMenuResult::NoSelection { selected } => (RunState::MainMenu {
                menu_selection: selected,
            }),
            MainMenuResult::Selected { selected } => match selected {
                MainMenuSelection::NewGame => RunState::PreRun,
                MainMenuSelection::LoadGame => if load_ok {
                    RunState::AwaitingInput
                } else {
                    (RunState::MainMenu { menu_selection: MainMenuSelection::NewGame })
                },
                MainMenuSelection::Quit => (RunState::MainMenu { menu_selection: selection }),
            },
        }),
{
    match result {
        MainMenuResult::NoSelection { selected } => RunState::MainMenu {
            menu_selection: selected,
        },
        MainMenuResult::Selected { selected } => match selected {
            MainMenuSelection::NewGame => RunState::PreRun,
            MainMenuSelection::LoadGame => {
                if load_ok {
                    RunState::AwaitingInput
                } else {
                    RunState::MainMenu { menu_selection: MainMenuSelection::NewGame }
                }
            },
            MainMenuSelection::Quit => RunState::MainMenu { menu_selection: selection },
        },
    }
}

} // verus!
