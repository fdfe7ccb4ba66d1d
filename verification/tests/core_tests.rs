use rogue_core::components::Point;
use rogue_core::fov::field_of_view;
use rogue_core::gamelog::GameLog;
use rogue_core::map::{generate_map, generate_map_with, GameMap, TileType, HEIGHT, SIZE, WIDTH};
use rogue_core::menu::{selection_next, selection_prev, MainMenuSelection};
use rogue_core::pathfinding::find_path;
use rogue_core::random_table::{RandomTable, SpawnKind};
use rogue_core::rect::Rect;
use rogue_core::rng::GameRng;

fn open_map() -> GameMap {
    let mut map = generate_map(1);
    map.tiles = vec![TileType::Floor; SIZE];
    map.blocked = vec![false; SIZE];
    map
}

fn first_center(map: &GameMap) -> (i32, i32) {
    let r = map.rooms[0];
    ((r.x1 + r.x2) / 2, (r.y1 + r.y2) / 2)
}

fn last_center(map: &GameMap) -> (i32, i32) {
    let r = map.rooms[map.rooms.len() - 1];
    ((r.x1 + r.x2) / 2, (r.y1 + r.y2) / 2)
}

fn idx(x: i32, y: i32) -> usize {
    (y * 80 + x) as usize
}

fn reachable_by_search(map: &GameMap, from: usize, to: usize) -> bool {
    let mut visited = vec![false; SIZE];
    let mut queue = vec![from];
    visited[from] = true;
    while let Some(cur) = queue.pop() {
        if cur == to {
            return true;
        }
        let x = (cur % 80) as i32;
        let y = (cur / 80) as i32;
        let deltas = [(0, 1), (0, -1), (1, 0), (-1, 0)];
        for (dx, dy) in deltas.iter() {
            let nx = x + dx;
            let ny = y + dy;
            if nx >= 0 && nx < 80 && ny >= 0 && ny < 43 {
                let ni = idx(nx, ny);
                if !visited[ni] && map.tiles[ni] != TileType::Wall {
                    visited[ni] = true;
                    queue.push(ni);
                }
            }
        }
    }
    false
}

#[test]
fn generated_map_has_exactly_one_downstairs() {
    for seed in 0..5u64 {
        let mut rng = GameRng::seeded(seed);
        let map = generate_map_with(1, &mut rng);
        let count = map
            .tiles
            .iter()
            .filter(|t| **t == TileType::DownStairs)
            .count();
        assert_eq!(count, 1);
        let (cx, cy) = last_center(&map);
        assert_eq!(map.tiles[idx(cx, cy)], TileType::DownStairs);
    }
}

#[test]
fn generated_stairs_are_reachable_from_first_room() {
    for seed in 0..5u64 {
        let mut rng = GameRng::seeded(seed);
        let map = generate_map_with(3, &mut rng);
        let (fx, fy) = first_center(&map);
        let (sx, sy) = last_center(&map);
        assert!(reachable_by_search(&map, idx(fx, fy), idx(sx, sy)));
    }
}

#[test]
fn generated_map_dimensions_and_bookkeeping() {
    let map = generate_map(1);
    assert_eq!(map.width, WIDTH);
    assert_eq!(map.height, HEIGHT);
    assert_eq!(map.tiles.len(), SIZE);
    assert_eq!(map.blocked.len(), SIZE);
    assert!(map.rooms.len() >= 1);
    assert_eq!(map.depth, 1);
    assert!(map.revealed_tiles.iter().all(|r| !r));
    assert!(map.visible_tiles.iter().all(|v| !v));
    assert!(map.tile_content.iter().all(|c| c.is_empty()));
}

#[test]
fn populate_blocked_marks_walls() {
    let mut map = generate_map(1);
    map.populate_blocked();
    for i in 0..SIZE {
        assert_eq!(map.blocked[i], map.tiles[i] == TileType::Wall);
    }
}

#[test]
fn clear_content_index_empties_every_tile() {
    let mut map = generate_map(1);
    map.tile_content[5].push(3);
    map.tile_content[100].push(7);
    map.clear_content_index();
    assert!(map.tile_content.iter().all(|c| c.is_empty()));
}

#[test]
fn xy_idx_is_row_major() {
    let map = generate_map(1);
    assert_eq!(map.xy_idx(0, 0), 0);
    assert_eq!(map.xy_idx(79, 0), 79);
    assert_eq!(map.xy_idx(0, 1), 80);
    assert_eq!(map.xy_idx(5, 2), 165);
}

#[test]
fn rect_center_and_intersection() {
    let a = Rect::new(10, 10, 6, 6);
    assert_eq!(a.center(), (13, 13));
    let b = Rect::new(14, 14, 6, 6);
    let c = Rect::new(30, 30, 6, 6);
    assert!(a.intersect(&b));
    assert!(!a.intersect(&c));
}

#[test]
fn visibility_is_symmetric_on_an_empty_map() {
    let map = open_map();
    let a = Point { x: 10, y: 10 };
    let range = 8;
    let seen_from_a = field_of_view(&map, a, range);
    for p in seen_from_a.iter() {
        let back = field_of_view(&map, *p, range);
        assert!(back.iter().any(|q| q.x == a.x && q.y == a.y));
    }
}

#[test]
fn visibility_respects_range_on_an_empty_map() {
    let map = open_map();
    let a = Point { x: 20, y: 20 };
    let seen = field_of_view(&map, a, 4);
    for p in seen.iter() {
        let d2 = (p.x - a.x) * (p.x - a.x) + (p.y - a.y) * (p.y - a.y);
        assert!(d2 <= 16);
    }
    assert!(!seen.iter().any(|p| p.x == 25 && p.y == 20));
    assert!(seen.iter().any(|p| p.x == 24 && p.y == 20));
}

#[test]
fn walls_block_line_of_sight() {
    let mut map = open_map();
    // a vertical wall column between viewer and target
    for y in 0..43 {
        map.tiles[idx(15, y)] = TileType::Wall;
    }
    let seen = field_of_view(&map, Point { x: 10, y: 20 }, 8);
    assert!(!seen.iter().any(|p| p.x == 17 && p.y == 20));
    // the wall itself is visible
    assert!(seen.iter().any(|p| p.x == 15 && p.y == 20));
}

#[test]
fn direct_path_cost_matches_chebyshev_weighted_distance() {
    let mut map = open_map();
    map.populate_blocked();
    // from (10,10) to (15,12): dx=5, dy=2 -> 100*5 + 45*2 = 590
    let path = find_path(&map, idx(10, 10), idx(15, 12)).expect("path should exist");
    assert_eq!(path[0], idx(10, 10));
    assert_eq!(*path.last().unwrap(), idx(15, 12));
    let mut cost = 0u32;
    for w in path.windows(2) {
        let (a, b) = (w[0], w[1]);
        let (ax, ay) = ((a % 80) as i32, (a / 80) as i32);
        let (bx, by) = ((b % 80) as i32, (b / 80) as i32);
        cost += if ax != bx && ay != by { 145 } else { 100 };
    }
    assert_eq!(cost, 590);
}

#[test]
fn no_path_is_returned_when_target_is_unreachable() {
    let mut map = open_map();
    // wall off a chamber around the target
    for x in 29..=33 {
        map.tiles[idx(x, 19)] = TileType::Wall;
        map.tiles[idx(x, 23)] = TileType::Wall;
    }
    for y in 19..=23 {
        map.tiles[idx(29, y)] = TileType::Wall;
        map.tiles[idx(33, y)] = TileType::Wall;
    }
    map.populate_blocked();
    assert!(find_path(&map, idx(10, 21), idx(31, 21)).is_none());
}

#[test]
fn path_steps_are_adjacent_and_unblocked() {
    let mut map = generate_map(2);
    map.populate_blocked();
    let (fx, fy) = first_center(&map);
    let (sx, sy) = last_center(&map);
    if let Some(path) = find_path(&map, idx(fx, fy), idx(sx, sy)) {
        for w in path.windows(2) {
            let (a, b) = (w[0], w[1]);
            let (ax, ay) = ((a % 80) as i32, (a / 80) as i32);
            let (bx, by) = ((b % 80) as i32, (b / 80) as i32);
            assert!((ax - bx).abs() <= 1 && (ay - by).abs() <= 1);
            assert!(!map.blocked[b]);
        }
    }
}

#[test]
fn menu_selection_cycles_with_a_save_present() {
    assert_eq!(
        selection_next(MainMenuSelection::NewGame, true),
        MainMenuSelection::LoadGame
    );
    assert_eq!(
        selection_next(MainMenuSelection::LoadGame, true),
        MainMenuSelection::Quit
    );
    assert_eq!(
        selection_next(MainMenuSelection::Quit, true),
        MainMenuSelection::NewGame
    );
    assert_eq!(
        selection_prev(MainMenuSelection::NewGame, true),
        MainMenuSelection::Quit
    );
    assert_eq!(
        selection_prev(MainMenuSelection::Quit, true),
        MainMenuSelection::LoadGame
    );
}

#[test]
fn menu_selection_skips_load_without_a_save() {
    assert_eq!(
        selection_next(MainMenuSelection::NewGame, false),
        MainMenuSelection::Quit
    );
    assert_eq!(
        selection_prev(MainMenuSelection::Quit, false),
        MainMenuSelection::NewGame
    );
}

#[test]
fn game_log_starts_with_greeting_and_appends() {
    let mut log = GameLog::new();
    assert_eq!(log.entries.len(), 1);
    assert_eq!(log.entries[0], "Hello to DF");
    log.log("hello".to_string());
    assert_eq!(log.entries.len(), 2);
    assert_eq!(log.entries[1], "hello");
}

#[test]
fn random_table_select_walks_weights_in_order() {
    let table = RandomTable::new()
        .add(SpawnKind::Goblin, 10)
        .add(SpawnKind::Orc, 5)
        .add(SpawnKind::HealthPotion, 7);
    assert_eq!(table.total_weight, 22);
    assert_eq!(table.select(1).kind, SpawnKind::Goblin);
    assert_eq!(table.select(10).kind, SpawnKind::Goblin);
    assert_eq!(table.select(11).kind, SpawnKind::Orc);
    assert_eq!(table.select(15).kind, SpawnKind::Orc);
    assert_eq!(table.select(16).kind, SpawnKind::HealthPotion);
    assert_eq!(table.select(22).kind, SpawnKind::HealthPotion);
}

#[test]
fn random_table_roll_is_none_only_for_an_empty_table() {
    let mut rng = GameRng::seeded(7);
    let empty = RandomTable::new();
    assert!(empty.roll(&mut rng).is_none());
    let table = RandomTable::new().add(SpawnKind::Goblin, 3);
    for _ in 0..20 {
        assert!(table.roll(&mut rng).is_some());
    }
}

#[test]
fn seeded_generation_is_deterministic() {
    let mut rng1 = GameRng::seeded(99);
    let mut rng2 = GameRng::seeded(99);
    let m1 = generate_map_with(1, &mut rng1);
    let m2 = generate_map_with(1, &mut rng2);
    assert_eq!(m1.tiles, m2.tiles);
    assert_eq!(m1.rooms.len(), m2.rooms.len());
}

#[test]
fn rng_roll_dice_stays_in_range() {
    let mut rng = GameRng::seeded(5);
    for _ in 0..200 {
        let v = rng.roll_dice(1, 6);
        assert!((1..=6).contains(&v));
        let w = rng.range(3, 9);
        assert!((3..9).contains(&w));
    }
}
