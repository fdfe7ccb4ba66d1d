use vstd::prelude::*;
use crate::components::{
    AreaOfEffect, CombatStats, ColorRgb, Confusion, Entity, InflictsDamage, Name, Position,
    ProvidesHealing, Ranged, Renderable, Viewshed,
};
use crate::rng::GameRng;
use crate::store::EntityStore;
use crate::text::string_of;

verus! {

pub const RENDER_ORDER_PLAYER: i32 = 0;

pub const RENDER_ORDER_MONSTER: i32 = 1;

pub const RENDER_ORDER_ITEM: i32 = 2;

/// Entity `e` is a freshly spawned creature or item standing at `(x, y)`
/// with no intents, no backpack membership and no pending damage.
pub open spec fn fresh_row_base(s: EntityStore, e: int, x: i32, y: i32) -> bool {
    &&& s.alive@[e]
    &&& s.positions@[e] == Some(Position { x, y })
    &&& !s.players@[e]
    &&& s.wants_melee@[e] is None
    &&& s.wants_pickup@[e] is None
    &&& s.wants_use@[e] is None
    &&& s.wants_drop@[e] is None
    &&& s.in_backpack@[e] is None
    &&& s.suffer_damage@[e] is None
}

/// Entity `e` is a monster as the bestiary spawns it: viewshed of range
/// 8, blocking, 16 hp, defense 1, power 4.
pub open spec fn monster_row(s: EntityStore, e: int, x: i32, y: i32, glyph: u16, name: Seq<
    char,
>) -> bool {
    &&& fresh_row_base(s, e, x, y)
    &&& s.renderables@[e] == Some(
        Renderable {
            glyph,
            fg: (ColorRgb { r: 255, g: 0, b: 0 }),
            bg: (ColorRgb { r: 0, g: 0, b: 0 }),
            render_order: RENDER_ORDER_MONSTER,
        },
    )
    &&& s.viewsheds@[e] is Some
    &&& s.viewsheds@[e].unwrap().range == 8
    &&& s.viewsheds@[e].unwrap().dirty
    &&& s.viewsheds@[e].unwrap().visible_tiles@.len() == 0
    &&& s.monsters@[e]
    &&& s.names@[e] is Some
    &&& s.names@[e].unwrap().name@ == name
    &&& s.blocks_tile@[e]
    &&& s.combat_stats@[e] == Some(CombatStats { max_hp: 16, hp: 16, defense: 1, power: 4 })
    &&& !s.items@[e]
    &&& !s.consumables@[e]
    &&& s.ranged@[e] is None
    &&& s.inflicts_damage@[e] is None
    &&& s.aoe@[e] is None
    &&& s.provides_healing@[e] is None
    &&& s.confusion@[e] is None
}

/// Entity `e` is the player as created at session start.
pub open spec fn player_row(s: EntityStore, e: int, x: i32, y: i32) -> bool {
    &&& s.alive@[e]
    &&& s.positions@[e] == Some(Position { x, y })
    &&& s.players@[e]
    &&& s.renderables@[e] == Some(
        Renderable {
            glyph: 64,
            fg: (ColorRgb { r: 255, g: 255, b: 0 }),
            bg: (ColorRgb { r: 0, g: 0, b: 0 }),
            render_order: RENDER_ORDER_PLAYER,
        },
    )
    &&& s.viewsheds@[e] is Some
    &&& s.viewsheds@[e].unwrap().range == 8
    &&& s.viewsheds@[e].unwrap().dirty
    &&& s.viewsheds@[e].unwrap().visible_tiles@.len() == 0
    &&& !s.monsters@[e]
    &&& s.names@[e] is Some
    &&& s.names@[e].unwrap().name@ == "Player"@
    &&& !s.blocks_tile@[e]
    &&& s.combat_stats@[e] == Some(CombatStats { max_hp: 30, hp: 30, defense: 2, power: 5 })
    &&& !s.items@[e]
    &&& !s.consumables@[e]
    &&& s.ranged@[e] is None
    &&& s.inflicts_damage@[e] is None
    &&& s.aoe@[e] is None
    &&& s.provides_healing@[e] is None
    &&& s.wants_melee@[e] is None
    &&& s.wants_pickup@[e] is None
    &&& s.wants_use@[e] is None
    &&& s.wants_drop@[e] is None
    &&& s.in_backpack@[e] is None
    &&& s.suffer_damage@[e] is None
    &&& s.confusion@[e] is None
}

/// Entity `e` is an item with the given glyph, color and name; the
/// capability components are stated per item kind.
pub open spec fn item_row_base(s: EntityStore, e: int, x: i32, y: i32, glyph: u16, fg: ColorRgb, name: Seq<
    char,
>) -> bool {
    &&& fresh_row_base(s, e, x, y)
    &&& s.renderables@[e] == Some(
        Renderable {
            glyph,
            fg,
            bg: (ColorRgb { r: 0, g: 0, b: 0 }),
            render_order: RENDER_ORDER_ITEM,
        },
    )
    &&& s.viewsheds@[e] is None
    &&& !s.monsters@[e]
    &&& s.names@[e] is Some
    &&& s.names@[e].unwrap().name@ == name
    &&& !s.blocks_tile@[e]
    &&& s.combat_stats@[e] is None
    &&& s.items@[e]
}

pub open spec fn health_potion_row(s: EntityStore, e: int, x: i32, y: i32) -> bool {
    &&& item_row_base(s, e, x, y, 173, (ColorRgb { r: 255, g: 0, b: 255 }), "Health Potion"@)
    &&& s.provides_healing@[e] == Some(ProvidesHealing { heal_amount: 8 })
    &&& s.consumables@[e]
    &&& s.ranged@[e] is None
    &&& s.inflicts_damage@[e] is None
    &&& s.aoe@[e] is None
    &&& s.confusion@[e] is None
}

pub open spec fn magic_missile_scroll_row(s: EntityStore, e: int, x: i32, y: i32) -> bool {
    &&& item_row_base(
        s,
        e,
        x,
        y,
        41,
        (ColorRgb { r: 0, g: 255, b: 255 }),
        "Magic Missile Scroll"@,
    )
    &&& s.provides_healing@[e] is None
    &&& s.consumables@[e]
    &&& s.ranged@[e] == Some(Ranged { range: 6 })
    &&& s.inflicts_damage@[e] == Some(InflictsDamage { damage: 8 })
    &&& s.aoe@[e] is None
    &&& s.confusion@[e] is None
}

pub open spec fn fireball_scroll_row(s: EntityStore, e: int, x: i32, y: i32) -> bool {
    &&& item_row_base(s, e, x, y, 41, (ColorRgb { r: 255, g: 165, b: 0 }), "Fireball Scroll"@)
    &&& s.provides_healing@[e] is None
    &&& s.consumables@[e]
    &&& s.ranged@[e] == Some(Ranged { range: 6 })
    &&& s.inflicts_damage@[e] == Some(InflictsDamage { damage: 20 })
    &&& s.aoe@[e] == Some(AreaOfEffect { radius: 3 })
    &&& s.confusion@[e] is None
}

pub open spec fn confusion_scroll_row(s: EntityStore, e: int, x: i32, y: i32) -> bool {
    &&& item_row_base(s, e, x, y, 41, (ColorRgb { r: 255, g: 192, b: 203 }), "Confusion Scroll"@)
    &&& s.provides_healing@[e] is None
    &&& s.consumables@[e]
    &&& s.ranged@[e] == Some(Ranged { range: 6 })
    &&& s.inflicts_damage@[e] is None
    &&& s.aoe@[e] is None
    &&& s.confusion@[e] == Some(Confusion { turns: 4 })
}

/// The common frame of every template: the store stays well formed, one
/// entity is appended, and no existing row changes.
pub open spec fn spawn_frame(s1: EntityStore, s2: EntityStore) -> bool {
    &&& s2.wf()
    &&& s2.n() == s1.n() + 1
    &&& forall|j: int| 0 <= j < s1.n() ==> EntityStore::row_eq(s1, s2, j)
    &&& s2.pending_delete@ == s1.pending_delete@
}

/// Create the player entity.
pub fn create_player(world: &mut EntityStore, x: i32, y: i32) -> (e: Entity)
    requires
        old(world).wf(),
    ensures
        spawn_frame(*old(world), *final(world)),
        e == old(world).n(),
        player_row(*final(world), e as int, x, y),
{
    let e = world.create_entity();
    world.positions[e] = Some(Position { x, y });
    world.renderables[e] = Some(
        Renderable {
            glyph: 64,
            fg: ColorRgb { r: 255, g: 255, b: 0 },
            bg: ColorRgb { r: 0, g: 0, b: 0 },
            render_order: RENDER_ORDER_PLAYER,
        },
    );
    world.viewsheds[e] = Some(Viewshed::new(8));
    world.players[e] = true;
    world.names[e] = Some(Name::new(string_of("Player")));
    world.combat_stats[e] = Some(CombatStats::new(30, 2, 5));
    e
}

/// Create one monster of the given glyph and name.
fn monster(ecs: &mut EntityStore, x: i32, y: i32, glyph: u16, name: &str) -> (e: Entity)
    requires
        old(ecs).wf(),
    ensures
        spawn_frame(*old(ecs), *final(ecs)),
        e == old(ecs).n(),
        monster_row(*final(ecs), e as int, x, y, glyph, name@),
{
    let e = ecs.create_entity();
    ecs.positions[e] = Some(Position { x, y });
    ecs.renderables[e] = Some(
        Renderable {
            glyph,
            fg: ColorRgb { r: 255, g: 0, b: 0 },
            bg: ColorRgb { r: 0, g: 0, b: 0 },
            render_order: RENDER_ORDER_MONSTER,
        },
    );
    ecs.viewsheds[e] = Some(Viewshed::new(8));
    ecs.monsters[e] = true;
    ecs.names[e] = Some(Name::new(string_of(name)));
    ecs.blocks_tile[e] = true;
    ecs.combat_stats[e] = Some(CombatStats::new(16, 1, 4));
    e
}

pub fn goblin(ecs: &mut EntityStore, x: i32, y: i32) -> (e: Entity)
    requires
        old(ecs).wf(),
    ensures
        spawn_frame(*old(ecs), *final(ecs)),
        e == old(ecs).n(),
        monster_row(*final(ecs), e as int, x, y, 103, "Goblin"@),
{
    monster(ecs, x, y, 103, "Goblin")
}

pub fn orc(ecs: &mut EntityStore, x: i32, y: i32) -> (e: Entity)
    requires
        old(ecs).wf(),
    ensures
        spawn_frame(*old(ecs), *final(ecs)),
        e == old(ecs).n(),
        monster_row(*final(ecs), e as int, x, y, 111, "Orc"@),
{
    monster(ecs, x, y, 111, "Orc")
}

/// Create a monster chosen at random: an orc on a 1, else a goblin.
pub fn create_monster(world: &mut EntityStore, rng: &mut GameRng, x: i32, y: i32) -> (e: Entity)
    requires
        old(world).wf(),
    ensures
        spawn_frame(*old(world), *final(world)),
        e == old(world).n(),
        monster_row(*final(world), e as int, x, y, 111, "Orc"@) || monster_row(
            *final(world),
            e as int,
            x,
            y,
            103,
            "Goblin"@,
        ),
{
    let roll = rng.roll_dice(1, 2);
    if roll == 1 {
        orc(world, x, y)
    } else {
        goblin(world, x, y)
    }
}

pub fn health_potion(ecs: &mut EntityStore, x: i32, y: i32) -> (e: Entity)
    requires
        old(ecs).wf(),
    ensures
        spawn_frame(*old(ecs), *final(ecs)),
        e == old(ecs).n(),
        health_potion_row(*final(ecs), e as int, x, y),
{
    let e = ecs.create_entity();
    ecs.positions[e] = Some(Position { x, y });
    ecs.renderables[e] = Some(
        Renderable {
            glyph: 173,
            fg: ColorRgb { r: 255, g: 0, b: 255 },
            bg: ColorRgb { r: 0, g: 0, b: 0 },
            render_order: RENDER_ORDER_ITEM,
        },
    );
    ecs.names[e] = Some(Name::new(string_of("Health Potion")));
    ecs.items[e] = true;
    ecs.provides_healing[e] = Some(ProvidesHealing { heal_amount: 8 });
    ecs.consumables[e] = true;
    e
}

pub fn magic_missile_scroll(ecs: &mut EntityStore, x: i32, y: i32) -> (e: Entity)
    requires
        old(ecs).wf(),
    ensures
        spawn_frame(*old(ecs), *final(ecs)),
        e == old(ecs).n(),
        magic_missile_scroll_row(*final(ecs), e as int, x, y),
{
    let e = ecs.create_entity();
    ecs.positions[e] = Some(Position { x, y });
    ecs.renderables[e] = Some(
        Renderable {
            glyph: 41,
            fg: ColorRgb { r: 0, g: 255, b: 255 },
            bg: ColorRgb { r: 0, g: 0, b: 0 },
            render_order: RENDER_ORDER_ITEM,
        },
    );
    ecs.names[e] = Some(Name::new(string_of("Magic Missile Scroll")));
    ecs.items[e] = true;
    ecs.consumables[e] = true;
    ecs.ranged[e] = Some(Ranged { range: 6 });
    ecs.inflicts_damage[e] = Some(InflictsDamage { damage: 8 });
    e
}

pub fn fireball_scroll(ecs: &mut EntityStore, x: i32, y: i32) -> (e: Entity)
    requires
        old(ecs).wf(),
    ensures
        spawn_frame(*old(ecs), *final(ecs)),
        e == old(ecs).n(),
        fireball_scroll_row(*final(ecs), e as int, x, y),
{
    let e = ecs.create_entity();
    ecs.positions[e] = Some(Position { x, y });
    ecs.renderables[e] = Some(
        Renderable {
            glyph: 41,
            fg: ColorRgb { r: 255, g: 165, b: 0 },
            bg: ColorRgb { r: 0, g: 0, b: 0 },
            render_order: RENDER_ORDER_ITEM,
        },
    );
    ecs.names[e] = Some(Name::new(string_of("Fireball Scroll")));
    ecs.items[e] = true;
    ecs.consumables[e] = true;
    ecs.ranged[e] = Some(Ranged { range: 6 });
    ecs.inflicts_damage[e] = Some(InflictsDamage { damage: 20 });
    ecs.aoe[e] = Some(AreaOfEffect { radius: 3 });
    e
}

pub fn confusion_scroll(ecs: &mut EntityStore, x: i32, y: i32) -> (e: Entity)
    requires
        old(ecs).wf(),
    ensures
        spawn_frame(*old(ecs), *final(ecs)),
        e == old(ecs).n(),
        confusion_scroll_row(*final(ecs), e as int, x, y),
{
    let e = ecs.create_entity();
    ecs.positions[e] = Some(Position { x, y });
    ecs.renderables[e] = Some(
        Renderable {
            glyph: 41,
            fg: ColorRgb { r: 255, g: 192, b: 203 },
            bg: ColorRgb { r: 0, g: 0, b: 0 },
            render_order: RENDER_ORDER_ITEM,
        },
    );
    ecs.names[e] = Some(Name::new(string_of("Confusion Scroll")));
    ecs.items[e] = true;
    ecs.consumables[e] = true;
    ecs.ranged[e] = Some(Ranged { range: 6 });
    ecs.confusion[e] = Some(Confusion { turns: 4 });
    e
}

/// Create an item chosen uniformly from the four item kinds.
pub fn random_item(ecs: &mut EntityStore, rng: &mut GameRng, x: i32, y: i32) -> (e: Entity)
    requires
        old(ecs).wf(),
    ensures
        spawn_frame(*old(ecs), *final(ecs)),
        e == old(ecs).n(),
        health_potion_row(*final(ecs), e as int, x, y) || magic_missile_scroll_row(
            *final(ecs),
            e as int,
            x,
            y,
        ) || fireball_scroll_row(*final(ecs), e as int, x, y) || confusion_scroll_row(
            *final(ecs),
            e as int,
            x,
            y,
        ),
{
    let roll = rng.roll_dice(1, 4);
    match roll {
        1 => magic_missile_scroll(ecs, x, y),
        2 => fireball_scroll(ecs, x, y),
        3 => confusion_scroll(ecs, x, y),
        _ => health_potion(ecs, x, y),
    }
}

} // verus!
