use vstd::prelude::*;

verus! {

/// An entity is a bare index into the store's columns. Indices are never
/// reused: deleting an entity clears its row but keeps the slot.
pub type Entity = usize;

/// A grid coordinate.
#[derive(Clone, Copy, PartialEq, Eq, Structural, Debug)]
pub struct Point {
    pub x: i32,
    pub y: i32,
}

impl Point {
    pub fn new(x: i32, y: i32) -> (r: Point)
        ensures
            r == (Point { x, y }),
    {
        Point { x, y }
    }
}

/// An RGB color with 8-bit channels, as the renderer consumes it.
#[derive(Clone, Copy, PartialEq, Eq, Structural, Debug)]
pub struct ColorRgb {
    pub r: u8,
    pub g: u8,
    pub b: u8,
}

impl ColorRgb {
    pub fn new(r: u8, g: u8, b: u8) -> (c: ColorRgb)
        ensures
            c == (ColorRgb { r, g, b }),
    {
        ColorRgb { r, g, b }
    }
}

/// Where an entity stands on the map.
#[derive(Clone, Copy, PartialEq, Eq, Structural, Debug)]
pub struct Position {
    pub x: i32,
    pub y: i32,
}

impl Position {
    pub fn new(x: i32, y: i32) -> (r: Position)
        ensures
            r == (Position { x, y }),
    {
        Position { x, y }
    }
}

/// How an entity is drawn: a code-page-437 glyph, colors, and a draw
/// priority (lower draws later, on top).
#[derive(Clone, Copy, PartialEq, Eq, Structural, Debug)]
pub struct Renderable {
    pub glyph: u16,
    pub fg: ColorRgb,
    pub bg: ColorRgb,
    pub render_order: i32,
}

impl Renderable {
    pub fn new(glyph: u16, fg: ColorRgb, bg: ColorRgb, render_order: i32) -> (r: Renderable)
        ensures
            r == (Renderable { glyph, fg, bg, render_order }),
    {
        Renderable { glyph, fg, bg, render_order }
    }
}

/// A display name.
pub struct Name {
    pub name: String,
}

impl Name {
    pub fn new(name: String) -> (r: Name)
        ensures
            r.name@ == name@,
    {
        Name { name }
    }

    /// The text of an optional name, or a placeholder for the nameless.
    pub fn unwrap<'a>(name: Option<&'a Name>) -> (r: &'a str)
        ensures
            match name {
                Some(n) => r@ == n.name@,
                None => r@ == "???"@,
            },
    {
        if let Some(name) = name {
            name.name.as_str()
        } else {
            "???"
        }
    }

    pub fn copy(&self) -> (r: Name)
        ensures
            r.name@ == self.name@,
    {
        Name { name: self.name.clone() }
    }
}

/// The set of tiles an entity currently sees, its sight radius, and a
/// flag asking for a recompute.
pub struct Viewshed {
    pub visible_tiles: Vec<Point>,
    pub range: i32,
    pub dirty: bool,
}

impl Viewshed {
    pub fn new(range: i32) -> (r: Viewshed)
        ensures
            r.visible_tiles@ =~= Seq::<Point>::empty(),
            r.range == range,
            r.dirty,
    {
        Viewshed { visible_tiles: Vec::new(), range, dirty: true }
    }

    pub fn copy(&self) -> (r: Viewshed)
        ensures
            r.visible_tiles@ == self.visible_tiles@,
            r.range == self.range,
            r.dirty == self.dirty,
    {
        let mut tiles: Vec<Point> = Vec::new();
        let mut i: usize = 0;
        while i < self.visible_tiles.len()
            invariant
                0 <= i <= self.visible_tiles.len(),
                tiles@ == self.visible_tiles@.subrange(0, i as int),
            decreases self.visible_tiles.len() - i,
        {
            tiles.push(self.visible_tiles[i]);
            i = i + 1;
        }
        assert(tiles@ =~= self.visible_tiles@);
        Viewshed { visible_tiles: tiles, range: self.range, dirty: self.dirty }
    }
}

/// Hit points and the melee formula's inputs.
#[derive(Clone, Copy, PartialEq, Eq, Structural, Debug)]
pub struct CombatStats {
    pub max_hp: i32,
    pub hp: i32,
    pub defense: i32,
    pub power: i32,
}

impl CombatStats {
    pub fn new(max_hp: i32, defense: i32, power: i32) -> (r: CombatStats)
        ensures
            r == (CombatStats { max_hp, hp: max_hp, defense, power }),
    {
        CombatStats { max_hp, hp: max_hp, defense, power }
    }
}

/// Damage amounts queued against an entity this turn, applied and
/// cleared in one sweep by the damage stage.
pub struct SufferDamage {
    pub amount: Vec<i32>,
}

impl SufferDamage {
    /// Queue one more hit against `victim`, starting its pending list if
    /// this is the first hit of the turn.
    pub fn new_damage(store: &mut Vec<Option<SufferDamage>>, victim: Entity, amount: i32)
        requires
            victim < old(store)@.len(),
        ensures
            final(store)@.len() == old(store)@.len(),
            final(store)@[victim as int] is Some,
            final(store)@[victim as int].unwrap().amount@ == pending_of(
                old(store)@,
                victim as int,
            ).push(amount),
            forall|j: int|
                0 <= j < final(store)@.len() && j != victim ==> final(store)@[j] == old(
                    store,
                )@[j],
    {
        let slot = &mut store[victim];
        match slot {
            Some(suffering) => {
                suffering.amount.push(amount);
            },
            None => {
                let mut v: Vec<i32> = Vec::new();
                v.push(amount);
                *slot = Some(SufferDamage { amount: v });
            },
        }
    }

    pub fn copy(&self) -> (r: SufferDamage)
        ensures
            r.amount@ == self.amount@,
    {
        let mut v: Vec<i32> = Vec::new();
        let mut i: usize = 0;
        while i < self.amount.len()
            invariant
                0 <= i <= self.amount.len(),
                v@ == self.amount@.subrange(0, i as int),
            decreases self.amount.len() - i,
        {
            v.push(self.amount[i]);
            i = i + 1;
        }
        assert(v@ =~= self.amount@);
        SufferDamage { amount: v }
    }
}

/// The damage amounts pending against entity `e`, the empty sequence when
/// none are queued.
pub open spec fn pending_of(s: Seq<Option<SufferDamage>>, e: int) -> Seq<i32> {
    match s[e] {
        Some(sd) => sd.amount@,
        None => Seq::<i32>::empty(),
    }
}

/// Marks the player entity.
#[derive(Clone, Copy, PartialEq, Eq, Structural, Debug)]
pub struct Player {}

/// Marks a hostile entity driven by the monster AI.
#[derive(Clone, Copy, PartialEq, Eq, Structural, Debug)]
pub struct Monster {}

impl Monster {
    pub fn new() -> (r: Monster)
        ensures
            r == (Monster {}),
    {
        Monster {}
    }
}

/// Marks an entity that makes its tile impassable.
#[derive(Clone, Copy, PartialEq, Eq, Structural, Debug)]
pub struct BlocksTile {}

/// Marks an entity that can be picked up.
#[derive(Clone, Copy, PartialEq, Eq, Structural, Debug)]
pub struct Item {}

/// Marks an item that is deleted after one use.
#[derive(Clone, Copy, PartialEq, Eq, Structural, Debug)]
pub struct Consumable {}

/// An item usable at a targeted point within this range.
#[derive(Clone, Copy, PartialEq, Eq, Structural, Debug)]
pub struct Ranged {
    pub range: i32,
}

/// An item that queues this much damage against each target.
#[derive(Clone, Copy, PartialEq, Eq, Structural, Debug)]
pub struct InflictsDamage {
    pub damage: i32,
}

/// An item whose effect covers a blast of this radius around the target.
#[derive(Clone, Copy, PartialEq, Eq, Structural, Debug)]
pub struct AreaOfEffect {
    pub radius: i32,
}

/// An entity too confused to act for this many more turns.
#[derive(Clone, Copy, PartialEq, Eq, Structural, Debug)]
pub struct Confusion {
    pub turns: i32,
}

/// An item that restores this many hit points, clamped to the maximum.
#[derive(Clone, Copy, PartialEq, Eq, Structural, Debug)]
pub struct ProvidesHealing {
    pub heal_amount: i32,
}

/// Membership of an item in some entity's backpack.
#[derive(Clone, Copy, PartialEq, Eq, Structural, Debug)]
pub struct InBackpack {
    pub owner: Entity,
}

impl InBackpack {
    pub fn new(owner: Entity) -> (r: InBackpack)
        ensures
            r == (InBackpack { owner }),
    {
        InBackpack { owner }
    }
}

/// Intent: this entity wants to strike `target` in melee this turn.
#[derive(Clone, Copy, PartialEq, Eq, Structural, Debug)]
pub struct WantsToMelee {
    pub target: Entity,
}

/// Intent: `collected_by` wants to put `item` into its backpack.
#[derive(Clone, Copy, PartialEq, Eq, Structural, Debug)]
pub struct WantsToPickupItem {
    pub collected_by: Entity,
    pub item: Entity,
}

impl WantsToPickupItem {
    pub fn new(collected_by: Entity, item: Entity) -> (r: WantsToPickupItem)
        ensures
            r == (WantsToPickupItem { collected_by, item }),
    {
        WantsToPickupItem { collected_by, item }
    }
}

/// Intent: use `item`, aimed at `target` when the item is ranged.
#[derive(Clone, Copy, PartialEq, Eq, Structural, Debug)]
pub struct WantsToUseItem {
    pub item: Entity,
    pub target: Option<Point>,
}

impl WantsToUseItem {
    pub fn new(item: Entity) -> (r: WantsToUseItem)
        ensures
            r == (WantsToUseItem { item, target: None }),
    {
        WantsToUseItem { item, target: None }
    }

    pub fn on(item: Entity, target: Option<Point>) -> (r: WantsToUseItem)
        ensures
            r == (WantsToUseItem { item, target }),
    {
        WantsToUseItem { item, target }
    }
}

/// Intent: drop `item` at the dropper's feet.
#[derive(Clone, Copy, PartialEq, Eq, Structural, Debug)]
pub struct WantsToDropItem {
    pub item: Entity,
}

} // verus!
