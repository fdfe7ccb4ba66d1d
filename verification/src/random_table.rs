use vstd::prelude::*;
use crate::rng::GameRng;

verus! {

/// What a spawn roll can produce. The roll step picks a variant; the
/// spawner dispatches on it to build the entity.
#[derive(PartialEq, Eq, Structural, Clone, Copy, Debug)]
pub enum SpawnKind {
    Goblin,
    Orc,
    HealthPotion,
    FireballScroll,
    ConfusionScroll,
    MagicMissileScroll,
}

/// One weighted line of the spawn table.
#[derive(PartialEq, Eq, Structural, Clone, Copy, Debug)]
pub struct RandomEntry {
    pub kind: SpawnKind,
    pub weight: i32,
}

/// A weighted spawn table; a roll of `1..=total_weight` walks the lines
/// in order, subtracting weights until one is hit.
pub struct RandomTable {
    pub entries: Vec<RandomEntry>,
    pub total_weight: i32,
}

/// The sum of the weights of the given lines.
pub open spec fn sum_weights(entries: Seq<RandomEntry>) -> int
    decreases entries.len(),
{
    if entries.len() == 0 {
        0
    } else {
        entries[0].weight + sum_weights(entries.drop_first())
    }
}

/// The line a roll of `v` lands on: weights are subtracted in order
/// until the roll fits inside one.
pub open spec fn spec_pick(entries: Seq<RandomEntry>, v: int) -> RandomEntry
    decreases entries.len(),
{
    if entries.len() == 0 {
        RandomEntry { kind: SpawnKind::Goblin, weight: 0 }
    } else if v <= entries[0].weight {
        entries[0]
    } else {
        spec_pick(entries.drop_first(), v - entries[0].weight)
    }
}

proof fn lemma_sum_weights_nonneg(entries: Seq<RandomEntry>)
    requires
        forall|k: int| 0 <= k < entries.len() ==> (#[trigger] entries[k]).weight >= 0,
    ensures
        sum_weights(entries) >= 0,
    decreases entries.len(),
{
    if entries.len() > 0 {
        assert(forall|k: int|
            0 <= k < entries.drop_first().len() ==> (#[trigger] entries.drop_first()[k]).weight
                >= 0);
        lemma_sum_weights_nonneg(entries.drop_first());
    }
}

impl RandomTable {
    /// The recorded total matches the lines and no line has negative
    /// weight.
    pub open spec fn wf_table(self) -> bool {
        &&& self.total_weight == sum_weights(self.entries@)
        &&& forall|k: int| 0 <= k < self.entries@.len() ==> (#[trigger] self.entries@[k]).weight
            >= 0
    }

    pub fn new() -> (t: RandomTable)
        ensures
            t.wf_table(),
            t.entries@.len() == 0,
            t.total_weight == 0,
    {
        RandomTable { entries: Vec::new(), total_weight: 0 }
    }

    /// Append one weighted line.
    pub fn add(self, kind: SpawnKind, weight: i32) -> (t: RandomTable)
        requires
            self.wf_table(),
            0 <= weight,
            self.total_weight + weight <= i32::MAX,
        ensures
            t.wf_table(),
            t.entries@ == self.entries@.push(RandomEntry { kind, weight }),
            t.total_weight == self.total_weight + weight,
    {
        let mut entries = self.entries;
        let total = self.total_weight + weight;
        entries.push(RandomEntry { kind, weight });
        proof {
            lemma_sum_weights_push(self.entries@, (RandomEntry { kind, weight }));
        }
        RandomTable { entries, total_weight: total }
    }

    /// The line that the roll `v` selects; pure table walking, exact for
    /// every in-range roll.
    pub fn select(&self, v: i32) -> (r: RandomEntry)
        requires
            self.wf_table(),
            1 <= v <= self.total_weight,
        ensures
            r == spec_pick(self.entries@, v as int),
    {
        let mut roll = v;
        let mut index: usize = 0;
        proof {
            lemma_sum_weights_nonneg(self.entries@);
            assert(self.entries@.skip(0) =~= self.entries@);
        }
        while index < self.entries.len()
            invariant
                self.wf_table(),
                0 <= index <= self.entries@.len(),
                1 <= roll <= sum_weights(self.entries@.skip(index as int)),
                spec_pick(self.entries@, v as int) == spec_pick(
                    self.entries@.skip(index as int),
                    roll as int,
                ),
            decreases self.entries@.len() - index,
        {
            proof {
                assert(forall|k: int|
                    0 <= k < self.entries@.skip(index as int + 1).len() ==> (
                    #[trigger] self.entries@.skip(index as int + 1)[k]).weight >= 0);
                lemma_sum_weights_nonneg(self.entries@.skip(index as int + 1));
                assert(self.entries@.skip(index as int).drop_first() =~= self.entries@.skip(
                    index as int + 1,
                ));
            }
            if roll <= self.entries[index].weight {
                return self.entries[index];
            }
            roll = roll - self.entries[index].weight;
            index = index + 1;
        }
        proof {
            assert(self.entries@.skip(index as int) =~= Seq::<RandomEntry>::empty());
            assert(false);
        }
        vstd::pervasive::unreached()
    }

    /// Roll the table: nothing for an empty table, else the line that a
    /// random in-range roll selects.
    pub fn roll(&self, rng: &mut GameRng) -> (r: Option<RandomEntry>)
        requires
            self.wf_table(),
            self.total_weight < i32::MAX,
            self.entries@.len() > 0 ==> self.total_weight >= 1,
        ensures
            (r is None) == (self.entries@.len() == 0),
            r is Some ==> exists|v: int|
                1 <= v <= self.total_weight && r.unwrap() == #[trigger] spec_pick(
                    self.entries@,
                    v,
                ),
    {
        if self.entries.len() == 0 {
            return None;
        }
        let v = rng.roll_dice(1, self.total_weight);
        let picked = self.select(v);
        proof {
            assert(1 <= v as int <= self.total_weight && picked == spec_pick(
                self.entries@,
                v as int,
            ));
        }
        Some(picked)
    }
}

proof fn lemma_sum_weights_push(entries: Seq<RandomEntry>, e: RandomEntry)
    ensures
        sum_weights(entries.push(e)) == sum_weights(entries) + e.weight,
    decreases entries.len(),
{
    if entries.len() == 0 {
        assert(entries.push(e)[0] == e);
        assert(entries.push(e).drop_first() =~= Seq::<RandomEntry>::empty());
        assert(sum_weights(Seq::<RandomEntry>::empty()) == 0);
    } else {
        assert(entries.push(e)[0] == entries[0]);
        assert(entries.push(e).drop_first() =~= entries.drop_first().push(e));
        lemma_sum_weights_push(entries.drop_first(), e);
    }
}

} // verus!
