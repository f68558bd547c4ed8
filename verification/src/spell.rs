use vstd::prelude::*;

verus! {

/// Number of spell types in the game.
pub const SPELL_COUNT: usize = 64;

/// A spell type, identified by its index in the spell catalogue (0..64).
#[derive(Clone, Copy, Debug, PartialEq, Eq, Hash, Structural)]
pub struct SpellType(pub u8);

impl SpellType {
    /// The spell type with catalogue index `index`, if there is one.
    pub fn from_index(index: usize) -> (r: Option<SpellType>)
        ensures
            r is Some <==> index < SPELL_COUNT,
            r matches Some(t) ==> t.0 == index,
    {
        if index < SPELL_COUNT {
            Some(SpellType(index as u8))
        } else {
            None
        }
    }

    /// All spell types, in catalogue order.
    pub fn all() -> (v: Vec<SpellType>)
        ensures
            v@.len() == SPELL_COUNT,
            forall|i: int| 0 <= i < SPELL_COUNT ==> #[trigger] v@[i] == SpellType(i as u8),
    {
        let mut v: Vec<SpellType> = Vec::new();
        let mut i: usize = 0;
        while i < SPELL_COUNT
            invariant
                i <= SPELL_COUNT,
                v@.len() == i,
                forall|j: int| 0 <= j < i ==> #[trigger] v@[j] == SpellType(j as u8),
            decreases SPELL_COUNT - i,
        {
            v.push(SpellType(i as u8));
            i = i + 1;
        }
        v
    }

    /// The catalogue index of this spell type.
    pub fn id(&self) -> (i: u8)
        ensures
            i == self.0,
    {
        self.0
    }
}

/// A spell owned by the player: its type and its level (1 when found).
#[derive(Clone, Copy, Debug, PartialEq, Eq, Structural)]
pub struct Spell {
    pub spell_type: SpellType,
    pub level: u32,
}

/// The level after one level-up: one more, saturating at `u32::MAX`.
pub open spec fn next_level(level: u32) -> u32 {
    if level < u32::MAX {
        (level + 1) as u32
    } else {
        level
    }
}

/// A level-up adds exactly one level, except at the highest level, which it
/// keeps; a level-up never lowers a level.
pub proof fn law_level_up_adds_one(level: u32)
    ensures
        level < u32::MAX ==> next_level(level) == level + 1,
        level == u32::MAX ==> next_level(level) == u32::MAX,
        level <= next_level(level),
        next_level(level) - level <= 1,
{
}

impl Spell {
    /// A new spell of the given type at level 1.
    pub fn new(spell_type: SpellType) -> (s: Spell)
        ensures
            s.spell_type == spell_type,
            s.level == 1,
    {
        Spell { spell_type, level: 1 }
    }

    /// Raise the level of this spell by one.
    pub fn level_up(&mut self)
        ensures
            final(self).spell_type == old(self).spell_type,
            final(self).level == next_level(old(self).level),
            old(self).level < u32::MAX ==> final(self).level == old(self).level + 1,
            old(self).level == u32::MAX ==> final(self).level == u32::MAX,
    {
        if self.level < u32::MAX {
            self.level = self.level + 1;
        }
    }
}

} // verus!
