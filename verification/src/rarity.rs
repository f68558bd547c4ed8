use vstd::prelude::*;

verus! {

/// Rarity tiers of game entities, following the usual RPG colour scheme:
/// grey, green, blue, purple, gold.
#[derive(Clone, Copy, Debug, PartialEq, Eq, Hash, Structural)]
pub enum Rarity {
    Common,
    Uncommon,
    Rare,
    Epic,
    Legendary,
}

/// The rarity tier of a level: 1 to 4 map to the first four tiers, 5 and
/// above to `Legendary`, and 0 to `Common`.
pub open spec fn rarity_of_level(level: u8) -> Rarity {
    if level == 1 {
        Rarity::Common
    } else if level == 2 {
        Rarity::Uncommon
    } else if level == 3 {
        Rarity::Rare
    } else if level == 4 {
        Rarity::Epic
    } else if level >= 5 {
        Rarity::Legendary
    } else {
        Rarity::Common
    }
}

/// The tier whose material (enemy body or experience orb) is shown for an
/// entity of the given level: 1 to 4 map to the first four tiers, and every
/// other value, 0 included, to `Legendary`.
pub open spec fn material_tier_of_level(level: u8) -> Rarity {
    if level == 1 {
        Rarity::Common
    } else if level == 2 {
        Rarity::Uncommon
    } else if level == 3 {
        Rarity::Rare
    } else if level == 4 {
        Rarity::Epic
    } else {
        Rarity::Legendary
    }
}

/// The level value stored by `Level::new`: the input clamped to 1..=5.
pub open spec fn clamp_level(level: u8) -> u8 {
    if level < 1 {
        1
    } else if level > 5 {
        5
    } else {
        level
    }
}

impl Rarity {
    /// The rarity tier of a level (see `rarity_of_level`).
    pub fn from_level(level: u8) -> (r: Rarity)
        ensures
            r == rarity_of_level(level),
    {
        match level {
            1 => Rarity::Common,
            2 => Rarity::Uncommon,
            3 => Rarity::Rare,
            4 => Rarity::Epic,
            5..=255 => Rarity::Legendary,
            _ => Rarity::Common,
        }
    }

    /// The tier of the material used for an entity of the given level
    /// (see `material_tier_of_level`).
    pub fn material_tier(level: u8) -> (r: Rarity)
        ensures
            r == material_tier_of_level(level),
    {
        match level {
            1 => Rarity::Common,
            2 => Rarity::Uncommon,
            3 => Rarity::Rare,
            4 => Rarity::Epic,
            _ => Rarity::Legendary,
        }
    }
}

impl Default for Rarity {
    fn default() -> (r: Rarity)
        ensures
            r == Rarity::Common,
    {
        Rarity::Common
    }
}

/// Progression level (1 to 5) of an entity such as an enemy or a loot orb.
/// The default value is 0; `new` always stores a value in 1..=5.
#[derive(Clone, Copy, Debug, PartialEq, Eq, Structural)]
pub struct Level(pub u8);

impl Level {
    /// A level clamped to the range 1..=5.
    pub fn new(level: u8) -> (l: Level)
        ensures
            l.0 == clamp_level(level),
            1 <= l.0 <= 5,
    {
        if level < 1 {
            Level(1)
        } else if level > 5 {
            Level(5)
        } else {
            Level(level)
        }
    }

    /// The level value.
    pub fn value(&self) -> (v: u8)
        ensures
            v == self.0,
    {
        self.0
    }

    /// The rarity tier of this level.
    pub fn rarity(&self) -> (r: Rarity)
        ensures
            r == rarity_of_level(self.0),
    {
        Rarity::from_level(self.0)
    }
}

impl Default for Level {
    fn default() -> (l: Level)
        ensures
            l.0 == 0,
    {
        Level(0)
    }
}

/// A level built by `Level::new` has a rarity that grows with the input: the
/// rarity of a clamped level is the rarity of the level value itself, and
/// the tiers of 1 to 5 are pairwise different.
pub proof fn lemma_level_rarity_tiers(a: u8, b: u8)
    requires
        1 <= a <= 5,
        1 <= b <= 5,
        a != b,
    ensures
        rarity_of_level(a) != rarity_of_level(b),
        rarity_of_level(clamp_level(a)) == rarity_of_level(a),
        material_tier_of_level(a) == rarity_of_level(a),
{
}

} // verus!
