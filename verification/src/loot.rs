use vstd::prelude::*;
use rand::Rng;
use rand::rngs::StdRng;
use crate::spell::{SpellType, SPELL_COUNT};

verus! {

/// rand's standard seeded generator, carried through opaquely.
#[verifier::external_type_specification]
#[verifier::external_body]
pub struct ExStdRng(StdRng);

/// Highest loot and enemy level.
pub const MAX_LOOT_LEVEL: u8 = 5;

/// Experience carried by an orb of the given level: 5, 15, 35 and 75 for
/// levels 1 to 4, and 150 for every other level (legendary), 0 included.
pub open spec fn xp_value_of_level(level: u8) -> u32 {
    if level == 1 {
        5
    } else if level == 2 {
        15
    } else if level == 3 {
        35
    } else if level == 4 {
        75
    } else {
        150
    }
}

/// The experience value of an orb of the given level (see
/// `xp_value_of_level`); higher levels give more.
pub fn xp_value_for_level(level: u8) -> (v: u32)
    ensures
        v == xp_value_of_level(level),
{
    match level {
        1 => 5,
        2 => 15,
        3 => 35,
        4 => 75,
        _ => 150,
    }
}

/// A loot drop besides experience orbs.
#[derive(Clone, Copy, Debug, PartialEq, Eq, Structural)]
pub enum ExtraDrop {
    /// A spell of the given type.
    Spell(SpellType),
    /// A health pack.
    HealthPack,
}

/// The drops besides experience orbs for one dead enemy, in spawn order,
/// given the outcomes of the random draws: whether the spell roll (5%)
/// succeeded, the drawn catalogue index (uniform in 0..64), and whether the
/// health-pack roll (3%) succeeded. A spell comes first, then a health pack.
pub open spec fn extra_drops_of(spell_drop: bool, spell_index: usize, health_drop: bool) -> Seq<ExtraDrop> {
    (if spell_drop { seq![ExtraDrop::Spell(SpellType(spell_index as u8))] } else { Seq::empty() })
        + (if health_drop { seq![ExtraDrop::HealthPack] } else { Seq::empty() })
}

pub fn extra_drops(spell_drop: bool, spell_index: usize, health_drop: bool) -> (v: Vec<ExtraDrop>)
    requires
        spell_index < SPELL_COUNT,
    ensures
        v@ == extra_drops_of(spell_drop, spell_index, health_drop),
{
    let mut v: Vec<ExtraDrop> = Vec::new();
    if spell_drop {
        if let Some(spell_type) = SpellType::from_index(spell_index) {
            v.push(ExtraDrop::Spell(spell_type));
        }
    }
    if health_drop {
        v.push(ExtraDrop::HealthPack);
    }
    assert(v@ =~= extra_drops_of(spell_drop, spell_index, health_drop));
    v
}

/// Higher orb levels carry strictly more experience, from level 1 to 5.
pub proof fn law_xp_value_increases(a: u8, b: u8)
    requires
        1 <= a < b <= 5,
    ensures
        xp_value_of_level(a) < xp_value_of_level(b),
{
}

/// The enemy level clamped to 1..=5: the least level of the orbs it drops.
pub open spec fn base_orb_level(enemy_level: u8) -> u8 {
    if enemy_level < 1 {
        1
    } else if enemy_level > 5 {
        5
    } else {
        enemy_level
    }
}

/// The number of leading `true` rolls in `rolls`.
pub open spec fn leading_successes(rolls: Seq<bool>) -> nat
    decreases rolls.len(),
{
    if rolls.len() == 0 || !rolls[0] {
        0
    } else {
        1 + leading_successes(rolls.drop_first())
    }
}

/// The orb level for an enemy level and a sequence of upgrade rolls: start
/// from the clamped enemy level and go up one level per successful roll,
/// stopping at the first failed roll or at level 5.
pub open spec fn orb_level_after_rolls(enemy_level: u8, rolls: Seq<bool>) -> int {
    let base = base_orb_level(enemy_level) as int;
    let ups = leading_successes(rolls) as int;
    if base + ups > 5 {
        5
    } else {
        base + ups
    }
}

/// The least orb level is the enemy level clamped to 1..=5.
pub proof fn law_base_orb_level_clamps(enemy_level: u8)
    ensures
        1 <= base_orb_level(enemy_level) <= 5,
        1 <= enemy_level <= 5 ==> base_orb_level(enemy_level) == enemy_level,
        enemy_level < 1 ==> base_orb_level(enemy_level) == 1,
        enemy_level > 5 ==> base_orb_level(enemy_level) == 5,
{
}

/// `leading_successes(rolls)` is the length of the run of successful rolls
/// at the start: every roll before it succeeded, and the roll right after it,
/// if any, failed.
pub proof fn law_leading_successes_is_first_run(rolls: Seq<bool>)
    ensures
        leading_successes(rolls) <= rolls.len(),
        forall|i: int| 0 <= i < leading_successes(rolls) ==> #[trigger] rolls[i],
        leading_successes(rolls) < rolls.len() ==> !rolls[leading_successes(rolls) as int],
    decreases rolls.len(),
{
    if rolls.len() > 0 && rolls[0] {
        let rest = rolls.drop_first();
        law_leading_successes_is_first_run(rest);
        assert forall|i: int| 0 <= i < leading_successes(rolls) implies #[trigger] rolls[i] by {
            if i > 0 {
                assert(rolls[i] == rest[i - 1]);
            }
        }
        if leading_successes(rolls) < rolls.len() {
            assert(rolls[leading_successes(rolls) as int] == rest[leading_successes(rest) as int]);
        }
    }
}

/// The orb level is the clamped enemy level raised by one per leading
/// successful roll, capped at 5: `min(clamp(enemy_level, 1, 5) + k, 5)` where
/// the first `k` rolls succeeded and the next one, if any, failed. So a
/// failed first roll (or no roll) leaves the clamped enemy level, and one
/// leading success followed by a failure raises a clamped level below 5 by
/// exactly one.
pub proof fn law_orb_level_counts_leading_successes(enemy_level: u8, rolls: Seq<bool>, k: int)
    requires
        0 <= k <= rolls.len(),
        forall|i: int| 0 <= i < k ==> #[trigger] rolls[i],
        k < rolls.len() ==> !rolls[k],
    ensures
        orb_level_after_rolls(enemy_level, rolls) == (if base_orb_level(enemy_level) + k > 5 {
            5
        } else {
            base_orb_level(enemy_level) + k
        }),
        (rolls.len() == 0 || !rolls[0]) ==> orb_level_after_rolls(enemy_level, rolls) == base_orb_level(enemy_level),
{
    law_leading_successes_is_first_run(rolls);
    let n = leading_successes(rolls) as int;
    if n < k {
        assert(!rolls[n]);
        assert(rolls[n]);
    }
    if k < n {
        assert(!rolls[k]);
        assert(rolls[k]);
    }
    if rolls.len() == 0 || !rolls[0] {
        assert(leading_successes(rolls) == 0);
    }
}

/// Chance of one orb-level upgrade: one in five.
pub const UPGRADE_CHANCE: (u32, u32) = (1, 5);

/// Chance that a dead enemy drops a spell: one in twenty.
pub const SPELL_DROP_CHANCE: (u32, u32) = (1, 20);

/// Chance that a dead enemy drops a health pack: three in a hundred.
pub const HEALTH_DROP_CHANCE: (u32, u32) = (3, 100);

/// Least and greatest number of experience orbs a dead enemy drops.
pub const MIN_ORBS: u32 = 1;
pub const MAX_ORBS: u32 = 3;

/// A draw that is true with probability `numerator / denominator`.
///
/// Calls rand's `Rng::gen_ratio`. rand documents that the result is always
/// `true` when `numerator == denominator` and always `false` when
/// `numerator == 0`, and that the call panics when `denominator == 0` or
/// `numerator > denominator`; nothing more is stated of a random outcome.
#[verifier::external_body]
pub(crate) fn gen_ratio(rng: &mut StdRng, numerator: u32, denominator: u32) -> (b: bool)
    requires
        0 < denominator,
        numerator <= denominator,
    ensures
        numerator == 0 ==> !b,
        numerator == denominator ==> b,
{
    rng.gen_ratio(numerator, denominator)
}

/// A value drawn uniformly from `low..=high`.
///
/// Calls rand's `Rng::gen_range` on the inclusive range. rand documents that
/// the value lies in the range and that the call panics on an empty range;
/// nothing more is stated of a random outcome.
#[verifier::external_body]
pub(crate) fn gen_range_inclusive(rng: &mut StdRng, low: u32, high: u32) -> (v: u32)
    requires
        low <= high,
    ensures
        low <= v <= high,
{
    rng.gen_range(low..=high)
}

/// `rolls` is a sequence of upgrade rolls as they are drawn for an enemy of
/// `enemy_level`: every roll but the last succeeded, no more rolls were drawn
/// than levels are left above the clamped enemy level, and fewer were drawn
/// only when the last one failed.
pub open spec fn is_upgrade_draw(enemy_level: u8, rolls: Seq<bool>) -> bool {
    let room = 5 - base_orb_level(enemy_level);
    &&& rolls.len() <= room
    &&& forall|i: int| 0 <= i < rolls.len() - 1 ==> #[trigger] rolls[i]
    &&& rolls.len() < room ==> rolls.len() > 0 && !rolls[rolls.len() - 1]
}

/// The orb level for an enemy level, given the outcomes of the upgrade rolls
/// in the order they are made (see `orb_level_after_rolls`); rolls after the
/// first failure or after reaching level 5 are not used.
pub fn xp_level_from_rolls(enemy_level: u8, rolls: &Vec<bool>) -> (l: u8)
    ensures
        l == orb_level_after_rolls(enemy_level, rolls@),
        base_orb_level(enemy_level) <= l <= 5,
        l == (if base_orb_level(enemy_level) + leading_successes(rolls@) > 5 {
            5
        } else {
            base_orb_level(enemy_level) + leading_successes(rolls@)
        }),
{
    let mut orb_level: u8 = if enemy_level < 1 {
        1
    } else if enemy_level > 5 {
        5
    } else {
        enemy_level
    };
    let mut i: usize = 0;
    proof {
        assert(rolls@.skip(0) =~= rolls@);
    }
    while orb_level < 5 && i < rolls.len() && rolls[i]
        invariant
            base_orb_level(enemy_level) <= orb_level <= 5,
            i <= rolls@.len(),
            orb_level == base_orb_level(enemy_level) + i,
            leading_successes(rolls@) == i + leading_successes(rolls@.skip(i as int)),
        decreases rolls@.len() - i,
    {
        proof {
            assert(rolls@.skip(i as int).drop_first() =~= rolls@.skip(i as int + 1));
        }
        orb_level = orb_level + 1;
        i = i + 1;
    }
    proof {
        if orb_level < 5 {
            assert(rolls@.skip(i as int).len() == 0 || !rolls@.skip(i as int)[0]);
        }
        assert(rolls@.skip(0) =~= rolls@);
    }
    orb_level
}

/// Draw the upgrade rolls for an orb dropped by an enemy of `enemy_level`:
/// one-in-five rolls, one per level above the clamped enemy level, stopping
/// at the first failure or at level 5. An enemy of level 5 or more draws
/// nothing.
pub fn draw_upgrade_rolls(enemy_level: u8, rng: &mut StdRng) -> (rolls: Vec<bool>)
    ensures
        is_upgrade_draw(enemy_level, rolls@),
        base_orb_level(enemy_level) == 5 ==> rolls@.len() == 0 && *final(rng) == *old(rng),
{
    let base: u8 = if enemy_level < 1 {
        1
    } else if enemy_level > 5 {
        5
    } else {
        enemy_level
    };
    let mut rolls: Vec<bool> = Vec::new();
    let mut successes: u8 = 0;
    loop
        invariant_except_break
            rolls@.len() == successes,
            forall|i: int| 0 <= i < rolls@.len() ==> #[trigger] rolls@[i],
        invariant
            base == base_orb_level(enemy_level),
            base + successes <= 5,
            base == 5 ==> *rng == *old(rng),
        ensures
            is_upgrade_draw(enemy_level, rolls@),
            base == 5 ==> rolls@.len() == 0 && *rng == *old(rng),
        decreases 5 - base - successes,
    {
        if base + successes >= 5 {
            break;
        }
        let r = gen_ratio(rng, UPGRADE_CHANCE.0, UPGRADE_CHANCE.1);
        rolls.push(r);
        if !r {
            assert(rolls@[rolls@.len() - 1] == r);
            break;
        }
        successes = successes + 1;
    }
    rolls
}

/// The orb level dropped by an enemy: the clamped enemy level, upgraded by
/// one level per successful one-in-five roll until a roll fails or level 5
/// is reached. The rolls are those of `draw_upgrade_rolls` and the level is
/// what `xp_level_from_rolls` makes of them; since the rolls rest on chance,
/// the contract states the range of the level, and that an enemy of level 5
/// or more draws nothing and drops level 5.
pub fn select_xp_level(enemy_level: u8, rng: &mut StdRng) -> (l: u8)
    ensures
        base_orb_level(enemy_level) <= l <= 5,
        base_orb_level(enemy_level) == 5 ==> l == 5 && *final(rng) == *old(rng),
{
    let rolls = draw_upgrade_rolls(enemy_level, rng);
    xp_level_from_rolls(enemy_level, &rolls)
}

/// The levels of the experience orbs dropped by one enemy: one to three
/// orbs (the count drawn uniformly), each level chosen by `select_xp_level`
/// with its own upgrade rolls. An enemy of level 5 or more drops only
/// level-5 orbs.
pub fn roll_orb_levels(enemy_level: u8, rng: &mut StdRng) -> (v: Vec<u8>)
    ensures
        MIN_ORBS <= v@.len() <= MAX_ORBS,
        forall|i: int|
            0 <= i < v@.len() ==> base_orb_level(enemy_level) <= #[trigger] v@[i] <= 5,
{
    let count = gen_range_inclusive(rng, MIN_ORBS, MAX_ORBS);
    let mut v: Vec<u8> = Vec::new();
    let mut i: u32 = 0;
    while i < count
        invariant
            MIN_ORBS <= count <= MAX_ORBS,
            i <= count,
            v@.len() == i,
            forall|j: int|
                0 <= j < v@.len() ==> base_orb_level(enemy_level) <= #[trigger] v@[j] <= 5,
        decreases count - i,
    {
        let l = select_xp_level(enemy_level, rng);
        v.push(l);
        i = i + 1;
    }
    v
}

/// The drops besides experience orbs for one dead enemy: a spell with a
/// one-in-twenty chance (its type drawn uniformly from the 64 spell types,
/// only when it drops), then a health pack with a three-in-a-hundred chance.
pub fn roll_extra_drops(rng: &mut StdRng) -> (v: Vec<ExtraDrop>)
    ensures
        exists|spell_drop: bool, spell_index: usize, health_drop: bool|
            spell_index < SPELL_COUNT && v@ == extra_drops_of(spell_drop, spell_index, health_drop),
{
    let spell_drop = gen_ratio(rng, SPELL_DROP_CHANCE.0, SPELL_DROP_CHANCE.1);
    let spell_index: usize = if spell_drop {
        gen_range_inclusive(rng, 0, (SPELL_COUNT - 1) as u32) as usize
    } else {
        0
    };
    let health_drop = gen_ratio(rng, HEALTH_DROP_CHANCE.0, HEALTH_DROP_CHANCE.1);
    extra_drops(spell_drop, spell_index, health_drop)
}

} // verus!
