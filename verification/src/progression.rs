use vstd::prelude::*;

verus! {

/// Whether the next entry into the game should reset game state: true when
/// starting a fresh game, false when continuing.
#[derive(Clone, Copy, Debug, PartialEq, Eq, Structural)]
pub struct FreshGameStart(pub bool);

impl FreshGameStart {
    /// A fresh start (the usual case).
    pub fn new() -> (f: FreshGameStart)
        ensures
            f.0,
    {
        FreshGameStart(true)
    }
}

impl Default for FreshGameStart {
    fn default() -> (f: FreshGameStart)
        ensures
            !f.0,
    {
        FreshGameStart(false)
    }
}

/// Kill-based game level progression: the current level (from 1), kills in
/// the current level and kills in the whole game.
#[derive(Clone, Copy, Debug, PartialEq, Eq, Structural)]
pub struct LevelProgress {
    pub level: u32,
    pub kills_this_level: u32,
    pub total_kills: u32,
}

impl LevelProgress {
    /// Level 1 with no kills.
    pub fn new() -> (p: LevelProgress)
        ensures
            p.level == 1,
            p.kills_this_level == 0,
            p.total_kills == 0,
    {
        LevelProgress { level: 1, kills_this_level: 0, total_kills: 0 }
    }

    /// Register a kill, given the number of kills the current level needs;
    /// returns whether the level advanced. On advancing, the kill count of
    /// the level starts again from 0.
    pub fn register_kill(&mut self, kills_to_advance: u32) -> (advanced: bool)
        requires
            old(self).kills_this_level < u32::MAX,
            old(self).total_kills < u32::MAX,
            old(self).kills_this_level + 1 >= kills_to_advance ==> old(self).level < u32::MAX,
        ensures
            advanced == (old(self).kills_this_level + 1 >= kills_to_advance),
            final(self).total_kills == old(self).total_kills + 1,
            advanced ==> final(self).level == old(self).level + 1 && final(self).kills_this_level == 0,
            !advanced ==> final(self).level == old(self).level
                && final(self).kills_this_level == old(self).kills_this_level + 1,
            !advanced ==> final(self).kills_this_level < kills_to_advance,
    {
        self.kills_this_level = self.kills_this_level + 1;
        self.total_kills = self.total_kills + 1;
        if self.kills_this_level >= kills_to_advance {
            self.level = self.level + 1;
            self.kills_this_level = 0;
            true
        } else {
            false
        }
    }

    /// Start over at level 1 if the game start is fresh, and mark it as no
    /// longer fresh; a continued game keeps its progress.
    pub fn reset_if_fresh(&mut self, fresh: &mut FreshGameStart)
        ensures
            old(fresh).0 ==> *final(self) == (LevelProgress { level: 1, kills_this_level: 0, total_kills: 0 }),
            !old(fresh).0 ==> *final(self) == *old(self),
            !final(fresh).0,
    {
        if fresh.0 {
            *self = LevelProgress::new();
            fresh.0 = false;
        }
    }
}

impl Default for LevelProgress {
    fn default() -> (p: LevelProgress)
        ensures
            p == (LevelProgress { level: 1, kills_this_level: 0, total_kills: 0 }),
    {
        LevelProgress::new()
    }
}

/// The threshold that `f` gives for `level` (well defined when `f` is
/// deterministic and returns for that level).
pub open spec fn threshold_at<F: Fn(u32) -> u32>(f: F, level: int) -> u32 {
    choose|t: u32| #[trigger] f.ensures((level as u32,), t)
}

/// Level-ups from `level` with `xp` experience points, where `f` gives the
/// experience needed to leave each level: while the points reach the
/// threshold of the current level, pay it and go up one level. The result is
/// (levels gained, points left).
pub open spec fn level_ups<F: Fn(u32) -> u32>(f: F, level: int, xp: int) -> (int, int)
    decreases xp,
{
    if xp >= 0 {
        let t = threshold_at(f, level);
        if t > 0 && xp >= t {
            let (n, rest) = level_ups(f, level + 1, xp - t);
            (n + 1, rest)
        } else {
            (0, xp)
        }
    } else {
        (0, xp)
    }
}

pub proof fn lemma_level_ups_bounds<F: Fn(u32) -> u32>(f: F, level: int, xp: int)
    requires
        xp >= 0,
    ensures
        level_ups(f, level, xp).0 >= 0,
        level_ups(f, level, xp).0 <= xp,
        0 <= level_ups(f, level, xp).1 <= xp,
    decreases xp,
{
    let t = threshold_at(f, level);
    if t > 0 && xp >= t {
        lemma_level_ups_bounds(f, level + 1, xp - t);
    }
}

/// Gaining experience in two parts ends at the same level with the same
/// points left as gaining the sum at once: the first part's level-ups all
/// happen again, and the rest continues from where they ended.
pub proof fn law_level_ups_split<F: Fn(u32) -> u32>(f: F, level: int, x: int, b: int)
    requires
        x >= 0,
        b >= 0,
    ensures
        ({
            let (n, r) = level_ups(f, level, x);
            let (m, q) = level_ups(f, level + n, r + b);
            level_ups(f, level, x + b) == (n + m, q)
        }),
    decreases x,
{
    let t = threshold_at(f, level);
    if t > 0 && x >= t {
        law_level_ups_split(f, level + 1, x - t, b);
        assert(x + b - t == (x - t) + b);
    }
}

/// The sum of the thresholds of the `n` levels from `from` on: the points
/// that `n` level-ups starting at `from` pay.
pub open spec fn thresholds_sum<F: Fn(u32) -> u32>(f: F, from: int, n: nat) -> int
    decreases n,
{
    if n == 0 {
        0
    } else {
        threshold_at(f, from) + thresholds_sum(f, from + 1, (n - 1) as nat)
    }
}

/// Levelling loses and invents no points: the points given equal the points
/// left plus the thresholds paid for the levels gained.
pub proof fn lemma_level_ups_conserve<F: Fn(u32) -> u32>(f: F, level: int, xp: int)
    requires
        xp >= 0,
    ensures
        level_ups(f, level, xp).0 >= 0,
        xp == level_ups(f, level, xp).1 + thresholds_sum(f, level, level_ups(f, level, xp).0 as nat),
    decreases xp,
{
    lemma_level_ups_bounds(f, level, xp);
    let t = threshold_at(f, level);
    if t > 0 && xp >= t {
        lemma_level_ups_conserve(f, level + 1, xp - t);
        lemma_level_ups_bounds(f, level + 1, xp - t);
        let n = level_ups(f, level + 1, xp - t).0;
        assert(((n + 1) as nat - 1) as nat == n as nat);
    }
}

/// A threshold function fit for levelling: it can be called on every level,
/// always needs at least one point, and gives the same answer for the same
/// level.
pub open spec fn valid_thresholds<F: Fn(u32) -> u32>(f: F) -> bool {
    &&& forall|l: u32| #[trigger] f.requires((l,))
    &&& forall|l: u32, t: u32| #[trigger] f.ensures((l,), t) ==> t > 0
    &&& forall|l: u32, t1: u32, t2: u32|
        #[trigger] f.ensures((l,), t1) && #[trigger] f.ensures((l,), t2) ==> t1 == t2
}

/// Player experience: points in the current level, the level (from 1) and
/// all points ever gained.
#[derive(Clone, Copy, Debug, PartialEq, Eq, Structural)]
pub struct ExperienceProgress {
    pub current: u32,
    pub level: u32,
    pub total_xp: u32,
}

impl ExperienceProgress {
    /// Level 1 with no experience.
    pub fn new() -> (p: ExperienceProgress)
        ensures
            p.current == 0,
            p.level == 1,
            p.total_xp == 0,
    {
        ExperienceProgress { current: 0, level: 1, total_xp: 0 }
    }

    /// Add experience points and return the number of levels gained.
    /// `xp_to_next_level` gives the points needed to leave a level; every
    /// level-up pays the threshold of the level it leaves, and the points
    /// left stay below the threshold of the level reached.
    pub fn add_xp<F: Fn(u32) -> u32>(&mut self, amount: u32, xp_to_next_level: F) -> (levels: u32)
        requires
            valid_thresholds(xp_to_next_level),
            old(self).current + amount <= u32::MAX,
            old(self).total_xp + amount <= u32::MAX,
            old(self).level + level_ups(xp_to_next_level, old(self).level as int, old(self).current + amount).0
                <= u32::MAX,
        ensures
            (levels as int, final(self).current as int)
                == level_ups(xp_to_next_level, old(self).level as int, old(self).current + amount),
            final(self).level == old(self).level + levels,
            final(self).total_xp == old(self).total_xp + amount,
            forall|t: u32| #[trigger] xp_to_next_level.ensures((final(self).level,), t) ==> final(self).current < t,
            old(self).current + amount == final(self).current
                + thresholds_sum(xp_to_next_level, old(self).level as int, levels as nat),
    {
        let ghost f = xp_to_next_level;
        let ghost start_level = self.level as int;
        let ghost xp = self.current + amount;
        self.current = self.current + amount;
        self.total_xp = self.total_xp + amount;
        let mut levels: u32 = 0;
        proof {
            lemma_level_ups_bounds(f, start_level, xp);
        }
        loop
            invariant
                valid_thresholds(xp_to_next_level),
                f == xp_to_next_level,
                0 <= start_level,
                self.total_xp == old(self).total_xp + amount,
                self.level == start_level + levels,
                start_level + level_ups(f, start_level, xp).0 <= u32::MAX,
                level_ups(f, start_level, xp) == (
                    levels + level_ups(f, self.level as int, self.current as int).0,
                    level_ups(f, self.level as int, self.current as int).1,
                ),
            ensures
                level_ups(f, start_level, xp) == (levels as int, self.current as int),
                self.level == start_level + levels,
                self.total_xp == old(self).total_xp + amount,
                forall|t: u32| #[trigger] f.ensures((self.level,), t) ==> self.current < t,
            decreases self.current,
        {
            let t = xp_to_next_level(self.level);
            proof {
                assert(threshold_at(f, self.level as int) == t);
            }
            if self.current >= t {
                proof {
                    lemma_level_ups_bounds(f, self.level as int + 1, self.current - t);
                    assert(level_ups(f, self.level as int, self.current as int).0
                        == level_ups(f, self.level as int + 1, self.current - t).0 + 1);
                }
                self.current = self.current - t;
                self.level = self.level + 1;
                levels = levels + 1;
            } else {
                break;
            }
        }
        proof {
            lemma_level_ups_conserve(f, start_level, xp);
        }
        levels
    }
}

impl Default for ExperienceProgress {
    fn default() -> (p: ExperienceProgress)
        ensures
            p == (ExperienceProgress { current: 0, level: 1, total_xp: 0 }),
    {
        ExperienceProgress::new()
    }
}

/// `r` is the integer square root of `n`: the largest `r` with `r * r <= n`.
pub open spec fn is_floor_sqrt(n: int, r: int) -> bool {
    0 <= r && r * r <= n < (r + 1) * (r + 1)
}

/// `r` is the experience required to reach `level` by the default table:
/// `r = ⌊10 · level^1.5⌋`, that is the integer square root of `100 · level³`.
pub open spec fn is_default_requirement(level: int, r: int) -> bool {
    is_floor_sqrt(100 * (level * level * level), r)
}

/// Each level of the default table requires strictly more experience than
/// the one before it.
pub proof fn law_default_requirements_increase(a: int, ra: int, rb: int)
    requires
        a >= 2,
        is_default_requirement(a, ra),
        is_default_requirement(a + 1, rb),
    ensures
        ra < rb,
{
    let b = a + 1;
    assert(100 * (b * b * b) == 100 * (a * a * a) + 300 * (a * a) + 300 * a + 100) by (nonlinear_arith)
        requires
            b == a + 1,
    ;
    assert(ra <= 10 * (a * a)) by (nonlinear_arith)
        requires
            a >= 2,
            0 <= ra,
            ra * ra <= 100 * (a * a * a),
    {
        if ra > 10 * (a * a) {
            assert(ra * ra > 100 * (a * a) * (a * a));
            assert(100 * (a * a) * (a * a) >= 100 * (a * a * a));
        }
    }
    if rb <= ra {
        assert((rb + 1) * (rb + 1) <= (ra + 1) * (ra + 1)) by (nonlinear_arith)
            requires
                0 <= rb <= ra,
        ;
        assert((ra + 1) * (ra + 1) == ra * ra + 2 * ra + 1) by (nonlinear_arith);
    }
}

/// With the default table, the experience required to go from level 1 to
/// any level up to 100 is at most 10 000 per level, so it fits in a `u32`
/// and `total_exp_for_level` can be called on every level up to 100.
pub proof fn law_default_totals_fit(reqs: Seq<u32>, level: int)
    requires
        reqs.len() == 99,
        forall|i: int| 0 <= i < 99 ==> is_default_requirement(i + 2, #[trigger] reqs[i] as int),
        0 <= level <= 100,
    ensures
        0 <= total_required(reqs, level) <= 10_000 * level,
        total_required(reqs, level) <= u32::MAX,
    decreases level,
{
    if level >= 2 {
        law_default_totals_fit(reqs, level - 1);
        let r = reqs[level - 2] as int;
        assert(is_default_requirement(level, r));
        assert(r <= 10_000) by (nonlinear_arith)
            requires
                2 <= level <= 100,
                0 <= r,
                r * r <= 100 * (level * level * level),
        {
            assert(level * level * level <= 1_000_000);
            if r > 10_000 {
                assert(r * r > 10_000 * 10_000);
            }
        }
    } else if level >= 1 {
        assert(total_required(reqs, level) == 0);
    }
}

/// Highest level of the default requirement table.
pub const MAX_TABLE_LEVEL: u64 = 100;

fn floor_sqrt(n: u64) -> (r: u64)
    requires
        n <= 100_000_000,
    ensures
        is_floor_sqrt(n as int, r as int),
        r <= 10_000,
{
    let mut r: u64 = 0;
    loop
        invariant
            n <= 100_000_000,
            r * r <= n,
            r <= 10_000,
        ensures
            is_floor_sqrt(n as int, r as int),
            r <= 10_000,
        decreases 10_000 - r,
    {
        let next = r + 1;
        assert(next * next <= 10_001 * 10_001) by (nonlinear_arith)
            requires
                next <= 10_001,
        ;
        if next * next > n {
            break;
        }
        assert(next <= 10_000) by (nonlinear_arith)
            requires
                next * next <= n,
                n <= 100_000_000,
        {
            if next > 10_000 {
                assert(next * next > 10_000 * 10_000);
            }
        }
        r = next;
    }
    r
}

/// The experience required by level: 0 up to level 1, then the table entry
/// (the table starts at level 2), and `u32::MAX` beyond the table.
pub open spec fn required_for(reqs: Seq<u32>, level: int) -> int {
    if level <= 1 {
        0
    } else if level - 2 < reqs.len() {
        reqs[level - 2] as int
    } else {
        u32::MAX as int
    }
}

/// The experience required to go from level 1 to `level`: the sum of the
/// requirements of levels 2 to `level`.
pub open spec fn total_required(reqs: Seq<u32>, level: int) -> int
    decreases level,
{
    if level < 2 {
        0
    } else {
        total_required(reqs, level - 1) + required_for(reqs, level)
    }
}

/// The requirement of a level is its table entry (the table starts at
/// level 2), nothing below level 2, and `u32::MAX` beyond the table.
pub proof fn law_required_is_table_entry(reqs: Seq<u32>, level: int)
    ensures
        level <= 1 ==> required_for(reqs, level) == 0,
        2 <= level <= reqs.len() + 1 ==> required_for(reqs, level) == reqs[level - 2] as int,
        level > reqs.len() + 1 ==> required_for(reqs, level) == u32::MAX as int,
{
}

/// The total for a level is the total for the level below plus the
/// requirement of the level itself; nothing is needed to reach level 1. So
/// the total is the plain sum of the requirements of levels 2 to `level`,
/// and from one level to the next it grows by exactly that level's
/// requirement.
pub proof fn law_total_adds_each_level(reqs: Seq<u32>, level: int)
    ensures
        level <= 1 ==> total_required(reqs, level) == 0,
        level >= 2 ==> total_required(reqs, level) == total_required(reqs, level - 1) + required_for(reqs, level),
        level == 2 ==> total_required(reqs, level) == required_for(reqs, 2),
{
    if level == 2 {
        assert(total_required(reqs, 1) == 0);
    }
}

/// Within the table, the total for a level is the sum of the first
/// `level - 1` table entries, that is of the requirements of levels 2 to
/// `level`.
pub proof fn law_total_is_sum_of_entries(reqs: Seq<u32>, level: int)
    requires
        1 <= level <= reqs.len() + 1,
    ensures
        total_required(reqs, level) == reqs.take(level - 1).fold_left(0int, |acc: int, x: u32| acc + x),
    decreases level,
{
    let f = |acc: int, x: u32| acc + x;
    if level == 1 {
        assert(reqs.take(0).len() == 0);
    } else {
        law_total_is_sum_of_entries(reqs, level - 1);
        let t = reqs.take(level - 1);
        assert(t.drop_last() =~= reqs.take(level - 2));
        assert(t.last() == reqs[level - 2]);
        assert(t.fold_left(0int, f) == f(t.drop_last().fold_left(0int, f), t.last()));
    }
}

pub proof fn lemma_total_required_monotone(reqs: Seq<u32>, a: int, b: int)
    requires
        a <= b,
    ensures
        0 <= total_required(reqs, a) <= total_required(reqs, b),
    decreases b - a,
{
    if a < b {
        lemma_total_required_monotone(reqs, a, b - 1);
    } else {
        lemma_total_required_nonneg(reqs, a);
    }
}

proof fn lemma_total_required_nonneg(reqs: Seq<u32>, a: int)
    ensures
        0 <= total_required(reqs, a),
    decreases a,
{
    if a >= 2 {
        lemma_total_required_nonneg(reqs, a - 1);
    }
}

/// Experience required for each level, starting from level 2.
pub struct ExperienceRequirements {
    pub requirements: Vec<u32>,
}

impl ExperienceRequirements {
    /// The experience required to reach `level` (see `required_for`).
    pub fn exp_required_for_level(&self, level: u32) -> (r: u32)
        ensures
            r == required_for(self.requirements@, level as int),
    {
        if level <= 1 {
            0
        } else {
            let i = (level - 2) as usize;
            if i < self.requirements.len() {
                self.requirements[i]
            } else {
                u32::MAX
            }
        }
    }

    /// The experience required to go from level 1 to `level` (see
    /// `total_required`); the sum must fit in a `u32`.
    pub fn total_exp_for_level(&self, level: u32) -> (r: u32)
        requires
            total_required(self.requirements@, level as int) <= u32::MAX,
        ensures
            r == total_required(self.requirements@, level as int),
            level <= 1 ==> r == 0,
            level >= 2 ==> r == total_required(self.requirements@, level - 1)
                + required_for(self.requirements@, level as int),
    {
        let mut total: u32 = 0;
        let mut l: u64 = 2;
        while l <= level as u64
            invariant
                2 <= l <= level as u64 + 1 || (l == 2 && level < 2),
                total == total_required(self.requirements@, l - 1),
                total_required(self.requirements@, level as int) <= u32::MAX,
            decreases level as u64 + 1 - l,
        {
            proof {
                lemma_total_required_monotone(self.requirements@, l as int, level as int);
            }
            let req = self.exp_required_for_level(l as u32);
            total = total + req;
            l = l + 1;
        }
        total
    }
}

impl Default for ExperienceRequirements {
    /// The default table for levels 2 to 100: level `l` requires
    /// `⌊10 · l^1.5⌋` experience.
    fn default() -> (e: ExperienceRequirements)
        ensures
            e.requirements@.len() == 99,
            forall|i: int|
                0 <= i < 99 ==> is_default_requirement(i + 2, #[trigger] e.requirements@[i] as int),
    {
        let mut requirements: Vec<u32> = Vec::new();
        let mut level: u64 = 2;
        while level <= MAX_TABLE_LEVEL
            invariant
                2 <= level <= MAX_TABLE_LEVEL + 1,
                requirements@.len() == level - 2,
                forall|i: int|
                    0 <= i < level - 2 ==> is_default_requirement(i + 2, #[trigger] requirements@[i] as int),
            decreases MAX_TABLE_LEVEL + 1 - level,
        {
            assert(level * level <= 10_000 && level * level * level <= 1_000_000) by (nonlinear_arith)
                requires
                    level <= 100,
            ;
            let cube = level * level * level;
            let r = floor_sqrt(100 * cube);
            requirements.push(r as u32);
            level = level + 1;
        }
        ExperienceRequirements { requirements }
    }
}

} // verus!
