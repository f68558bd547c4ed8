use vstd::prelude::*;
use crate::spell::{Spell, SpellType};

verus! {

/// Number of slots in the spell list (spells equipped for combat).
pub const SPELL_LIST_SIZE: usize = 5;

/// Number of slots in the inventory bag.
pub const BAG_SIZE: usize = 30;

// ---------------------------------------------------------------------------
// Specifications over a sequence of slots.
// ---------------------------------------------------------------------------

/// Slot `i` holds a spell of type `t`.
pub open spec fn holds_type(s: Seq<Option<Spell>>, i: int, t: SpellType) -> bool {
    s[i] matches Some(sp) && sp.spell_type == t
}

/// `r` is the first empty slot of `s`, or `None` when every slot is taken.
pub open spec fn is_first_empty(s: Seq<Option<Spell>>, r: Option<usize>) -> bool {
    match r {
        Some(i) => {
            &&& i < s.len()
            &&& s[i as int] is None
            &&& forall|j: int| 0 <= j < i ==> #[trigger] s[j] is Some
        },
        None => forall|j: int| 0 <= j < s.len() ==> #[trigger] s[j] is Some,
    }
}

/// `r` is the first slot of `s` that holds a spell of type `t`, or `None`
/// when no slot does.
pub open spec fn is_first_of_type(s: Seq<Option<Spell>>, t: SpellType, r: Option<usize>) -> bool {
    match r {
        Some(i) => {
            &&& i < s.len()
            &&& holds_type(s, i as int, t)
            &&& forall|j: int| 0 <= j < i ==> !#[trigger] holds_type(s, j, t)
        },
        None => forall|j: int| 0 <= j < s.len() ==> !#[trigger] holds_type(s, j, t),
    }
}

/// Some slot of `s` holds a spell of type `t`.
pub open spec fn contains_type(s: Seq<Option<Spell>>, t: SpellType) -> bool {
    exists|j: int| 0 <= j < s.len() && #[trigger] holds_type(s, j, t)
}

/// The filled slots among the first `n` slots of `s`, as (slot, spell)
/// pairs in increasing slot order.
pub open spec fn filled_prefix(s: Seq<Option<Spell>>, n: int) -> Seq<(usize, Spell)>
    decreases n,
{
    if n <= 0 {
        Seq::empty()
    } else {
        let rest = filled_prefix(s, n - 1);
        match s[n - 1] {
            Some(sp) => rest.push(((n - 1) as usize, sp)),
            None => rest,
        }
    }
}

/// The filled slots of `s`, as (slot, spell) pairs in increasing slot order.
pub open spec fn filled(s: Seq<Option<Spell>>) -> Seq<(usize, Spell)> {
    filled_prefix(s, s.len() as int)
}

/// The number of filled slots of `s`.
pub open spec fn filled_count(s: Seq<Option<Spell>>) -> nat {
    filled(s).len()
}

// ---------------------------------------------------------------------------
// Lemmas about filled slots.
// ---------------------------------------------------------------------------

pub proof fn lemma_filled_prefix_bounds(s: Seq<Option<Spell>>, n: int)
    requires
        0 <= n <= s.len(),
        s.len() <= usize::MAX,
    ensures
        filled_prefix(s, n).len() <= n,
        filled_prefix(s, n).len() == n <==> (forall|j: int| 0 <= j < n ==> #[trigger] s[j] is Some),
        forall|k: int|
            0 <= k < filled_prefix(s, n).len() ==> {
                let (slot, sp) = #[trigger] filled_prefix(s, n)[k];
                &&& slot < n
                &&& s[slot as int] == Some(sp)
            },
    decreases n,
{
    if n > 0 {
        lemma_filled_prefix_bounds(s, n - 1);
        let rest = filled_prefix(s, n - 1);
        if s[n - 1] is Some {
            assert forall|k: int| 0 <= k < filled_prefix(s, n).len() implies {
                let (slot, sp) = #[trigger] filled_prefix(s, n)[k];
                &&& slot < n
                &&& s[slot as int] == Some(sp)
            } by {
                if k < rest.len() {
                    assert(filled_prefix(s, n)[k] == rest[k]);
                } else {
                    assert(filled_prefix(s, n)[k] == ((n - 1) as usize, s[n - 1]->0));
                }
            }
        }
        if filled_prefix(s, n).len() == n {
            assert forall|j: int| 0 <= j < n implies #[trigger] s[j] is Some by {
                if j < n - 1 {
                    assert(rest.len() == n - 1);
                }
            }
        }
    }
}

/// Slots that are all empty have no filled entries.
pub proof fn lemma_filled_prefix_empty(s: Seq<Option<Spell>>, n: int)
    requires
        0 <= n <= s.len(),
        forall|j: int| 0 <= j < n ==> #[trigger] s[j] is None,
    ensures
        filled_prefix(s, n).len() == 0,
    decreases n,
{
    if n > 0 {
        lemma_filled_prefix_empty(s, n - 1);
    }
}

/// Changing slot `k` changes the number of filled slots by what left and
/// what entered that slot.
pub proof fn lemma_filled_prefix_update(s: Seq<Option<Spell>>, k: int, v: Option<Spell>, n: int)
    requires
        0 <= k < s.len(),
        0 <= n <= s.len(),
    ensures
        filled_prefix(s.update(k, v), n).len() + (if k < n && s[k] is Some { 1int } else { 0int })
            == filled_prefix(s, n).len() + (if k < n && v is Some { 1int } else { 0int }),
    decreases n,
{
    if n > 0 {
        lemma_filled_prefix_update(s, k, v, n - 1);
    }
}

// ---------------------------------------------------------------------------
// Laws of slot containers.
// ---------------------------------------------------------------------------

/// Adding a spell to the first empty slot (of the bag or the spell list)
/// fills exactly one more slot.
pub proof fn law_add_fills_one_slot(s: Seq<Option<Spell>>, i: usize, spell: Spell)
    requires
        s.len() <= usize::MAX,
        is_first_empty(s, Some(i)),
    ensures
        filled_count(s.update(i as int, Some(spell))) == filled_count(s) + 1,
{
    lemma_filled_prefix_update(s, i as int, Some(spell), s.len() as int);
}

/// Removing the spell of a filled slot frees exactly one slot.
pub proof fn law_remove_frees_one_slot(s: Seq<Option<Spell>>, k: int)
    requires
        s.len() <= usize::MAX,
        0 <= k < s.len(),
        s[k] is Some,
    ensures
        filled_count(s.update(k, None)) + 1 == filled_count(s),
{
    lemma_filled_prefix_update(s, k, None, s.len() as int);
}

/// The slots are full exactly when there is no empty slot, that is when
/// every slot holds a spell.
pub proof fn law_full_iff_no_empty_slot(s: Seq<Option<Spell>>)
    requires
        s.len() <= usize::MAX,
    ensures
        is_first_empty(s, None) <==> filled_count(s) == s.len(),
{
    lemma_filled_prefix_bounds(s, s.len() as int);
}

/// Removing from the slot that an add chose gives back the added spell and
/// restores the slots as they were before the add.
pub proof fn law_add_then_remove(s: Seq<Option<Spell>>, i: usize, spell: Spell)
    requires
        s.len() <= usize::MAX,
        is_first_empty(s, Some(i)),
    ensures
        s.update(i as int, Some(spell))[i as int] == Some(spell),
        s.update(i as int, Some(spell)).update(i as int, None) == s,
{
    assert(s.update(i as int, Some(spell)).update(i as int, None) =~= s);
}


// ---------------------------------------------------------------------------
// Executable helpers over a fixed array of slots.
// ---------------------------------------------------------------------------

pub(crate) fn first_empty<const N: usize>(slots: &[Option<Spell>; N]) -> (r: Option<usize>)
    ensures
        is_first_empty(slots@, r),
{
    let mut i: usize = 0;
    while i < N
        invariant
            slots@.len() == N,
            i <= N,
            forall|j: int| 0 <= j < i ==> #[trigger] slots@[j] is Some,
        decreases N - i,
    {
        if slots[i].is_none() {
            return Some(i);
        }
        i = i + 1;
    }
    None
}

pub(crate) fn first_of_type<const N: usize>(slots: &[Option<Spell>; N], t: &SpellType) -> (r: Option<usize>)
    ensures
        is_first_of_type(slots@, *t, r),
{
    let mut i: usize = 0;
    while i < N
        invariant
            slots@.len() == N,
            i <= N,
            forall|j: int| 0 <= j < i ==> !#[trigger] holds_type(slots@, j, *t),
        decreases N - i,
    {
        match &slots[i] {
            Some(sp) => {
                if sp.spell_type == *t {
                    return Some(i);
                }
            },
            None => {},
        }
        i = i + 1;
    }
    None
}

pub(crate) fn filled_entries<const N: usize>(slots: &[Option<Spell>; N]) -> (v: Vec<(usize, Spell)>)
    ensures
        v@ == filled(slots@),
{
    let mut v: Vec<(usize, Spell)> = Vec::new();
    let mut i: usize = 0;
    while i < N
        invariant
            slots@.len() == N,
            i <= N,
            v@ == filled_prefix(slots@, i as int),
        decreases N - i,
    {
        match &slots[i] {
            Some(sp) => {
                v.push((i, *sp));
            },
            None => {},
        }
        i = i + 1;
    }
    v
}

pub(crate) fn count_filled<const N: usize>(slots: &[Option<Spell>; N]) -> (c: usize)
    ensures
        c == filled_count(slots@),
        c <= N,
{
    let mut c: usize = 0;
    let mut i: usize = 0;
    while i < N
        invariant
            slots@.len() == N,
            i <= N,
            c == filled_prefix(slots@, i as int).len(),
        decreases N - i,
    {
        proof {
            lemma_filled_prefix_bounds(slots@, i as int);
        }
        if slots[i].is_some() {
            c = c + 1;
        }
        i = i + 1;
    }
    proof {
        lemma_filled_prefix_bounds(slots@, N as int);
    }
    c
}

pub(crate) fn all_filled<const N: usize>(slots: &[Option<Spell>; N]) -> (b: bool)
    ensures
        b <==> (forall|j: int| 0 <= j < N ==> #[trigger] slots@[j] is Some),
{
    let mut i: usize = 0;
    while i < N
        invariant
            slots@.len() == N,
            i <= N,
            forall|j: int| 0 <= j < i ==> #[trigger] slots@[j] is Some,
        decreases N - i,
    {
        if slots[i].is_none() {
            return false;
        }
        i = i + 1;
    }
    true
}

} // verus!
