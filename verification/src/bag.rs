use vstd::prelude::*;
use crate::spell::{Spell, SpellType};
use crate::slots::{
    BAG_SIZE, is_first_empty, is_first_of_type, filled, filled_count,
    lemma_filled_prefix_bounds, lemma_filled_prefix_empty, first_empty, first_of_type,
    filled_entries, count_filled, all_filled,
};

verus! {

/// The player's inventory bag: thirty slots for spells that are not
/// currently equipped.
pub struct InventoryBag {
    slots: [Option<Spell>; 30],
}

impl View for InventoryBag {
    type V = Seq<Option<Spell>>;

    /// The thirty slots, in order; `None` is an empty slot.
    closed spec fn view(&self) -> Seq<Option<Spell>> {
        self.slots@
    }
}

impl InventoryBag {
    /// The bag always has exactly thirty slots.
    pub proof fn lemma_len(&self)
        ensures
            self@.len() == BAG_SIZE,
    {
    }

    /// Add a spell to the first empty slot; returns that slot, or `None`
    /// (leaving the bag unchanged) when the bag is full.
    pub fn add(&mut self, spell: Spell) -> (r: Option<usize>)
        ensures
            final(self)@.len() == BAG_SIZE,
            is_first_empty(old(self)@, r),
            match r {
                Some(i) => final(self)@ == old(self)@.update(i as int, Some(spell)),
                None => final(self)@ == old(self)@,
            },
    {
        match first_empty(&self.slots) {
            Some(i) => {
                self.slots[i] = Some(spell);
                Some(i)
            },
            None => None,
        }
    }

    /// Remove and return the spell in the given slot; out-of-range slots and
    /// empty slots give `None` and leave the bag unchanged.
    pub fn remove(&mut self, slot: usize) -> (r: Option<Spell>)
        ensures
            r == (if slot < BAG_SIZE { old(self)@[slot as int] } else { None }),
            final(self)@ == (if slot < BAG_SIZE {
                old(self)@.update(slot as int, None)
            } else {
                old(self)@
            }),
    {
        if slot < 30 {
            let r = self.slots[slot];
            self.slots[slot] = None;
            r
        } else {
            None
        }
    }

    /// The first slot holding a spell of the given type, if any.
    pub fn find_spell(&self, spell_type: &SpellType) -> (r: Option<usize>)
        ensures
            is_first_of_type(self@, *spell_type, r),
    {
        first_of_type(&self.slots, spell_type)
    }

    /// The spell in the given slot, if the slot exists and holds one.
    pub fn get_spell(&self, slot: usize) -> (r: Option<&Spell>)
        ensures
            r is Some <==> (slot < BAG_SIZE && self@[slot as int] is Some),
            r matches Some(sp) ==> self@[slot as int] == Some(*sp),
    {
        if slot < 30 {
            match &self.slots[slot] {
                Some(sp) => Some(sp),
                None => None,
            }
        } else {
            None
        }
    }

    /// Mutable access to the spell in the given slot (to level it up), if
    /// the slot exists and holds one.
    pub fn get_spell_mut(&mut self, slot: usize) -> (r: Option<&mut Spell>)
        ensures
            r is Some <==> (slot < BAG_SIZE && old(self)@[slot as int] is Some),
            match r {
                Some(sp) => {
                    &&& old(self)@[slot as int] == Some(*sp)
                    &&& final(self)@ == old(self)@.update(slot as int, Some(*final(sp)))
                },
                None => final(self)@ == old(self)@,
            },
    {
        if slot < 30 {
            self.slots[slot].as_mut()
        } else {
            None
        }
    }

    /// Whether every slot holds a spell.
    pub fn is_full(&self) -> (b: bool)
        ensures
            b <==> (forall|j: int| 0 <= j < BAG_SIZE ==> #[trigger] self@[j] is Some),
            b <==> filled_count(self@) == BAG_SIZE,
    {
        proof {
            lemma_filled_prefix_bounds(self@, BAG_SIZE as int);
        }
        all_filled(&self.slots)
    }

    /// The number of spells in the bag.
    pub fn count(&self) -> (c: usize)
        ensures
            c == filled_count(self@),
            c <= BAG_SIZE,
    {
        count_filled(&self.slots)
    }

    /// The first empty slot, if any.
    pub fn find_empty_slot(&self) -> (r: Option<usize>)
        ensures
            is_first_empty(self@, r),
    {
        first_empty(&self.slots)
    }

    /// The spells in the bag with their slot indices, in slot order.
    pub fn iter(&self) -> (v: Vec<(usize, Spell)>)
        ensures
            v@ == filled(self@),
    {
        filled_entries(&self.slots)
    }

    /// Mutable access to the whole slot array, for direct manipulation.
    pub fn slots_mut(&mut self) -> (s: &mut [Option<Spell>; 30])
        ensures
            s@ == old(self)@,
            final(self)@ == final(s)@,
    {
        &mut self.slots
    }
}

impl Default for InventoryBag {
    /// An empty bag.
    fn default() -> (b: InventoryBag)
        ensures
            b@ == Seq::new(BAG_SIZE as nat, |i: int| None::<Spell>),
            filled_count(b@) == 0,
    {
        let b = InventoryBag { slots: [None; 30] };
        assert(b@ =~= Seq::new(BAG_SIZE as nat, |i: int| None::<Spell>));
        proof {
            lemma_filled_prefix_empty(b@, BAG_SIZE as int);
        }
        b
    }
}

} // verus!
