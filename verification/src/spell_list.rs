use vstd::prelude::*;
use crate::spell::{Spell, SpellType};
use crate::slots::{SPELL_LIST_SIZE, is_first_empty, is_first_of_type, contains_type, holds_type, filled, first_empty, first_of_type, filled_entries};

verus! {

/// The player's active spell slots: up to five spells equipped for combat.
pub struct SpellList {
    slots: [Option<Spell>; 5],
}

impl View for SpellList {
    type V = Seq<Option<Spell>>;

    /// The five slots, in order; `None` is an empty slot.
    closed spec fn view(&self) -> Seq<Option<Spell>> {
        self.slots@
    }
}

impl SpellList {
    /// The list always has exactly five slots.
    pub proof fn lemma_len(&self)
        ensures
            self@.len() == SPELL_LIST_SIZE,
    {
    }

    /// Equip a spell to the first empty slot; returns that slot, or `None`
    /// (leaving the list unchanged) when every slot is taken.
    pub fn equip(&mut self, spell: Spell) -> (r: Option<usize>)
        ensures
            final(self)@.len() == SPELL_LIST_SIZE,
            is_first_empty(old(self)@, r),
            match r {
                Some(i) => final(self)@ == old(self)@.update(i as int, Some(spell)),
                None => final(self)@ == old(self)@,
            },
    {
        match first_empty(&self.slots) {
            Some(i) => {
                self.slots[i] = Some(spell);
                Some(i)
            },
            None => None,
        }
    }

    /// The first empty slot, if any.
    pub fn find_empty_slot(&self) -> (r: Option<usize>)
        ensures
            is_first_empty(self@, r),
    {
        first_empty(&self.slots)
    }

    /// Whether a spell of the given type is equipped.
    pub fn has_spell(&self, spell_type: &SpellType) -> (b: bool)
        ensures
            b == contains_type(self@, *spell_type),
    {
        let r = first_of_type(&self.slots, spell_type);
        proof {
            if let Some(i) = r {
                assert(holds_type(self@, i as int, *spell_type));
            }
        }
        r.is_some()
    }

    /// The spell in the given slot, if the slot exists and holds one.
    pub fn get_spell(&self, slot: usize) -> (r: Option<&Spell>)
        ensures
            r is Some <==> (slot < SPELL_LIST_SIZE && self@[slot as int] is Some),
            r matches Some(sp) ==> self@[slot as int] == Some(*sp),
    {
        if slot < 5 {
            match &self.slots[slot] {
                Some(sp) => Some(sp),
                None => None,
            }
        } else {
            None
        }
    }

    /// Mutable access to the spell in the given slot (to level it up), if
    /// the slot exists and holds one.
    pub fn get_spell_mut(&mut self, slot: usize) -> (r: Option<&mut Spell>)
        ensures
            r is Some <==> (slot < SPELL_LIST_SIZE && old(self)@[slot as int] is Some),
            match r {
                Some(sp) => {
                    &&& old(self)@[slot as int] == Some(*sp)
                    &&& final(self)@ == old(self)@.update(slot as int, Some(*final(sp)))
                },
                None => final(self)@ == old(self)@,
            },
    {
        if slot < 5 {
            self.slots[slot].as_mut()
        } else {
            None
        }
    }

    /// The equipped spells with their slot indices, in slot order.
    pub fn iter_spells(&self) -> (v: Vec<(usize, Spell)>)
        ensures
            v@ == filled(self@),
    {
        filled_entries(&self.slots)
    }

    /// The first slot holding a spell of the given type, if any.
    pub fn find_spell_slot(&self, spell_type: &SpellType) -> (r: Option<usize>)
        ensures
            is_first_of_type(self@, *spell_type, r),
    {
        first_of_type(&self.slots, spell_type)
    }

    /// Remove and return the spell in the given slot; out-of-range slots and
    /// empty slots give `None` and leave the list unchanged.
    pub fn remove(&mut self, slot: usize) -> (r: Option<Spell>)
        ensures
            r == (if slot < SPELL_LIST_SIZE { old(self)@[slot as int] } else { None }),
            final(self)@ == (if slot < SPELL_LIST_SIZE {
                old(self)@.update(slot as int, None)
            } else {
                old(self)@
            }),
    {
        if slot < 5 {
            let r = self.slots[slot];
            self.slots[slot] = None;
            r
        } else {
            None
        }
    }
}

impl Default for SpellList {
    /// An empty spell list.
    fn default() -> (l: SpellList)
        ensures
            l@ == Seq::new(SPELL_LIST_SIZE as nat, |i: int| None::<Spell>),
    {
        let l = SpellList { slots: [None, None, None, None, None] };
        assert(l@ =~= Seq::new(SPELL_LIST_SIZE as nat, |i: int| None::<Spell>));
        l
    }
}

} // verus!
