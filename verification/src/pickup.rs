use vstd::prelude::*;
use crate::spell::{Spell, SpellType, next_level};
use crate::spell_list::SpellList;
use crate::bag::InventoryBag;
use crate::slots::{is_first_empty, is_first_of_type, contains_type, holds_type};

verus! {

/// What happened to a spell that the player picked up.
#[derive(Clone, Copy, Debug, PartialEq, Eq, Structural)]
pub enum SpellPickup {
    /// The equipped spell of the same type in this spell-list slot levelled up.
    LeveledInList(usize),
    /// The bagged spell of the same type in this bag slot levelled up.
    LeveledInBag(usize),
    /// The new spell was equipped to this empty spell-list slot.
    Equipped(usize),
    /// The new spell was put into this empty bag slot.
    Bagged(usize),
    /// Spell list and bag were both full: the spell is lost.
    Lost,
}

impl SpellPickup {
    /// Whether the pickup kept or improved a spell (a pickup sound plays);
    /// false only when the spell was lost.
    pub fn is_kept(&self) -> (b: bool)
        ensures
            b == !(*self is Lost),
    {
        !matches!(self, SpellPickup::Lost)
    }
}

/// The spell after one level-up.
pub open spec fn leveled(sp: Spell) -> Spell {
    Spell { spell_type: sp.spell_type, level: next_level(sp.level) }
}

/// A spell levelled by a pickup keeps its type and gains exactly one level
/// (a spell at the highest level keeps it): a level-`n` spell becomes a
/// level-`n + 1` spell.
pub proof fn law_pickup_level_up_adds_one(sp: Spell)
    ensures
        leveled(sp).spell_type == sp.spell_type,
        sp.level < u32::MAX ==> leveled(sp).level == sp.level + 1,
        sp.level == u32::MAX ==> leveled(sp).level == u32::MAX,
{
}

/// Apply the pickup of a spell of type `spell_type`, by priority:
/// 1. a spell of that type in the spell list levels up;
/// 2. otherwise a spell of that type in the bag levels up;
/// 3. otherwise a new level-1 spell is equipped to the first empty list slot;
/// 4. otherwise it is put into the first empty bag slot;
/// 5. otherwise it is lost and nothing changes.
pub fn pick_up_spell(list: &mut SpellList, bag: &mut InventoryBag, spell_type: SpellType) -> (r: SpellPickup)
    ensures
        match r {
            SpellPickup::LeveledInList(i) => {
                &&& is_first_of_type(old(list)@, spell_type, Some(i))
                &&& final(list)@ == old(list)@.update(i as int, Some(leveled(old(list)@[i as int]->0)))
                &&& old(list)@[i as int]->0.level < u32::MAX
                    ==> final(list)@[i as int]->0.level == old(list)@[i as int]->0.level + 1
                &&& final(bag)@ == old(bag)@
            },
            SpellPickup::LeveledInBag(i) => {
                &&& is_first_of_type(old(list)@, spell_type, None)
                &&& is_first_of_type(old(bag)@, spell_type, Some(i))
                &&& final(list)@ == old(list)@
                &&& final(bag)@ == old(bag)@.update(i as int, Some(leveled(old(bag)@[i as int]->0)))
                &&& old(bag)@[i as int]->0.level < u32::MAX
                    ==> final(bag)@[i as int]->0.level == old(bag)@[i as int]->0.level + 1
            },
            SpellPickup::Equipped(i) => {
                &&& is_first_of_type(old(list)@, spell_type, None)
                &&& is_first_of_type(old(bag)@, spell_type, None)
                &&& is_first_empty(old(list)@, Some(i))
                &&& final(list)@ == old(list)@.update(i as int, Some(Spell { spell_type, level: 1 }))
                &&& final(bag)@ == old(bag)@
            },
            SpellPickup::Bagged(i) => {
                &&& is_first_of_type(old(list)@, spell_type, None)
                &&& is_first_of_type(old(bag)@, spell_type, None)
                &&& is_first_empty(old(list)@, None)
                &&& is_first_empty(old(bag)@, Some(i))
                &&& final(list)@ == old(list)@
                &&& final(bag)@ == old(bag)@.update(i as int, Some(Spell { spell_type, level: 1 }))
            },
            SpellPickup::Lost => {
                &&& is_first_of_type(old(list)@, spell_type, None)
                &&& is_first_of_type(old(bag)@, spell_type, None)
                &&& is_first_empty(old(list)@, None)
                &&& is_first_empty(old(bag)@, None)
                &&& final(list)@ == old(list)@
                &&& final(bag)@ == old(bag)@
            },
        },
{
    proof {
        list.lemma_len();
        bag.lemma_len();
    }
    if let Some(slot) = list.find_spell_slot(&spell_type) {
        if let Some(spell) = list.get_spell_mut(slot) {
            spell.level_up();
        }
        return SpellPickup::LeveledInList(slot);
    }
    if let Some(slot) = bag.find_spell(&spell_type) {
        if let Some(spell) = bag.get_spell_mut(slot) {
            spell.level_up();
        }
        return SpellPickup::LeveledInBag(slot);
    }
    let new_spell = Spell::new(spell_type);
    if let Some(slot) = list.equip(new_spell) {
        return SpellPickup::Equipped(slot);
    }
    if let Some(slot) = bag.add(new_spell) {
        return SpellPickup::Bagged(slot);
    }
    SpellPickup::Lost
}

/// Pickup state of a dropped item.
#[derive(Clone, Copy, Debug, PartialEq, Eq, Structural)]
pub enum PickupState {
    /// Waiting to be picked up.
    Idle,
    /// Flying up briefly before attraction.
    PopUp,
    /// Moving toward the player.
    BeingAttracted,
    /// Reached the player; effects are being applied.
    PickedUp,
    /// Effects applied, ready for cleanup.
    Consumed,
}

/// The position of a state in the pickup sequence
/// Idle, PopUp, BeingAttracted, PickedUp, Consumed.
pub open spec fn stage(s: PickupState) -> int {
    match s {
        PickupState::Idle => 0,
        PickupState::PopUp => 1,
        PickupState::BeingAttracted => 2,
        PickupState::PickedUp => 3,
        PickupState::Consumed => 4,
    }
}

impl PickupState {
    /// The state after the player came within pickup range: an idle item
    /// that is still falling goes straight to attraction, a settled idle
    /// item pops up first; an item in any other state is unaffected.
    pub fn on_pickup_event(&self, still_falling: bool) -> (n: PickupState)
        ensures
            n == (if *self is Idle {
                if still_falling { PickupState::BeingAttracted } else { PickupState::PopUp }
            } else {
                *self
            }),
    {
        match self {
            PickupState::Idle => {
                if still_falling {
                    PickupState::BeingAttracted
                } else {
                    PickupState::PopUp
                }
            },
            _ => *self,
        }
    }

    /// The state after the pop-up finished hanging at its peak: a popping
    /// item flies to the player; any other state is unaffected.
    pub fn on_hang_finished(&self) -> (n: PickupState)
        ensures
            n == (if *self is PopUp { PickupState::BeingAttracted } else { *self }),
    {
        match self {
            PickupState::PopUp => PickupState::BeingAttracted,
            _ => *self,
        }
    }

    /// The state after an attracted item reached the player: it is picked
    /// up (its effects are then applied); any other state is unaffected.
    pub fn on_reached_player(&self) -> (n: PickupState)
        ensures
            n == (if *self is BeingAttracted { PickupState::PickedUp } else { *self }),
    {
        match self {
            PickupState::BeingAttracted => PickupState::PickedUp,
            _ => *self,
        }
    }

    /// The state once the item's effects were applied.
    pub fn on_effects_applied(&self) -> (n: PickupState)
        ensures
            n == PickupState::Consumed,
    {
        PickupState::Consumed
    }

    /// Whether the item is moving toward the player.
    pub fn is_attracted(&self) -> (b: bool)
        ensures
            b == (*self is BeingAttracted),
    {
        matches!(self, PickupState::BeingAttracted)
    }

    /// Whether the item is ready to be removed from the world.
    pub fn is_consumed(&self) -> (b: bool)
        ensures
            b == (*self is Consumed),
    {
        matches!(self, PickupState::Consumed)
    }
}

/// A pickup never goes back: every event leaves the state where it was or
/// moves it forward in the sequence, and a consumed item stays consumed.
pub proof fn law_pickup_moves_forward(s: PickupState, still_falling: bool)
    ensures
        stage(s) <= stage(if s is Idle {
            if still_falling { PickupState::BeingAttracted } else { PickupState::PopUp }
        } else {
            s
        }),
        stage(s) <= stage(if s is PopUp { PickupState::BeingAttracted } else { s }),
        stage(s) <= stage(if s is BeingAttracted { PickupState::PickedUp } else { s }),
        stage(s) <= stage(PickupState::Consumed),
        s is Consumed ==> (if s is Idle {
            if still_falling { PickupState::BeingAttracted } else { PickupState::PopUp }
        } else {
            s
        }) is Consumed,
{
}

/// A picked-up spell is never silently dropped while there is room: the
/// spell is lost only when neither the list nor the bag holds its type and
/// both are full; in every other case exactly one of the two containers
/// changes, in exactly one slot.
pub proof fn law_spell_pickup_loses_only_when_full(
    list_before: Seq<Option<Spell>>,
    bag_before: Seq<Option<Spell>>,
    list_after: Seq<Option<Spell>>,
    bag_after: Seq<Option<Spell>>,
    spell_type: SpellType,
    r: SpellPickup,
)
    requires
        match r {
            SpellPickup::LeveledInList(i) => {
                &&& is_first_of_type(list_before, spell_type, Some(i))
                &&& list_after == list_before.update(i as int, Some(leveled(list_before[i as int]->0)))
                &&& bag_after == bag_before
            },
            SpellPickup::LeveledInBag(i) => {
                &&& is_first_of_type(list_before, spell_type, None)
                &&& is_first_of_type(bag_before, spell_type, Some(i))
                &&& list_after == list_before
                &&& bag_after == bag_before.update(i as int, Some(leveled(bag_before[i as int]->0)))
            },
            SpellPickup::Equipped(i) => {
                &&& is_first_of_type(list_before, spell_type, None)
                &&& is_first_of_type(bag_before, spell_type, None)
                &&& is_first_empty(list_before, Some(i))
                &&& list_after == list_before.update(i as int, Some(Spell { spell_type, level: 1 }))
                &&& bag_after == bag_before
            },
            SpellPickup::Bagged(i) => {
                &&& is_first_of_type(list_before, spell_type, None)
                &&& is_first_of_type(bag_before, spell_type, None)
                &&& is_first_empty(list_before, None)
                &&& is_first_empty(bag_before, Some(i))
                &&& list_after == list_before
                &&& bag_after == bag_before.update(i as int, Some(Spell { spell_type, level: 1 }))
            },
            SpellPickup::Lost => {
                &&& is_first_of_type(list_before, spell_type, None)
                &&& is_first_of_type(bag_before, spell_type, None)
                &&& is_first_empty(list_before, None)
                &&& is_first_empty(bag_before, None)
                &&& list_after == list_before
                &&& bag_after == bag_before
            },
        },
    ensures
        r is Lost <==> (
            !contains_type(list_before, spell_type)
            && !contains_type(bag_before, spell_type)
            && (forall|j: int| 0 <= j < list_before.len() ==> #[trigger] list_before[j] is Some)
            && (forall|j: int| 0 <= j < bag_before.len() ==> #[trigger] bag_before[j] is Some)
        ),
        !(r is Lost) ==> (contains_type(list_after, spell_type) || contains_type(bag_after, spell_type)),
        r is Lost ==> list_after == list_before && bag_after == bag_before,
{
    match r {
        SpellPickup::LeveledInList(i) => {
            assert(holds_type(list_before, i as int, spell_type));
            assert(holds_type(list_after, i as int, spell_type));
        },
        SpellPickup::LeveledInBag(i) => {
            assert(holds_type(bag_before, i as int, spell_type));
            assert(holds_type(bag_after, i as int, spell_type));
        },
        SpellPickup::Equipped(i) => {
            assert(list_before[i as int] is None);
            assert(holds_type(list_after, i as int, spell_type));
        },
        SpellPickup::Bagged(i) => {
            assert(bag_before[i as int] is None);
            assert(holds_type(bag_after, i as int, spell_type));
        },
        SpellPickup::Lost => {},
    }
}

} // verus!
