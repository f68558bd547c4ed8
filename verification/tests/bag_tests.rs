use donny_tango_survivor::bag::InventoryBag;
use donny_tango_survivor::spell::{Spell, SpellType};

// Spell types are identified by their catalogue index.
const FIREBALL: SpellType = SpellType(0);
const RADIANT_BEAM: SpellType = SpellType(33);
const THUNDER_STRIKE: SpellType = SpellType(24);

fn create_fireball_spell() -> Spell {
    Spell::new(FIREBALL)
}

fn create_radiant_beam_spell() -> Spell {
    Spell::new(RADIANT_BEAM)
}

fn create_thunder_strike_spell() -> Spell {
    Spell::new(THUNDER_STRIKE)
}

fn fill_bag_with_n_spells(bag: &mut InventoryBag, n: usize) {
    for _ in 0..n {
        bag.add(create_fireball_spell());
    }
}

#[test]
fn add_to_empty_bag_returns_slot_0() {
    let mut bag = InventoryBag::default();
    let result = bag.add(create_fireball_spell());
    assert_eq!(result, Some(0));
}

#[test]
fn add_to_empty_bag_stores_spell() {
    let mut bag = InventoryBag::default();
    bag.add(create_fireball_spell());
    assert!(bag.get_spell(0).is_some());
}

#[test]
fn add_multiple_spells_fills_consecutive_slots() {
    let mut bag = InventoryBag::default();
    assert_eq!(bag.add(create_fireball_spell()), Some(0));
    assert_eq!(bag.add(create_radiant_beam_spell()), Some(1));
    assert_eq!(bag.add(create_thunder_strike_spell()), Some(2));
}

#[test]
fn add_returns_none_when_full() {
    let mut bag = InventoryBag::default();
    fill_bag_with_n_spells(&mut bag, 30);
    let result = bag.add(create_fireball_spell());
    assert_eq!(result, None);
}

#[test]
fn remove_from_valid_slot_returns_spell() {
    let mut bag = InventoryBag::default();
    bag.add(create_fireball_spell());
    let removed = bag.remove(0);
    assert!(removed.is_some());
}

#[test]
fn bag_remove_clears_slot() {
    let mut bag = InventoryBag::default();
    bag.add(create_fireball_spell());
    bag.remove(0);
    assert!(bag.get_spell(0).is_none());
}

#[test]
fn remove_from_empty_slot_returns_none() {
    let mut bag = InventoryBag::default();
    let removed = bag.remove(0);
    assert!(removed.is_none());
}

#[test]
fn remove_from_out_of_bounds_returns_none() {
    let mut bag = InventoryBag::default();
    let removed = bag.remove(30);
    assert!(removed.is_none());
    let removed_large = bag.remove(100);
    assert!(removed_large.is_none());
}

#[test]
fn find_spell_returns_correct_index() {
    let mut bag = InventoryBag::default();
    bag.add(create_fireball_spell());
    bag.add(create_radiant_beam_spell());
    let slot = bag.find_spell(&RADIANT_BEAM);
    assert_eq!(slot, Some(1));
}

#[test]
fn find_spell_returns_none_for_missing() {
    let bag = InventoryBag::default();
    let slot = bag.find_spell(&RADIANT_BEAM);
    assert_eq!(slot, None);
}

#[test]
fn find_spell_with_filled_bag_finds_spell() {
    let mut bag = InventoryBag::default();
    fill_bag_with_n_spells(&mut bag, 15);
    bag.add(create_radiant_beam_spell());
    let slot = bag.find_spell(&RADIANT_BEAM);
    assert_eq!(slot, Some(15));
}

#[test]
fn bag_get_spell_returns_some_for_valid_slot() {
    let mut bag = InventoryBag::default();
    bag.add(create_fireball_spell());
    assert!(bag.get_spell(0).is_some());
}

#[test]
fn bag_get_spell_returns_none_for_empty_slot() {
    let bag = InventoryBag::default();
    assert!(bag.get_spell(0).is_none());
}

#[test]
fn bag_get_spell_returns_none_for_out_of_bounds() {
    let bag = InventoryBag::default();
    assert!(bag.get_spell(30).is_none());
    assert!(bag.get_spell(100).is_none());
}

#[test]
fn bag_get_spell_returns_correct_spell() {
    let mut bag = InventoryBag::default();
    bag.add(create_fireball_spell());
    bag.add(create_radiant_beam_spell());
    let spell = bag.get_spell(1).unwrap();
    assert_eq!(spell.spell_type, RADIANT_BEAM);
}

#[test]
fn bag_get_spell_mut_allows_level_up() {
    let mut bag = InventoryBag::default();
    bag.add(create_fireball_spell());
    if let Some(spell) = bag.get_spell_mut(0) {
        let old_level = spell.level;
        spell.level_up();
        assert_eq!(spell.level, old_level + 1);
    } else {
        panic!("Expected spell at slot 0");
    }
}

#[test]
fn bag_get_spell_mut_returns_none_for_empty_slot() {
    let mut bag = InventoryBag::default();
    assert!(bag.get_spell_mut(0).is_none());
}

#[test]
fn bag_get_spell_mut_returns_none_for_out_of_bounds() {
    let mut bag = InventoryBag::default();
    assert!(bag.get_spell_mut(30).is_none());
}

#[test]
fn is_full_returns_false_when_empty() {
    let bag = InventoryBag::default();
    assert!(!bag.is_full());
}

#[test]
fn is_full_returns_false_with_29_spells() {
    let mut bag = InventoryBag::default();
    fill_bag_with_n_spells(&mut bag, 29);
    assert!(!bag.is_full());
}

#[test]
fn is_full_returns_true_with_30_spells() {
    let mut bag = InventoryBag::default();
    fill_bag_with_n_spells(&mut bag, 30);
    assert!(bag.is_full());
}

#[test]
fn count_returns_0_when_empty() {
    let bag = InventoryBag::default();
    assert_eq!(bag.count(), 0);
}

#[test]
fn count_returns_correct_number() {
    let mut bag = InventoryBag::default();
    fill_bag_with_n_spells(&mut bag, 15);
    assert_eq!(bag.count(), 15);
}

#[test]
fn count_updates_after_remove() {
    let mut bag = InventoryBag::default();
    fill_bag_with_n_spells(&mut bag, 10);
    bag.remove(5);
    assert_eq!(bag.count(), 9);
}

#[test]
fn iter_returns_empty_for_empty_bag() {
    let bag = InventoryBag::default();
    let spells: Vec<_> = bag.iter().into_iter().collect();
    assert!(spells.is_empty());
}

#[test]
fn iter_returns_all_spells() {
    let mut bag = InventoryBag::default();
    bag.add(create_fireball_spell());
    bag.add(create_radiant_beam_spell());
    bag.add(create_thunder_strike_spell());
    let spells: Vec<_> = bag.iter().into_iter().collect();
    assert_eq!(spells.len(), 3);
}

#[test]
fn iter_includes_slot_indices() {
    let mut bag = InventoryBag::default();
    bag.add(create_fireball_spell());
    bag.add(create_radiant_beam_spell());
    let spells: Vec<_> = bag.iter().into_iter().collect();
    assert_eq!(spells[0].0, 0);
    assert_eq!(spells[1].0, 1);
}

#[test]
fn iter_skips_empty_slots() {
    let mut bag = InventoryBag::default();
    bag.add(create_fireball_spell());
    bag.add(create_radiant_beam_spell());
    bag.add(create_thunder_strike_spell());
    bag.remove(1); // Remove middle spell
    let spells: Vec<_> = bag.iter().into_iter().collect();
    assert_eq!(spells.len(), 2);
    assert_eq!(spells[0].0, 0);
    assert_eq!(spells[1].0, 2);
}

#[test]
fn bag_find_empty_slot_returns_0_when_empty() {
    let bag = InventoryBag::default();
    assert_eq!(bag.find_empty_slot(), Some(0));
}

#[test]
fn bag_find_empty_slot_returns_next_available() {
    let mut bag = InventoryBag::default();
    fill_bag_with_n_spells(&mut bag, 10);
    assert_eq!(bag.find_empty_slot(), Some(10));
}

#[test]
fn bag_find_empty_slot_returns_none_when_full() {
    let mut bag = InventoryBag::default();
    fill_bag_with_n_spells(&mut bag, 30);
    assert_eq!(bag.find_empty_slot(), None);
}

#[test]
fn find_empty_slot_finds_gap_after_removal() {
    let mut bag = InventoryBag::default();
    fill_bag_with_n_spells(&mut bag, 10);
    bag.remove(5);
    assert_eq!(bag.find_empty_slot(), Some(5));
}

#[test]
fn add_then_remove_gives_back_the_spell() {
    let mut bag = InventoryBag::default();
    fill_bag_with_n_spells(&mut bag, 4);
    let before = bag.count();
    let slot = bag.add(create_radiant_beam_spell()).unwrap();
    assert_eq!(bag.count(), before + 1);
    let removed = bag.remove(slot).unwrap();
    assert_eq!(removed.spell_type, RADIANT_BEAM);
    assert_eq!(bag.count(), before);
    assert_eq!(bag.find_empty_slot(), Some(slot));
}

#[test]
fn slots_mut_gives_direct_access() {
    let mut bag = InventoryBag::default();
    bag.slots_mut()[7] = Some(create_thunder_strike_spell());
    assert_eq!(bag.get_spell(7).unwrap().spell_type, THUNDER_STRIKE);
    assert_eq!(bag.count(), 1);
    assert_eq!(bag.find_spell(&THUNDER_STRIKE), Some(7));
}
