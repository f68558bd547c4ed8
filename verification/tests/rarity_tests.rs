use donny_tango_survivor::rarity::{Level, Rarity};

#[test]
fn level_clamps_to_valid_range() {
    assert_eq!(Level::new(0).value(), 1);
    assert_eq!(Level::new(1).value(), 1);
    assert_eq!(Level::new(3).value(), 3);
    assert_eq!(Level::new(5).value(), 5);
    assert_eq!(Level::new(10).value(), 5);
    assert_eq!(Level::new(255).value(), 5);
}

#[test]
fn rarity_from_level_maps_correctly() {
    assert_eq!(Rarity::from_level(1), Rarity::Common);
    assert_eq!(Rarity::from_level(2), Rarity::Uncommon);
    assert_eq!(Rarity::from_level(3), Rarity::Rare);
    assert_eq!(Rarity::from_level(4), Rarity::Epic);
    assert_eq!(Rarity::from_level(5), Rarity::Legendary);
    assert_eq!(Rarity::from_level(6), Rarity::Legendary);
    assert_eq!(Rarity::from_level(100), Rarity::Legendary);
}

#[test]
fn rarity_from_level_zero_returns_common() {
    assert_eq!(Rarity::from_level(0), Rarity::Common);
}

#[test]
fn level_rarity_returns_correct_rarity() {
    assert_eq!(Level::new(1).rarity(), Rarity::Common);
    assert_eq!(Level::new(2).rarity(), Rarity::Uncommon);
    assert_eq!(Level::new(3).rarity(), Rarity::Rare);
    assert_eq!(Level::new(4).rarity(), Rarity::Epic);
    assert_eq!(Level::new(5).rarity(), Rarity::Legendary);
}

#[test]
fn rarity_default_is_common() {
    let rarity: Rarity = Default::default();
    assert_eq!(rarity, Rarity::Common);
}

#[test]
fn level_default_is_zero() {
    let level: Level = Default::default();
    assert_eq!(level.0, 0);
}

#[test]
fn material_tier_maps_levels_to_tiers() {
    assert_eq!(Rarity::material_tier(1), Rarity::Common);
    assert_eq!(Rarity::material_tier(2), Rarity::Uncommon);
    assert_eq!(Rarity::material_tier(3), Rarity::Rare);
    assert_eq!(Rarity::material_tier(4), Rarity::Epic);
    assert_eq!(Rarity::material_tier(5), Rarity::Legendary);
}

#[test]
fn material_tier_out_of_range_is_legendary() {
    // Unlike `from_level`, level 0 shows the legendary material.
    assert_eq!(Rarity::material_tier(0), Rarity::Legendary);
    assert_eq!(Rarity::material_tier(6), Rarity::Legendary);
    assert_eq!(Rarity::material_tier(255), Rarity::Legendary);
}
