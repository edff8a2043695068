use cosmos_on_the_rocks::glass::{CraftError, Glass, GlassShape};
use cosmos_on_the_rocks::ingredient::{
    get_catalog, EffectCondition, Ingredient, IngredientProfile, IngredientTaste, PrimaryEffect,
    SecondaryEffect,
};

fn custom(name: &str, size: u64, taste: IngredientTaste, effect: PrimaryEffect) -> Ingredient {
    Ingredient {
        name: name.to_string(),
        description: String::new(),
        ingredient_profile: IngredientProfile {
            size,
            taste,
            primary_effect: effect,
            secondary_effect: SecondaryEffect::Sedated(EffectCondition {
                volume_needed: 900,
                catalyst: None,
            }),
            hazard: None,
        },
    }
}

#[test]
fn new_glass_is_empty() {
    let glass = Glass::new(1000, GlassShape::Wine);
    assert_eq!(glass.get_current_volume(), 0);
    assert_eq!(glass.capacity(), 1000);
    assert_eq!(glass.shape(), GlassShape::Wine);
    assert!(glass.ingredient_entries().is_empty());
    assert_eq!(glass.taste_weight(IngredientTaste::Umami), None);
    assert_eq!(glass.effect_weight(PrimaryEffect::Calming), None);
}

#[test]
fn pouring_accumulates_all_three_tables() {
    let catalog = get_catalog();
    let mut glass = Glass::new(1000, GlassShape::Wine);
    assert_eq!(glass.add_ingredient(&catalog, 0), Ok(()));
    assert_eq!(glass.add_ingredient(&catalog, 0), Ok(()));
    assert_eq!(glass.add_ingredient(&catalog, 1), Ok(()));
    assert_eq!(glass.get_current_volume(), 300);
    assert_eq!(glass.ingredient_entries(), vec![(0, 200), (1, 100)]);
    assert_eq!(glass.taste_weight(IngredientTaste::Umami), Some(200));
    assert_eq!(glass.taste_weight(IngredientTaste::Spicy), Some(100));
    assert_eq!(glass.taste_weight(IngredientTaste::Sour), None);
    assert_eq!(glass.effect_weight(PrimaryEffect::Calming), Some(200));
    assert_eq!(glass.effect_weight(PrimaryEffect::Energizing), Some(100));
}

#[test]
fn three_umami_pours_fill_thirty_units() {
    let catalog = get_catalog();
    let mut glass = Glass::new(1000, GlassShape::Wine);
    for _ in 0..3 {
        assert_eq!(glass.add_ingredient(&catalog, 0), Ok(()));
    }
    assert_eq!(glass.get_current_volume(), 300);
}

#[test]
fn pour_that_would_overflow_is_refused_and_changes_nothing() {
    let catalog = vec![
        custom("Base", 950, IngredientTaste::Sweet, PrimaryEffect::Healing),
        custom("Splash", 100, IngredientTaste::Sour, PrimaryEffect::Energizing),
    ];
    let mut glass = Glass::new(1000, GlassShape::Wine);
    assert_eq!(glass.add_ingredient(&catalog, 0), Ok(()));
    assert_eq!(glass.get_current_volume(), 950);
    let entries = glass.ingredient_entries();
    let mut refusals = 0;
    if glass.add_ingredient(&catalog, 1) == Err(CraftError::CapacityExceeded) {
        refusals += 1;
    }
    assert_eq!(refusals, 1);
    assert_eq!(glass.get_current_volume(), 950);
    assert_eq!(glass.ingredient_entries(), entries);
    assert_eq!(glass.taste_weight(IngredientTaste::Sweet), Some(950));
    assert_eq!(glass.taste_weight(IngredientTaste::Sour), None);
    assert_eq!(glass.effect_weight(PrimaryEffect::Healing), Some(950));
    assert_eq!(glass.effect_weight(PrimaryEffect::Energizing), None);
}

#[test]
fn filling_exactly_to_capacity_is_refused() {
    let catalog = vec![
        custom("Base", 900, IngredientTaste::Sweet, PrimaryEffect::Healing),
        custom("Top", 100, IngredientTaste::Sour, PrimaryEffect::Energizing),
    ];
    let mut glass = Glass::new(1000, GlassShape::Wine);
    assert_eq!(glass.add_ingredient(&catalog, 0), Ok(()));
    assert_eq!(glass.add_ingredient(&catalog, 1), Err(CraftError::CapacityExceeded));
    assert_eq!(glass.get_current_volume(), 900);
}

#[test]
fn filling_just_below_capacity_is_accepted() {
    let catalog = vec![
        custom("Base", 899, IngredientTaste::Sweet, PrimaryEffect::Healing),
        custom("Top", 100, IngredientTaste::Sour, PrimaryEffect::Energizing),
    ];
    let mut glass = Glass::new(1000, GlassShape::Wine);
    assert_eq!(glass.add_ingredient(&catalog, 0), Ok(()));
    assert_eq!(glass.add_ingredient(&catalog, 1), Ok(()));
    assert_eq!(glass.get_current_volume(), 999);
}

#[test]
fn repeated_pours_never_exceed_capacity() {
    let catalog = get_catalog();
    let mut glass = Glass::new(1000, GlassShape::Cocktail);
    let mut accepted = 0;
    for step in 0..40 {
        let id = step % catalog.len();
        if glass.add_ingredient(&catalog, id).is_ok() {
            accepted += 1;
        }
        assert!(glass.get_current_volume() <= glass.capacity());
    }
    assert_eq!(accepted, 9);
    assert_eq!(glass.get_current_volume(), 900);
}

#[test]
fn unknown_ingredient_is_refused() {
    let catalog = get_catalog();
    let mut glass = Glass::new(1000, GlassShape::Wine);
    assert_eq!(glass.add_ingredient(&catalog, 9), Err(CraftError::UnknownIngredient));
    assert_eq!(glass.get_current_volume(), 0);
    assert!(glass.ingredient_entries().is_empty());
}

#[test]
fn unknown_ingredient_is_refused_even_when_full() {
    let catalog = vec![custom("Base", 999, IngredientTaste::Sweet, PrimaryEffect::Healing)];
    let mut glass = Glass::new(1000, GlassShape::Wine);
    assert_eq!(glass.add_ingredient(&catalog, 0), Ok(()));
    assert_eq!(glass.add_ingredient(&catalog, 1), Err(CraftError::UnknownIngredient));
}

#[test]
fn reset_empties_every_table() {
    let catalog = get_catalog();
    let mut glass = Glass::new(1000, GlassShape::Whiskey);
    assert_eq!(glass.add_ingredient(&catalog, 2), Ok(()));
    glass.reset();
    assert_eq!(glass.get_current_volume(), 0);
    assert!(glass.ingredient_entries().is_empty());
    assert_eq!(glass.taste_weight(IngredientTaste::Bitter), None);
    assert_eq!(glass.effect_weight(PrimaryEffect::Healing), None);
    assert_eq!(glass.capacity(), 1000);
    assert_eq!(glass.shape(), GlassShape::Whiskey);
}

#[test]
fn pour_uses_the_given_profile() {
    let catalog = get_catalog();
    let mut glass = Glass::new(1000, GlassShape::Wine);
    let profile = catalog[4].ingredient_profile.clone();
    assert_eq!(glass.pour(4, &profile), Ok(()));
    assert_eq!(glass.ingredient_entries(), vec![(4, 100)]);
    assert_eq!(glass.taste_weight(IngredientTaste::Umami), Some(100));
}

#[test]
fn switching_shape_cycles_and_keeps_contents() {
    let catalog = get_catalog();
    let mut glass = Glass::new(1000, GlassShape::Wine);
    assert_eq!(glass.add_ingredient(&catalog, 0), Ok(()));
    glass.switch_shape();
    assert_eq!(glass.shape(), GlassShape::Whiskey);
    glass.switch_shape();
    assert_eq!(glass.shape(), GlassShape::Cocktail);
    glass.switch_shape();
    assert_eq!(glass.shape(), GlassShape::Wine);
    assert_eq!(glass.get_current_volume(), 100);
    assert_eq!(GlassShape::Wine.next(), GlassShape::Whiskey);
}

#[test]
fn zero_capacity_glass_refuses_everything() {
    let catalog = vec![custom("Drop", 0, IngredientTaste::Sweet, PrimaryEffect::Healing)];
    let mut glass = Glass::new(0, GlassShape::Wine);
    assert_eq!(glass.add_ingredient(&catalog, 0), Err(CraftError::CapacityExceeded));
}
