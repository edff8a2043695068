use cosmos_on_the_rocks::drinks::{CreatedDrink, Drink, DrinkEffect, DrinkTaste};
use cosmos_on_the_rocks::effects::{convert, fallback_levels, traced_levels, volume_strength, EffectLevels};
use cosmos_on_the_rocks::glass::{Glass, GlassShape};
use cosmos_on_the_rocks::ingredient::{
    get_catalog, EffectCondition, Ingredient, IngredientProfile, IngredientTaste, PrimaryEffect,
    SecondaryEffect,
};

const ALL_EFFECTS: [PrimaryEffect; 6] = [
    PrimaryEffect::Calming,
    PrimaryEffect::Energizing,
    PrimaryEffect::MindEnhancing,
    PrimaryEffect::CourageBoosting,
    PrimaryEffect::TruthInducing,
    PrimaryEffect::Healing,
];

fn custom(size: u64, taste: IngredientTaste, effect: PrimaryEffect) -> Ingredient {
    Ingredient {
        name: String::from("Custom"),
        description: String::new(),
        ingredient_profile: IngredientProfile {
            size,
            taste,
            primary_effect: effect,
            secondary_effect: SecondaryEffect::Paranoia(EffectCondition {
                volume_needed: 500,
                catalyst: Some(0),
            }),
            hazard: None,
        },
    }
}

fn untraced_drink(primary: IngredientTaste) -> Drink {
    Drink {
        name: String::from("ZeroPhase"),
        ingredients: Vec::new(),
        taste: DrinkTaste { primary_taste: primary, secondary_taste: IngredientTaste::Neutral },
        effect: DrinkEffect {
            primary_effect: PrimaryEffect::Calming,
            secondary_effect: PrimaryEffect::Calming,
        },
        created_drink: CreatedDrink::ZeroPhase,
    }
}

fn levels(l: &EffectLevels) -> Vec<Option<u8>> {
    ALL_EFFECTS.iter().map(|e| l.get(*e)).collect()
}

#[test]
fn strength_rounds_units_and_caps_at_ten() {
    assert_eq!(volume_strength(0), 0);
    assert_eq!(volume_strength(4), 0);
    assert_eq!(volume_strength(5), 1);
    assert_eq!(volume_strength(14), 1);
    assert_eq!(volume_strength(15), 2);
    assert_eq!(volume_strength(30), 3);
    assert_eq!(volume_strength(94), 9);
    assert_eq!(volume_strength(95), 10);
    assert_eq!(volume_strength(100), 10);
    assert_eq!(volume_strength(110), 10);
    assert_eq!(volume_strength(u64::MAX), 10);
}

#[test]
fn eleven_units_of_one_ingredient_give_full_strength() {
    let catalog = vec![custom(110, IngredientTaste::Bitter, PrimaryEffect::TruthInducing)];
    let mut glass = Glass::new(1000, GlassShape::Whiskey);
    assert_eq!(glass.add_ingredient(&catalog, 0), Ok(()));
    let drink = glass.finalize();
    assert_eq!(drink.created_drink, CreatedDrink::OldMemory);
    let delta = convert(drink, &catalog);
    assert_eq!(levels(&delta), vec![None, None, None, None, Some(10), None]);
}

#[test]
fn sour_drink_without_ingredients_uses_fallback() {
    let catalog = get_catalog();
    let delta = convert(untraced_drink(IngredientTaste::Sour), &catalog);
    assert_eq!(levels(&delta), vec![None, Some(8), Some(2), None, None, None]);
}

#[test]
fn fallback_table_for_every_taste() {
    let expect = |t: IngredientTaste| levels(&fallback_levels(t));
    assert_eq!(expect(IngredientTaste::Sweet), vec![Some(3), None, None, None, None, Some(7)]);
    assert_eq!(expect(IngredientTaste::Sour), vec![None, Some(8), Some(2), None, None, None]);
    assert_eq!(expect(IngredientTaste::Bitter), vec![None, None, None, None, Some(9), None]);
    assert_eq!(expect(IngredientTaste::Spicy), vec![None, Some(4), None, Some(8), None, None]);
    assert_eq!(expect(IngredientTaste::Citrus), vec![Some(5), None, None, None, None, None]);
    assert_eq!(expect(IngredientTaste::Umami), vec![Some(5), None, None, None, None, None]);
    assert_eq!(expect(IngredientTaste::Neutral), vec![Some(5), None, None, None, None, None]);
}

#[test]
fn empty_glass_converts_through_fallback() {
    let catalog = get_catalog();
    let mut glass = Glass::new(1000, GlassShape::Cocktail);
    let drink = glass.finalize();
    assert_eq!(drink.created_drink, CreatedDrink::ZeroPhase);
    let delta = convert(drink, &catalog);
    assert_eq!(levels(&delta), vec![Some(5), None, None, None, None, None]);
}

#[test]
fn strengths_of_one_effect_add_up_and_cap() {
    let catalog = get_catalog();
    let mut glass = Glass::new(1000, GlassShape::Wine);
    // Red Icegel, Synth Vapor, Circuit Juice and Fizzion Mist are all energizing.
    for id in [1, 3, 5, 6] {
        assert_eq!(glass.add_ingredient(&catalog, id), Ok(()));
    }
    assert_eq!(glass.add_ingredient(&catalog, 8), Ok(()));
    let delta = convert(glass.finalize(), &catalog);
    assert_eq!(levels(&delta), vec![None, Some(10), Some(10), None, None, None]);
}

#[test]
fn small_measures_give_partial_strength() {
    let catalog = vec![
        custom(3, IngredientTaste::Sweet, PrimaryEffect::Healing),
        custom(7, IngredientTaste::Sour, PrimaryEffect::Calming),
    ];
    let mut glass = Glass::new(1000, GlassShape::Wine);
    assert_eq!(glass.add_ingredient(&catalog, 0), Ok(()));
    assert_eq!(glass.add_ingredient(&catalog, 1), Ok(()));
    assert_eq!(glass.add_ingredient(&catalog, 1), Ok(()));
    let delta = convert(glass.finalize(), &catalog);
    // 0.3 units rounds to 0, 1.4 units rounds to 1.
    assert_eq!(levels(&delta), vec![Some(1), None, None, None, None, Some(0)]);
}

#[test]
fn ingredients_outside_the_catalog_are_not_traced() {
    let catalog = get_catalog();
    let drink = Drink {
        name: String::from("CryoDrop"),
        ingredients: vec![(42, 100)],
        taste: DrinkTaste {
            primary_taste: IngredientTaste::Bitter,
            secondary_taste: IngredientTaste::Neutral,
        },
        effect: DrinkEffect {
            primary_effect: PrimaryEffect::Calming,
            secondary_effect: PrimaryEffect::Calming,
        },
        created_drink: CreatedDrink::CryoDrop,
    };
    assert!(traced_levels(&drink.ingredients, &catalog).is_empty());
    let delta = convert(drink, &catalog);
    assert_eq!(levels(&delta), vec![None, None, None, None, Some(9), None]);
}

#[test]
fn effect_levels_set_add_and_read() {
    let mut l = EffectLevels::new();
    assert!(l.is_empty());
    l.set(PrimaryEffect::Healing, 4);
    assert!(!l.is_empty());
    assert_eq!(l.get(PrimaryEffect::Healing), Some(4));
    assert_eq!(l.level(PrimaryEffect::Calming), 0);
    l.add_capped(PrimaryEffect::Healing, 5);
    assert_eq!(l.level(PrimaryEffect::Healing), 9);
    l.add_capped(PrimaryEffect::Healing, 5);
    assert_eq!(l.level(PrimaryEffect::Healing), 10);
    l.add_capped(PrimaryEffect::Calming, 255);
    assert_eq!(l.get(PrimaryEffect::Calming), Some(10));
}
