use cosmos_on_the_rocks::ingredient::{
    get_catalog, get_ice_gels, get_other_ingredients, get_static_ingredients, IngredientTaste,
    PrimaryEffect, SecondaryEffect,
};

#[test]
fn ice_gels_profiles() {
    let gels = get_ice_gels();
    assert_eq!(gels.len(), 3);
    assert_eq!(gels[0].name, "Blue Icegel");
    assert_eq!(gels[0].description, "Cools down drinks");
    assert_eq!(gels[0].ingredient_profile.size, 100);
    assert_eq!(gels[0].ingredient_profile.taste, IngredientTaste::Umami);
    assert_eq!(gels[1].ingredient_profile.primary_effect, PrimaryEffect::Energizing);
    assert_eq!(gels[2].ingredient_profile.taste, IngredientTaste::Bitter);
    match gels[2].ingredient_profile.secondary_effect {
        SecondaryEffect::Euphoric(c) => {
            assert_eq!(c.volume_needed, 900);
            assert_eq!(c.catalyst, None);
        }
        other => panic!("unexpected secondary effect {:?}", other),
    }
}

#[test]
fn bottle_shelves_differ_only_in_measure() {
    let full = get_static_ingredients();
    let samples = get_other_ingredients();
    assert_eq!(full.len(), 6);
    assert_eq!(samples.len(), 6);
    for (a, b) in full.iter().zip(samples.iter()) {
        assert_eq!(a.name, b.name);
        assert_eq!(a.ingredient_profile.taste, b.ingredient_profile.taste);
        assert_eq!(a.ingredient_profile.primary_effect, b.ingredient_profile.primary_effect);
        assert_eq!(a.ingredient_profile.size, 100);
        assert_eq!(b.ingredient_profile.size, 1);
    }
    assert_eq!(full[1].name, "Void Reserve");
    match full[1].ingredient_profile.secondary_effect {
        SecondaryEffect::Sedated(c) => assert_eq!(c.volume_needed, 400),
        other => panic!("unexpected secondary effect {:?}", other),
    }
    assert_eq!(samples[2].description, "Gin");
}

#[test]
fn catalog_is_gels_then_shelf() {
    let catalog = get_catalog();
    assert_eq!(catalog.len(), 9);
    let names: Vec<&str> = catalog.iter().map(|i| i.name.as_str()).collect();
    assert_eq!(
        names,
        vec![
            "Blue Icegel",
            "Red Icegel",
            "Green Icegel",
            "Synth Vapor",
            "Void Reserve",
            "Circuit Juice",
            "Fizzion Mist",
            "Sweetflux",
            "Citraplasm",
        ]
    );
    assert!(catalog.iter().all(|i| i.ingredient_profile.hazard.is_none()));
}

#[test]
fn category_indices_follow_declaration_order() {
    assert_eq!(IngredientTaste::Neutral.index(), 0);
    assert_eq!(IngredientTaste::Spicy.index(), 6);
    assert_eq!(IngredientTaste::from_index(4), IngredientTaste::Citrus);
    assert_eq!(PrimaryEffect::Healing.index(), 5);
    assert_eq!(PrimaryEffect::from_index(3), PrimaryEffect::CourageBoosting);
}
