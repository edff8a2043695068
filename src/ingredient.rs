//! Ingredient catalog: tastes, effects and the profiles of every ingredient.
use vstd::prelude::*;
use vstd::string::StringExecFns;

verus! {

/// Number of taste categories.
pub const TASTE_COUNT: usize = 7;

/// Number of primary effect categories.
pub const EFFECT_COUNT: usize = 6;

/// Taste category of an ingredient, in declaration order (which is also the
/// order that breaks ties between equally weighted tastes).
#[derive(Clone, Copy, Debug, PartialEq, Eq, Hash, Structural)]
pub enum IngredientTaste {
    Neutral,
    Sweet,
    Sour,
    Bitter,
    Citrus,
    Umami,
    Spicy,
}

impl IngredientTaste {
    /// Position of the taste in declaration order.
    pub open spec fn position(self) -> nat {
        match self {
            IngredientTaste::Neutral => 0,
            IngredientTaste::Sweet => 1,
            IngredientTaste::Sour => 2,
            IngredientTaste::Bitter => 3,
            IngredientTaste::Citrus => 4,
            IngredientTaste::Umami => 5,
            IngredientTaste::Spicy => 6,
        }
    }

    /// The taste at position `i` in declaration order.
    pub open spec fn at_position(i: nat) -> IngredientTaste {
        if i == 0 {
            IngredientTaste::Neutral
        } else if i == 1 {
            IngredientTaste::Sweet
        } else if i == 2 {
            IngredientTaste::Sour
        } else if i == 3 {
            IngredientTaste::Bitter
        } else if i == 4 {
            IngredientTaste::Citrus
        } else if i == 5 {
            IngredientTaste::Umami
        } else {
            IngredientTaste::Spicy
        }
    }

    pub fn index(self) -> (r: usize)
        ensures
            r == self.position(),
            r < TASTE_COUNT,
    {
        match self {
            IngredientTaste::Neutral => 0,
            IngredientTaste::Sweet => 1,
            IngredientTaste::Sour => 2,
            IngredientTaste::Bitter => 3,
            IngredientTaste::Citrus => 4,
            IngredientTaste::Umami => 5,
            IngredientTaste::Spicy => 6,
        }
    }

    pub fn from_index(i: usize) -> (r: IngredientTaste)
        requires
            i < TASTE_COUNT,
        ensures
            r == IngredientTaste::at_position(i as nat),
            r.position() == i,
    {
        if i == 0 {
            IngredientTaste::Neutral
        } else if i == 1 {
            IngredientTaste::Sweet
        } else if i == 2 {
            IngredientTaste::Sour
        } else if i == 3 {
            IngredientTaste::Bitter
        } else if i == 4 {
            IngredientTaste::Citrus
        } else if i == 5 {
            IngredientTaste::Umami
        } else {
            IngredientTaste::Spicy
        }
    }
}

/// Primary effect of an ingredient, in declaration order (which is also the
/// order that breaks ties between equally weighted effects).
#[derive(Clone, Copy, Debug, PartialEq, Eq, Hash, Structural)]
pub enum PrimaryEffect {
    Calming,
    Energizing,
    MindEnhancing,
    CourageBoosting,
    TruthInducing,
    Healing,
}

impl PrimaryEffect {
    /// Position of the effect in declaration order.
    pub open spec fn position(self) -> nat {
        match self {
            PrimaryEffect::Calming => 0,
            PrimaryEffect::Energizing => 1,
            PrimaryEffect::MindEnhancing => 2,
            PrimaryEffect::CourageBoosting => 3,
            PrimaryEffect::TruthInducing => 4,
            PrimaryEffect::Healing => 5,
        }
    }

    /// The effect at position `i` in declaration order.
    pub open spec fn at_position(i: nat) -> PrimaryEffect {
        if i == 0 {
            PrimaryEffect::Calming
        } else if i == 1 {
            PrimaryEffect::Energizing
        } else if i == 2 {
            PrimaryEffect::MindEnhancing
        } else if i == 3 {
            PrimaryEffect::CourageBoosting
        } else if i == 4 {
            PrimaryEffect::TruthInducing
        } else {
            PrimaryEffect::Healing
        }
    }

    pub fn index(self) -> (r: usize)
        ensures
            r == self.position(),
            r < EFFECT_COUNT,
    {
        match self {
            PrimaryEffect::Calming => 0,
            PrimaryEffect::Energizing => 1,
            PrimaryEffect::MindEnhancing => 2,
            PrimaryEffect::CourageBoosting => 3,
            PrimaryEffect::TruthInducing => 4,
            PrimaryEffect::Healing => 5,
        }
    }

    pub fn from_index(i: usize) -> (r: PrimaryEffect)
        requires
            i < EFFECT_COUNT,
        ensures
            r == PrimaryEffect::at_position(i as nat),
            r.position() == i,
    {
        if i == 0 {
            PrimaryEffect::Calming
        } else if i == 1 {
            PrimaryEffect::Energizing
        } else if i == 2 {
            PrimaryEffect::MindEnhancing
        } else if i == 3 {
            PrimaryEffect::CourageBoosting
        } else if i == 4 {
            PrimaryEffect::TruthInducing
        } else {
            PrimaryEffect::Healing
        }
    }
}

/// Distinct tastes have distinct positions, all below the number of tastes.
pub proof fn lemma_taste_positions()
    ensures
        forall|a: IngredientTaste, b: IngredientTaste|
            #[trigger] a.position() == #[trigger] b.position() ==> a == b,
        forall|a: IngredientTaste| #[trigger] a.position() < TASTE_COUNT,
        forall|a: IngredientTaste| IngredientTaste::at_position(#[trigger] a.position()) == a,
{
}

/// Distinct effects have distinct positions, all below the number of effects.
pub proof fn lemma_effect_positions()
    ensures
        forall|a: PrimaryEffect, b: PrimaryEffect|
            #[trigger] a.position() == #[trigger] b.position() ==> a == b,
        forall|a: PrimaryEffect| #[trigger] a.position() < EFFECT_COUNT,
        forall|a: PrimaryEffect| PrimaryEffect::at_position(#[trigger] a.position()) == a,
{
}

/// Volumes are counted in tenths of a unit: a size of `100` is ten units.
pub const TENTHS_PER_UNIT: u64 = 10;

/// Condition under which a secondary effect would set in. It is carried as
/// data only: nothing in this library evaluates it yet.
#[derive(Clone, Copy, Debug, PartialEq, Eq, Structural)]
pub struct EffectCondition {
    /// Volume, in tenths, of the ingredient needed in the glass.
    pub volume_needed: u64,
    /// Catalog index of an ingredient that must also be present.
    pub catalyst: Option<usize>,
}

/// Rarer effect that an ingredient may have under a condition.
#[derive(Clone, Copy, Debug, PartialEq, Eq, Structural)]
pub enum SecondaryEffect {
    Euphoric(EffectCondition),
    Agitated(EffectCondition),
    Hallucinogenic(EffectCondition),
    Paranoia(EffectCondition),
    Aggressive(EffectCondition),
    Sedated(EffectCondition),
}

/// What an ingredient contributes to a glass.
#[derive(Clone, Debug)]
pub struct IngredientProfile {
    /// Volume, in tenths, added to the glass each time the ingredient is poured.
    pub size: u64,
    pub taste: IngredientTaste,
    pub primary_effect: PrimaryEffect,
    pub secondary_effect: SecondaryEffect,
    /// Reserved; no ingredient has one yet.
    pub hazard: Option<String>,
}

/// A catalog entry.
#[derive(Clone, Debug)]
pub struct Ingredient {
    pub name: String,
    pub description: String,
    pub ingredient_profile: IngredientProfile,
}

/// The ingredient is named `name` and has the given profile.
pub open spec fn describes(
    ing: Ingredient,
    name: Seq<char>,
    size: u64,
    taste: IngredientTaste,
    effect: PrimaryEffect,
    secondary: SecondaryEffect,
) -> bool {
    &&& ing.name@ == name
    &&& ing.ingredient_profile.size == size
    &&& ing.ingredient_profile.taste == taste
    &&& ing.ingredient_profile.primary_effect == effect
    &&& ing.ingredient_profile.secondary_effect == secondary
    &&& ing.ingredient_profile.hazard is None
}

/// A condition on volume alone, with no catalyst.
pub open spec fn needs_volume(volume: u64) -> EffectCondition {
    EffectCondition { volume_needed: volume, catalyst: None }
}

fn make_ingredient(
    name: &str,
    description: &str,
    size: u64,
    taste: IngredientTaste,
    effect: PrimaryEffect,
    secondary: SecondaryEffect,
) -> (r: Ingredient)
    ensures
        describes(r, name@, size, taste, effect, secondary),
        r.description@ == description@,
{
    Ingredient {
        name: String::from_str(name),
        description: String::from_str(description),
        ingredient_profile: IngredientProfile {
            size,
            taste,
            primary_effect: effect,
            secondary_effect: secondary,
            hazard: None,
        },
    }
}

/// The three animated ice gels, each one unit in size.
pub open spec fn is_ice_gel_rack(r: Seq<Ingredient>) -> bool {
    &&& r.len() == 3
    &&& describes(r[0], "Blue Icegel"@, 100, IngredientTaste::Umami, PrimaryEffect::Calming,
        SecondaryEffect::Sedated(needs_volume(900)))
    &&& describes(r[1], "Red Icegel"@, 100, IngredientTaste::Spicy, PrimaryEffect::Energizing,
        SecondaryEffect::Agitated(needs_volume(900)))
    &&& describes(r[2], "Green Icegel"@, 100, IngredientTaste::Bitter, PrimaryEffect::Healing,
        SecondaryEffect::Euphoric(needs_volume(900)))
}

/// The three animated ice gels, each one unit in size.
pub fn get_ice_gels() -> (r: Vec<Ingredient>)
    ensures
        is_ice_gel_rack(r@),
{
    let cond = EffectCondition { volume_needed: 900, catalyst: None };
    let mut r: Vec<Ingredient> = Vec::new();
    r.push(make_ingredient("Blue Icegel", "Cools down drinks", 100, IngredientTaste::Umami,
        PrimaryEffect::Calming, SecondaryEffect::Sedated(cond)));
    r.push(make_ingredient("Red Icegel", "Cools down drinks", 100, IngredientTaste::Spicy,
        PrimaryEffect::Energizing, SecondaryEffect::Agitated(cond)));
    r.push(make_ingredient("Green Icegel", "Cools down drinks", 100, IngredientTaste::Bitter,
        PrimaryEffect::Healing, SecondaryEffect::Euphoric(cond)));
    r
}

/// The six bottles of the shelf, in shelf order, each poured `size` at a time.
pub open spec fn is_bottle_shelf(r: Seq<Ingredient>, size: u64) -> bool {
    &&& r.len() == 6
    &&& describes(r[0], "Synth Vapor"@, size, IngredientTaste::Bitter, PrimaryEffect::Energizing,
        SecondaryEffect::Aggressive(needs_volume(900)))
    &&& describes(r[1], "Void Reserve"@, size, IngredientTaste::Umami, PrimaryEffect::Calming,
        SecondaryEffect::Sedated(needs_volume(400)))
    &&& describes(r[2], "Circuit Juice"@, size, IngredientTaste::Bitter, PrimaryEffect::Energizing,
        SecondaryEffect::Aggressive(needs_volume(900)))
    &&& describes(r[3], "Fizzion Mist"@, size, IngredientTaste::Sour, PrimaryEffect::Energizing,
        SecondaryEffect::Aggressive(needs_volume(900)))
    &&& describes(r[4], "Sweetflux"@, size, IngredientTaste::Sweet, PrimaryEffect::Healing,
        SecondaryEffect::Euphoric(needs_volume(900)))
    &&& describes(r[5], "Citraplasm"@, size, IngredientTaste::Citrus, PrimaryEffect::MindEnhancing,
        SecondaryEffect::Hallucinogenic(needs_volume(900)))
}

fn bottle_shelf(size: u64, descriptions: [&str; 6]) -> (r: Vec<Ingredient>)
    ensures
        is_bottle_shelf(r@, size),
{
    let common = EffectCondition { volume_needed: 900, catalyst: None };
    let mut r: Vec<Ingredient> = Vec::new();
    r.push(make_ingredient("Synth Vapor", descriptions[0], size, IngredientTaste::Bitter,
        PrimaryEffect::Energizing, SecondaryEffect::Aggressive(common)));
    r.push(make_ingredient("Void Reserve", descriptions[1], size, IngredientTaste::Umami,
        PrimaryEffect::Calming,
        SecondaryEffect::Sedated(EffectCondition { volume_needed: 400, catalyst: None })));
    r.push(make_ingredient("Circuit Juice", descriptions[2], size, IngredientTaste::Bitter,
        PrimaryEffect::Energizing, SecondaryEffect::Aggressive(common)));
    r.push(make_ingredient("Fizzion Mist", descriptions[3], size, IngredientTaste::Sour,
        PrimaryEffect::Energizing, SecondaryEffect::Aggressive(common)));
    r.push(make_ingredient("Sweetflux", descriptions[4], size, IngredientTaste::Sweet,
        PrimaryEffect::Healing, SecondaryEffect::Euphoric(common)));
    r.push(make_ingredient("Citraplasm", descriptions[5], size, IngredientTaste::Citrus,
        PrimaryEffect::MindEnhancing, SecondaryEffect::Hallucinogenic(common)));
    r
}

/// The shelf of bottled ingredients, each one unit in size.
pub fn get_static_ingredients() -> (r: Vec<Ingredient>)
    ensures
        is_bottle_shelf(r@, 100),
{
    bottle_shelf(
        100,
        [
            "A potent synthetic spirit, clear and almost tasteless, yet it carries a powerful, energizing kick.",
            "A dense, inky fluid that absorbs light, offering a deep, earthy taste and a profound sense of calm.",
            "A sharp, botanical spirit with a metallic tang, designed to awaken the senses and enhance focus.",
            "A bubbly, sour liquid that crackles with energy, leaving a tingling sensation.",
            "A luminous, sugary syrup that flows like liquid light, known for its calming properties.",
            "A vibrant, zesty plasma with a sharp citrus bite, perfect for stimulating the mind.",
        ],
    )
}

/// The same shelf in sample measures of a tenth of a unit each.
pub fn get_other_ingredients() -> (r: Vec<Ingredient>)
    ensures
        is_bottle_shelf(r@, 1),
{
    bottle_shelf(
        1,
        [
            "Vodka",
            "Dark Matter",
            "Gin",
            "Fuzzy Drink",
            "Sweet and glowing liquid",
            "Sour, citrus-like liquid",
        ],
    )
}

/// The bar's catalog: the ice gels followed by the bottle shelf. An
/// ingredient is referred to by its index in this vector.
pub fn get_catalog() -> (r: Vec<Ingredient>)
    ensures
        r.len() == 9,
        is_ice_gel_rack(r@.subrange(0, 3)),
        is_bottle_shelf(r@.subrange(3, 9), 100),
{
    let mut r = get_ice_gels();
    let mut shelf = get_static_ingredients();
    let ghost gels = r@;
    let ghost bottles = shelf@;
    r.append(&mut shelf);
    assert(r@.subrange(0, 3) =~= gels);
    assert(r@.subrange(3, 9) =~= bottles);
    r
}

} // verus!
