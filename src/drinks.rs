//! Finished drinks: ranking of the glass's tastes and effects, and the
//! classification of the result into a named drink.
use vstd::prelude::*;
use vstd::string::StringExecFns;
use crate::glass::{effect_map, entries_view, taste_map, Glass, GlassShape, GlassView};
use crate::ingredient::{
    lemma_effect_positions, lemma_taste_positions, IngredientTaste, PrimaryEffect, EFFECT_COUNT,
    TASTE_COUNT,
};
use crate::weights::{filled, slot_before, top_two};

verus! {

/// The named drinks that a glass can turn into.
#[derive(Clone, Copy, Debug, PartialEq, Eq, Structural)]
pub enum CreatedDrink {
    ZeroPhase,
    CryoDrop,
    StellarLumen,
    Cosmopolitan,
    SynthCascade,
    OldMemory,
    EchoBloom,
    BotanicalSurge,
    BinaryBarrel,
    EventHorizon,
}

impl CreatedDrink {
    /// The drink's display name.
    pub open spec fn label(self) -> Seq<char> {
        match self {
            CreatedDrink::ZeroPhase => "ZeroPhase"@,
            CreatedDrink::CryoDrop => "CryoDrop"@,
            CreatedDrink::StellarLumen => "StellarLumen"@,
            CreatedDrink::Cosmopolitan => "Cosmopolitan"@,
            CreatedDrink::SynthCascade => "SynthCascade"@,
            CreatedDrink::OldMemory => "OldMemory"@,
            CreatedDrink::EchoBloom => "EchoBloom"@,
            CreatedDrink::BotanicalSurge => "BotanicalSurge"@,
            CreatedDrink::BinaryBarrel => "BinaryBarrel"@,
            CreatedDrink::EventHorizon => "EventHorizon"@,
        }
    }

    pub fn name(self) -> (r: String)
        ensures
            r@ == self.label(),
    {
        let s = match self {
            CreatedDrink::ZeroPhase => "ZeroPhase",
            CreatedDrink::CryoDrop => "CryoDrop",
            CreatedDrink::StellarLumen => "StellarLumen",
            CreatedDrink::Cosmopolitan => "Cosmopolitan",
            CreatedDrink::SynthCascade => "SynthCascade",
            CreatedDrink::OldMemory => "OldMemory",
            CreatedDrink::EchoBloom => "EchoBloom",
            CreatedDrink::BotanicalSurge => "BotanicalSurge",
            CreatedDrink::BinaryBarrel => "BinaryBarrel",
            CreatedDrink::EventHorizon => "EventHorizon",
        };
        String::from_str(s)
    }
}

/// Hazards that a drink may one day carry; reserved.
#[derive(Clone, Copy, Debug, PartialEq, Eq, Structural)]
pub enum HazardEffect {
    VisualAuditoryGlitches,
    SuddenConfession,
    PersonalityFlip,
    CosmicDistortion,
    MemoryLeak,
    CloneEffect,
}

/// The two heaviest tastes of a drink, heaviest first.
#[derive(Clone, Copy, Debug, PartialEq, Eq, Structural)]
pub struct DrinkTaste {
    pub primary_taste: IngredientTaste,
    pub secondary_taste: IngredientTaste,
}

/// The two heaviest primary effects of a drink, heaviest first.
#[derive(Clone, Copy, Debug, PartialEq, Eq, Structural)]
pub struct DrinkEffect {
    pub primary_effect: PrimaryEffect,
    pub secondary_effect: PrimaryEffect,
}

/// The classification table of each glass shape: the first rule that
/// matches wins.
pub open spec fn classification(
    shape: GlassShape,
    primary: IngredientTaste,
    secondary: IngredientTaste,
) -> CreatedDrink {
    match shape {
        GlassShape::Wine => {
            if primary == IngredientTaste::Sour {
                CreatedDrink::BinaryBarrel
            } else if primary == IngredientTaste::Umami {
                CreatedDrink::BotanicalSurge
            } else if primary == IngredientTaste::Sweet && secondary == IngredientTaste::Spicy {
                CreatedDrink::EventHorizon
            } else {
                CreatedDrink::StellarLumen
            }
        },
        GlassShape::Whiskey => {
            if primary == IngredientTaste::Umami {
                CreatedDrink::EchoBloom
            } else if primary == IngredientTaste::Bitter {
                CreatedDrink::OldMemory
            } else {
                CreatedDrink::CryoDrop
            }
        },
        GlassShape::Cocktail => {
            if primary == IngredientTaste::Citrus {
                CreatedDrink::Cosmopolitan
            } else if primary == IngredientTaste::Spicy {
                CreatedDrink::SynthCascade
            } else {
                CreatedDrink::ZeroPhase
            }
        },
    }
}

/// Names the drink that a glass of `shape` makes from its two leading tastes.
pub fn classify(
    shape: GlassShape,
    primary: IngredientTaste,
    secondary: IngredientTaste,
) -> (r: CreatedDrink)
    ensures
        r == classification(shape, primary, secondary),
{
    match shape {
        GlassShape::Wine => match (primary, secondary) {
            (IngredientTaste::Sour, _) => CreatedDrink::BinaryBarrel,
            (IngredientTaste::Umami, _) => CreatedDrink::BotanicalSurge,
            (IngredientTaste::Sweet, IngredientTaste::Spicy) => CreatedDrink::EventHorizon,
            _ => CreatedDrink::StellarLumen,
        },
        GlassShape::Whiskey => match primary {
            IngredientTaste::Umami => CreatedDrink::EchoBloom,
            IngredientTaste::Bitter => CreatedDrink::OldMemory,
            _ => CreatedDrink::CryoDrop,
        },
        GlassShape::Cocktail => match primary {
            IngredientTaste::Citrus => CreatedDrink::Cosmopolitan,
            IngredientTaste::Spicy => CreatedDrink::SynthCascade,
            _ => CreatedDrink::ZeroPhase,
        },
    }
}

/// Classification is a function of the shape and the two tastes alone: two
/// results of `classify` on the same arguments are the same drink.
pub proof fn lemma_classification_deterministic(
    shape: GlassShape,
    primary: IngredientTaste,
    secondary: IngredientTaste,
    r1: CreatedDrink,
    r2: CreatedDrink,
)
    requires
        r1 == classification(shape, primary, secondary),
        r2 == classification(shape, primary, secondary),
    ensures
        r1 == r2,
{
}

/// Taste `a` ranks before taste `b`: heavier first, and between equal
/// weights the one declared first.
pub open spec fn taste_before(m: Map<IngredientTaste, nat>, a: IngredientTaste, b: IngredientTaste) -> bool {
    m[a] > m[b] || (m[a] == m[b] && a.position() < b.position())
}

/// The primary and secondary tastes of weights `m`: the two that rank first,
/// with the neutral taste standing in where fewer tastes were poured.
pub open spec fn ranked_tastes(
    m: Map<IngredientTaste, nat>,
    primary: IngredientTaste,
    secondary: IngredientTaste,
) -> bool {
    &&& if exists|t: IngredientTaste| m.contains_key(t) {
        &&& m.contains_key(primary)
        &&& forall|u: IngredientTaste| #[trigger] m.contains_key(u) && u != primary ==> taste_before(m, primary, u)
    } else {
        primary == IngredientTaste::Neutral
    }
    &&& if exists|a: IngredientTaste, b: IngredientTaste| m.contains_key(a) && m.contains_key(b) && a != b {
        &&& m.contains_key(secondary)
        &&& secondary != primary
        &&& forall|u: IngredientTaste| #[trigger] m.contains_key(u) && u != secondary && u != primary
            ==> taste_before(m, secondary, u)
    } else {
        secondary == IngredientTaste::Neutral
    }
}

/// The weights of a glass fix its primary and secondary tastes: ties are
/// broken by declaration order, so no two rankings differ.
pub proof fn lemma_ranked_tastes_unique(
    m: Map<IngredientTaste, nat>,
    p1: IngredientTaste,
    s1: IngredientTaste,
    p2: IngredientTaste,
    s2: IngredientTaste,
)
    requires
        ranked_tastes(m, p1, s1),
        ranked_tastes(m, p2, s2),
    ensures
        p1 == p2,
        s1 == s2,
{
    lemma_taste_positions();
    if exists|t: IngredientTaste| m.contains_key(t) {
        if p1 != p2 {
            assert(taste_before(m, p1, p2));
            assert(taste_before(m, p2, p1));
        }
    }
    if exists|a: IngredientTaste, b: IngredientTaste| m.contains_key(a) && m.contains_key(b) && a != b {
        assert(exists|t: IngredientTaste| m.contains_key(t));
        if s1 != s2 {
            assert(taste_before(m, s1, s2));
            assert(taste_before(m, s2, s1));
        }
    }
}

/// Effect `a` ranks before effect `b`: heavier first, and between equal
/// weights the one declared first.
pub open spec fn effect_before(m: Map<PrimaryEffect, nat>, a: PrimaryEffect, b: PrimaryEffect) -> bool {
    m[a] > m[b] || (m[a] == m[b] && a.position() < b.position())
}

/// The primary and secondary effects of weights `m`: the two that rank
/// first, with `Calming` standing in where fewer effects were poured.
pub open spec fn ranked_effects(
    m: Map<PrimaryEffect, nat>,
    primary: PrimaryEffect,
    secondary: PrimaryEffect,
) -> bool {
    &&& if exists|e: PrimaryEffect| m.contains_key(e) {
        &&& m.contains_key(primary)
        &&& forall|u: PrimaryEffect| #[trigger] m.contains_key(u) && u != primary ==> effect_before(m, primary, u)
    } else {
        primary == PrimaryEffect::Calming
    }
    &&& if exists|a: PrimaryEffect, b: PrimaryEffect| m.contains_key(a) && m.contains_key(b) && a != b {
        &&& m.contains_key(secondary)
        &&& secondary != primary
        &&& forall|u: PrimaryEffect| #[trigger] m.contains_key(u) && u != secondary && u != primary
            ==> effect_before(m, secondary, u)
    } else {
        secondary == PrimaryEffect::Calming
    }
}

/// The two leading tastes of a taste table.
pub fn rank_tastes(w: &Vec<Option<u64>>) -> (r: DrinkTaste)
    requires
        w.len() == TASTE_COUNT,
    ensures
        ranked_tastes(taste_map(w@), r.primary_taste, r.secondary_taste),
{
    let (first, second) = top_two(w);
    let primary = match first {
        Some(a) => IngredientTaste::from_index(a),
        None => IngredientTaste::Neutral,
    };
    let secondary = match second {
        Some(b) => IngredientTaste::from_index(b),
        None => IngredientTaste::Neutral,
    };
    proof {
        lemma_taste_positions();
        let m = taste_map(w@);
        assert forall|t: IngredientTaste| #[trigger] m.contains_key(t) <==> filled(w@, t.position() as int) by {}
        if exists|t: IngredientTaste| m.contains_key(t) {
            let t = choose|t: IngredientTaste| m.contains_key(t);
            assert(filled(w@, t.position() as int));
            assert(first is Some);
            assert forall|u: IngredientTaste| #[trigger] m.contains_key(u) && u != primary implies taste_before(m, primary, u) by {
                assert(filled(w@, u.position() as int));
                assert(slot_before(w@, first.unwrap() as int, u.position() as int));
            }
        } else if first is Some {
            assert(m.contains_key(primary));
        }
        if exists|a: IngredientTaste, b: IngredientTaste| m.contains_key(a) && m.contains_key(b) && a != b {
            let (a, b) = choose|a: IngredientTaste, b: IngredientTaste| m.contains_key(a) && m.contains_key(b) && a != b;
            assert(filled(w@, a.position() as int) && filled(w@, b.position() as int));
            assert(second is Some);
            assert forall|u: IngredientTaste| #[trigger] m.contains_key(u) && u != secondary && u != primary implies taste_before(m, secondary, u) by {
                assert(filled(w@, u.position() as int));
                assert(slot_before(w@, second.unwrap() as int, u.position() as int));
            }
        } else {
            if second is Some {
                assert(m.contains_key(primary) && m.contains_key(secondary));
            }
        }
    }
    DrinkTaste { primary_taste: primary, secondary_taste: secondary }
}

/// The two leading effects of an effect table.
pub fn rank_effects(w: &Vec<Option<u64>>) -> (r: DrinkEffect)
    requires
        w.len() == EFFECT_COUNT,
    ensures
        ranked_effects(effect_map(w@), r.primary_effect, r.secondary_effect),
{
    let (first, second) = top_two(w);
    let primary = match first {
        Some(a) => PrimaryEffect::from_index(a),
        None => PrimaryEffect::Calming,
    };
    let secondary = match second {
        Some(b) => PrimaryEffect::from_index(b),
        None => PrimaryEffect::Calming,
    };
    proof {
        lemma_effect_positions();
        let m = effect_map(w@);
        assert forall|t: PrimaryEffect| #[trigger] m.contains_key(t) <==> filled(w@, t.position() as int) by {}
        if exists|t: PrimaryEffect| m.contains_key(t) {
            let t = choose|t: PrimaryEffect| m.contains_key(t);
            assert(filled(w@, t.position() as int));
            assert(first is Some);
            assert forall|u: PrimaryEffect| #[trigger] m.contains_key(u) && u != primary implies effect_before(m, primary, u) by {
                assert(filled(w@, u.position() as int));
                assert(slot_before(w@, first.unwrap() as int, u.position() as int));
            }
        } else if first is Some {
            assert(m.contains_key(primary));
        }
        if exists|a: PrimaryEffect, b: PrimaryEffect| m.contains_key(a) && m.contains_key(b) && a != b {
            let (a, b) = choose|a: PrimaryEffect, b: PrimaryEffect| m.contains_key(a) && m.contains_key(b) && a != b;
            assert(filled(w@, a.position() as int) && filled(w@, b.position() as int));
            assert(second is Some);
            assert forall|u: PrimaryEffect| #[trigger] m.contains_key(u) && u != secondary && u != primary implies effect_before(m, secondary, u) by {
                assert(filled(w@, u.position() as int));
                assert(slot_before(w@, second.unwrap() as int, u.position() as int));
            }
        } else {
            if second is Some {
                assert(m.contains_key(primary) && m.contains_key(secondary));
            }
        }
    }
    DrinkEffect { primary_effect: primary, secondary_effect: secondary }
}

/// A finished drink: what was poured, its leading tastes and effects, and
/// the drink it was classified as.
pub struct Drink {
    pub name: String,
    /// Catalog index and volume, in tenths, of each ingredient poured.
    pub ingredients: Vec<(usize, u64)>,
    pub taste: DrinkTaste,
    pub effect: DrinkEffect,
    pub created_drink: CreatedDrink,
}

/// `d` is the drink that glass `g` makes.
pub open spec fn is_drink_of(d: Drink, g: GlassView) -> bool {
    &&& entries_view(d.ingredients@) == g.ingredients
    &&& ranked_tastes(g.taste, d.taste.primary_taste, d.taste.secondary_taste)
    &&& ranked_effects(g.effect, d.effect.primary_effect, d.effect.secondary_effect)
    &&& d.created_drink == classification(g.shape, d.taste.primary_taste, d.taste.secondary_taste)
    &&& d.name@ == d.created_drink.label()
}

impl Drink {
    /// The drink that the glass's current contents make.
    pub fn from_glass(glass: &Glass) -> (r: Drink)
        requires
            glass.wf(),
        ensures
            is_drink_of(r, glass@),
    {
        let taste = rank_tastes(glass.taste_slots());
        let effect = rank_effects(glass.effect_slots());
        let created_drink = classify(glass.shape(), taste.primary_taste, taste.secondary_taste);
        Drink {
            name: created_drink.name(),
            ingredients: glass.ingredient_entries(),
            taste,
            effect,
            created_drink,
        }
    }
}

impl Glass {
    /// Serves the contents as a drink and empties the glass.
    pub fn finalize(&mut self) -> (r: Drink)
        requires
            old(self).wf(),
        ensures
            final(self).wf(),
            is_drink_of(r, old(self)@),
            final(self)@ == old(self)@.emptied(),
    {
        let r = Drink::from_glass(self);
        self.reset();
        r
    }
}

} // verus!
