//! Effect conversion: from the ingredients of a drink to clamped 0-10
//! intensities per primary effect, and the registry that accumulates them
//! across drinks.
use vstd::prelude::*;
use crate::drinks::Drink;
use crate::glass::entries_view;
use crate::ingredient::{
    lemma_effect_positions, Ingredient, IngredientTaste, PrimaryEffect, EFFECT_COUNT,
};

verus! {

/// The highest intensity an effect can reach.
pub const MAX_INTENSITY: u8 = 10;

/// `n`, capped at the highest intensity.
pub open spec fn capped(n: nat) -> nat {
    if n > MAX_INTENSITY as nat {
        MAX_INTENSITY as nat
    } else {
        n
    }
}

/// `a + b`, capped at the highest intensity.
pub open spec fn capped_sum(a: nat, b: nat) -> nat {
    capped(a + b)
}

/// The intensity of `e` in `m`; an absent effect counts as zero.
pub open spec fn level_of(m: Map<PrimaryEffect, nat>, e: PrimaryEffect) -> nat {
    if m.contains_key(e) {
        m[e]
    } else {
        0
    }
}

/// Every intensity in `m` is at most the highest intensity.
pub open spec fn within_range(m: Map<PrimaryEffect, nat>) -> bool {
    forall|e: PrimaryEffect| #[trigger] m.contains_key(e) ==> m[e] <= MAX_INTENSITY as nat
}

/// Intensities per primary effect, each between 0 and 10; an effect may
/// also be absent.
pub struct EffectLevels {
    levels: Vec<Option<u8>>,
}

impl View for EffectLevels {
    type V = Map<PrimaryEffect, nat>;

    closed spec fn view(&self) -> Map<PrimaryEffect, nat> {
        Map::new(
            |e: PrimaryEffect| self.levels@[e.position() as int] is Some,
            |e: PrimaryEffect| self.levels@[e.position() as int].unwrap() as nat,
        )
    }
}

impl EffectLevels {
    /// One slot per effect, none above the highest intensity.
    pub closed spec fn wf(&self) -> bool {
        &&& self.levels@.len() == EFFECT_COUNT
        &&& forall|i: int|
            0 <= i < self.levels@.len() && #[trigger] self.levels@[i] is Some
                ==> self.levels@[i].unwrap() <= MAX_INTENSITY
    }

    /// The invariant bounds every intensity of the view.
    pub proof fn lemma_in_range(&self)
        requires
            self.wf(),
        ensures
            within_range(self@),
    {
    }

    /// No effect at all.
    pub fn new() -> (r: EffectLevels)
        ensures
            r.wf(),
            r@ == Map::<PrimaryEffect, nat>::empty(),
    {
        let mut levels: Vec<Option<u8>> = Vec::new();
        let mut i: usize = 0;
        while i < EFFECT_COUNT
            invariant
                i <= EFFECT_COUNT,
                levels@ == Seq::new(i as nat, |k: int| None::<u8>),
            decreases EFFECT_COUNT - i,
        {
            levels.push(None);
            i = i + 1;
            assert(levels@ =~= Seq::new(i as nat, |k: int| None::<u8>));
        }
        let r = EffectLevels { levels };
        assert(r@ =~= Map::<PrimaryEffect, nat>::empty());
        r
    }

    /// The intensity of `e`, if it has one.
    pub fn get(&self, e: PrimaryEffect) -> (r: Option<u8>)
        requires
            self.wf(),
        ensures
            r is Some <==> self@.contains_key(e),
            r matches Some(v) ==> v as nat == self@[e],
    {
        self.levels[e.index()]
    }

    /// The intensity of `e`, zero when absent.
    pub fn level(&self, e: PrimaryEffect) -> (r: u8)
        requires
            self.wf(),
        ensures
            r as nat == level_of(self@, e),
    {
        match self.levels[e.index()] {
            Some(v) => v,
            None => 0,
        }
    }

    /// Whether no effect has an intensity.
    pub fn is_empty(&self) -> (r: bool)
        requires
            self.wf(),
        ensures
            r <==> self@ == Map::<PrimaryEffect, nat>::empty(),
    {
        let mut i: usize = 0;
        while i < EFFECT_COUNT
            invariant
                self.wf(),
                i <= EFFECT_COUNT,
                forall|k: int| 0 <= k < i ==> self.levels@[k] is None,
            decreases EFFECT_COUNT - i,
        {
            if self.levels[i].is_some() {
                proof {
                    lemma_effect_positions();
                    let e = PrimaryEffect::at_position(i as nat);
                    assert(self@.contains_key(e));
                }
                return false;
            }
            i = i + 1;
        }
        proof {
            lemma_effect_positions();
        }
        assert(self@ =~= Map::<PrimaryEffect, nat>::empty());
        true
    }

    /// Sets the intensity of `e`.
    pub fn set(&mut self, e: PrimaryEffect, v: u8)
        requires
            old(self).wf(),
            v <= MAX_INTENSITY,
        ensures
            final(self).wf(),
            final(self)@ == old(self)@.insert(e, v as nat),
    {
        let ghost before = self@;
        self.levels.set(e.index(), Some(v));
        proof {
            lemma_effect_positions();
        }
        assert(self@ =~= before.insert(e, v as nat));
    }

    /// Raises the intensity of `e` by `v`, capped at the highest intensity.
    pub fn add_capped(&mut self, e: PrimaryEffect, v: u8)
        requires
            old(self).wf(),
        ensures
            final(self).wf(),
            final(self)@ == old(self)@.insert(e, capped_sum(level_of(old(self)@, e), v as nat)),
    {
        let current = self.level(e);
        let sum: u16 = current as u16 + v as u16;
        let capped: u8 = if sum > MAX_INTENSITY as u16 {
            MAX_INTENSITY
        } else {
            sum as u8
        };
        self.set(e, capped);
    }
}

/// Strength of one ingredient's volume, in tenths: its volume in units,
/// rounded half up and capped at ten, that is `round(min(units / 10, 1) * 10)`.
pub open spec fn strength(volume: nat) -> nat {
    capped((volume + 5) / 10)
}

/// Strength of a volume, in tenths.
pub fn volume_strength(volume: u64) -> (r: u8)
    ensures
        r as nat == strength(volume as nat),
{
    if volume >= 100 {
        MAX_INTENSITY
    } else {
        ((volume + 5) / 10) as u8
    }
}

/// Entry `x` names a catalog ingredient whose primary effect is `e`.
pub open spec fn entry_has_effect(x: (usize, nat), catalog: Seq<Ingredient>, e: PrimaryEffect) -> bool {
    x.0 < catalog.len() && catalog[x.0 as int].ingredient_profile.primary_effect == e
}

/// Summed strength of the entries whose ingredient has primary effect `e`.
pub open spec fn strength_toward(
    entries: Seq<(usize, nat)>,
    catalog: Seq<Ingredient>,
    e: PrimaryEffect,
) -> nat
    decreases entries.len(),
{
    if entries.len() == 0 {
        0
    } else {
        strength_toward(entries.drop_last(), catalog, e) + if entry_has_effect(
            entries.last(),
            catalog,
            e,
        ) {
            strength(entries.last().1)
        } else {
            0
        }
    }
}

/// Some entry names a catalog ingredient with primary effect `e`.
pub open spec fn attributes_to(entries: Seq<(usize, nat)>, catalog: Seq<Ingredient>, e: PrimaryEffect) -> bool {
    exists|i: int| 0 <= i < entries.len() && entry_has_effect(entries[i], catalog, e)
}

/// Effects traced to the ingredients: each effect that some ingredient has,
/// with the strengths of those ingredients summed and capped.
pub open spec fn direct_effects(entries: Seq<(usize, nat)>, catalog: Seq<Ingredient>) -> Map<
    PrimaryEffect,
    nat,
> {
    Map::new(
        |e: PrimaryEffect| attributes_to(entries, catalog, e),
        |e: PrimaryEffect| capped(strength_toward(entries, catalog, e)),
    )
}

/// Fixed effects of a drink that no ingredient can be traced for, by its
/// primary taste.
pub open spec fn fallback_effects(primary: IngredientTaste) -> Map<PrimaryEffect, nat> {
    match primary {
        IngredientTaste::Sweet => map![PrimaryEffect::Healing => 7nat, PrimaryEffect::Calming => 3nat],
        IngredientTaste::Sour => map![PrimaryEffect::Energizing => 8nat, PrimaryEffect::MindEnhancing => 2nat],
        IngredientTaste::Bitter => map![PrimaryEffect::TruthInducing => 9nat],
        IngredientTaste::Spicy => map![PrimaryEffect::CourageBoosting => 8nat, PrimaryEffect::Energizing => 4nat],
        _ => map![PrimaryEffect::Calming => 5nat],
    }
}

/// The effects of a drink: those traced to its ingredients, or the fallback
/// of its primary taste when none can be traced.
pub open spec fn drink_effects(
    entries: Seq<(usize, nat)>,
    catalog: Seq<Ingredient>,
    primary: IngredientTaste,
) -> Map<PrimaryEffect, nat> {
    if exists|e: PrimaryEffect| attributes_to(entries, catalog, e) {
        direct_effects(entries, catalog)
    } else {
        fallback_effects(primary)
    }
}

/// The fallback effects of a primary taste.
pub fn fallback_levels(primary: IngredientTaste) -> (r: EffectLevels)
    ensures
        r.wf(),
        r@ == fallback_effects(primary),
{
    let mut r = EffectLevels::new();
    match primary {
        IngredientTaste::Sweet => {
            r.set(PrimaryEffect::Healing, 7);
            r.set(PrimaryEffect::Calming, 3);
        },
        IngredientTaste::Sour => {
            r.set(PrimaryEffect::Energizing, 8);
            r.set(PrimaryEffect::MindEnhancing, 2);
        },
        IngredientTaste::Bitter => {
            r.set(PrimaryEffect::TruthInducing, 9);
        },
        IngredientTaste::Spicy => {
            r.set(PrimaryEffect::CourageBoosting, 8);
            r.set(PrimaryEffect::Energizing, 4);
        },
        _ => {
            r.set(PrimaryEffect::Calming, 5);
        },
    }
    assert(r@ =~= fallback_effects(primary));
    r
}

proof fn lemma_untraced_strength(entries: Seq<(usize, nat)>, catalog: Seq<Ingredient>, e: PrimaryEffect)
    requires
        !attributes_to(entries, catalog, e),
    ensures
        strength_toward(entries, catalog, e) == 0,
    decreases entries.len(),
{
    if entries.len() > 0 {
        let rest = entries.drop_last();
        if attributes_to(rest, catalog, e) {
            let k = choose|k: int| 0 <= k < rest.len() && entry_has_effect(rest[k], catalog, e);
            assert(entries[k] == rest[k]);
        }
        lemma_untraced_strength(rest, catalog, e);
        assert(!entry_has_effect(entries[entries.len() - 1], catalog, e));
    }
}

/// The effects traced to the ingredients of a drink; empty when none can be.
pub fn traced_levels(ingredients: &Vec<(usize, u64)>, catalog: &Vec<Ingredient>) -> (r: EffectLevels)
    ensures
        r.wf(),
        r@ == direct_effects(entries_view(ingredients@), catalog@),
{
    let ghost entries = entries_view(ingredients@);
    let mut r = EffectLevels::new();
    let mut i: usize = 0;
    while i < ingredients.len()
        invariant
            i <= ingredients.len(),
            entries == entries_view(ingredients@),
            r.wf(),
            r@ == direct_effects(entries.subrange(0, i as int), catalog@),
        decreases ingredients.len() - i,
    {
        let (id, volume) = ingredients[i];
        let ghost prefix = entries.subrange(0, i as int);
        let ghost next = entries.subrange(0, i as int + 1);
        assert(next.drop_last() =~= prefix);
        if id < catalog.len() {
            let e = catalog[id].ingredient_profile.primary_effect;
            let s = volume_strength(volume);
            proof {
                if !attributes_to(prefix, catalog@, e) {
                    lemma_untraced_strength(prefix, catalog@, e);
                }
                assert(next.last() == (id, volume as nat));
            }
            r.add_capped(e, s);
            assert forall|f: PrimaryEffect| attributes_to(next, catalog@, f) <==> (attributes_to(prefix, catalog@, f) || f == e) by {
                if attributes_to(next, catalog@, f) && f != e {
                    let k = choose|k: int| 0 <= k < next.len() && entry_has_effect(next[k], catalog@, f);
                    assert(prefix[k] == next[k]);
                }
                if attributes_to(prefix, catalog@, f) {
                    let k = choose|k: int| 0 <= k < prefix.len() && entry_has_effect(prefix[k], catalog@, f);
                    assert(next[k] == prefix[k]);
                }
                if f == e {
                    assert(entry_has_effect(next[i as int], catalog@, f));
                }
            }
        } else {
            assert(next.last() == (id, volume as nat));
            assert forall|f: PrimaryEffect| attributes_to(next, catalog@, f) <==> attributes_to(prefix, catalog@, f) by {
                if attributes_to(next, catalog@, f) {
                    let k = choose|k: int| 0 <= k < next.len() && entry_has_effect(next[k], catalog@, f);
                    assert(prefix[k] == next[k]);
                }
                if attributes_to(prefix, catalog@, f) {
                    let k = choose|k: int| 0 <= k < prefix.len() && entry_has_effect(prefix[k], catalog@, f);
                    assert(next[k] == prefix[k]);
                }
            }
        }
        i = i + 1;
        assert(r@ =~= direct_effects(entries.subrange(0, i as int), catalog@));
    }
    assert(entries.subrange(0, ingredients.len() as int) =~= entries);
    r
}

/// Converts a drink into the effect intensities it adds to the registry.
pub fn convert(drink: Drink, catalog: &Vec<Ingredient>) -> (r: EffectLevels)
    ensures
        r.wf(),
        r@ == drink_effects(entries_view(drink.ingredients@), catalog@, drink.taste.primary_taste),
{
    let traced = traced_levels(&drink.ingredients, catalog);
    if traced.is_empty() {
        proof {
            let entries = entries_view(drink.ingredients@);
            if exists|e: PrimaryEffect| attributes_to(entries, catalog@, e) {
                let e = choose|e: PrimaryEffect| attributes_to(entries, catalog@, e);
                assert(traced@.contains_key(e));
            }
        }
        fallback_levels(drink.taste.primary_taste)
    } else {
        proof {
            let entries = entries_view(drink.ingredients@);
            assert(!(traced@ =~= Map::<PrimaryEffect, nat>::empty()));
            let e = choose|e: PrimaryEffect| traced@.contains_key(e);
            assert(attributes_to(entries, catalog@, e));
        }
        traced
    }
}

} // verus!
