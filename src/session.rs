//! A bar session: the catalog, the glass being filled and the affect
//! registry, owned together and driven by the player's selections.
use vstd::prelude::*;
use crate::drinks::{classification, ranked_tastes, CreatedDrink, Drink};
use crate::effects::{convert, drink_effects};
use crate::glass::{CraftError, Glass, GlassShape, GlassView};
use crate::ingredient::{Ingredient, IngredientTaste, PrimaryEffect};
use crate::registry::{applied, AffectRegistry};

verus! {

/// Serving glass `g` makes `drink` and turns registry `before` into `after`.
/// The leading tastes are unique (see `lemma_ranked_tastes_unique`), so this
/// fixes both results.
pub open spec fn serves(
    g: GlassView,
    catalog: Seq<Ingredient>,
    before: Map<PrimaryEffect, nat>,
    drink: CreatedDrink,
    after: Map<PrimaryEffect, nat>,
) -> bool {
    exists|primary: IngredientTaste, secondary: IngredientTaste|
        {
            &&& ranked_tastes(g.taste, primary, secondary)
            &&& drink == classification(g.shape, primary, secondary)
            &&& after == applied(before, drink_effects(g.ingredients, catalog, primary))
        }
}

/// Everything one crafting session works on.
pub struct BarSession {
    pub catalog: Vec<Ingredient>,
    pub glass: Glass,
    pub registry: AffectRegistry,
}

impl BarSession {
    pub open spec fn wf(&self) -> bool {
        self.glass.wf() && self.registry.wf()
    }

    /// A session with an empty glass and every effect at zero.
    pub fn new(catalog: Vec<Ingredient>, capacity: u64, shape: GlassShape) -> (r: BarSession)
        ensures
            r.wf(),
            r.catalog == catalog,
            r.glass@ == Glass::new_view(capacity, shape),
            r.registry@ == AffectRegistry::new_view(),
            !r.registry.pending(),
    {
        BarSession {
            catalog,
            glass: Glass::new(capacity, shape),
            registry: AffectRegistry::new(),
        }
    }

    /// The player selects catalog entry `id`: it is poured if it exists and
    /// fits.
    pub fn select(&mut self, id: usize) -> (r: Result<(), CraftError>)
        requires
            old(self).wf(),
        ensures
            final(self).wf(),
            final(self).catalog == old(self).catalog,
            final(self).registry == old(self).registry,
            id >= old(self).catalog.len() ==> r == Err::<(), CraftError>(
                CraftError::UnknownIngredient,
            ) && final(self).glass@ == old(self).glass@,
            id < old(self).catalog.len() ==> {
                let p = old(self).catalog[id as int].ingredient_profile;
                &&& r is Ok <==> old(self).glass@.fits(p.size as nat)
                &&& r is Ok ==> final(self).glass@ == old(self).glass@.poured(id, p)
                &&& r is Err ==> r == Err::<(), CraftError>(CraftError::CapacityExceeded)
                    && final(self).glass@ == old(self).glass@
            },
    {
        self.glass.add_ingredient(&self.catalog, id)
    }

    /// The player starts the composition over.
    pub fn reset(&mut self)
        requires
            old(self).wf(),
        ensures
            final(self).wf(),
            final(self).catalog == old(self).catalog,
            final(self).registry == old(self).registry,
            final(self).glass@ == old(self).glass@.emptied(),
    {
        self.glass.reset();
    }

    /// The player crafts: the glass is served as a drink and emptied, and
    /// the drink's effects are merged into the registry.
    pub fn craft(&mut self) -> (r: CreatedDrink)
        requires
            old(self).wf(),
        ensures
            final(self).wf(),
            final(self).catalog == old(self).catalog,
            final(self).glass@ == old(self).glass@.emptied(),
            final(self).registry.pending(),
            serves(old(self).glass@, old(self).catalog@, old(self).registry@, r, final(self).registry@),
    {
        let drink: Drink = self.glass.finalize();
        let created = drink.created_drink;
        let ghost taste = drink.taste;
        let delta = convert(drink, &self.catalog);
        self.registry.apply(&delta);
        assert(ranked_tastes(old(self).glass@.taste, taste.primary_taste, taste.secondary_taste));
        created
    }
}

} // verus!
