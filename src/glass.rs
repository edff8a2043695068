//! The glass: a bounded accumulator of poured ingredients for one crafting
//! session.
use vstd::prelude::*;
use crate::ingredient::{
    lemma_effect_positions, lemma_taste_positions, Ingredient, IngredientProfile, IngredientTaste, PrimaryEffect, EFFECT_COUNT, TASTE_COUNT,
};

verus! {

/// Shape of the glass, which selects the classification table.
#[derive(Clone, Copy, Debug, PartialEq, Eq, Structural)]
pub enum GlassShape {
    Whiskey,
    Wine,
    Cocktail,
}

impl GlassShape {
    /// The shape that follows this one when the player switches glasses.
    pub open spec fn following(self) -> GlassShape {
        match self {
            GlassShape::Wine => GlassShape::Whiskey,
            GlassShape::Whiskey => GlassShape::Cocktail,
            GlassShape::Cocktail => GlassShape::Wine,
        }
    }

    pub fn next(self) -> (r: GlassShape)
        ensures
            r == self.following(),
    {
        match self {
            GlassShape::Wine => GlassShape::Whiskey,
            GlassShape::Whiskey => GlassShape::Cocktail,
            GlassShape::Cocktail => GlassShape::Wine,
        }
    }
}

/// Why an ingredient could not be poured.
#[derive(Clone, Copy, Debug, PartialEq, Eq, Structural)]
pub enum CraftError {
    /// The pour would fill the glass to its capacity or beyond.
    CapacityExceeded,
    /// The ingredient reference names no catalog entry.
    UnknownIngredient,
}

/// Sum of the volumes of a list of entries.
pub open spec fn total_volume(s: Seq<(usize, nat)>) -> nat
    decreases s.len(),
{
    if s.len() == 0 {
        0
    } else {
        total_volume(s.drop_last()) + s.last().1
    }
}

/// No ingredient appears in two entries.
pub open spec fn keys_unique(s: Seq<(usize, nat)>) -> bool {
    forall|i: int, j: int| 0 <= i < j < s.len() ==> s[i].0 != s[j].0
}

/// Ingredient `id` has an entry.
pub open spec fn has_entry(s: Seq<(usize, nat)>, id: usize) -> bool {
    exists|i: int| 0 <= i < s.len() && s[i].0 == id
}

/// Position of the entry of ingredient `id`, where it has one.
pub open spec fn entry_index(s: Seq<(usize, nat)>, id: usize) -> int {
    choose|i: int| 0 <= i < s.len() && s[i].0 == id
}

/// The entries after `v` more of ingredient `id` is poured: its entry grows,
/// or a new entry comes last.
pub open spec fn pour_into(s: Seq<(usize, nat)>, id: usize, v: nat) -> Seq<(usize, nat)> {
    if has_entry(s, id) {
        let i = entry_index(s, id);
        s.update(i, (id, s[i].1 + v))
    } else {
        s.push((id, v))
    }
}

/// Adds `v` to the weight of `k`, which counts as zero when absent.
pub open spec fn add_weight<K>(m: Map<K, nat>, k: K, v: nat) -> Map<K, nat> {
    m.insert(
        k,
        if m.contains_key(k) {
            m[k] + v
        } else {
            v
        },
    )
}

/// What a glass holds, as mathematical values.
pub struct GlassView {
    /// Volume, in tenths, that the contents must stay below.
    pub capacity: nat,
    pub shape: GlassShape,
    /// Volume poured of each ingredient, keyed by catalog index, in the order
    /// in which each ingredient was first poured.
    pub ingredients: Seq<(usize, nat)>,
    /// Volume poured of each taste.
    pub taste: Map<IngredientTaste, nat>,
    /// Volume poured of each primary effect.
    pub effect: Map<PrimaryEffect, nat>,
}

impl GlassView {
    /// Volume of the contents.
    pub open spec fn volume(self) -> nat {
        total_volume(self.ingredients)
    }

    /// A pour of `size` is accepted only while the glass stays strictly
    /// below its capacity.
    pub open spec fn fits(self, size: nat) -> bool {
        self.volume() + size < self.capacity
    }

    /// The same glass, emptied.
    pub open spec fn emptied(self) -> GlassView {
        GlassView {
            capacity: self.capacity,
            shape: self.shape,
            ingredients: Seq::empty(),
            taste: Map::empty(),
            effect: Map::empty(),
        }
    }

    /// The glass after a pour of ingredient `id`, with profile `p`, is
    /// attempted: poured if it fits, unchanged otherwise.
    pub open spec fn attempted(self, id: usize, p: IngredientProfile) -> GlassView {
        if self.fits(p.size as nat) {
            self.poured(id, p)
        } else {
            self
        }
    }

    /// The glass after each pour of `pours` is attempted in order.
    pub open spec fn attempted_all(self, pours: Seq<(usize, IngredientProfile)>) -> GlassView
        decreases pours.len(),
    {
        if pours.len() == 0 {
            self
        } else {
            self.attempted_all(pours.drop_last()).attempted(pours.last().0, pours.last().1)
        }
    }

    /// The glass after ingredient `id`, with profile `p`, is poured once.
    pub open spec fn poured(self, id: usize, p: IngredientProfile) -> GlassView {
        GlassView {
            capacity: self.capacity,
            shape: self.shape,
            ingredients: pour_into(self.ingredients, id, p.size as nat),
            taste: add_weight(self.taste, p.taste, p.size as nat),
            effect: add_weight(self.effect, p.primary_effect, p.size as nat),
        }
    }
}

/// Entries with their volumes as natural numbers.
pub open spec fn entries_view(s: Seq<(usize, u64)>) -> Seq<(usize, nat)> {
    s.map_values(|e: (usize, u64)| (e.0, e.1 as nat))
}

/// The weights of a taste table, keyed by taste.
pub open spec fn taste_map(w: Seq<Option<u64>>) -> Map<IngredientTaste, nat> {
    Map::new(
        |t: IngredientTaste| w[t.position() as int] is Some,
        |t: IngredientTaste| w[t.position() as int].unwrap() as nat,
    )
}

/// The weights of an effect table, keyed by effect.
pub open spec fn effect_map(w: Seq<Option<u64>>) -> Map<PrimaryEffect, nat> {
    Map::new(
        |e: PrimaryEffect| w[e.position() as int] is Some,
        |e: PrimaryEffect| w[e.position() as int].unwrap() as nat,
    )
}

/// Every weight in the table is at most `bound`.
pub open spec fn weights_at_most(w: Seq<Option<u64>>, bound: nat) -> bool {
    forall|i: int| 0 <= i < w.len() && #[trigger] w[i] is Some ==> w[i].unwrap() <= bound
}

/// Pouring `v` of an ingredient raises the volume by exactly `v`.
pub proof fn lemma_pour_volume(s: Seq<(usize, nat)>, id: usize, v: nat)
    ensures
        total_volume(pour_into(s, id, v)) == total_volume(s) + v,
{
    if has_entry(s, id) {
        let i = entry_index(s, id);
        assert(0 <= i < s.len() && s[i].0 == id);
        lemma_total_after_growth(s, i, v);
    } else {
        lemma_total_after_push(s, (id, v));
    }
}

/// A glass within its capacity stays within it, whatever pours are
/// attempted: an accepted pour ends strictly below capacity, and a refused
/// one leaves the glass as it was.
pub proof fn lemma_pour_keeps_capacity(g: GlassView, id: usize, p: IngredientProfile)
    requires
        g.volume() <= g.capacity,
    ensures
        g.fits(p.size as nat) ==> g.poured(id, p).volume() < g.capacity,
        g.fits(p.size as nat) ==> g.poured(id, p).volume() == g.volume() + p.size,
        g.poured(id, p).capacity == g.capacity,
{
    lemma_pour_volume(g.ingredients, id, p.size as nat);
}

/// However many pours are attempted, and in whatever order, a glass that
/// starts within its capacity stays within it.
pub proof fn lemma_pours_keep_capacity(g: GlassView, pours: Seq<(usize, IngredientProfile)>)
    requires
        g.volume() <= g.capacity,
    ensures
        g.attempted_all(pours).volume() <= g.capacity,
        g.attempted_all(pours).capacity == g.capacity,
    decreases pours.len(),
{
    if pours.len() > 0 {
        let before = g.attempted_all(pours.drop_last());
        lemma_pours_keep_capacity(g, pours.drop_last());
        lemma_pour_keeps_capacity(before, pours.last().0, pours.last().1);
    }
}

/// A pour that would fill the glass exactly to its capacity is refused.
pub proof fn lemma_exact_fill_refused(g: GlassView, size: nat)
    requires
        g.volume() + size == g.capacity,
    ensures
        !g.fits(size),
{
}

/// A glass with its running totals.
pub struct Glass {
    capacity: u64,
    shape: GlassShape,
    volume: u64,
    ingredients: Vec<(usize, u64)>,
    taste: Vec<Option<u64>>,
    effect: Vec<Option<u64>>,
}

impl View for Glass {
    type V = GlassView;

    closed spec fn view(&self) -> GlassView {
        GlassView {
            capacity: self.capacity as nat,
            shape: self.shape,
            ingredients: entries_view(self.ingredients@),
            taste: taste_map(self.taste@),
            effect: effect_map(self.effect@),
        }
    }
}

/// A table with `n` empty slots.
fn empty_slots(n: usize) -> (r: Vec<Option<u64>>)
    ensures
        r@ == Seq::new(n as nat, |i: int| None::<u64>),
{
    let mut r: Vec<Option<u64>> = Vec::new();
    let mut i: usize = 0;
    while i < n
        invariant
            i <= n,
            r@ == Seq::new(i as nat, |k: int| None::<u64>),
        decreases n - i,
    {
        r.push(None);
        i = i + 1;
        assert(r@ =~= Seq::new(i as nat, |k: int| None::<u64>));
    }
    r
}

proof fn lemma_entry_at_most_total(s: Seq<(usize, nat)>, i: int)
    requires
        0 <= i < s.len(),
    ensures
        s[i].1 <= total_volume(s),
    decreases s.len(),
{
    if i < s.len() - 1 {
        lemma_entry_at_most_total(s.drop_last(), i);
    }
}

proof fn lemma_total_after_growth(s: Seq<(usize, nat)>, i: int, v: nat)
    requires
        0 <= i < s.len(),
    ensures
        total_volume(s.update(i, (s[i].0, s[i].1 + v))) == total_volume(s) + v,
    decreases s.len(),
{
    let t = s.update(i, (s[i].0, s[i].1 + v));
    if i < s.len() - 1 {
        lemma_total_after_growth(s.drop_last(), i, v);
        assert(t.drop_last() =~= s.drop_last().update(i, (s[i].0, s[i].1 + v)));
    } else {
        assert(t.drop_last() =~= s.drop_last());
    }
}

proof fn lemma_total_after_push(s: Seq<(usize, nat)>, e: (usize, nat))
    ensures
        total_volume(s.push(e)) == total_volume(s) + e.1,
{
    assert(s.push(e).drop_last() =~= s);
}

impl Glass {
    /// The glass's invariant: the tables have one slot per category, each
    /// ingredient has one entry, the cached volume is the sum of the entries,
    /// it stays within capacity, and no category weighs more than the
    /// contents.
    pub closed spec fn wf(&self) -> bool {
        &&& self.taste@.len() == TASTE_COUNT
        &&& self.effect@.len() == EFFECT_COUNT
        &&& keys_unique(entries_view(self.ingredients@))
        &&& self.volume as nat == total_volume(entries_view(self.ingredients@))
        &&& self.volume <= self.capacity
        &&& weights_at_most(self.taste@, self.volume as nat)
        &&& weights_at_most(self.effect@, self.volume as nat)
    }

    /// An empty glass of the given capacity and shape.
    pub open spec fn new_view(capacity: u64, shape: GlassShape) -> GlassView {
        GlassView {
            capacity: capacity as nat,
            shape,
            ingredients: Seq::empty(),
            taste: Map::empty(),
            effect: Map::empty(),
        }
    }

    /// An empty glass.
    pub fn new(capacity: u64, shape: GlassShape) -> (r: Glass)
        ensures
            r.wf(),
            r@ == Glass::new_view(capacity, shape),
    {
        let r = Glass {
            capacity,
            shape,
            volume: 0,
            ingredients: Vec::new(),
            taste: empty_slots(TASTE_COUNT),
            effect: empty_slots(EFFECT_COUNT),
        };
        assert(entries_view(r.ingredients@) =~= Seq::empty());
        assert(taste_map(r.taste@) =~= Map::empty());
        assert(effect_map(r.effect@) =~= Map::empty());
        r
    }

    pub fn capacity(&self) -> (r: u64)
        ensures
            r as nat == self@.capacity,
    {
        self.capacity
    }

    pub fn shape(&self) -> (r: GlassShape)
        ensures
            r == self@.shape,
    {
        self.shape
    }

    /// Switches to the next shape, keeping the contents.
    pub fn switch_shape(&mut self)
        requires
            old(self).wf(),
        ensures
            final(self).wf(),
            final(self)@ == (GlassView { shape: old(self)@.shape.following(), ..old(self)@ }),
    {
        self.shape = self.shape.next();
    }

    /// Volume of the contents, in tenths.
    pub fn get_current_volume(&self) -> (r: u64)
        requires
            self.wf(),
        ensures
            r as nat == self@.volume(),
            r as nat <= self@.capacity,
    {
        self.volume
    }

    /// Empties the glass, keeping its capacity and shape.
    pub fn reset(&mut self)
        requires
            old(self).wf(),
        ensures
            final(self).wf(),
            final(self)@ == old(self)@.emptied(),
    {
        self.ingredients.clear();
        self.taste = empty_slots(TASTE_COUNT);
        self.effect = empty_slots(EFFECT_COUNT);
        self.volume = 0;
        assert(entries_view(self.ingredients@) =~= Seq::empty());
        assert(taste_map(self.taste@) =~= Map::empty());
        assert(effect_map(self.effect@) =~= Map::empty());
    }

    /// The taste table, one optional weight per taste position.
    pub(crate) fn taste_slots(&self) -> (r: &Vec<Option<u64>>)
        requires
            self.wf(),
        ensures
            r.len() == TASTE_COUNT,
            taste_map(r@) == self@.taste,
    {
        &self.taste
    }

    /// The effect table, one optional weight per effect position.
    pub(crate) fn effect_slots(&self) -> (r: &Vec<Option<u64>>)
        requires
            self.wf(),
        ensures
            r.len() == EFFECT_COUNT,
            effect_map(r@) == self@.effect,
    {
        &self.effect
    }

    /// A copy of the entries: catalog index and volume poured, in the order
    /// in which each ingredient was first poured.
    pub fn ingredient_entries(&self) -> (r: Vec<(usize, u64)>)
        ensures
            entries_view(r@) == self@.ingredients,
    {
        let mut r: Vec<(usize, u64)> = Vec::new();
        let mut i: usize = 0;
        while i < self.ingredients.len()
            invariant
                i <= self.ingredients.len(),
                r@ == self.ingredients@.subrange(0, i as int),
            decreases self.ingredients.len() - i,
        {
            r.push(self.ingredients[i]);
            i = i + 1;
            assert(r@ =~= self.ingredients@.subrange(0, i as int));
        }
        assert(r@ =~= self.ingredients@);
        r
    }

    /// Volume poured of taste `t`, if any was.
    pub fn taste_weight(&self, t: IngredientTaste) -> (r: Option<u64>)
        requires
            self.wf(),
        ensures
            r is Some <==> self@.taste.contains_key(t),
            r matches Some(w) ==> w as nat == self@.taste[t],
    {
        self.taste[t.index()]
    }

    /// Volume poured of effect `e`, if any was.
    pub fn effect_weight(&self, e: PrimaryEffect) -> (r: Option<u64>)
        requires
            self.wf(),
        ensures
            r is Some <==> self@.effect.contains_key(e),
            r matches Some(w) ==> w as nat == self@.effect[e],
    {
        self.effect[e.index()]
    }

    /// Pours one measure of ingredient `id`, whose profile is `profile`.
    /// The pour is accepted only if the contents stay strictly below
    /// capacity; a refused pour leaves the glass as it was.
    pub fn pour(&mut self, id: usize, profile: &IngredientProfile) -> (r: Result<(), CraftError>)
        requires
            old(self).wf(),
        ensures
            final(self).wf(),
            r is Ok <==> old(self)@.fits(profile.size as nat),
            final(self)@ == old(self)@.attempted(id, *profile),
            r is Ok ==> final(self)@ == old(self)@.poured(id, *profile),
            r is Err ==> r == Err::<(), CraftError>(CraftError::CapacityExceeded) && final(self)@
                == old(self)@,
    {
        let size = profile.size;
        if size >= self.capacity - self.volume {
            return Err(CraftError::CapacityExceeded);
        }
        let ghost before = self@;
        let ghost old_entries = entries_view(self.ingredients@);
        let mut i: usize = 0;
        while i < self.ingredients.len() && self.ingredients[i].0 != id
            invariant
                i <= self.ingredients.len(),
                forall|j: int| 0 <= j < i ==> self.ingredients@[j].0 != id,
            decreases self.ingredients.len() - i,
        {
            i = i + 1;
        }
        if i < self.ingredients.len() {
            proof {
                lemma_entry_at_most_total(old_entries, i as int);
                lemma_total_after_growth(old_entries, i as int, size as nat);
                let c = entry_index(old_entries, id);
                assert(0 <= c < old_entries.len() && old_entries[c].0 == id);
                assert(c == i);
            }
            let amount = self.ingredients[i].1;
            self.ingredients.set(i, (id, amount + size));
            assert(entries_view(self.ingredients@) =~= old_entries.update(
                i as int,
                (id, old_entries[i as int].1 + size as nat),
            ));
        } else {
            proof {
                lemma_total_after_push(old_entries, (id, size as nat));
            }
            self.ingredients.push((id, size));
            assert(entries_view(self.ingredients@) =~= old_entries.push((id, size as nat)));
        }
        proof {
            lemma_taste_positions();
            lemma_effect_positions();
        }
        let ti = profile.taste.index();
        let t_old = match self.taste[ti] {
            Some(w) => w,
            None => 0,
        };
        self.taste.set(ti, Some(t_old + size));
        let ei = profile.primary_effect.index();
        let e_old = match self.effect[ei] {
            Some(w) => w,
            None => 0,
        };
        self.effect.set(ei, Some(e_old + size));
        self.volume = self.volume + size;
        assert(taste_map(self.taste@) =~= add_weight(before.taste, profile.taste, size as nat));
        assert(effect_map(self.effect@) =~= add_weight(
            before.effect,
            profile.primary_effect,
            size as nat,
        ));
        Ok(())
    }

    /// Pours one measure of catalog entry `id`. An index outside the catalog
    /// is refused first; then the capacity rule of `pour` applies.
    pub fn add_ingredient(&mut self, catalog: &Vec<Ingredient>, id: usize) -> (r: Result<
        (),
        CraftError,
    >)
        requires
            old(self).wf(),
        ensures
            final(self).wf(),
            id >= catalog.len() ==> r == Err::<(), CraftError>(CraftError::UnknownIngredient)
                && final(self)@ == old(self)@,
            id < catalog.len() ==> {
                let p = catalog[id as int].ingredient_profile;
                &&& r is Ok <==> old(self)@.fits(p.size as nat)
                &&& r is Ok ==> final(self)@ == old(self)@.poured(id, p)
                &&& r is Err ==> r == Err::<(), CraftError>(CraftError::CapacityExceeded)
                    && final(self)@ == old(self)@
            },
    {
        if id >= catalog.len() {
            return Err(CraftError::UnknownIngredient);
        }
        self.pour(id, &catalog[id].ingredient_profile)
    }
}

} // verus!
