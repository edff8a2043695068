//! The affect registry: effect intensities accumulated over every drink
//! served, and their projection into the dialogue layer's named variables.
use vstd::prelude::*;
use vstd::string::StringExecFns;
use crate::effects::{capped_sum, level_of, within_range, EffectLevels, MAX_INTENSITY};
use crate::ingredient::{lemma_effect_positions, PrimaryEffect, EFFECT_COUNT};

verus! {

/// Name of the dialogue variable that carries an effect's intensity.
pub open spec fn variable_name(e: PrimaryEffect) -> Seq<char> {
    match e {
        PrimaryEffect::Calming => "calming_effect"@,
        PrimaryEffect::Energizing => "energizing_effect"@,
        PrimaryEffect::MindEnhancing => "mind_enhancing_effect"@,
        PrimaryEffect::CourageBoosting => "courage_boosting_effect"@,
        PrimaryEffect::TruthInducing => "truth_inducing_effect"@,
        PrimaryEffect::Healing => "healing_effect"@,
    }
}

pub fn effect_variable(e: PrimaryEffect) -> (r: String)
    ensures
        r@ == variable_name(e),
{
    let s = match e {
        PrimaryEffect::Calming => "calming_effect",
        PrimaryEffect::Energizing => "energizing_effect",
        PrimaryEffect::MindEnhancing => "mind_enhancing_effect",
        PrimaryEffect::CourageBoosting => "courage_boosting_effect",
        PrimaryEffect::TruthInducing => "truth_inducing_effect",
        PrimaryEffect::Healing => "healing_effect",
    };
    String::from_str(s)
}

/// The intensities after `delta` is merged into `m`: each effect of the
/// delta is raised by its value, capped at the highest intensity; the rest
/// stay as they were.
pub open spec fn applied(m: Map<PrimaryEffect, nat>, delta: Map<PrimaryEffect, nat>) -> Map<
    PrimaryEffect,
    nat,
> {
    Map::new(
        |e: PrimaryEffect| m.contains_key(e) || delta.contains_key(e),
        |e: PrimaryEffect|
            if delta.contains_key(e) {
                capped_sum(level_of(m, e), delta[e])
            } else {
                m[e]
            },
    )
}

/// The variable/value pairs that project intensities `m`, one per effect
/// in declaration order; an absent effect reads as zero.
pub open spec fn is_projection(r: Seq<(String, u8)>, m: Map<PrimaryEffect, nat>) -> bool {
    &&& r.len() == EFFECT_COUNT
    &&& forall|i: int|
        0 <= i < EFFECT_COUNT ==> {
            let e = PrimaryEffect::at_position(i as nat);
            &&& (#[trigger] r[i]).0@ == variable_name(e)
            &&& r[i].1 as nat == level_of(m, e)
        }
}

/// Merging a delta never lowers an intensity and never lifts one past the
/// highest intensity.
pub proof fn lemma_apply_capped_and_monotone(
    m: Map<PrimaryEffect, nat>,
    delta: Map<PrimaryEffect, nat>,
)
    requires
        within_range(m),
    ensures
        within_range(applied(m, delta)),
        forall|e: PrimaryEffect| level_of(m, e) <= #[trigger] level_of(applied(m, delta), e),
{
}

/// Intensities accumulated across drinks, with a flag raised whenever they
/// change so that the dialogue variables can be refreshed.
pub struct AffectRegistry {
    intensities: EffectLevels,
    changed: bool,
}

impl View for AffectRegistry {
    type V = Map<PrimaryEffect, nat>;

    closed spec fn view(&self) -> Map<PrimaryEffect, nat> {
        self.intensities@
    }
}

impl AffectRegistry {
    pub closed spec fn wf(&self) -> bool {
        self.intensities.wf()
    }

    /// Whether the intensities changed since they were last projected.
    pub closed spec fn pending(&self) -> bool {
        self.changed
    }

    /// Every effect at zero.
    pub open spec fn new_view() -> Map<PrimaryEffect, nat> {
        Map::new(|e: PrimaryEffect| true, |e: PrimaryEffect| 0nat)
    }

    /// Every effect at zero, nothing pending.
    pub fn new() -> (r: AffectRegistry)
        ensures
            r.wf(),
            r@ == AffectRegistry::new_view(),
            !r.pending(),
    {
        let mut intensities = EffectLevels::new();
        intensities.set(PrimaryEffect::Calming, 0);
        intensities.set(PrimaryEffect::Energizing, 0);
        intensities.set(PrimaryEffect::MindEnhancing, 0);
        intensities.set(PrimaryEffect::CourageBoosting, 0);
        intensities.set(PrimaryEffect::TruthInducing, 0);
        intensities.set(PrimaryEffect::Healing, 0);
        let r = AffectRegistry { intensities, changed: false };
        assert(r@ =~= Map::new(|e: PrimaryEffect| true, |e: PrimaryEffect| 0nat));
        r
    }

    /// The intensity of `e`, zero when absent.
    pub fn level(&self, e: PrimaryEffect) -> (r: u8)
        requires
            self.wf(),
        ensures
            r as nat == level_of(self@, e),
    {
        self.intensities.level(e)
    }

    /// Merges a delta of intensities, raising the change flag.
    pub fn apply(&mut self, delta: &EffectLevels)
        requires
            old(self).wf(),
            delta.wf(),
        ensures
            final(self).wf(),
            final(self)@ == applied(old(self)@, delta@),
            final(self).pending(),
            forall|e: PrimaryEffect| #[trigger] level_of(final(self)@, e) <= MAX_INTENSITY as nat,
            forall|e: PrimaryEffect| level_of(old(self)@, e) <= #[trigger] level_of(final(self)@, e),
    {
        let ghost before = self@;
        let ghost d = delta@;
        let mut i: usize = 0;
        while i < EFFECT_COUNT
            invariant
                i <= EFFECT_COUNT,
                self.wf(),
                delta.wf(),
                d == delta@,
                forall|e: PrimaryEffect| #[trigger] self@.contains_key(e) <==>
                    if e.position() < i {
                        before.contains_key(e) || d.contains_key(e)
                    } else {
                        before.contains_key(e)
                    },
                forall|e: PrimaryEffect| #[trigger] self@.contains_key(e) ==> self@[e] ==
                    if e.position() < i && d.contains_key(e) {
                        capped_sum(level_of(before, e), d[e])
                    } else {
                        before[e]
                    },
            decreases EFFECT_COUNT - i,
        {
            proof {
                lemma_effect_positions();
            }
            let e = PrimaryEffect::from_index(i);
            let ghost prev = self@;
            if let Some(v) = delta.get(e) {
                self.intensities.add_capped(e, v);
                assert(level_of(prev, e) == level_of(before, e));
            }
            assert forall|f: PrimaryEffect| #[trigger] self@.contains_key(f) <==>
                if f.position() < i + 1 {
                    before.contains_key(f) || d.contains_key(f)
                } else {
                    before.contains_key(f)
                } by {
                if f != e {
                    assert(prev.contains_key(f) == self@.contains_key(f));
                }
            }
            assert forall|f: PrimaryEffect| #[trigger] self@.contains_key(f) implies self@[f] ==
                if f.position() < i + 1 && d.contains_key(f) {
                    capped_sum(level_of(before, f), d[f])
                } else {
                    before[f]
                } by {
                if f != e {
                    assert(prev.contains_key(f));
                    assert(prev[f] == self@[f]);
                }
            }
            i = i + 1;
        }
        proof {
            lemma_effect_positions();
            let goal = applied(before, d);
            assert forall|f: PrimaryEffect| #[trigger] self@.contains_key(f) <==> goal.contains_key(f) by {
                assert(f.position() < EFFECT_COUNT);
            }
            assert forall|f: PrimaryEffect| #[trigger] self@.contains_key(f) implies self@[f] == goal[f] by {
                assert(f.position() < EFFECT_COUNT);
            }
            assert(self@ =~= goal);
            old(self).intensities.lemma_in_range();
            lemma_apply_capped_and_monotone(before, d);
        }
        self.changed = true;
    }

    /// The dialogue variables and their values, one per effect in
    /// declaration order.
    pub fn project(&self) -> (r: Vec<(String, u8)>)
        requires
            self.wf(),
        ensures
            is_projection(r@, self@),
    {
        let mut r: Vec<(String, u8)> = Vec::new();
        let mut i: usize = 0;
        while i < EFFECT_COUNT
            invariant
                i <= EFFECT_COUNT,
                self.wf(),
                r.len() == i,
                forall|k: int|
                    0 <= k < i ==> {
                        let e = PrimaryEffect::at_position(k as nat);
                        &&& (#[trigger] r@[k]).0@ == variable_name(e)
                        &&& r@[k].1 as nat == level_of(self@, e)
                    },
            decreases EFFECT_COUNT - i,
        {
            let e = PrimaryEffect::from_index(i);
            r.push((effect_variable(e), self.level(e)));
            i = i + 1;
        }
        r
    }

    /// The projection, if the intensities changed since it was last taken;
    /// the change flag is lowered.
    pub fn take_projection(&mut self) -> (r: Option<Vec<(String, u8)>>)
        requires
            old(self).wf(),
        ensures
            final(self).wf(),
            final(self)@ == old(self)@,
            !final(self).pending(),
            r is Some <==> old(self).pending(),
            r matches Some(p) ==> is_projection(p@, old(self)@),
    {
        if self.changed {
            self.changed = false;
            Some(self.project())
        } else {
            None
        }
    }
}

} // verus!
