//! Dialogue trees: nodes, options with their conditions and effects, and
//! the rules that decide which options are offered and what choosing one
//! does.
use vstd::prelude::*;
use crate::intel::IntelRegistry;
use crate::patrons::{clamped_emotion, EmotionType, PatronEmotions, Relationship};

verus! {

/// How an emotion is compared with a threshold.
#[derive(Clone, Copy, Debug, PartialEq, Eq, Hash, Structural)]
pub enum Comparison {
    GreaterThan,
    LessThan,
    Equal,
}

impl Comparison {
    pub open spec fn spec_holds(self, value: u8, threshold: u8) -> bool {
        match self {
            Comparison::GreaterThan => value > threshold,
            Comparison::LessThan => value < threshold,
            Comparison::Equal => value == threshold,
        }
    }

    /// Whether `value` compares with `threshold` as this comparison asks.
    pub fn holds(self, value: u8, threshold: u8) -> (r: bool)
        ensures
            r == self.spec_holds(value, threshold),
    {
        match self {
            Comparison::GreaterThan => value > threshold,
            Comparison::LessThan => value < threshold,
            Comparison::Equal => value == threshold,
        }
    }
}

/// What must hold for an option to be offered.
#[derive(Clone, Debug)]
pub enum DialogueCondition {
    /// The named intel flag is set.
    HasIntel(String),
    /// The named patron's emotion compares with the threshold as asked.
    EmotionCheck(String, EmotionType, u8, Comparison),
}

/// What choosing an option does.
#[derive(Clone, Debug)]
pub enum DialogueEffect {
    /// Sets the named intel flag.
    SetIntel(String),
    /// Announces a change of relationship between two patrons; it changes
    /// no state here.
    ChangeRelationship(String, String, Relationship),
    /// Moves the named patron's emotion by the given amount.
    ModifyEmotion(String, EmotionType, i16),
}

/// An option that the player can choose at a node.
#[derive(Clone, Debug)]
pub struct DialogueOption {
    pub text: String,
    pub next_node_id: String,
    pub conditions: Vec<DialogueCondition>,
    pub effects: Vec<DialogueEffect>,
}

/// A node of a dialogue tree.
#[derive(Clone, Debug)]
pub struct DialogueNode {
    pub id: String,
    pub text: String,
    pub options: Vec<DialogueOption>,
}

/// A dialogue tree: its nodes, found by id, and where it starts.
#[derive(Clone, Debug)]
pub struct DialogueTree {
    pub starting_node: String,
    pub nodes: Vec<DialogueNode>,
}

/// `i` is the first node whose id is `id`.
pub open spec fn first_node(nodes: Seq<DialogueNode>, id: Seq<char>, i: int) -> bool {
    &&& 0 <= i < nodes.len()
    &&& nodes[i].id@ == id
    &&& forall|j: int| 0 <= j < i ==> nodes[j].id@ != id
}

impl DialogueTree {
    /// Position of the node whose id is `id`; with several, the first.
    pub fn find_node(&self, id: &String) -> (r: Option<usize>)
        ensures
            r is None ==> forall|j: int| 0 <= j < self.nodes@.len() ==> self.nodes@[j].id@ != id@,
            r matches Some(i) ==> first_node(self.nodes@, id@, i as int),
    {
        let mut i: usize = 0;
        while i < self.nodes.len()
            invariant
                i <= self.nodes.len(),
                forall|j: int| 0 <= j < i ==> self.nodes@[j].id@ != id@,
            decreases self.nodes.len() - i,
        {
            if self.nodes[i].id == *id {
                return Some(i);
            }
            i = i + 1;
        }
        None
    }
}

/// A patron as dialogue sees it: a name and three emotions.
#[derive(Clone, Debug)]
pub struct PatronState {
    pub name: String,
    pub emotions: PatronEmotions,
}

/// `i` is the first patron named `name`.
pub open spec fn first_named(patrons: Seq<PatronState>, name: Seq<char>, i: int) -> bool {
    &&& 0 <= i < patrons.len()
    &&& patrons[i].name@ == name
    &&& forall|j: int| 0 <= j < i ==> patrons[j].name@ != name
}

/// No patron is named `name`.
pub open spec fn none_named(patrons: Seq<PatronState>, name: Seq<char>) -> bool {
    forall|j: int| 0 <= j < patrons.len() ==> patrons[j].name@ != name
}

/// Position of the first patron named `name`.
pub fn find_patron(patrons: &Vec<PatronState>, name: &String) -> (r: Option<usize>)
    ensures
        r is None ==> none_named(patrons@, name@),
        r matches Some(i) ==> first_named(patrons@, name@, i as int),
{
    let mut i: usize = 0;
    while i < patrons.len()
        invariant
            i <= patrons.len(),
            forall|j: int| 0 <= j < i ==> patrons@[j].name@ != name@,
        decreases patrons.len() - i,
    {
        if patrons[i].name == *name {
            return Some(i);
        }
        i = i + 1;
    }
    None
}

/// Whether a condition holds, given the intel flags and the patrons. An
/// emotion check on a patron that is not present fails; with several of
/// the same name, the first decides.
pub open spec fn condition_holds(
    c: DialogueCondition,
    intel: Map<Seq<char>, bool>,
    patrons: Seq<PatronState>,
) -> bool {
    match c {
        DialogueCondition::HasIntel(id) => intel.contains_key(id@) && intel[id@],
        DialogueCondition::EmotionCheck(name, emotion, threshold, comparison) => exists|i: int|
            first_named(patrons, name@, i) && comparison.spec_holds(
                patrons[i].emotions.value_of(emotion),
                threshold,
            ),
    }
}

/// Whether a condition holds.
pub fn check_condition(
    c: &DialogueCondition,
    intel: &IntelRegistry,
    patrons: &Vec<PatronState>,
) -> (r: bool)
    requires
        intel.wf(),
    ensures
        r == condition_holds(*c, intel@, patrons@),
{
    match c {
        DialogueCondition::HasIntel(id) => intel.has_intel(id.as_str()),
        DialogueCondition::EmotionCheck(name, emotion, threshold, comparison) => {
            match find_patron(patrons, name) {
                Some(i) => {
                    let value = patrons[i].emotions.get(*emotion);
                    let r = comparison.holds(value, *threshold);
                    proof {
                        assert forall|k: int| first_named(patrons@, name@, k) implies k == i by {
                            if k < i {
                                assert(patrons@[k].name@ != name@);
                            } else if k > i {
                                assert(patrons@[i as int].name@ != name@);
                            }
                        }
                    }
                    r
                },
                None => false,
            }
        },
    }
}

/// Whether every condition of an option holds.
pub open spec fn option_available(
    o: DialogueOption,
    intel: Map<Seq<char>, bool>,
    patrons: Seq<PatronState>,
) -> bool {
    forall|k: int| 0 <= k < o.conditions@.len() ==> condition_holds(#[trigger] o.conditions@[k], intel, patrons)
}

/// Whether the option is offered.
pub fn is_option_available(
    o: &DialogueOption,
    intel: &IntelRegistry,
    patrons: &Vec<PatronState>,
) -> (r: bool)
    requires
        intel.wf(),
    ensures
        r == option_available(*o, intel@, patrons@),
{
    let mut k: usize = 0;
    while k < o.conditions.len()
        invariant
            intel.wf(),
            k <= o.conditions.len(),
            forall|j: int| 0 <= j < k ==> condition_holds(#[trigger] o.conditions@[j], intel@, patrons@),
        decreases o.conditions.len() - k,
    {
        if !check_condition(&o.conditions[k], intel, patrons) {
            return false;
        }
        k = k + 1;
    }
    true
}

/// Positions of the options of a node that are offered, in order.
pub fn available_options(
    node: &DialogueNode,
    intel: &IntelRegistry,
    patrons: &Vec<PatronState>,
) -> (r: Vec<usize>)
    requires
        intel.wf(),
    ensures
        forall|i: int| 0 <= i < r.len() ==> #[trigger] r@[i] < node.options.len() && option_available(
            node.options@[r@[i] as int],
            intel@,
            patrons@,
        ),
        forall|k: int|
            0 <= k < node.options.len() && option_available(node.options@[k], intel@, patrons@)
                ==> r@.contains(k as usize),
        forall|i: int, j: int| 0 <= i < j < r.len() ==> r@[i] < r@[j],
{
    let mut r: Vec<usize> = Vec::new();
    let mut k: usize = 0;
    while k < node.options.len()
        invariant
            intel.wf(),
            k <= node.options.len(),
            forall|i: int| 0 <= i < r.len() ==> #[trigger] r@[i] < k && option_available(
                node.options@[r@[i] as int],
                intel@,
                patrons@,
            ),
            forall|j: int|
                0 <= j < k && option_available(node.options@[j], intel@, patrons@)
                    ==> r@.contains(j as usize),
            forall|i: int, j: int| 0 <= i < j < r.len() ==> r@[i] < r@[j],
        decreases node.options.len() - k,
    {
        if is_option_available(&node.options[k], intel, patrons) {
            let ghost prev = r@;
            r.push(k);
            proof {
                assert forall|j: int|
                    0 <= j < k + 1 && option_available(node.options@[j], intel@, patrons@)
                        implies r@.contains(j as usize) by {
                    if j < k {
                        let t = choose|t: int| 0 <= t < prev.len() && prev[t] == j as usize;
                        assert(r@[t] == j as usize);
                    } else {
                        assert(r@[r.len() - 1] == j as usize);
                    }
                }
            }
        }
        k = k + 1;
    }
    r
}

/// The intel flags and patrons after one effect.
pub open spec fn after_effect(
    e: DialogueEffect,
    intel: Map<Seq<char>, bool>,
    patrons: Seq<PatronState>,
) -> (Map<Seq<char>, bool>, Seq<PatronState>) {
    match e {
        DialogueEffect::SetIntel(id) => (intel.insert(id@, true), patrons),
        DialogueEffect::ChangeRelationship(_, _, _) => (intel, patrons),
        DialogueEffect::ModifyEmotion(name, emotion, delta) => {
            if exists|i: int| first_named(patrons, name@, i) {
                let i = choose|i: int| first_named(patrons, name@, i);
                (
                    intel,
                    patrons.update(
                        i,
                        PatronState {
                            name: patrons[i].name,
                            emotions: patrons[i].emotions.shifted(emotion, delta as int),
                        },
                    ),
                )
            } else {
                (intel, patrons)
            }
        },
    }
}

/// The intel flags and patrons after a list of effects, applied in order.
pub open spec fn after_effects(
    effects: Seq<DialogueEffect>,
    intel: Map<Seq<char>, bool>,
    patrons: Seq<PatronState>,
) -> (Map<Seq<char>, bool>, Seq<PatronState>)
    decreases effects.len(),
{
    if effects.len() == 0 {
        (intel, patrons)
    } else {
        let before = after_effects(effects.drop_last(), intel, patrons);
        after_effect(effects.last(), before.0, before.1)
    }
}

/// Applies one effect.
pub fn apply_effect(e: &DialogueEffect, intel: &mut IntelRegistry, patrons: &mut Vec<PatronState>)
    requires
        old(intel).wf(),
    ensures
        final(intel).wf(),
        (final(intel)@, final(patrons)@) == after_effect(*e, old(intel)@, old(patrons)@),
{
    match e {
        DialogueEffect::SetIntel(id) => {
            intel.set_intel(id.as_str());
        },
        DialogueEffect::ChangeRelationship(_, _, _) => {},
        DialogueEffect::ModifyEmotion(name, emotion, delta) => {
            match find_patron(patrons, name) {
                Some(i) => {
                    proof {
                        assert forall|k: int| first_named(old(patrons)@, name@, k) implies k == i by {
                            if k < i {
                                assert(old(patrons)@[k].name@ != name@);
                            } else if k > i {
                                assert(old(patrons)@[i as int].name@ != name@);
                            }
                        }
                    }
                    let mut emotions = patrons[i].emotions;
                    emotions.shift(*emotion, *delta);
                    patrons[i].emotions = emotions;
                    assert(patrons@ =~= old(patrons)@.update(
                        i as int,
                        PatronState {
                            name: old(patrons)@[i as int].name,
                            emotions: old(patrons)@[i as int].emotions.shifted(*emotion, *delta as int),
                        },
                    ));
                },
                None => {},
            }
        },
    }
}

/// Chooses option `index` of a node: its effects are applied in order and
/// the id of the node it leads to is returned. An index past the node's
/// options does nothing.
pub fn choose_option(
    node: &DialogueNode,
    index: usize,
    intel: &mut IntelRegistry,
    patrons: &mut Vec<PatronState>,
) -> (r: Option<String>)
    requires
        old(intel).wf(),
    ensures
        final(intel).wf(),
        index >= node.options.len() ==> r is None && final(intel)@ == old(intel)@ && final(patrons)@
            == old(patrons)@,
        index < node.options.len() ==> {
            let o = node.options@[index as int];
            &&& r matches Some(next) && next@ == o.next_node_id@
            &&& (final(intel)@, final(patrons)@) == after_effects(o.effects@, old(intel)@, old(patrons)@)
        },
{
    if index >= node.options.len() {
        return None;
    }
    let option = &node.options[index];
    let mut k: usize = 0;
    while k < option.effects.len()
        invariant
            k <= option.effects.len(),
            intel.wf(),
            (intel@, patrons@) == after_effects(option.effects@.subrange(0, k as int), old(intel)@, old(patrons)@),
        decreases option.effects.len() - k,
    {
        apply_effect(&option.effects[k], intel, patrons);
        k = k + 1;
        assert(option.effects@.subrange(0, k as int).drop_last() =~= option.effects@.subrange(0, k as int - 1));
    }
    assert(option.effects@.subrange(0, k as int) =~= option.effects@);
    Some(option.next_node_id.clone())
}

impl DialogueTree {
    /// The player chooses option `index` at the node `current`: if that node
    /// exists and has such an option, its effects apply and `current` moves
    /// to the node it leads to; otherwise nothing changes.
    pub fn select_option(
        &self,
        current: &mut String,
        index: usize,
        intel: &mut IntelRegistry,
        patrons: &mut Vec<PatronState>,
    )
        requires
            old(intel).wf(),
        ensures
            final(intel).wf(),
            (exists|i: int| first_node(self.nodes@, old(current)@, i) && index < self.nodes@[i].options.len())
                ==> exists|i: int| {
                    &&& first_node(self.nodes@, old(current)@, i)
                    &&& final(current)@ == self.nodes@[i].options@[index as int].next_node_id@
                    &&& (final(intel)@, final(patrons)@) == after_effects(
                        self.nodes@[i].options@[index as int].effects@,
                        old(intel)@,
                        old(patrons)@,
                    )
                },
            !(exists|i: int| first_node(self.nodes@, old(current)@, i) && index < self.nodes@[i].options.len())
                ==> final(current)@ == old(current)@ && final(intel)@ == old(intel)@ && final(patrons)@
                == old(patrons)@,
    {
        match self.find_node(current) {
            Some(i) => {
                proof {
                    assert forall|k: int| first_node(self.nodes@, old(current)@, k) implies k == i by {
                        if k < i {
                            assert(self.nodes@[k].id@ != old(current)@);
                        } else if k > i {
                            assert(self.nodes@[i as int].id@ != old(current)@);
                        }
                    }
                }
                if let Some(next) = choose_option(&self.nodes[i], index, intel, patrons) {
                    *current = next;
                }
            },
            None => {},
        }
    }
}

} // verus!
