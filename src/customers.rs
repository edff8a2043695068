//! The bartender's opening scenes, played once each before the patrons'
//! dialogue takes over.
use vstd::prelude::*;
use vstd::string::StringExecFns;

verus! {

/// How far the bartender's opening has gone.
#[derive(Clone, Copy, Debug, PartialEq, Eq, Default, Structural)]
pub struct DialogueState {
    pub bartender_monologue_played: bool,
    pub bartender_drink_finished: bool,
}

impl DialogueState {
    /// The node the next dialogue starts at: the monologue first, then the
    /// scene after the first drink, then Zara's dialogue from then on. Each
    /// opening scene is marked as played when chosen.
    pub fn next_starting_node(&mut self) -> (r: String)
        ensures
            !old(self).bartender_monologue_played ==> r@ == "BartenderMonologue"@
                && final(self).bartender_monologue_played && final(self).bartender_drink_finished
                == old(self).bartender_drink_finished,
            old(self).bartender_monologue_played && !old(self).bartender_drink_finished ==> r@
                == "BartenderAfterDrink"@ && *final(self) == (DialogueState {
                bartender_monologue_played: true,
                bartender_drink_finished: true,
            }),
            old(self).bartender_monologue_played && old(self).bartender_drink_finished ==> r@
                == "ZaraDialogue"@ && *final(self) == *old(self),
    {
        if !self.bartender_monologue_played {
            self.bartender_monologue_played = true;
            String::from_str("BartenderMonologue")
        } else if !self.bartender_drink_finished {
            self.bartender_drink_finished = true;
            String::from_str("BartenderAfterDrink")
        } else {
            String::from_str("ZaraDialogue")
        }
    }
}

/// The customer to select when none is: the first one named Zara.
pub fn customer_to_select(names: &Vec<String>, any_selected: bool) -> (r: Option<usize>)
    ensures
        any_selected ==> r is None,
        !any_selected && r is None ==> forall|j: int| 0 <= j < names.len() ==> names@[j]@ != "Zara"@,
        r matches Some(i) ==> !any_selected && i < names.len() && names@[i as int]@ == "Zara"@
            && forall|j: int| 0 <= j < i ==> names@[j]@ != "Zara"@,
{
    if any_selected {
        return None;
    }
    let zara = String::from_str("Zara");
    let mut i: usize = 0;
    while i < names.len()
        invariant
            i <= names.len(),
            !any_selected,
            zara@ == "Zara"@,
            forall|j: int| 0 <= j < i ==> names@[j]@ != "Zara"@,
        decreases names.len() - i,
    {
        if names[i] == zara {
            return Some(i);
        }
        i = i + 1;
    }
    None
}

} // verus!
