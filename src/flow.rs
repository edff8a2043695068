//! Game flow: the screens of the game, which dialogue node a visit to the
//! bar starts at, and the commands by which dialogue scripts move between
//! them.
use vstd::prelude::*;
use vstd::string::StringExecFns;

verus! {

/// The screen the game is on.
#[derive(Clone, Copy, Debug, PartialEq, Eq, Hash, Structural)]
pub enum GameState {
    MainMenu,
    Loading,
    Settings,
    Dialogues,
    Crafting,
    EndNight,
}

impl GameState {
    /// The screen a `change_gamestate` command argument names.
    pub open spec fn named(arg: Seq<char>) -> Option<GameState> {
        if arg == "Crafting"@ {
            Some(GameState::Crafting)
        } else if arg == "End"@ {
            Some(GameState::EndNight)
        } else if arg == "Menu"@ {
            Some(GameState::MainMenu)
        } else {
            None
        }
    }

    /// Reads the argument of a `change_gamestate` command; `None` for an
    /// unknown screen.
    pub fn from_command(arg: &str) -> (r: Option<GameState>)
        ensures
            r == GameState::named(arg@),
    {
        let a = String::from_str(arg);
        if a == String::from_str("Crafting") {
            Some(GameState::Crafting)
        } else if a == String::from_str("End") {
            Some(GameState::EndNight)
        } else if a == String::from_str("Menu") {
            Some(GameState::MainMenu)
        } else {
            None
        }
    }
}

/// Which patron's scene the next dialogue starts with.
#[derive(Clone, Copy, Debug, PartialEq, Eq, Hash, Structural)]
pub enum DialogueState {
    BartenderMonologue,
    CarlEnters,
    ZaraEnters,
    CodaEnters,
    MysteryEnters,
}

impl DialogueState {
    /// The node a dialogue in this state starts at.
    pub open spec fn node_name(self) -> Seq<char> {
        match self {
            DialogueState::BartenderMonologue => "BartenderMonologue"@,
            DialogueState::CarlEnters => "CarlEnters"@,
            DialogueState::ZaraEnters => "ZaraEnters"@,
            DialogueState::CodaEnters => "CodaEnters"@,
            DialogueState::MysteryEnters => "MysteryEnters"@,
        }
    }

    pub fn starting_node(self) -> (r: String)
        ensures
            r@ == self.node_name(),
    {
        let s = match self {
            DialogueState::BartenderMonologue => "BartenderMonologue",
            DialogueState::CarlEnters => "CarlEnters",
            DialogueState::ZaraEnters => "ZaraEnters",
            DialogueState::CodaEnters => "CodaEnters",
            DialogueState::MysteryEnters => "MysteryEnters",
        };
        String::from_str(s)
    }

    /// The state a `change_dialog_state` command argument names.
    pub open spec fn named(arg: Seq<char>) -> Option<DialogueState> {
        if arg == "Carl"@ {
            Some(DialogueState::CarlEnters)
        } else if arg == "Zara"@ {
            Some(DialogueState::ZaraEnters)
        } else if arg == "Coda"@ {
            Some(DialogueState::CodaEnters)
        } else if arg == "Mystery"@ {
            Some(DialogueState::MysteryEnters)
        } else {
            None
        }
    }

    /// Reads the argument of a `change_dialog_state` command; `None` for an
    /// unknown patron.
    pub fn from_command(arg: &str) -> (r: Option<DialogueState>)
        ensures
            r == DialogueState::named(arg@),
    {
        let a = String::from_str(arg);
        if a == String::from_str("Carl") {
            Some(DialogueState::CarlEnters)
        } else if a == String::from_str("Zara") {
            Some(DialogueState::ZaraEnters)
        } else if a == String::from_str("Coda") {
            Some(DialogueState::CodaEnters)
        } else if a == String::from_str("Mystery") {
            Some(DialogueState::MysteryEnters)
        } else {
            None
        }
    }
}

/// A condition that holds the first time it is asked and never again.
pub struct RunOnce {
    has_run: bool,
}

impl RunOnce {
    pub closed spec fn spent(&self) -> bool {
        self.has_run
    }

    pub fn new() -> (r: RunOnce)
        ensures
            !r.spent(),
    {
        RunOnce { has_run: false }
    }

    /// True on the first call only.
    pub fn run_once(&mut self) -> (r: bool)
        ensures
            r == !old(self).spent(),
            final(self).spent(),
    {
        if !self.has_run {
            self.has_run = true;
            true
        } else {
            false
        }
    }
}

} // verus!
