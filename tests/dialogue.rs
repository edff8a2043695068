use cosmos_on_the_rocks::customers::{customer_to_select, DialogueState as OpeningScenes};
use cosmos_on_the_rocks::flow::{DialogueState, GameState, RunOnce};
use cosmos_on_the_rocks::intel::IntelRegistry;
use cosmos_on_the_rocks::nodes::{
    available_options, check_condition, choose_option, Comparison, DialogueCondition,
    DialogueEffect, DialogueNode, DialogueOption, DialogueTree, PatronState,
};
use cosmos_on_the_rocks::patrons::{
    apply_emotion_effect, shift_emotion, Anger, EmotionType, Happiness, PatronEmotions,
    Relationship, RelationshipRegistry, Sadness,
};

fn zara() -> PatronState {
    PatronState { name: "Zara".to_string(), emotions: PatronEmotions::default() }
}

fn option(next: &str, conditions: Vec<DialogueCondition>, effects: Vec<DialogueEffect>) -> DialogueOption {
    DialogueOption { text: format!("to {}", next), next_node_id: next.to_string(), conditions, effects }
}

#[test]
fn intel_flags_set_clear_and_list() {
    let mut intel = IntelRegistry::new();
    assert!(!intel.has_intel("Intel_Zara_Secret"));
    intel.set_intel("Intel_Zara_Secret");
    intel.set_intel("Intel_Kael_Debt");
    assert!(intel.has_intel("Intel_Zara_Secret"));
    intel.clear_intel("Intel_Zara_Secret");
    assert!(!intel.has_intel("Intel_Zara_Secret"));
    intel.clear_intel("Intel_Never_Seen");
    assert!(!intel.has_intel("Intel_Never_Seen"));
    intel.set_intel("Intel_Kael_Debt");
    assert_eq!(intel.get_active_intel(), vec!["Intel_Kael_Debt".to_string()]);
    intel.set_intel("Intel_Zara_Secret");
    let mut active = intel.get_active_intel();
    active.sort();
    assert_eq!(active, vec!["Intel_Kael_Debt".to_string(), "Intel_Zara_Secret".to_string()]);
    assert!(IntelRegistry::default().get_active_intel().is_empty());
}

#[test]
fn relationships_default_to_neutral() {
    let mut reg = RelationshipRegistry::new();
    assert_eq!(reg.get_relationship("Zara", "Kael"), Relationship::Neutral);
    reg.set_relationship("Zara", "Kael", Relationship::Hostile);
    assert_eq!(reg.get_relationship("Zara", "Kael"), Relationship::Hostile);
    assert_eq!(reg.get_relationship("Kael", "Zara"), Relationship::Neutral);
    reg.set_relationship("Zara", "Kael", Relationship::Friendly);
    assert_eq!(reg.get_relationship("Zara", "Kael"), Relationship::Friendly);
    assert_eq!(Relationship::default(), Relationship::Neutral);
}

#[test]
fn emotions_stay_between_zero_and_hundred() {
    assert_eq!(shift_emotion(50, 15), 65);
    assert_eq!(shift_emotion(50, -70), 0);
    assert_eq!(shift_emotion(90, 30), 100);
    assert_eq!(shift_emotion(0, i16::MIN), 0);
    assert_eq!(shift_emotion(100, i16::MAX), 100);
    let mut e = PatronEmotions::default();
    assert_eq!((e.happiness.value, e.sadness.value, e.anger.value), (50, 20, 30));
    apply_emotion_effect(&mut e, 60, -25, 5);
    assert_eq!(e.happiness, Happiness { value: 100 });
    assert_eq!(e.sadness, Sadness { value: 0 });
    assert_eq!(e.anger, Anger { value: 35 });
    e.shift(EmotionType::Anger, -10);
    assert_eq!(e.get(EmotionType::Anger), 25);
    assert_eq!(e.get(EmotionType::Happiness), 100);
}

#[test]
fn conditions_check_intel_and_emotions() {
    let mut intel = IntelRegistry::new();
    let patrons = vec![zara()];
    let has = DialogueCondition::HasIntel("Intel_Zara_Secret".to_string());
    assert!(!check_condition(&has, &intel, &patrons));
    intel.set_intel("Intel_Zara_Secret");
    assert!(check_condition(&has, &intel, &patrons));
    let happy = |c: Comparison, t: u8| {
        DialogueCondition::EmotionCheck("Zara".to_string(), EmotionType::Happiness, t, c)
    };
    assert!(check_condition(&happy(Comparison::GreaterThan, 49), &intel, &patrons));
    assert!(!check_condition(&happy(Comparison::GreaterThan, 50), &intel, &patrons));
    assert!(check_condition(&happy(Comparison::Equal, 50), &intel, &patrons));
    assert!(check_condition(&happy(Comparison::LessThan, 51), &intel, &patrons));
    let absent = DialogueCondition::EmotionCheck("Kael".to_string(), EmotionType::Anger, 0, Comparison::GreaterThan);
    assert!(!check_condition(&absent, &intel, &patrons));
}

#[test]
fn only_options_whose_conditions_hold_are_offered() {
    let intel = IntelRegistry::new();
    let patrons = vec![zara()];
    let node = DialogueNode {
        id: "zara_intro".to_string(),
        text: "Hello.".to_string(),
        options: vec![
            option("a", vec![], vec![]),
            option("b", vec![DialogueCondition::HasIntel("Intel_X".to_string())], vec![]),
            option(
                "c",
                vec![DialogueCondition::EmotionCheck(
                    "Zara".to_string(),
                    EmotionType::Sadness,
                    30,
                    Comparison::LessThan,
                )],
                vec![],
            ),
        ],
    };
    assert_eq!(available_options(&node, &intel, &patrons), vec![0, 2]);
}

#[test]
fn choosing_an_option_applies_its_effects_in_order() {
    let mut intel = IntelRegistry::new();
    let mut patrons = vec![zara()];
    let node = DialogueNode {
        id: "zara_intro".to_string(),
        text: "Hello.".to_string(),
        options: vec![option(
            "zara_secret",
            vec![],
            vec![
                DialogueEffect::SetIntel("Intel_Zara_Secret".to_string()),
                DialogueEffect::ModifyEmotion("Zara".to_string(), EmotionType::Happiness, 15),
                DialogueEffect::ChangeRelationship("Zara".to_string(), "Kael".to_string(), Relationship::Hostile),
                DialogueEffect::ModifyEmotion("Kael".to_string(), EmotionType::Anger, 50),
                DialogueEffect::ModifyEmotion("Zara".to_string(), EmotionType::Happiness, 40),
            ],
        )],
    };
    let next = choose_option(&node, 0, &mut intel, &mut patrons);
    assert_eq!(next, Some("zara_secret".to_string()));
    assert!(intel.has_intel("Intel_Zara_Secret"));
    assert_eq!(patrons[0].emotions.happiness.value, 100);
    assert_eq!(patrons[0].emotions.anger.value, 30);
    assert_eq!(choose_option(&node, 1, &mut intel, &mut patrons), None);
}

#[test]
fn selecting_in_a_tree_moves_the_current_node() {
    let mut intel = IntelRegistry::new();
    let mut patrons = vec![zara()];
    let tree = DialogueTree {
        starting_node: "zara_intro".to_string(),
        nodes: vec![
            DialogueNode {
                id: "zara_intro".to_string(),
                text: "Hello.".to_string(),
                options: vec![option(
                    "zara_end",
                    vec![],
                    vec![DialogueEffect::ModifyEmotion("Zara".to_string(), EmotionType::Sadness, 5)],
                )],
            },
            DialogueNode { id: "zara_end".to_string(), text: "Bye.".to_string(), options: vec![] },
        ],
    };
    let mut current = tree.starting_node.clone();
    tree.select_option(&mut current, 3, &mut intel, &mut patrons);
    assert_eq!(current, "zara_intro");
    tree.select_option(&mut current, 0, &mut intel, &mut patrons);
    assert_eq!(current, "zara_end");
    assert_eq!(patrons[0].emotions.sadness.value, 25);
    tree.select_option(&mut current, 0, &mut intel, &mut patrons);
    assert_eq!(current, "zara_end");
    assert_eq!(tree.find_node(&"missing".to_string()), None);
}

#[test]
fn commands_name_screens_and_scenes() {
    assert_eq!(GameState::from_command("Crafting"), Some(GameState::Crafting));
    assert_eq!(GameState::from_command("End"), Some(GameState::EndNight));
    assert_eq!(GameState::from_command("Menu"), Some(GameState::MainMenu));
    assert_eq!(GameState::from_command("Settings"), None);
    assert_eq!(DialogueState::from_command("Carl"), Some(DialogueState::CarlEnters));
    assert_eq!(DialogueState::from_command("Zara"), Some(DialogueState::ZaraEnters));
    assert_eq!(DialogueState::from_command("Coda"), Some(DialogueState::CodaEnters));
    assert_eq!(DialogueState::from_command("Mystery"), Some(DialogueState::MysteryEnters));
    assert_eq!(DialogueState::from_command("zara"), None);
    assert_eq!(DialogueState::BartenderMonologue.starting_node(), "BartenderMonologue");
    assert_eq!(DialogueState::MysteryEnters.starting_node(), "MysteryEnters");
}

#[test]
fn opening_scenes_play_once_each() {
    let mut scenes = OpeningScenes::default();
    assert_eq!(scenes.next_starting_node(), "BartenderMonologue");
    assert_eq!(scenes.next_starting_node(), "BartenderAfterDrink");
    assert_eq!(scenes.next_starting_node(), "ZaraDialogue");
    assert_eq!(scenes.next_starting_node(), "ZaraDialogue");
}

#[test]
fn run_once_holds_only_the_first_time() {
    let mut once = RunOnce::new();
    assert!(once.run_once());
    assert!(!once.run_once());
    assert!(!once.run_once());
}

#[test]
fn zara_is_selected_when_nobody_is() {
    let names = vec!["Carl".to_string(), "Zara".to_string(), "Zara".to_string()];
    assert_eq!(customer_to_select(&names, false), Some(1));
    assert_eq!(customer_to_select(&names, true), None);
    assert_eq!(customer_to_select(&vec!["Coda".to_string()], false), None);
}
