//! Patrons: their emotions, kept between 0 and 100, and the relationships
//! between them.
use vstd::prelude::*;
use vstd::string::StringExecFns;
use crate::tables::{
    distinct_keys, lemma_map_of_domain, lemma_map_of_entry, lemma_map_of_update,
    lemma_push_new_key, map_of,
};

verus! {

/// The highest value of an emotion.
pub const MAX_EMOTION: u8 = 100;

/// Base personality of a patron.
#[derive(Clone, Copy, Debug, PartialEq, Eq, Hash, Structural)]
pub enum Personality {
    Secretive,
    Volatile,
    Artificial,
    Creative,
}

/// How one patron stands toward another.
#[derive(Clone, Copy, Debug, PartialEq, Eq, Hash, Structural)]
pub enum Relationship {
    Friendly,
    Neutral,
    Suspicious,
    Hostile,
}

impl Default for Relationship {
    fn default() -> (r: Relationship)
        ensures
            r == Relationship::Neutral,
    {
        Relationship::Neutral
    }
}

/// The emotions that dialogue can check or change.
#[derive(Clone, Copy, Debug, PartialEq, Eq, Hash, Structural)]
pub enum EmotionType {
    Happiness,
    Sadness,
    Anger,
}

/// `value + delta`, kept between 0 and the highest emotion value.
pub open spec fn clamped_emotion(value: int, delta: int) -> int {
    if value + delta < 0 {
        0
    } else if value + delta > MAX_EMOTION as int {
        MAX_EMOTION as int
    } else {
        value + delta
    }
}

/// Moves an emotion value by `delta`, kept between 0 and 100.
pub fn shift_emotion(value: u8, delta: i16) -> (r: u8)
    ensures
        r as int == clamped_emotion(value as int, delta as int),
{
    let sum: i32 = value as i32 + delta as i32;
    if sum < 0 {
        0
    } else if sum > MAX_EMOTION as i32 {
        MAX_EMOTION
    } else {
        sum as u8
    }
}

/// A patron's happiness, 0 to 100.
#[derive(Clone, Copy, Debug, PartialEq, Eq, Structural)]
pub struct Happiness {
    pub value: u8,
}

/// A patron's sadness, 0 to 100.
#[derive(Clone, Copy, Debug, PartialEq, Eq, Structural)]
pub struct Sadness {
    pub value: u8,
}

/// A patron's anger, 0 to 100.
#[derive(Clone, Copy, Debug, PartialEq, Eq, Structural)]
pub struct Anger {
    pub value: u8,
}

impl Default for Happiness {
    fn default() -> (r: Happiness)
        ensures
            r.value == 50,
    {
        Happiness { value: 50 }
    }
}

impl Default for Sadness {
    fn default() -> (r: Sadness)
        ensures
            r.value == 20,
    {
        Sadness { value: 20 }
    }
}

impl Default for Anger {
    fn default() -> (r: Anger)
        ensures
            r.value == 30,
    {
        Anger { value: 30 }
    }
}

/// The three emotions of one patron.
#[derive(Clone, Copy, Debug, PartialEq, Eq, Structural)]
pub struct PatronEmotions {
    pub happiness: Happiness,
    pub sadness: Sadness,
    pub anger: Anger,
}

impl PatronEmotions {
    /// The value of one emotion.
    pub open spec fn value_of(self, emotion: EmotionType) -> u8 {
        match emotion {
            EmotionType::Happiness => self.happiness.value,
            EmotionType::Sadness => self.sadness.value,
            EmotionType::Anger => self.anger.value,
        }
    }

    /// The emotions after one of them moves by `delta`.
    pub open spec fn shifted(self, emotion: EmotionType, delta: int) -> PatronEmotions {
        match emotion {
            EmotionType::Happiness => PatronEmotions {
                happiness: Happiness {
                    value: clamped_emotion(self.happiness.value as int, delta) as u8,
                },
                ..self
            },
            EmotionType::Sadness => PatronEmotions {
                sadness: Sadness { value: clamped_emotion(self.sadness.value as int, delta) as u8 },
                ..self
            },
            EmotionType::Anger => PatronEmotions {
                anger: Anger { value: clamped_emotion(self.anger.value as int, delta) as u8 },
                ..self
            },
        }
    }

    pub fn get(&self, emotion: EmotionType) -> (r: u8)
        ensures
            r == self.value_of(emotion),
    {
        match emotion {
            EmotionType::Happiness => self.happiness.value,
            EmotionType::Sadness => self.sadness.value,
            EmotionType::Anger => self.anger.value,
        }
    }

    /// Moves one emotion by `delta`, kept between 0 and 100; the others
    /// stay.
    pub fn shift(&mut self, emotion: EmotionType, delta: i16)
        ensures
            *final(self) == old(self).shifted(emotion, delta as int),
            final(self).value_of(emotion) as int == clamped_emotion(
                old(self).value_of(emotion) as int,
                delta as int,
            ),
            forall|other: EmotionType|
                other != emotion ==> #[trigger] final(self).value_of(other) == old(self).value_of(
                    other,
                ),
    {
        match emotion {
            EmotionType::Happiness => {
                self.happiness.value = shift_emotion(self.happiness.value, delta);
            },
            EmotionType::Sadness => {
                self.sadness.value = shift_emotion(self.sadness.value, delta);
            },
            EmotionType::Anger => {
                self.anger.value = shift_emotion(self.anger.value, delta);
            },
        }
    }
}

impl Default for PatronEmotions {
    fn default() -> (r: PatronEmotions)
        ensures
            r.happiness.value == 50,
            r.sadness.value == 20,
            r.anger.value == 30,
    {
        PatronEmotions {
            happiness: Happiness::default(),
            sadness: Sadness::default(),
            anger: Anger::default(),
        }
    }
}

/// Applies a drink's effect on a patron's three emotions, each kept between
/// 0 and 100.
pub fn apply_emotion_effect(
    emotions: &mut PatronEmotions,
    happiness_delta: i16,
    sadness_delta: i16,
    anger_delta: i16,
)
    ensures
        final(emotions).happiness.value as int == clamped_emotion(
            old(emotions).happiness.value as int,
            happiness_delta as int,
        ),
        final(emotions).sadness.value as int == clamped_emotion(
            old(emotions).sadness.value as int,
            sadness_delta as int,
        ),
        final(emotions).anger.value as int == clamped_emotion(
            old(emotions).anger.value as int,
            anger_delta as int,
        ),
{
    emotions.happiness.value = shift_emotion(emotions.happiness.value, happiness_delta);
    emotions.sadness.value = shift_emotion(emotions.sadness.value, sadness_delta);
    emotions.anger.value = shift_emotion(emotions.anger.value, anger_delta);
}

/// The relationships as entries keyed by the pair of patron names.
pub open spec fn relationship_entries(s: Seq<(String, String, Relationship)>) -> Seq<
    ((Seq<char>, Seq<char>), Relationship),
> {
    s.map_values(|e: (String, String, Relationship)| ((e.0@, e.1@), e.2))
}

/// How each patron stands toward each other one; unrecorded pairs are
/// neutral.
pub struct RelationshipRegistry {
    relationships: Vec<(String, String, Relationship)>,
}

impl View for RelationshipRegistry {
    type V = Map<(Seq<char>, Seq<char>), Relationship>;

    closed spec fn view(&self) -> Map<(Seq<char>, Seq<char>), Relationship> {
        map_of(relationship_entries(self.relationships@))
    }
}

impl Default for RelationshipRegistry {
    fn default() -> (r: RelationshipRegistry)
        ensures
            r.wf(),
            r@ == Map::<(Seq<char>, Seq<char>), Relationship>::empty(),
    {
        RelationshipRegistry::new()
    }
}

/// The relationship from `from` to `to` recorded in `m`, neutral when none is.
pub open spec fn relationship_in(
    m: Map<(Seq<char>, Seq<char>), Relationship>,
    from: Seq<char>,
    to: Seq<char>,
) -> Relationship {
    if m.contains_key((from, to)) {
        m[(from, to)]
    } else {
        Relationship::Neutral
    }
}

impl RelationshipRegistry {
    /// Each ordered pair of names has at most one entry.
    pub closed spec fn wf(&self) -> bool {
        distinct_keys(relationship_entries(self.relationships@))
    }

    /// No relationship recorded.
    pub fn new() -> (r: RelationshipRegistry)
        ensures
            r.wf(),
            r@ == Map::<(Seq<char>, Seq<char>), Relationship>::empty(),
    {
        let r = RelationshipRegistry { relationships: Vec::new() };
        assert(relationship_entries(r.relationships@) =~= Seq::empty());
        r
    }

    fn find(&self, from: &String, to: &String) -> (r: Option<usize>)
        ensures
            r is None ==> forall|i: int|
                0 <= i < self.relationships@.len() ==> relationship_entries(
                    self.relationships@,
                )[i].0 != (from@, to@),
            r matches Some(i) ==> i < self.relationships@.len() && relationship_entries(
                self.relationships@,
            )[i as int].0 == (from@, to@),
    {
        let mut i: usize = 0;
        while i < self.relationships.len()
            invariant
                i <= self.relationships@.len(),
                forall|j: int|
                    0 <= j < i ==> relationship_entries(self.relationships@)[j].0 != (from@, to@),
            decreases self.relationships.len() - i,
        {
            if self.relationships[i].0 == *from && self.relationships[i].1 == *to {
                return Some(i);
            }
            i = i + 1;
        }
        None
    }

    /// How `from` stands toward `to`.
    pub fn get_relationship(&self, from: &str, to: &str) -> (r: Relationship)
        requires
            self.wf(),
        ensures
            r == relationship_in(self@, from@, to@),
    {
        let f = String::from_str(from);
        let t = String::from_str(to);
        match self.find(&f, &t) {
            Some(i) => {
                proof {
                    lemma_map_of_entry(relationship_entries(self.relationships@), i as int);
                }
                self.relationships[i].2
            },
            None => {
                proof {
                    lemma_map_of_domain(relationship_entries(self.relationships@), (from@, to@));
                }
                Relationship::Neutral
            },
        }
    }

    /// Records how `from` stands toward `to`.
    pub fn set_relationship(&mut self, from: &str, to: &str, relationship: Relationship)
        requires
            old(self).wf(),
        ensures
            final(self).wf(),
            final(self)@ == old(self)@.insert((from@, to@), relationship),
    {
        let f = String::from_str(from);
        let t = String::from_str(to);
        let ghost before = relationship_entries(self.relationships@);
        match self.find(&f, &t) {
            Some(i) => {
                self.relationships.set(i, (f, t, relationship));
                proof {
                    lemma_map_of_update(before, i as int, relationship);
                    assert(relationship_entries(self.relationships@) =~= before.update(
                        i as int,
                        (before[i as int].0, relationship),
                    ));
                }
            },
            None => {
                self.relationships.push((f, t, relationship));
                proof {
                    lemma_push_new_key(before, (from@, to@), relationship);
                    assert(relationship_entries(self.relationships@) =~= before.push(
                        ((from@, to@), relationship),
                    ));
                }
            },
        }
    }
}

} // verus!
