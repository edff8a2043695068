//! Intel flags: pieces of information that the player has discovered in
//! dialogue, each set or cleared by name.
use vstd::prelude::*;
use vstd::string::StringExecFns;
use crate::tables::{
    distinct_keys, lemma_map_of_domain, lemma_map_of_entry, lemma_map_of_update,
    lemma_push_new_key, map_of,
};

verus! {

impl Default for IntelRegistry {
    fn default() -> (r: IntelRegistry)
        ensures
            r.wf(),
            r@ == Map::<Seq<char>, bool>::empty(),
    {
        IntelRegistry::new()
    }
}

/// The flags as entries keyed by the flag's text.
pub open spec fn flag_entries(flags: Seq<(String, bool)>) -> Seq<(Seq<char>, bool)> {
    flags.map_values(|e: (String, bool)| (e.0@, e.1))
}

/// Discovered intel, by name.
pub struct IntelRegistry {
    flags: Vec<(String, bool)>,
}

impl View for IntelRegistry {
    type V = Map<Seq<char>, bool>;

    closed spec fn view(&self) -> Map<Seq<char>, bool> {
        map_of(flag_entries(self.flags@))
    }
}

impl IntelRegistry {
    /// Each name has at most one flag.
    pub closed spec fn wf(&self) -> bool {
        distinct_keys(flag_entries(self.flags@))
    }

    /// No intel known.
    pub fn new() -> (r: IntelRegistry)
        ensures
            r.wf(),
            r@ == Map::<Seq<char>, bool>::empty(),
    {
        let r = IntelRegistry { flags: Vec::new() };
        assert(flag_entries(r.flags@) =~= Seq::empty());
        r
    }

    /// Position of the flag named `id`, if there is one.
    fn find(&self, id: &String) -> (r: Option<usize>)
        ensures
            r is None ==> forall|i: int|
                0 <= i < self.flags@.len() ==> flag_entries(self.flags@)[i].0 != id@,
            r matches Some(i) ==> i < self.flags@.len() && flag_entries(self.flags@)[i as int].0
                == id@,
    {
        let mut i: usize = 0;
        while i < self.flags.len()
            invariant
                i <= self.flags@.len(),
                forall|j: int| 0 <= j < i ==> flag_entries(self.flags@)[j].0 != id@,
            decreases self.flags.len() - i,
        {
            if self.flags[i].0 == *id {
                return Some(i);
            }
            i = i + 1;
        }
        None
    }

    /// Whether the flag named `intel_id` is set.
    pub fn has_intel(&self, intel_id: &str) -> (r: bool)
        requires
            self.wf(),
        ensures
            r == (self@.contains_key(intel_id@) && self@[intel_id@]),
    {
        let id = String::from_str(intel_id);
        match self.find(&id) {
            Some(i) => {
                proof {
                    lemma_map_of_entry(flag_entries(self.flags@), i as int);
                }
                self.flags[i].1
            },
            None => {
                proof {
                    lemma_map_of_domain(flag_entries(self.flags@), id@);
                }
                false
            },
        }
    }

    fn put(&mut self, id: String, value: bool)
        requires
            old(self).wf(),
        ensures
            final(self).wf(),
            final(self)@ == old(self)@.insert(id@, value),
    {
        let ghost before = flag_entries(self.flags@);
        match self.find(&id) {
            Some(i) => {
                self.flags.set(i, (id, value));
                proof {
                    lemma_map_of_update(before, i as int, value);
                    assert(flag_entries(self.flags@) =~= before.update(
                        i as int,
                        (before[i as int].0, value),
                    ));
                }
            },
            None => {
                let ghost key = id@;
                self.flags.push((id, value));
                proof {
                    lemma_push_new_key(before, key, value);
                    assert(flag_entries(self.flags@) =~= before.push((key, value)));
                }
            },
        }
    }

    /// Sets the flag named `intel_id`.
    pub fn set_intel(&mut self, intel_id: &str)
        requires
            old(self).wf(),
        ensures
            final(self).wf(),
            final(self)@ == old(self)@.insert(intel_id@, true),
    {
        self.put(String::from_str(intel_id), true);
    }

    /// Clears the flag named `intel_id`; the name stays known.
    pub fn clear_intel(&mut self, intel_id: &str)
        requires
            old(self).wf(),
        ensures
            final(self).wf(),
            final(self)@ == old(self)@.insert(intel_id@, false),
    {
        self.put(String::from_str(intel_id), false);
    }

    /// The names of every set flag, each once, in the order in which the
    /// names first became known.
    pub fn get_active_intel(&self) -> (r: Vec<String>)
        requires
            self.wf(),
        ensures
            forall|k: Seq<char>| #[trigger] string_views(r@).contains(k) <==> (self@.contains_key(k) && self@[k]),
            string_views(r@).no_duplicates(),
    {
        let ghost entries = flag_entries(self.flags@);
        let mut r: Vec<String> = Vec::new();
        let mut i: usize = 0;
        while i < self.flags.len()
            invariant
                i <= self.flags@.len(),
                entries == flag_entries(self.flags@),
                string_views(r@) == active_names(entries.subrange(0, i as int)),
            decreases self.flags.len() - i,
        {
            let ghost next = entries.subrange(0, i as int + 1);
            assert(next.drop_last() =~= entries.subrange(0, i as int));
            if self.flags[i].1 {
                r.push(self.flags[i].0.clone());
            }
            i = i + 1;
            assert(string_views(r@) =~= active_names(entries.subrange(0, i as int)));
        }
        assert(entries.subrange(0, i as int) =~= entries);
        proof {
            lemma_active_names(entries);
        }
        r
    }
}

/// The text of each string.
pub open spec fn string_views(s: Seq<String>) -> Seq<Seq<char>> {
    s.map_values(|x: String| x@)
}

/// The keys of the entries whose flag is set, in entry order.
pub open spec fn active_names(s: Seq<(Seq<char>, bool)>) -> Seq<Seq<char>>
    decreases s.len(),
{
    if s.len() == 0 {
        Seq::empty()
    } else if s.last().1 {
        active_names(s.drop_last()).push(s.last().0)
    } else {
        active_names(s.drop_last())
    }
}

proof fn lemma_active_names(s: Seq<(Seq<char>, bool)>)
    requires
        distinct_keys(s),
    ensures
        forall|k: Seq<char>| #[trigger] active_names(s).contains(k) <==> (map_of(s).contains_key(k) && map_of(s)[k]),
        active_names(s).no_duplicates(),
    decreases s.len(),
{
    if s.len() > 0 {
        let rest = s.drop_last();
        let last = s.last();
        lemma_active_names(rest);
        lemma_map_of_domain(rest, last.0);
        assert(!map_of(rest).contains_key(last.0));
        assert forall|k: Seq<char>| #[trigger] active_names(s).contains(k) <==> (map_of(s).contains_key(k) && map_of(s)[k]) by {
            if last.1 {
                assert(active_names(s) == active_names(rest).push(last.0));
                if active_names(s).contains(k) && k != last.0 {
                    let j = choose|j: int| 0 <= j < active_names(s).len() && active_names(s)[j] == k;
                    assert(active_names(rest)[j] == k);
                }
                if k != last.0 && active_names(rest).contains(k) {
                    let j = choose|j: int| 0 <= j < active_names(rest).len() && active_names(rest)[j] == k;
                    assert(active_names(s)[j] == k);
                }
                if k == last.0 {
                    assert(active_names(s)[active_names(s).len() - 1] == k);
                }
            }
        }
        if last.1 {
            assert(!active_names(rest).contains(last.0));
        }
    }
}

} // verus!
