//! Vendor-specific key/value pairs that travel along a trace.
use vstd::prelude::*;

verus! {

/// The mathematical value of a trace state: its entries in insertion order.
pub type TraceStateView = Seq<(Seq<char>, Seq<char>)>;

/// Whether no key occurs twice in `entries`.
pub open spec fn keys_unique(entries: TraceStateView) -> bool {
    forall|i: int, j: int|
        0 <= i < j < entries.len() ==> (#[trigger] entries[i]).0 != (#[trigger] entries[j]).0
}

/// The position of the first entry under `key`, if there is one.
pub open spec fn position_of(entries: TraceStateView, key: Seq<char>) -> Option<int>
    decreases entries.len(),
{
    if entries.len() == 0 {
        None
    } else if entries.last().0 == key && position_of(entries.drop_last(), key) is None {
        Some(entries.len() - 1)
    } else {
        position_of(entries.drop_last(), key)
    }
}

/// The value stored under `key`, if there is one.
pub open spec fn lookup(entries: TraceStateView, key: Seq<char>) -> Option<Seq<char>> {
    match position_of(entries, key) {
        Some(i) => Some(entries[i].1),
        None => None,
    }
}

/// `entries` after `key` has been set to `value`: an existing entry keeps its
/// place and takes the new value, a new key goes to the end.
pub open spec fn upsert(entries: TraceStateView, key: Seq<char>, value: Seq<char>) -> TraceStateView {
    match position_of(entries, key) {
        Some(i) => entries.update(i, (key, value)),
        None => entries.push((key, value)),
    }
}

/// `position_of` finds an entry exactly when one exists, and then the first.
pub proof fn lemma_position_of(entries: TraceStateView, key: Seq<char>)
    ensures
        match position_of(entries, key) {
            Some(i) => {
                &&& 0 <= i < entries.len()
                &&& entries[i].0 == key
                &&& forall|j: int| 0 <= j < i ==> (#[trigger] entries[j]).0 != key
            },
            None => forall|j: int| 0 <= j < entries.len() ==> (#[trigger] entries[j]).0 != key,
        },
    decreases entries.len(),
{
    if entries.len() > 0 {
        lemma_position_of(entries.drop_last(), key);
        assert(forall|j: int|
            0 <= j < entries.len() - 1 ==> entries.drop_last()[j] == #[trigger] entries[j]);
    }
}

/// Setting a key keeps the keys unique, makes the key present with the new
/// value, and leaves every other key as it was.
pub proof fn lemma_upsert(entries: TraceStateView, key: Seq<char>, value: Seq<char>)
    requires
        keys_unique(entries),
    ensures
        keys_unique(upsert(entries, key, value)),
        lookup(upsert(entries, key, value), key) == Some(value),
        forall|other: Seq<char>|
            other != key ==> lookup(upsert(entries, key, value), other) == lookup(entries, other),
{
    let after = upsert(entries, key, value);
    lemma_position_of(entries, key);
    lemma_position_of(after, key);
    assert(lookup(after, key) == Some(value)) by {
        if let Some(i) = position_of(entries, key) {
            assert(after[i].0 == key);
        }
    }
    assert forall|other: Seq<char>| other != key implies lookup(after, other) == lookup(
        entries,
        other,
    ) by {
        lemma_position_of(entries, other);
        lemma_position_of(after, other);
        if let Some(i) = position_of(entries, other) {
            assert(after[i].0 == other);
        }
    }
}

/// An ordered mapping from string keys to string values. Keys are unique and
/// entries stay in the order in which their keys were first set.
#[derive(Debug, PartialEq, Eq)]
pub struct TraceState {
    entries: Vec<(String, String)>,
}

impl View for TraceState {
    type V = TraceStateView;

    closed spec fn view(&self) -> TraceStateView {
        self.entries@.map_values(|e: (String, String)| (e.0@, e.1@))
    }
}

impl TraceState {
    #[verifier::type_invariant]
    spec fn well_formed(self) -> bool {
        keys_unique(self@)
    }

    /// A trace state without entries.
    pub fn new() -> (state: TraceState)
        ensures
            state@ == TraceStateView::empty(),
    {
        TraceState { entries: Vec::new() }
    }

    /// The number of entries.
    pub fn len(&self) -> (n: usize)
        ensures
            n == self@.len(),
            keys_unique(self@),
    {
        proof {
            use_type_invariant(self);
        }
        self.entries.len()
    }

    /// Whether there is no entry.
    pub fn is_empty(&self) -> (empty: bool)
        ensures
            empty == (self@.len() == 0),
    {
        self.entries.len() == 0
    }

    /// The value stored under `key`, if there is one.
    pub fn get(&self, key: &str) -> (value: Option<&String>)
        ensures
            match value {
                Some(v) => lookup(self@, key@) == Some(v@),
                None => lookup(self@, key@) is None,
            },
    {
        let wanted: String = key.to_owned();
        let mut i: usize = 0;
        while i < self.entries.len()
            invariant
                i <= self.entries.len(),
                wanted@ == key@,
                forall|j: int| 0 <= j < i ==> (#[trigger] self@[j]).0 != key@,
            decreases self.entries.len() - i,
        {
            if self.entries[i].0 == wanted {
                proof {
                    lemma_position_of(self@, key@);
                    assert(self@[i as int].0 == key@);
                }
                return Some(&self.entries[i].1);
            }
            i += 1;
        }
        proof {
            lemma_position_of(self@, key@);
        }
        None
    }

    /// The entry at `index`, counted in insertion order from zero.
    pub fn entry(&self, index: usize) -> (pair: Option<(&String, &String)>)
        ensures
            match pair {
                Some((k, v)) => index < self@.len() && self@[index as int] == (k@, v@),
                None => index >= self@.len(),
            },
    {
        if index < self.entries.len() {
            Some((&self.entries[index].0, &self.entries[index].1))
        } else {
            None
        }
    }

    /// Sets `key` to `value`. An existing entry keeps its place and takes the
    /// new value; a new key goes to the end.
    pub fn insert(&mut self, key: String, value: String)
        ensures
            final(self)@ == upsert(old(self)@, key@, value@),
    {
        proof {
            use_type_invariant(&*self);
        }
        let ghost before = self@;
        let mut entries: Vec<(String, String)> = Vec::new();
        std::mem::swap(&mut entries, &mut self.entries);
        let mut i: usize = 0;
        while i < entries.len()
            invariant
                i <= entries.len(),
                before == entries@.map_values(|e: (String, String)| (e.0@, e.1@)),
                before == old(self)@,
                keys_unique(before),
                forall|j: int| 0 <= j < i ==> (#[trigger] before[j]).0 != key@,
            decreases entries.len() - i,
        {
            if entries[i].0 == key {
                proof {
                    assert(before[i as int].0 == key@);
                    lemma_position_of(before, key@);
                    lemma_upsert(before, key@, value@);
                }
                entries.set(i, (key, value));
                assert(entries@.map_values(|e: (String, String)| (e.0@, e.1@)) =~= before.update(
                    i as int,
                    (key@, value@),
                ));
                self.entries = entries;
                return ;
            }
            i += 1;
        }
        proof {
            lemma_position_of(before, key@);
            lemma_upsert(before, key@, value@);
        }
        entries.push((key, value));
        assert(entries@.map_values(|e: (String, String)| (e.0@, e.1@)) =~= before.push(
            (key@, value@),
        ));
        self.entries = entries;
    }
}

impl Clone for TraceState {
    fn clone(&self) -> (copy: TraceState)
        ensures
            copy@ == self@,
    {
        proof {
            use_type_invariant(self);
        }
        let mut entries: Vec<(String, String)> = Vec::new();
        let mut i: usize = 0;
        while i < self.entries.len()
            invariant
                i <= self.entries.len(),
                entries.len() == i,
                forall|j: int|
                    0 <= j < i ==> (#[trigger] entries@[j]).0@ == self.entries@[j].0@
                        && entries@[j].1@ == self.entries@[j].1@,
            decreases self.entries.len() - i,
        {
            let k: String = self.entries[i].0.clone();
            let v: String = self.entries[i].1.clone();
            entries.push((k, v));
            i += 1;
        }
        assert(entries@.map_values(|e: (String, String)| (e.0@, e.1@)) =~= self@);
        TraceState { entries }
    }
}

impl Default for TraceState {
    fn default() -> (state: TraceState)
        ensures
            state@ == TraceStateView::empty(),
    {
        TraceState::new()
    }
}

} // verus!
