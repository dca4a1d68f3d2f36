//! Property dictionaries: ordered mappings from property names to values.

use vstd::prelude::*;
use vstd::string::*;
use crate::value::{native_of, PropertyValue, ValueView};

verus! {

/// A named value.
#[derive(Debug, PartialEq, Eq)]
pub struct Property {
    pub name: String,
    pub value: PropertyValue,
}

/// What a named value holds.
pub struct PropertyView {
    pub name: Seq<char>,
    pub value: ValueView,
}

impl View for Property {
    type V = PropertyView;

    open spec fn view(&self) -> PropertyView {
        PropertyView { name: self.name@, value: self.value@ }
    }
}

impl Clone for Property {
    fn clone(&self) -> (copy: Property)
        ensures
            copy@ == self@,
    {
        Property { name: self.name.clone(), value: self.value.clone() }
    }
}

/// The value under the first entry of that name, if there is one.
pub open spec fn lookup(entries: Seq<PropertyView>, name: Seq<char>) -> Option<ValueView>
    decreases entries.len(),
{
    if entries.len() == 0 {
        None
    } else if entries[0].name == name {
        Some(entries[0].value)
    } else {
        lookup(entries.drop_first(), name)
    }
}

/// The entries with the value put under the name: in the place of the entry
/// of that name, or at the end where there is none.
pub open spec fn put(entries: Seq<PropertyView>, name: Seq<char>, value: ValueView) -> Seq<
    PropertyView,
>
    decreases entries.len(),
{
    if entries.len() == 0 {
        seq![PropertyView { name, value }]
    } else if entries[0].name == name {
        entries.update(0, PropertyView { name, value })
    } else {
        seq![entries[0]] + put(entries.drop_first(), name, value)
    }
}

/// The entries as the engine holds them: each value in the engine's
/// representation, under its name.
pub open spec fn natives(entries: Seq<PropertyView>) -> Seq<PropertyView> {
    Seq::new(
        entries.len(),
        |i: int| PropertyView { name: entries[i].name, value: native_of(entries[i].value) },
    )
}

/// No two entries have the same name.
pub open spec fn distinct_names(entries: Seq<PropertyView>) -> bool {
    forall|i: int, j: int|
        0 <= i < j < entries.len() ==> (#[trigger] entries[i]).name != (#[trigger] entries[j]).name
}

/// No entry has that name.
pub open spec fn absent(entries: Seq<PropertyView>, name: Seq<char>) -> bool {
    forall|i: int| 0 <= i < entries.len() ==> (#[trigger] entries[i]).name != name
}

/// A name that no entry has is looked up in vain, and is put at the end.
pub proof fn lemma_absent(entries: Seq<PropertyView>, name: Seq<char>, value: ValueView)
    requires
        absent(entries, name),
    ensures
        lookup(entries, name) is None,
        put(entries, name, value) == entries.push(PropertyView { name, value }),
    decreases entries.len(),
{
    if entries.len() > 0 {
        let rest = entries.drop_first();
        lemma_absent(rest, name, value);
        assert(seq![entries[0]] + rest.push(PropertyView { name, value }) =~= entries.push(
            PropertyView { name, value },
        ));
    }
}

/// The first entry of a name is the one that is looked up, and the one that
/// is replaced.
pub proof fn lemma_first(entries: Seq<PropertyView>, at: int, value: ValueView)
    requires
        0 <= at < entries.len(),
        absent(entries.take(at), entries[at].name),
    ensures
        lookup(entries, entries[at].name) == Some(entries[at].value),
        put(entries, entries[at].name, value) == entries.update(
            at,
            PropertyView { name: entries[at].name, value },
        ),
    decreases at,
{
    let name = entries[at].name;
    if at > 0 {
        let rest = entries.drop_first();
        assert(entries.take(at)[0] == entries[0]);
        assert forall|i: int| 0 <= i < at - 1 implies (#[trigger] rest.take(at - 1)[i]).name
            != name by {
            assert(rest.take(at - 1)[i] == entries.take(at)[i + 1]);
        }
        lemma_first(rest, at - 1, value);
        assert(seq![entries[0]] + rest.update(at - 1, PropertyView { name, value })
            =~= entries.update(at, PropertyView { name, value }));
    }
}

/// Putting a value keeps the names distinct.
pub proof fn lemma_put_distinct(entries: Seq<PropertyView>, name: Seq<char>, value: ValueView)
    requires
        distinct_names(entries),
    ensures
        distinct_names(put(entries, name, value)),
        lookup(put(entries, name, value), name) == Some(value),
{
    if absent(entries, name) {
        lemma_absent(entries, name, value);
        let after = entries.push(PropertyView { name, value });
        lemma_first(after, entries.len() as int, value);
    } else {
        let at = choose|i: int| 0 <= i < entries.len() && (#[trigger] entries[i]).name == name;
        lemma_first(entries, at, value);
        let after = entries.update(at, PropertyView { name, value });
        lemma_first(after, at, value);
    }
}

/// An ordered mapping from property names to values: no name occurs twice.
#[derive(Debug, PartialEq, Eq)]
pub struct PropertyDictionary {
    entries: Vec<Property>,
}

impl View for PropertyDictionary {
    type V = Seq<PropertyView>;

    closed spec fn view(&self) -> Seq<PropertyView> {
        Seq::new(self.entries@.len(), |i: int| self.entries@[i]@)
    }
}

impl Clone for PropertyDictionary {
    fn clone(&self) -> (copy: PropertyDictionary)
        ensures
            copy@ == self@,
    {
        proof {
            use_type_invariant(self);
        }
        let mut entries: Vec<Property> = Vec::new();
        let mut i: usize = 0;
        while i < self.entries.len()
            invariant
                i <= self.entries.len(),
                entries@.len() == i,
                forall|j: int| 0 <= j < i ==> (#[trigger] entries@[j])@ == self.entries@[j]@,
            decreases self.entries.len() - i,
        {
            entries.push(self.entries[i].clone());
            i = i + 1;
        }
        assert(Seq::new(entries@.len(), |i: int| entries@[i]@) =~= self@);
        PropertyDictionary { entries }
    }
}

impl PropertyDictionary {
    #[verifier::type_invariant]
    closed spec fn names_are_distinct(&self) -> bool {
        distinct_names(self@)
    }

    /// The dictionary without entries.
    pub fn new() -> (dictionary: PropertyDictionary)
        ensures
            dictionary@ == Seq::<PropertyView>::empty(),
    {
        PropertyDictionary { entries: Vec::new() }
    }

    /// The number of entries. No two of them have the same name.
    pub fn len(&self) -> (n: usize)
        ensures
            n == self@.len(),
            distinct_names(self@),
    {
        proof {
            use_type_invariant(self);
        }
        self.entries.len()
    }

    /// The entry at a position.
    pub fn entry(&self, index: usize) -> (entry: &Property)
        requires
            index < self@.len(),
        ensures
            entry@ == self@[index as int],
    {
        &self.entries[index]
    }

    /// The position of the entry of that name, if there is one.
    pub fn position(&self, name: &str) -> (found: Option<usize>)
        ensures
            match found {
                Some(at) => at < self@.len() && self@[at as int].name == name@ && absent(
                    self@.take(at as int),
                    name@,
                ),
                None => absent(self@, name@),
            },
    {
        let key = String::from_str(name);
        let mut i: usize = 0;
        while i < self.entries.len()
            invariant
                i <= self.entries.len(),
                key@ == name@,
                absent(self@.take(i as int), name@),
            decreases self.entries.len() - i,
        {
            if self.entries[i].name == key {
                return Some(i);
            }
            i = i + 1;
        }
        assert(self@.take(i as int) =~= self@);
        None
    }

    /// The value under a name, if there is one.
    pub fn get(&self, name: &str) -> (value: Option<&PropertyValue>)
        ensures
            match value {
                Some(v) => lookup(self@, name@) == Some(v@),
                None => lookup(self@, name@) is None,
            },
    {
        match self.position(name) {
            Some(at) => {
                proof {
                    lemma_first(self@, at as int, self@[at as int].value);
                }
                Some(&self.entries[at].value)
            },
            None => {
                proof {
                    lemma_absent(self@, name@, ValueView::Unsupported);
                }
                None
            },
        }
    }

    /// The dictionary as the engine holds it: each value in the engine's
    /// representation, under its name.
    pub fn natives(&self) -> (held: PropertyDictionary)
        ensures
            held@ == natives(self@),
    {
        proof {
            use_type_invariant(self);
        }
        let mut entries: Vec<Property> = Vec::new();
        let mut i: usize = 0;
        while i < self.entries.len()
            invariant
                i <= self.entries.len(),
                entries@.len() == i,
                forall|j: int|
                    0 <= j < i ==> (#[trigger] entries@[j])@ == (PropertyView {
                        name: self.entries@[j]@.name,
                        value: native_of(self.entries@[j]@.value),
                    }),
            decreases self.entries.len() - i,
        {
            let entry = &self.entries[i];
            entries.push(Property { name: entry.name.clone(), value: entry.value.native() });
            i = i + 1;
        }
        assert(Seq::new(entries@.len(), |i: int| entries@[i]@) =~= natives(self@));
        PropertyDictionary { entries }
    }

    /// This dictionary with the value put under the name.
    pub fn with(self, name: &str, value: PropertyValue) -> (dictionary: PropertyDictionary)
        ensures
            dictionary@ == put(self@, name@, value@),
    {
        proof {
            use_type_invariant(&self);
            lemma_put_distinct(self@, name@, value@);
        }
        let entry = Property { name: String::from_str(name), value };
        let found = self.position(name);
        let ghost before = self@;
        let mut entries = self.entries;
        match found {
            Some(at) => {
                proof {
                    lemma_first(before, at as int, value@);
                }
                entries.set(at, entry);
                assert(Seq::new(entries@.len(), |i: int| entries@[i]@) =~= before.update(
                    at as int,
                    entry@,
                ));
            },
            None => {
                proof {
                    lemma_absent(before, name@, value@);
                }
                entries.push(entry);
                assert(Seq::new(entries@.len(), |i: int| entries@[i]@) =~= before.push(entry@));
            },
        }
        PropertyDictionary { entries }
    }

    /// Puts the value under the name: in the place of the entry of that name,
    /// or at the end where there is none.
    pub fn insert(&mut self, name: &str, value: PropertyValue)
        ensures
            final(self)@ == put(old(self)@, name@, value@),
    {
        let mut taken = PropertyDictionary::new();
        core::mem::swap(self, &mut taken);
        *self = taken.with(name, value);
    }
}

} // verus!
