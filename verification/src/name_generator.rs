//! Names that never collide: the second bearer of a name gets a 2 behind
//! it, the third a 3, and so on.

use crate::search::first_where;
use crate::search::lemma_first_where;
use crate::search::lemma_first_where_is;
use crate::search::lemma_first_where_none;
use crate::search::lemma_first_where_same;
use crate::text::decimal;
use crate::text::decimal_text;
use crate::text::same_text;
use vstd::prelude::*;
use vstd::string::StringExecFns;

verus! {

/// How often a base name was asked for.
pub struct NameCount {
    name: String,
    count: u32,
}

/// Hands out names and remembers how often each base name was asked for.
pub struct NameGenerator {
    generated_names: Vec<NameCount>,
}

/// The name that a base name gives when it was asked for `times` times
/// before: the base name itself the first time, and afterwards the base
/// name with the number of the request behind it.
pub open spec fn numbered(base: Seq<char>, times: nat) -> Seq<char> {
    if times == 0 {
        base
    } else {
        base + decimal(times + 1)
    }
}

/// How often each base name was asked for.
pub type Counts = spec_fn(Seq<char>) -> nat;

/// The counts after the base name `base` was asked for once more.
pub open spec fn bumped(counts: Counts, base: Seq<char>) -> Counts {
    |name: Seq<char>|
        if name == base {
            counts(name) + 1
        } else {
            counts(name)
        }
}

/// The counts of a generator that has handed out no name yet.
pub open spec fn no_counts() -> Counts {
    |name: Seq<char>| 0nat
}

/// The index of the first entry for `name`.
spec fn entry_of(entries: Seq<NameCount>, name: Seq<char>) -> Option<int> {
    first_where(entries, |entry: NameCount| entry.name@ == name)
}

impl NameGenerator {
    /// How often the base name `name` was asked for.
    pub closed spec fn count(&self, name: Seq<char>) -> nat {
        match entry_of(self.generated_names@, name) {
            Some(i) => self.generated_names@[i].count as nat,
            None => 0,
        }
    }

    /// How often each base name was asked for.
    pub open spec fn counts(&self) -> Counts {
        |name: Seq<char>| self.count(name)
    }

    /// Makes a generator that has handed out no name yet.
    pub fn new() -> (generator: NameGenerator)
        ensures
            forall|name: Seq<char>| generator.count(name) == 0,
            generator.counts() == no_counts(),
    {
        let generator = NameGenerator { generated_names: Vec::new() };
        assert forall|name: Seq<char>| generator.count(name) == 0 by {}
        generator
    }

    /// Tells whether the base name can be asked for once more without the
    /// count of its requests leaving what a `u32` holds.
    pub fn has_room(&self, base_name: &str) -> (ok: bool)
        ensures
            ok == (self.count(base_name@) < u32::MAX),
    {
        match self.find(base_name) {
            Some(at) => self.generated_names[at].count < u32::MAX,
            None => true,
        }
    }

    /// Hands out a name for the base name: the base name itself at the
    /// first request, and at the n-th request the base name with n behind
    /// it.
    pub fn generate_name(&mut self, base_name: &str) -> (name: String)
        requires
            old(self).count(base_name@) < u32::MAX,
        ensures
            name@ == numbered(base_name@, old(self).count(base_name@)),
            final(self).count(base_name@) == old(self).count(base_name@) + 1,
            forall|other: Seq<char>|
                other != base_name@ ==> final(self).count(other) == old(self).count(other),
            final(self).counts() == bumped(old(self).counts(), base_name@),
    {
        let name: String = self.next_name(base_name);
        name
    }

    fn next_name(&mut self, base_name: &str) -> (name: String)
        requires
            old(self).count(base_name@) < u32::MAX,
        ensures
            name@ == numbered(base_name@, old(self).count(base_name@)),
            final(self).count(base_name@) == old(self).count(base_name@) + 1,
            forall|other: Seq<char>|
                other != base_name@ ==> final(self).count(other) == old(self).count(other),
    {
        let ghost before = self.generated_names@;
        match self.find(base_name) {
            Some(at) => {
                let count: u32 = self.generated_names[at].count + 1;
                self.generated_names[at].count = count;
                proof {
                    let after = self.generated_names@;
                    assert forall|other: Seq<char>|
                        entry_of(after, other) == entry_of(before, other) by {
                        lemma_first_where_same(
                            before,
                            |entry: NameCount| entry.name@ == other,
                            after,
                            |entry: NameCount| entry.name@ == other,
                        );
                    }
                    lemma_first_where(before, |entry: NameCount| entry.name@ == base_name@);
                    assert forall|other: Seq<char>| other != base_name@ implies self.count(other)
                        == old(self).count(other) by {
                        lemma_first_where(before, |entry: NameCount| entry.name@ == other);
                    }
                }
                if count > 1 {
                    let mut name: String = base_name.to_owned();
                    name.append(decimal_text(count).as_str());
                    name
                } else {
                    base_name.to_owned()
                }
            },
            None => {
                self.generated_names.push(NameCount { name: base_name.to_owned(), count: 1 });
                proof {
                    let after = self.generated_names@;
                    let last = before.len() as int;
                    lemma_first_where(before, |entry: NameCount| entry.name@ == base_name@);
                    assert forall|j: int| 0 <= j < last implies after[j] == before[j] by {}
                    lemma_first_where_is(
                        after,
                        |entry: NameCount| entry.name@ == base_name@,
                        last,
                    );
                    assert forall|other: Seq<char>| other != base_name@ implies self.count(other)
                        == old(self).count(other) by {
                        let wanted = |entry: NameCount| entry.name@ == other;
                        lemma_first_where(before, wanted);
                        match first_where(before, wanted) {
                            Some(i) => {
                                lemma_first_where_is(after, wanted, i);
                            },
                            None => {
                                assert forall|j: int| 0 <= j < after.len() implies !wanted(
                                    #[trigger] after[j],
                                ) by {}
                                lemma_first_where_none(after, wanted);
                            },
                        }
                    }
                }
                base_name.to_owned()
            },
        }
    }

    /// Looks for the entry of a base name.
    fn find(&self, base_name: &str) -> (found: Option<usize>)
        ensures
            found matches Some(i) ==> i < self.generated_names@.len() && entry_of(
                self.generated_names@,
                base_name@,
            ) == Some(i as int),
            found is None ==> entry_of(self.generated_names@, base_name@) is None,
    {
        let ghost wanted = |entry: NameCount| entry.name@ == base_name@;
        let mut i: usize = 0;
        while i < self.generated_names.len()
            invariant
                i <= self.generated_names@.len(),
                wanted == |entry: NameCount| entry.name@ == base_name@,
                forall|j: int| 0 <= j < i ==> !wanted(#[trigger] self.generated_names@[j]),
            decreases self.generated_names@.len() - i,
        {
            if same_text(self.generated_names[i].name.as_str(), base_name) {
                proof {
                    lemma_first_where_is(self.generated_names@, wanted, i as int);
                }
                return Some(i);
            }
            i = i + 1;
        }
        proof {
            lemma_first_where_none(self.generated_names@, wanted);
        }
        None
    }
}

} // verus!
