//! The catalogue: every schema that gets a definition, under a unique name
//! and in the order of the names.

use vstd::prelude::*;
use crate::schema::SchemaKind;
use crate::text::lemma_name_before_irreflexive;
use crate::text::lemma_name_before_total;
use crate::text::lemma_name_before_transitive;
use crate::text::name_before;
use crate::text::name_less;
use crate::text::str_equal;

verus! {

/// A schema and the name of its definition.
#[derive(Debug, PartialEq, Eq)]
pub struct NamedSchema {
    pub name: String,
    pub kind: SchemaKind,
}

/// Whether the names strictly ascend.
pub open spec fn sorted_by_name(entries: Seq<NamedSchema>) -> bool {
    forall|i: int, j: int|
        0 <= i < j < entries.len() ==> name_before(
            #[trigger] entries[i].name@,
            #[trigger] entries[j].name@,
        )
}

/// Whether an entry is called `name`.
pub open spec fn has_name(entries: Seq<NamedSchema>, name: Seq<char>) -> bool {
    exists|i: int| 0 <= i < entries.len() && #[trigger] entries[i].name@ == name
}

/// The position of the entry called `name`.
pub open spec fn position_of(entries: Seq<NamedSchema>, name: Seq<char>) -> int {
    choose|i: int| 0 <= i < entries.len() && #[trigger] entries[i].name@ == name
}

/// The entries as a map from name to schema.
pub open spec fn as_map(entries: Seq<NamedSchema>) -> Map<Seq<char>, SchemaKind> {
    Map::new(
        |name: Seq<char>| has_name(entries, name),
        |name: Seq<char>| entries[position_of(entries, name)].kind,
    )
}

/// In a sorted sequence an entry is found under its own name.
pub proof fn lemma_entry_in_map(entries: Seq<NamedSchema>, i: int)
    requires
        sorted_by_name(entries),
        0 <= i < entries.len(),
    ensures
        has_name(entries, entries[i].name@),
        position_of(entries, entries[i].name@) == i,
        as_map(entries).dom().contains(entries[i].name@),
        as_map(entries)[entries[i].name@] == entries[i].kind,
{
    let name = entries[i].name@;
    let j = position_of(entries, name);
    lemma_name_before_irreflexive(name);
    if j < i {
        assert(name_before(entries[j].name@, entries[i].name@));
    } else if i < j {
        assert(name_before(entries[i].name@, entries[j].name@));
    }
}

/// Two sorted sequences with the same map agree on the names of their first
/// `n` entries.
proof fn lemma_sorted_prefixes_agree(a: Seq<NamedSchema>, b: Seq<NamedSchema>, n: int)
    requires
        sorted_by_name(a),
        sorted_by_name(b),
        as_map(a) == as_map(b),
        0 <= n <= a.len(),
    ensures
        n <= b.len(),
        forall|j: int| 0 <= j < n ==> (#[trigger] a[j]).name@ == b[j].name@,
    decreases n,
{
    if n > 0 {
        lemma_sorted_prefixes_agree(a, b, n - 1);
        let i = n - 1;
        lemma_entry_in_map(a, i);
        assert(as_map(b).dom().contains(a[i].name@));
        let k = position_of(b, a[i].name@);
        lemma_name_before_irreflexive(a[i].name@);
        if k < i {
            assert(a[k].name@ == b[k].name@);
            assert(name_before(a[k].name@, a[i].name@));
        }
        lemma_entry_in_map(b, i);
        assert(as_map(a).dom().contains(b[i].name@));
        let m = position_of(a, b[i].name@);
        lemma_name_before_irreflexive(b[i].name@);
        if m < i {
            assert(a[m].name@ == b[m].name@);
            assert(name_before(b[m].name@, b[i].name@));
        }
        if k > i {
            assert(name_before(b[i].name@, b[k].name@));
            if m > i {
                assert(name_before(a[i].name@, a[m].name@));
                lemma_name_before_transitive(a[i].name@, b[i].name@, a[i].name@);
            }
        }
    }
}

/// The order of the names leaves no choice: two sorted sequences with the same
/// map hold the same names and schemas at the same positions.
pub proof fn lemma_entries_determined_by_map(a: Seq<NamedSchema>, b: Seq<NamedSchema>)
    requires
        sorted_by_name(a),
        sorted_by_name(b),
        as_map(a) == as_map(b),
    ensures
        a.len() == b.len(),
        forall|j: int|
            0 <= j < a.len() ==> (#[trigger] a[j]).name@ == b[j].name@ && a[j].kind == b[j].kind,
{
    lemma_sorted_prefixes_agree(a, b, a.len() as int);
    lemma_sorted_prefixes_agree(b, a, b.len() as int);
    assert forall|j: int| 0 <= j < a.len() implies (#[trigger] a[j]).name@ == b[j].name@
        && a[j].kind == b[j].kind by {
        lemma_entry_in_map(a, j);
        lemma_entry_in_map(b, j);
    }
}

/// The catalogue of schemas to emit.
#[derive(Debug, PartialEq, Eq)]
pub struct Catalogue {
    entries: Vec<NamedSchema>,
}

impl View for Catalogue {
    type V = Map<Seq<char>, SchemaKind>;

    open spec fn view(&self) -> Map<Seq<char>, SchemaKind> {
        as_map(self.entries())
    }
}

impl Catalogue {
    /// The entries in the order in which they are emitted.
    pub closed spec fn entries(&self) -> Seq<NamedSchema> {
        self.entries@
    }

    /// The invariant: names strictly ascend, so none occurs twice.
    pub open spec fn wf(&self) -> bool {
        sorted_by_name(self.entries())
    }

    /// An empty catalogue.
    pub fn new() -> (r: Catalogue)
        ensures
            r.wf(),
            r.entries() == Seq::<NamedSchema>::empty(),
            r@ == Map::<Seq<char>, SchemaKind>::empty(),
    {
        let r = Catalogue { entries: Vec::new() };
        assert(r@ =~= Map::<Seq<char>, SchemaKind>::empty());
        r
    }

    /// The number of entries.
    pub fn len(&self) -> (n: usize)
        ensures
            n == self.entries().len(),
    {
        self.entries.len()
    }

    /// The entry at position `i`.
    pub fn entry(&self, i: usize) -> (e: &NamedSchema)
        requires
            i < self.entries().len(),
        ensures
            *e == self.entries()[i as int],
    {
        &self.entries[i]
    }

    /// The schema called `name`, if there is one.
    pub fn find(&self, name: &str) -> (r: Option<&SchemaKind>)
        requires
            self.wf(),
        ensures
            (match r {
                Some(kind) => self@.dom().contains(name@) && self@[name@] == *kind,
                None => !self@.dom().contains(name@),
            }),
    {
        let mut i: usize = 0;
        while i < self.entries.len()
            invariant
                0 <= i <= self.entries@.len(),
                self.wf(),
                forall|k: int| 0 <= k < i ==> (#[trigger] self.entries@[k]).name@ != name@,
            decreases self.entries@.len() - i,
        {
            if str_equal(self.entries[i].name.as_str(), name) {
                proof {
                    lemma_entry_in_map(self.entries@, i as int);
                }
                return Some(&self.entries[i].kind);
            }
            i += 1;
        }
        None
    }

    /// Puts `kind` under `name`, in place of what stood there.
    pub fn insert(&mut self, name: String, kind: SchemaKind)
        requires
            old(self).wf(),
        ensures
            final(self).wf(),
            final(self)@ == old(self)@.insert(name@, kind),
    {
        let ghost before = self.entries@;
        let n = self.entries.len();
        let mut i: usize = 0;
        while i < n && name_less(self.entries[i].name.as_str(), name.as_str())
            invariant
                0 <= i <= n,
                n == self.entries@.len(),
                self.entries@ == before,
                forall|k: int| 0 <= k < i ==> name_before((#[trigger] before[k]).name@, name@),
            decreases n - i,
        {
            i += 1;
        }
        let replace = i < n && str_equal(self.entries[i].name.as_str(), name.as_str());
        let ghost at = i as int;
        let ghost new_name = name@;
        let entry = NamedSchema { name, kind };
        if replace {
            self.entries[i] = entry;
            proof {
                let after = self.entries@;
                assert(after == before.update(at, entry));
                assert forall|a: int, b: int| 0 <= a < b < after.len() implies name_before(
                    #[trigger] after[a].name@,
                    #[trigger] after[b].name@,
                ) by {
                    assert(name_before(before[a].name@, before[b].name@));
                }
                assert forall|key: Seq<char>| #[trigger]
                    as_map(after).dom().contains(key) implies as_map(before).insert(
                    new_name,
                    kind,
                ).dom().contains(key) by {
                    let k = position_of(after, key);
                    assert(before[k].name@ == key);
                }
                assert forall|key: Seq<char>| #[trigger]
                    as_map(before).insert(new_name, kind).dom().contains(
                        key,
                    ) implies as_map(after).dom().contains(key) && as_map(after)[key] == as_map(
                    before,
                ).insert(new_name, kind)[key] by {
                    if key == new_name {
                        lemma_entry_in_map(after, at);
                    } else {
                        let k = position_of(before, key);
                        lemma_entry_in_map(before, k);
                        assert(after[k].name@ == key);
                        lemma_entry_in_map(after, k);
                    }
                }
                assert(as_map(after) =~= as_map(before).insert(new_name, kind));
            }
        } else {
            self.entries.insert(i, entry);
            proof {
                let after = self.entries@;
                assert(after == before.insert(at, entry));
                if at < before.len() {
                    if !name_before(new_name, before[at].name@) {
                        lemma_name_before_total(new_name, before[at].name@);
                    }
                }
                assert forall|a: int, b: int| 0 <= a < b < after.len() implies name_before(
                    #[trigger] after[a].name@,
                    #[trigger] after[b].name@,
                ) by {
                    if b < at {
                        assert(name_before(before[a].name@, before[b].name@));
                    } else if b == at {
                        assert(name_before(before[a].name@, new_name));
                    } else if a < at {
                        assert(name_before(before[a].name@, before[b - 1].name@));
                    } else if a == at {
                        if b - 1 > at {
                            assert(name_before(before[at].name@, before[b - 1].name@));
                            lemma_name_before_transitive(
                                new_name,
                                before[at].name@,
                                before[b - 1].name@,
                            );
                        }
                    } else {
                        assert(name_before(before[a - 1].name@, before[b - 1].name@));
                    }
                }
                assert forall|key: Seq<char>| #[trigger]
                    as_map(after).dom().contains(key) implies as_map(before).insert(
                    new_name,
                    kind,
                ).dom().contains(key) by {
                    let k = position_of(after, key);
                    if k < at {
                        assert(before[k].name@ == key);
                    } else if k > at {
                        assert(before[k - 1].name@ == key);
                    }
                }
                assert forall|key: Seq<char>| #[trigger]
                    as_map(before).insert(new_name, kind).dom().contains(
                        key,
                    ) implies as_map(after).dom().contains(key) && as_map(after)[key] == as_map(
                    before,
                ).insert(new_name, kind)[key] by {
                    if key == new_name {
                        lemma_entry_in_map(after, at);
                    } else {
                        let k = position_of(before, key);
                        lemma_entry_in_map(before, k);
                        if k < at {
                            assert(after[k].name@ == key);
                            lemma_entry_in_map(after, k);
                        } else {
                            assert(after[k + 1].name@ == key);
                            lemma_entry_in_map(after, k + 1);
                        }
                    }
                }
                assert(as_map(after) =~= as_map(before).insert(new_name, kind));
            }
        }
    }

    /// Hands the entries out, in order.
    pub fn into_entries(self) -> (r: Vec<NamedSchema>)
        ensures
            r@ == self.entries(),
    {
        self.entries
    }
}

} // verus!
