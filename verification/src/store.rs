//! The store of shortcuts: a mapping from names to portable paths, kept as a
//! list in the order of the names, so that what is listed and what is offered
//! for picking does not depend on how the store came about.

use vstd::prelude::*;
use vstd::string::*;
use crate::text::to_chars;

verus! {

/// A name with its path, as text.
pub type Entry = (Seq<char>, Seq<char>);

/// A named directory: the name, and the path in portable form.
#[derive(Debug, PartialEq, Eq)]
pub struct Shortcut {
    pub name: String,
    pub path: String,
}

impl View for Shortcut {
    type V = Entry;

    open spec fn view(&self) -> Entry {
        (self.name@, self.path@)
    }
}

/// The order of names: character by character, a proper prefix first.
pub open spec fn name_lt(a: Seq<char>, b: Seq<char>) -> bool
    decreases a.len(),
{
    if b.len() == 0 {
        false
    } else if a.len() == 0 {
        true
    } else if a[0] == b[0] {
        name_lt(a.drop_first(), b.drop_first())
    } else {
        a[0] < b[0]
    }
}

/// No name comes before itself.
pub proof fn lemma_name_lt_irreflexive(a: Seq<char>)
    ensures
        !name_lt(a, a),
    decreases a.len(),
{
    if a.len() > 0 {
        lemma_name_lt_irreflexive(a.drop_first());
    }
}

/// The order of names is transitive.
pub proof fn lemma_name_lt_transitive(a: Seq<char>, b: Seq<char>, c: Seq<char>)
    requires
        name_lt(a, b),
        name_lt(b, c),
    ensures
        name_lt(a, c),
    decreases a.len(),
{
    if a.len() > 0 && a[0] == b[0] && b[0] == c[0] {
        lemma_name_lt_transitive(a.drop_first(), b.drop_first(), c.drop_first());
    }
}

/// Of two different names one comes before the other.
pub proof fn lemma_name_lt_total(a: Seq<char>, b: Seq<char>)
    ensures
        a == b || name_lt(a, b) || name_lt(b, a),
    decreases a.len(),
{
    if a.len() > 0 && b.len() > 0 && a[0] == b[0] {
        lemma_name_lt_total(a.drop_first(), b.drop_first());
        if a.drop_first() == b.drop_first() {
            assert(b =~= seq![b[0]] + b.drop_first());
        }
    }
}

/// Comparing `a` and `b` from index `i` on decides their order, where they
/// agree before `i`.
proof fn lemma_name_lt_from(a: Seq<char>, b: Seq<char>, i: int)
    requires
        0 <= i <= a.len(),
        i <= b.len(),
        a.take(i) == b.take(i),
    ensures
        name_lt(a, b) == name_lt(a.skip(i), b.skip(i)),
        name_lt(b, a) == name_lt(b.skip(i), a.skip(i)),
    decreases i,
{
    if i == 0 {
        assert(a.skip(0) == a);
        assert(b.skip(0) == b);
    } else {
        assert(b[0] == b.take(i)[0]);
        assert(a.drop_first().take(i - 1) == a.take(i).drop_first());
        assert(b.drop_first().take(i - 1) == b.take(i).drop_first());
        lemma_name_lt_from(a.drop_first(), b.drop_first(), i - 1);
        assert(a.drop_first().skip(i - 1) == a.skip(i));
        assert(b.drop_first().skip(i - 1) == b.skip(i));
    }
}

/// How one name stands to another in the order of names.
#[derive(Clone, Copy, Debug, PartialEq, Eq, Structural)]
pub enum Rank {
    Before,
    Same,
    After,
}

/// How `a` stands to `b` in the order of names.
pub open spec fn rank_of(a: Seq<char>, b: Seq<char>) -> Rank {
    if a == b {
        Rank::Same
    } else if name_lt(a, b) {
        Rank::Before
    } else {
        Rank::After
    }
}

/// How `a` stands to `b` in the order of names.
pub fn rank(a: &[char], b: &[char]) -> (r: Rank)
    ensures
        r == rank_of(a@, b@),
        r == Rank::After ==> name_lt(b@, a@),
{
    let n: usize = a.len();
    let m: usize = b.len();
    let mut i: usize = 0;
    while i < n && i < m && a[i] == b[i]
        invariant
            i <= n == a@.len(),
            i <= m == b@.len(),
            a@.take(i as int) == b@.take(i as int),
        decreases n - i,
    {
        i = i + 1;
    }
    proof {
        lemma_name_lt_from(a@, b@, i as int);
        lemma_name_lt_total(a@, b@);
    }
    if i == n && i == m {
        Rank::Same
    } else if i == n {
        Rank::Before
    } else if i == m {
        Rank::After
    } else if a[i] < b[i] {
        Rank::Before
    } else {
        Rank::After
    }
}

/// The names of `entries` stand in strictly rising order.
pub open spec fn sorted_by_name(entries: Seq<Entry>) -> bool {
    forall|i: int, j: int| 0 <= i < j < entries.len() ==> name_lt(entries[i].0, entries[j].0)
}

/// `name` is the name of one of `entries`.
pub open spec fn has_name(entries: Seq<Entry>, name: Seq<char>) -> bool {
    exists|i: int| 0 <= i < entries.len() && entries[i].0 == name
}

/// An index at which `name` stands in `entries`.
pub open spec fn index_of(entries: Seq<Entry>, name: Seq<char>) -> int {
    choose|i: int| 0 <= i < entries.len() && entries[i].0 == name
}

/// The mapping that `entries` stand for: each name with its path.
pub open spec fn mapping_of(entries: Seq<Entry>) -> Map<Seq<char>, Seq<char>> {
    Map::new(
        |name: Seq<char>| has_name(entries, name),
        |name: Seq<char>| entries[index_of(entries, name)].1,
    )
}

/// In a sorted list each name stands once, and is mapped to its own path.
pub proof fn lemma_mapping_at(entries: Seq<Entry>, i: int)
    requires
        sorted_by_name(entries),
        0 <= i < entries.len(),
    ensures
        has_name(entries, entries[i].0),
        index_of(entries, entries[i].0) == i,
        mapping_of(entries).contains_key(entries[i].0),
        mapping_of(entries)[entries[i].0] == entries[i].1,
{
    lemma_name_lt_irreflexive(entries[i].0);
}

/// `name` stands in none of `entries` where those before `at` come before it
/// and it comes before the others.
pub open spec fn is_gap(entries: Seq<Entry>, name: Seq<char>, at: int) -> bool {
    &&& 0 <= at <= entries.len()
    &&& forall|j: int| 0 <= j < at ==> name_lt(#[trigger] entries[j].0, name)
    &&& forall|j: int| at <= j < entries.len() ==> name_lt(name, #[trigger] entries[j].0)
}

/// A name that belongs into a gap is not in the list.
pub proof fn lemma_gap_is_absent(entries: Seq<Entry>, name: Seq<char>, at: int)
    requires
        is_gap(entries, name, at),
    ensures
        !has_name(entries, name),
        !mapping_of(entries).contains_key(name),
{
    lemma_name_lt_irreflexive(name);
}

/// Putting a new name into its gap keeps the order and adds it to the mapping.
pub proof fn lemma_insert_into_gap(entries: Seq<Entry>, entry: Entry, at: int)
    requires
        sorted_by_name(entries),
        is_gap(entries, entry.0, at),
    ensures
        sorted_by_name(entries.insert(at, entry)),
        mapping_of(entries.insert(at, entry)) == mapping_of(entries).insert(entry.0, entry.1),
{
    let after = entries.insert(at, entry);
    assert forall|i: int, j: int| 0 <= i < j < after.len() implies name_lt(
        after[i].0,
        after[j].0,
    ) by {}
    let left = mapping_of(after);
    let right = mapping_of(entries).insert(entry.0, entry.1);
    assert forall|name: Seq<char>| left.contains_key(name) <==> right.contains_key(name) by {
        if right.contains_key(name) {
            if name == entry.0 {
                assert(after[at].0 == name);
            } else {
                let k = index_of(entries, name);
                if k < at {
                    assert(after[k].0 == name);
                } else {
                    assert(after[k + 1].0 == name);
                }
            }
        }
    }
    assert forall|name: Seq<char>| left.contains_key(name) implies left[name] == right[name] by {
        let k = index_of(after, name);
        if k < at {
            lemma_mapping_at(entries, k);
            lemma_gap_is_absent(entries, entry.0, at);
        } else if k > at {
            lemma_mapping_at(entries, k - 1);
            lemma_gap_is_absent(entries, entry.0, at);
        }
    }
}

/// Giving the entry at `at` another path keeps the order and changes the
/// mapping at its name alone.
pub proof fn lemma_update_path(entries: Seq<Entry>, at: int, path: Seq<char>)
    requires
        sorted_by_name(entries),
        0 <= at < entries.len(),
    ensures
        sorted_by_name(entries.update(at, (entries[at].0, path))),
        mapping_of(entries.update(at, (entries[at].0, path))) == mapping_of(entries).insert(
            entries[at].0,
            path,
        ),
{
    let name = entries[at].0;
    let after = entries.update(at, (name, path));
    assert forall|i: int, j: int| 0 <= i < j < after.len() implies name_lt(
        after[i].0,
        after[j].0,
    ) by {}
    let left = mapping_of(after);
    let right = mapping_of(entries).insert(name, path);
    assert forall|other: Seq<char>| left.contains_key(other) <==> right.contains_key(other) by {
        if right.contains_key(other) {
            if other == name {
                assert(after[at].0 == other);
            } else {
                let k = index_of(entries, other);
                assert(after[k].0 == other);
            }
        }
    }
    assert forall|other: Seq<char>| left.contains_key(other) implies
        left[other] == right[other] by {
        let k = index_of(after, other);
        lemma_mapping_at(entries, k);
        lemma_mapping_at(entries, at);
    }
}

/// Taking the entry at `at` out keeps the order and removes its name from
/// the mapping.
pub proof fn lemma_remove_at(entries: Seq<Entry>, at: int)
    requires
        sorted_by_name(entries),
        0 <= at < entries.len(),
    ensures
        sorted_by_name(entries.remove(at)),
        mapping_of(entries.remove(at)) == mapping_of(entries).remove(entries[at].0),
{
    let name = entries[at].0;
    let after = entries.remove(at);
    assert forall|i: int, j: int| 0 <= i < j < after.len() implies name_lt(
        after[i].0,
        after[j].0,
    ) by {}
    let left = mapping_of(after);
    let right = mapping_of(entries).remove(name);
    lemma_name_lt_irreflexive(name);
    assert forall|other: Seq<char>| left.contains_key(other) <==> right.contains_key(other) by {
        if right.contains_key(other) {
            let k = index_of(entries, other);
            if k < at {
                assert(after[k].0 == other);
            } else {
                assert(after[k - 1].0 == other);
            }
        }
    }
    assert forall|other: Seq<char>| left.contains_key(other) implies
        left[other] == right[other] by {
        let k = index_of(after, other);
        if k < at {
            lemma_mapping_at(entries, k);
        } else {
            lemma_mapping_at(entries, k + 1);
        }
    }
}

/// Two sorted lists that stand for the same mapping are the same list.
pub proof fn lemma_sorted_entries_unique(a: Seq<Entry>, b: Seq<Entry>)
    requires
        sorted_by_name(a),
        sorted_by_name(b),
        mapping_of(a) == mapping_of(b),
    ensures
        a == b,
    decreases a.len(),
{
    if a.len() == 0 {
        if b.len() > 0 {
            lemma_mapping_at(b, 0);
        }
    } else if b.len() == 0 {
        lemma_mapping_at(a, 0);
    } else {
        // The least names of both lists are the same name: each stands in
        // the other list, and neither can come before the other.
        lemma_mapping_at(a, 0);
        lemma_mapping_at(b, 0);
        lemma_name_lt_irreflexive(a[0].0);
        if index_of(a, b[0].0) > 0 && index_of(b, a[0].0) > 0 {
            lemma_name_lt_transitive(a[0].0, b[0].0, a[0].0);
        }
        lemma_remove_at(a, 0);
        lemma_remove_at(b, 0);
        lemma_sorted_entries_unique(a.remove(0), b.remove(0));
        assert(b =~= seq![b[0]] + b.remove(0));
    }
}

/// The entries of a list of shortcuts, as text.
pub open spec fn entries_of(shortcuts: Seq<Shortcut>) -> Seq<Entry> {
    Seq::new(shortcuts.len(), |i: int| shortcuts[i]@)
}

/// The entries of a mapping in the order in which they are listed: that of
/// their names.
pub open spec fn entries_for(mapping: Map<Seq<char>, Seq<char>>) -> Seq<Entry> {
    choose|entries: Seq<Entry>| sorted_by_name(entries) && mapping_of(entries) == mapping
}

/// `mapping` is the mapping of a store: it has a list of entries in the order
/// of their names. Every finite mapping of names to paths has.
pub open spec fn is_listed(mapping: Map<Seq<char>, Seq<char>>) -> bool {
    sorted_by_name(entries_for(mapping)) && mapping_of(entries_for(mapping)) == mapping
}

/// A sorted list is the list of entries of its mapping.
pub proof fn lemma_entries_for(entries: Seq<Entry>)
    requires
        sorted_by_name(entries),
    ensures
        entries_for(mapping_of(entries)) == entries,
{
    lemma_sorted_entries_unique(entries_for(mapping_of(entries)), entries);
}

/// The empty mapping has no entries.
pub proof fn lemma_entries_for_empty()
    ensures
        entries_for(Map::<Seq<char>, Seq<char>>::empty()) == Seq::<Entry>::empty(),
{
    let none = Seq::<Entry>::empty();
    assert(mapping_of(none) =~= Map::<Seq<char>, Seq<char>>::empty());
    lemma_entries_for(none);
}

/// The store of shortcuts: no name stands twice, and the shortcuts are kept in
/// the order of their names.
#[derive(Debug, PartialEq, Eq)]
pub struct Store {
    shortcuts: Vec<Shortcut>,
}

impl View for Store {
    type V = Map<Seq<char>, Seq<char>>;

    /// The mapping from names to portable paths.
    closed spec fn view(&self) -> Map<Seq<char>, Seq<char>> {
        mapping_of(entries_of(self.shortcuts@))
    }
}

impl Store {
    #[verifier::type_invariant]
    spec fn ordered(&self) -> bool {
        sorted_by_name(entries_of(self.shortcuts@))
    }

    /// The empty store.
    pub fn new() -> (store: Store)
        ensures
            store@ == Map::<Seq<char>, Seq<char>>::empty(),
    {
        let store = Store { shortcuts: Vec::new() };
        assert(store@ =~= Map::<Seq<char>, Seq<char>>::empty()) by {
            assert forall|name: Seq<char>| !has_name(entries_of(store.shortcuts@), name) by {}
        }
        store
    }

    /// The shortcuts in the order in which they are listed.
    pub fn shortcuts(&self) -> (r: &Vec<Shortcut>)
        ensures
            entries_of(r@) == entries_for(self@),
            is_listed(self@),
    {
        proof {
            use_type_invariant(self);
            lemma_entries_for(entries_of(self.shortcuts@));
        }
        &self.shortcuts
    }

    /// The number of shortcuts.
    pub fn len(&self) -> (n: usize)
        ensures
            n == entries_for(self@).len(),
    {
        self.shortcuts().len()
    }

    /// Whether the store holds no shortcut.
    pub fn is_empty(&self) -> (r: bool)
        ensures
            r == (entries_for(self@).len() == 0),
            r == (self@ == Map::<Seq<char>, Seq<char>>::empty()),
    {
        let shortcuts = self.shortcuts();
        proof {
            let entries = entries_for(self@);
            if entries.len() == 0 {
                assert(self@ =~= Map::<Seq<char>, Seq<char>>::empty());
            } else {
                lemma_mapping_at(entries, 0);
            }
        }
        shortcuts.len() == 0
    }

    /// Where `name` stands among the shortcuts: `Ok` with its index, or `Err`
    /// with the index at which it would have to be put in.
    fn locate(&self, name: &str) -> (r: Result<usize, usize>)
        ensures
            sorted_by_name(entries_of(self.shortcuts@)),
            match r {
                Ok(at) => at < self.shortcuts@.len() && self.shortcuts@[at as int].name@ == name@,
                Err(at) => is_gap(entries_of(self.shortcuts@), name@, at as int),
            },
    {
        proof {
            use_type_invariant(self);
        }
        let ghost entries = entries_of(self.shortcuts@);
        let wanted = to_chars(name);
        let mut at: usize = 0;
        while at < self.shortcuts.len()
            invariant
                at <= self.shortcuts@.len(),
                wanted@ == name@,
                entries == entries_of(self.shortcuts@),
                sorted_by_name(entries),
                forall|j: int| 0 <= j < at ==> name_lt(#[trigger] entries[j].0, name@),
            decreases self.shortcuts@.len() - at,
        {
            let here = to_chars(self.shortcuts[at].name.as_str());
            match rank(wanted.as_slice(), here.as_slice()) {
                Rank::Same => {
                    return Ok(at);
                },
                Rank::Before => {
                    proof {
                        assert forall|j: int| at <= j < entries.len() implies name_lt(
                            name@,
                            #[trigger] entries[j].0,
                        ) by {
                            if j > at {
                                lemma_name_lt_transitive(name@, entries[at as int].0, entries[j].0);
                            }
                        }
                    }
                    return Err(at);
                },
                Rank::After => {},
            }
            at = at + 1;
        }
        Err(at)
    }

    /// Whether a shortcut has the name `name`, character for character.
    pub fn contains_key(&self, name: &str) -> (r: bool)
        ensures
            r == self@.contains_key(name@),
    {
        match self.locate(name) {
            Ok(at) => {
                proof {
                    lemma_mapping_at(entries_of(self.shortcuts@), at as int);
                }
                true
            },
            Err(at) => {
                proof {
                    lemma_gap_is_absent(entries_of(self.shortcuts@), name@, at as int);
                }
                false
            },
        }
    }

    /// The path stored under `name`: that of the shortcut whose name is `name`
    /// character for character, and `None` where there is no such shortcut. A
    /// name that only holds `name`, or differs from it in case, is not found.
    pub fn get(&self, name: &str) -> (r: Option<&String>)
        ensures
            match r {
                Some(path) => self@.contains_key(name@) && path@ == self@[name@],
                None => !self@.contains_key(name@),
            },
    {
        match self.locate(name) {
            Ok(at) => {
                proof {
                    lemma_mapping_at(entries_of(self.shortcuts@), at as int);
                }
                Some(&self.shortcuts[at].path)
            },
            Err(at) => {
                proof {
                    lemma_gap_is_absent(entries_of(self.shortcuts@), name@, at as int);
                }
                None
            },
        }
    }

    /// Stores `path` under `name`, in place of what was stored under it.
    /// Returns whether the name was new.
    pub fn set(&mut self, name: String, path: String) -> (added: bool)
        ensures
            final(self)@ == old(self)@.insert(name@, path@),
            added == !old(self)@.contains_key(name@),
    {
        let found = self.locate(name.as_str());
        let ghost before = entries_of(self.shortcuts@);
        let mut shortcuts: Vec<Shortcut> = Vec::new();
        std::mem::swap(&mut shortcuts, &mut self.shortcuts);
        let added = match found {
            Ok(at) => {
                proof {
                    lemma_update_path(before, at as int, path@);
                }
                shortcuts[at].path = path;
                assert(entries_of(shortcuts@) =~= before.update(at as int, (name@, path@)));
                false
            },
            Err(at) => {
                proof {
                    lemma_gap_is_absent(before, name@, at as int);
                    lemma_insert_into_gap(before, (name@, path@), at as int);
                }
                shortcuts.insert(at, Shortcut { name, path });
                assert(entries_of(shortcuts@) =~= before.insert(at as int, (name@, path@)));
                true
            },
        };
        self.shortcuts = shortcuts;
        added
    }

    /// Adds the shortcut `name` for `path`, unless the name is taken: then the
    /// store is left as it is, with the path that it had for the name, and
    /// `false` is returned.
    pub fn add(&mut self, name: String, path: String) -> (added: bool)
        ensures
            added == !old(self)@.contains_key(name@),
            added ==> final(self)@ == old(self)@.insert(name@, path@),
            !added ==> *final(self) == *old(self),
    {
        if self.contains_key(name.as_str()) {
            false
        } else {
            self.set(name, path)
        }
    }

    /// Removes the shortcut `name`. Returns whether there was one; where there
    /// was none, the store is left as it is.
    pub fn remove(&mut self, name: &str) -> (removed: bool)
        ensures
            removed == old(self)@.contains_key(name@),
            final(self)@ == old(self)@.remove(name@),
            !removed ==> *final(self) == *old(self),
    {
        let found = self.locate(name);
        let ghost before = entries_of(self.shortcuts@);
        match found {
            Ok(at) => {
                proof {
                    lemma_remove_at(before, at as int);
                }
                let mut shortcuts: Vec<Shortcut> = Vec::new();
                std::mem::swap(&mut shortcuts, &mut self.shortcuts);
                shortcuts.remove(at);
                assert(entries_of(shortcuts@) =~= before.remove(at as int));
                self.shortcuts = shortcuts;
                true
            },
            Err(at) => {
                proof {
                    lemma_gap_is_absent(before, name@, at as int);
                }
                false
            },
        }
    }
}

} // verus!
