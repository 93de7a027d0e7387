//! Tables keyed by name.
//!
//! Links, joints and entities refer to one another by name, never by
//! position or pointer: a record may name a link that has not been seen yet,
//! or that does not exist at all. Everything that looks a name up goes
//! through the two tables of this module.
//!
//! A name is a sequence of characters. The model of a list of names is a
//! `Seq<Seq<char>>`; [`distinct`] and [`last_position`] say what the tables
//! hold for such a list.

use vstd::prelude::*;

verus! {

/// The names of `names` without repetition, each where it first occurs.
pub open spec fn distinct(names: Seq<Seq<char>>) -> Seq<Seq<char>>
    decreases names.len(),
{
    if names.len() == 0 {
        Seq::empty()
    } else {
        let front = distinct(names.drop_last());
        if front.contains(names.last()) {
            front
        } else {
            front.push(names.last())
        }
    }
}

/// The last place at which `name` occurs in `names`, if it occurs at all.
pub open spec fn last_position(names: Seq<Seq<char>>, name: Seq<char>) -> Option<int>
    decreases names.len(),
{
    if names.len() == 0 {
        None
    } else if names.last() == name {
        Some(names.len() - 1)
    } else {
        last_position(names.drop_last(), name)
    }
}

/// `distinct(names)` holds every name of `names` exactly once.
pub proof fn lemma_distinct(names: Seq<Seq<char>>)
    ensures
        distinct(names).no_duplicates(),
        distinct(names).len() <= names.len(),
        forall|n: Seq<char>| #[trigger] distinct(names).contains(n) <==> names.contains(n),
    decreases names.len(),
{
    if names.len() > 0 {
        let init = names.drop_last();
        let front = distinct(init);
        lemma_distinct(init);
        assert forall|n: Seq<char>| #[trigger] distinct(names).contains(n) <==> names.contains(
            n,
        ) by {
            if names.contains(n) {
                let i = choose|i: int| 0 <= i < names.len() && names[i] == n;
                if i < names.len() - 1 {
                    assert(init[i] == n);
                    assert(init.contains(n));
                    assert(front.contains(n));
                    let k = choose|k: int| 0 <= k < front.len() && front[k] == n;
                    assert(distinct(names)[k] == n);
                } else {
                    assert(n == names.last());
                    if !front.contains(n) {
                        assert(distinct(names)[front.len() as int] == n);
                    }
                }
            }
            if distinct(names).contains(n) {
                let k = choose|k: int| 0 <= k < distinct(names).len() && distinct(names)[k] == n;
                if k < front.len() {
                    assert(front[k] == n);
                    assert(front.contains(n));
                    assert(init.contains(n));
                    let i = choose|i: int| 0 <= i < init.len() && init[i] == n;
                    assert(names[i] == n);
                } else {
                    assert(n == names.last());
                    assert(names[names.len() - 1] == n);
                }
            }
        }
    }
}

/// A list without repetition is its own list of distinct names.
pub proof fn lemma_distinct_of_distinct(names: Seq<Seq<char>>)
    requires
        names.no_duplicates(),
    ensures
        distinct(names) == names,
    decreases names.len(),
{
    if names.len() > 0 {
        let init = names.drop_last();
        lemma_distinct_of_distinct(init);
        if init.contains(names.last()) {
            let i = choose|i: int| 0 <= i < init.len() && init[i] == names.last();
            assert(names[i] == names[names.len() - 1]);
        }
        assert(init.push(names.last()) =~= names);
    }
}

/// Repetitions in the second of two joined lists do not change the distinct
/// names of the whole.
pub proof fn lemma_distinct_concat(a: Seq<Seq<char>>, b: Seq<Seq<char>>)
    ensures
        distinct(a + distinct(b)) == distinct(a + b),
    decreases b.len(),
{
    if b.len() == 0 {
        assert(distinct(b) =~= b);
    } else {
        let init = b.drop_last();
        let x = b.last();
        lemma_distinct_concat(a, init);
        lemma_distinct(init);
        lemma_distinct(a + init);
        assert((a + b).drop_last() =~= a + init);
        assert((a + b).last() == x);
        if distinct(init).contains(x) {
            // x is among the names of a + init already
            assert(init.contains(x));
            let i = choose|i: int| 0 <= i < init.len() && init[i] == x;
            assert((a + init)[a.len() + i] == x);
            assert((a + init).contains(x));
        } else {
            let d = distinct(init);
            assert((a + d.push(x)).drop_last() =~= a + d);
            assert((a + d.push(x)).last() == x);
        }
    }
}

/// Repetitions in the first of two joined lists do not change the distinct
/// names of the whole.
pub proof fn lemma_distinct_prefix(a: Seq<Seq<char>>, b: Seq<Seq<char>>)
    ensures
        distinct(distinct(a) + b) == distinct(a + b),
    decreases b.len(),
{
    lemma_distinct(a);
    if b.len() == 0 {
        assert(distinct(a) + b =~= distinct(a));
        assert(a + b =~= a);
        lemma_distinct_of_distinct(distinct(a));
    } else {
        let init = b.drop_last();
        lemma_distinct_prefix(a, init);
        assert((distinct(a) + b).drop_last() =~= distinct(a) + init);
        assert((a + b).drop_last() =~= a + init);
    }
}

/// Repetitions in either of two joined lists do not change the distinct
/// names of the whole.
pub proof fn lemma_distinct_of_parts(a: Seq<Seq<char>>, b: Seq<Seq<char>>)
    ensures
        distinct(distinct(a) + distinct(b)) == distinct(a + b),
{
    lemma_distinct_concat(distinct(a), b);
    lemma_distinct_prefix(a, b);
}

/// What `last_position` finds is the last occurrence, and it finds one
/// whenever there is one.
pub proof fn lemma_last_position(names: Seq<Seq<char>>, name: Seq<char>)
    ensures
        match last_position(names, name) {
            Some(i) => {
                &&& 0 <= i < names.len()
                &&& names[i] == name
                &&& forall|j: int| i < j < names.len() ==> names[j] != name
            },
            None => !names.contains(name),
        },
    decreases names.len(),
{
    if names.len() > 0 {
        let init = names.drop_last();
        lemma_last_position(init, name);
        if names.last() != name {
            match last_position(init, name) {
                Some(i) => {
                    assert(names[i] == init[i]);
                    assert forall|j: int| i < j < names.len() implies names[j] != name by {
                        if j < init.len() {
                            assert(init[j] == names[j]);
                        }
                    }
                },
                None => {
                    if names.contains(name) {
                        let i = choose|i: int| 0 <= i < names.len() && names[i] == name;
                        assert(init[i] == name);
                    }
                },
            }
        }
    }
}

/// Names that a list without repetition holds already add nothing to it.
pub proof fn lemma_distinct_absorbs(a: Seq<Seq<char>>, b: Seq<Seq<char>>)
    requires
        a.no_duplicates(),
        forall|i: int| 0 <= i < b.len() ==> a.contains(#[trigger] b[i]),
    ensures
        distinct(a + b) == a,
    decreases b.len(),
{
    if b.len() == 0 {
        assert(a + b =~= a);
        lemma_distinct_of_distinct(a);
    } else {
        let init = b.drop_last();
        assert forall|i: int| 0 <= i < init.len() implies a.contains(#[trigger] init[i]) by {
            assert(init[i] == b[i]);
        }
        lemma_distinct_absorbs(a, init);
        assert((a + b).drop_last() =~= a + init);
        assert((a + b).last() == b[b.len() - 1]);
    }
}

/// A name that occurs at `i` and nowhere later has `i` as its last place.
pub proof fn lemma_last_position_is(names: Seq<Seq<char>>, name: Seq<char>, i: int)
    requires
        0 <= i < names.len(),
        names[i] == name,
        forall|j: int| i < j < names.len() ==> names[j] != name,
    ensures
        last_position(names, name) == Some(i),
{
    lemma_last_position(names, name);
}

/// A list of distinct names in which each name is looked up by comparing.
///
/// The place of a name in the table never changes once it has been given
/// out, so a place can stand for the name.
pub struct NameTable {
    names: Vec<String>,
}

impl View for NameTable {
    type V = Seq<Seq<char>>;

    closed spec fn view(&self) -> Seq<Seq<char>> {
        self.names.deep_view()
    }
}

impl NameTable {
    /// No name occurs twice.
    pub open spec fn wf(&self) -> bool {
        self@.no_duplicates()
    }

    /// The empty table.
    pub fn new() -> (table: NameTable)
        ensures
            table.wf(),
            table@ == Seq::<Seq<char>>::empty(),
    {
        let table = NameTable { names: Vec::new() };
        assert(table@ =~= Seq::<Seq<char>>::empty());
        table
    }

    /// The number of names.
    pub fn len(&self) -> (n: usize)
        ensures
            n == self@.len(),
    {
        self.names.len()
    }

    /// The name at place `i`.
    pub fn name(&self, i: usize) -> (name: &String)
        requires
            i < self@.len(),
        ensures
            name@ == self@[i as int],
    {
        &self.names[i]
    }

    /// The first place of `name`, if the table holds it.
    pub fn find(&self, name: &str) -> (place: Option<usize>)
        ensures
            match place {
                Some(i) => {
                    &&& i < self@.len()
                    &&& self@[i as int] == name@
                    &&& forall|j: int| 0 <= j < i ==> self@[j] != name@
                },
                None => !self@.contains(name@),
            },
    {
        let key = name.to_owned();
        let mut i: usize = 0;
        while i < self.names.len()
            invariant
                i <= self.names.len(),
                key@ == name@,
                forall|j: int| 0 <= j < i ==> self@[j] != name@,
            decreases self.names.len() - i,
        {
            if self.names[i] == key {
                return Some(i);
            }
            i += 1;
        }
        None
    }

    /// The place of `name`, which is added at the end if the table does not
    /// hold it yet. Asking twice for one name gives one place.
    pub fn intern(&mut self, name: &str) -> (place: usize)
        requires
            old(self).wf(),
        ensures
            final(self).wf(),
            final(self)@ == (if old(self)@.contains(name@) {
                old(self)@
            } else {
                old(self)@.push(name@)
            }),
            place < final(self)@.len(),
            final(self)@[place as int] == name@,
            !old(self)@.contains(name@) ==> place == old(self)@.len(),
    {
        match self.find(name) {
            Some(i) => i,
            None => {
                let place = self.names.len();
                self.names.push(name.to_owned());
                assert(self@ =~= old(self)@.push(name@));
                place
            },
        }
    }
}

/// An index over a list of names.
///
/// Names are appended one by one. The index answers, for a name, with the
/// last place at which it was appended: where a name is repeated, the later
/// entry wins. It also lists the distinct names in the order in which they
/// first came.
pub struct NameIndex {
    keys: NameTable,
    slots: Vec<usize>,
    appended: usize,
    source: Ghost<Seq<Seq<char>>>,
}

impl View for NameIndex {
    type V = Seq<Seq<char>>;

    /// The list of names that were appended.
    closed spec fn view(&self) -> Seq<Seq<char>> {
        self.source@
    }
}

impl NameIndex {
    /// The index agrees with the list that it stands for.
    pub closed spec fn wf(&self) -> bool {
        &&& self.keys.wf()
        &&& self.keys@ == distinct(self.source@)
        &&& self.appended == self.source@.len()
        &&& self.slots@.len() == self.keys@.len()
        &&& forall|k: int|
            0 <= k < self.keys@.len() ==> last_position(self.source@, #[trigger] self.keys@[k])
                == Some(self.slots@[k] as int)
    }

    /// The index of the empty list.
    pub fn new() -> (index: NameIndex)
        ensures
            index.wf(),
            index@ == Seq::<Seq<char>>::empty(),
    {
        NameIndex {
            keys: NameTable::new(),
            slots: Vec::new(),
            appended: 0,
            source: Ghost(Seq::empty()),
        }
    }

    /// Appends `name` to the indexed list.
    pub fn push(&mut self, name: &str)
        requires
            old(self).wf(),
            old(self)@.len() < usize::MAX,
        ensures
            final(self).wf(),
            final(self)@ == old(self)@.push(name@),
    {
        let ghost before = self.source@;
        let ghost after = before.push(name@);
        let at = self.appended;
        let k = self.keys.intern(name);
        if k < self.slots.len() {
            self.slots[k] = at;
        } else {
            self.slots.push(at);
        }
        self.appended = at + 1;
        self.source = Ghost(after);
        proof {
            assert(after.drop_last() =~= before);
            assert forall|j: int| 0 <= j < self.keys@.len() implies last_position(
                after,
                #[trigger] self.keys@[j],
            ) == Some(self.slots@[j] as int) by {
                if j != k {
                    assert(self.keys@[j] != name@);
                    assert(self.keys@[j] == old(self).keys@[j]);
                }
            }
        }
    }

    /// The number of distinct names.
    pub fn len(&self) -> (n: usize)
        requires
            self.wf(),
        ensures
            n == distinct(self@).len(),
    {
        self.keys.len()
    }

    /// The `k`-th distinct name, in the order of first occurrence.
    pub fn key(&self, k: usize) -> (name: &String)
        requires
            self.wf(),
            k < distinct(self@).len(),
        ensures
            name@ == distinct(self@)[k as int],
    {
        self.keys.name(k)
    }

    /// The last place in the list of the `k`-th distinct name.
    pub fn slot(&self, k: usize) -> (place: usize)
        requires
            self.wf(),
            k < distinct(self@).len(),
        ensures
            last_position(self@, distinct(self@)[k as int]) == Some(place as int),
            place < self@.len(),
    {
        proof {
            lemma_last_position(self@, distinct(self@)[k as int]);
        }
        self.slots[k]
    }

    /// The last place in the list at which `name` occurs.
    pub fn get(&self, name: &str) -> (place: Option<usize>)
        requires
            self.wf(),
        ensures
            match place {
                Some(i) => last_position(self@, name@) == Some(i as int),
                None => last_position(self@, name@) is None,
            },
    {
        proof {
            lemma_distinct(self@);
            lemma_last_position(self@, name@);
        }
        match self.keys.find(name) {
            Some(k) => Some(self.slots[k]),
            None => None,
        }
    }
}

} // verus!
