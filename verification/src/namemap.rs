//! Values by name, kept in the order of the names.

use crate::order::{
    key_less, key_of_text, lemma_key_irreflexive, lemma_key_total, lemma_key_transitive,
    lemma_text_key_injective, text_key, text_lt,
};
use crate::text::same;
use vstd::prelude::*;

verus! {

/// Values by name. A name has one value.
#[derive(Debug)]
pub struct NameMap<T> {
    entries: Vec<(String, T)>,
}

/// Do the entries stand in the order of their names, each name once?
pub open spec fn by_name<T>(entries: Seq<(Seq<char>, T)>) -> bool {
    forall|i: int, j: int|
        0 <= i < j < entries.len() ==> text_lt((#[trigger] entries[i]).0, (#[trigger] entries[j]).0)
}

/// Is there an entry of this name?
pub open spec fn has_name<T>(entries: Seq<(Seq<char>, T)>, name: Seq<char>) -> bool {
    exists|i: int| 0 <= i < entries.len() && (#[trigger] entries[i]).0 == name
}

/// The value of a name.
pub open spec fn value_of<T>(entries: Seq<(Seq<char>, T)>, name: Seq<char>) -> T {
    entries[choose|i: int| 0 <= i < entries.len() && (#[trigger] entries[i]).0 == name].1
}

/// The entries as a map.
pub open spec fn as_map<T>(entries: Seq<(Seq<char>, T)>) -> Map<Seq<char>, T> {
    Map::new(|name: Seq<char>| has_name(entries, name), |name: Seq<char>| value_of(entries, name))
}

/// Among entries in the order of their names, each is found by its name.
pub proof fn lemma_value_of<T>(entries: Seq<(Seq<char>, T)>, i: int)
    requires
        by_name(entries),
        0 <= i < entries.len(),
    ensures
        has_name(entries, entries[i].0),
        value_of(entries, entries[i].0) == entries[i].1,
        as_map(entries).dom().contains(entries[i].0),
        as_map(entries)[entries[i].0] == entries[i].1,
{
    let name = entries[i].0;
    assert(entries[i].0 == name);
    let j = choose|j: int| 0 <= j < entries.len() && (#[trigger] entries[j]).0 == name;
    lemma_key_irreflexive(text_key(name));
    if j < i {
        assert(text_lt(entries[j].0, entries[i].0));
    } else if i < j {
        assert(text_lt(entries[i].0, entries[j].0));
    }
}

/// Where a name belongs.
spec fn belongs<T>(entries: Seq<(Seq<char>, T)>, name: Seq<char>, at: int) -> bool {
    &&& 0 <= at <= entries.len()
    &&& forall|i: int| 0 <= i < at ==> text_lt((#[trigger] entries[i]).0, name)
    &&& forall|i: int| at <= i < entries.len() ==> !text_lt((#[trigger] entries[i]).0, name)
}

spec fn placed<T>(entries: Seq<(Seq<char>, T)>, e: (Seq<char>, T), at: int) -> Seq<(Seq<char>, T)> {
    if at < entries.len() && entries[at].0 == e.0 {
        entries.update(at, e)
    } else {
        entries.insert(at, e)
    }
}

proof fn lemma_placed<T>(entries: Seq<(Seq<char>, T)>, e: (Seq<char>, T), at: int)
    requires
        by_name(entries),
        belongs(entries, e.0, at),
    ensures
        by_name(placed(entries, e, at)),
        as_map(placed(entries, e, at)) == as_map(entries).insert(e.0, e.1),
{
    let found = at < entries.len() && entries[at].0 == e.0;
    let after = placed(entries, e, at);
    assert forall|i: int| at <= i < entries.len() && !(found && i == at) implies text_lt(
        e.0,
        (#[trigger] entries[i]).0,
    ) by {
        lemma_key_total(text_key(entries[i].0), text_key(e.0));
        if text_key(entries[i].0) == text_key(e.0) {
            lemma_text_key_injective(entries[i].0, e.0);
            if found {
                assert(text_lt(entries[at].0, entries[i].0));
                lemma_key_irreflexive(text_key(e.0));
            } else {
                assert(at < i);
                lemma_key_total(text_key(entries[at].0), text_key(e.0));
                assert(text_lt(entries[at].0, entries[i].0));
            }
        }
    }
    assert forall|x: int, y: int| 0 <= x < y < after.len() implies text_lt(
        (#[trigger] after[x]).0,
        (#[trigger] after[y]).0,
    ) by {
        if found {
            if x != at {
                assert(after[x] == entries[x]);
            }
            if y != at {
                assert(after[y] == entries[y]);
            }
            assert(text_lt(entries[x].0, entries[y].0));
        } else {
            let p = if x < at {
                x
            } else {
                x - 1
            };
            let q = if y < at {
                y
            } else {
                y - 1
            };
            if x != at {
                assert(after[x] == entries[p]);
            }
            if y != at {
                assert(after[y] == entries[q]);
            }
            if x != at && y != at {
                assert(text_lt(entries[p].0, entries[q].0));
            }
        }
    }
    let m = as_map(after);
    let n = as_map(entries).insert(e.0, e.1);
    assert(after[at] == e);
    lemma_value_of(after, at);
    assert forall|name: Seq<char>| #[trigger] m.dom().contains(name) implies n.dom().contains(name)
        && m[name] == n[name] by {
        let i = choose|i: int| 0 <= i < after.len() && (#[trigger] after[i]).0 == name;
        lemma_value_of(after, i);
        if i != at {
            let p = if found || i < at {
                i
            } else {
                i - 1
            };
            assert(after[i] == entries[p]);
            lemma_value_of(entries, p);
            lemma_key_irreflexive(text_key(name));
            if i < at {
                assert(text_lt(after[i].0, after[at].0));
            } else {
                assert(text_lt(after[at].0, after[i].0));
            }
        }
    }
    assert forall|name: Seq<char>| #[trigger] n.dom().contains(name) implies m.dom().contains(
        name,
    ) by {
        if name != e.0 {
            let i = choose|i: int| 0 <= i < entries.len() && (#[trigger] entries[i]).0 == name;
            let p = if found || i < at {
                i
            } else {
                i + 1
            };
            assert(after[p] == entries[i]);
            assert(after[p].0 == name);
        }
    }
    assert(m =~= n);
}

impl<T> NameMap<T> {
    /// The entries, in the order of their names.
    pub closed spec fn entries(&self) -> Seq<(Seq<char>, T)> {
        self.entries@.map_values(|e: (String, T)| (e.0@, e.1))
    }

    /// The entries stand in the order of their names, each name once.
    pub open spec fn wf(&self) -> bool {
        by_name(self.entries())
    }

    /// A map without names.
    pub fn new() -> (r: Self)
        ensures
            r.wf(),
            r.entries().len() == 0,
            as_map(r.entries()) == Map::<Seq<char>, T>::empty(),
    {
        let r = NameMap { entries: Vec::new() };
        assert(as_map(r.entries()) =~= Map::<Seq<char>, T>::empty());
        r
    }

    /// How many names there are.
    pub fn len(&self) -> (r: usize)
        ensures
            r == self.entries().len(),
    {
        self.entries.len()
    }

    /// The value at a place in the order of the names.
    pub fn at(&self, i: usize) -> (r: &T)
        requires
            i < self.entries().len(),
        ensures
            *r == self.entries()[i as int].1,
    {
        &self.entries[i].1
    }

    /// The name at a place in the order of the names.
    pub fn name_at(&self, i: usize) -> (r: &String)
        requires
            i < self.entries().len(),
        ensures
            r@ == self.entries()[i as int].0,
    {
        &self.entries[i].0
    }

    fn place(&self, name: &str) -> (r: usize)
        requires
            self.wf(),
        ensures
            belongs(self.entries(), name@, r as int),
    {
        let key = key_of_text(name);
        let mut i: usize = 0;
        while i < self.entries.len()
            invariant
                self.wf(),
                key@ == text_key(name@),
                i <= self.entries@.len(),
                forall|k: int| 0 <= k < i ==> text_lt((#[trigger] self.entries()[k]).0, name@),
            decreases self.entries@.len() - i,
        {
            assert(self.entries()[i as int].0 == self.entries@[i as int].0@);
            if !key_less(&key_of_text(&self.entries[i].0), &key) {
                assert forall|k: int| i <= k < self.entries().len() implies !text_lt(
                    (#[trigger] self.entries()[k]).0,
                    name@,
                ) by {
                    if i < k && text_lt(self.entries()[k].0, name@) {
                        assert(text_lt(self.entries()[i as int].0, self.entries()[k].0));
                        lemma_key_transitive(
                            text_key(self.entries()[i as int].0),
                            text_key(self.entries()[k].0),
                            text_key(name@),
                        );
                    }
                }
                return i;
            }
            i = i + 1;
        }
        i
    }

    /// Gives a name its value. The value it had gives way.
    pub fn insert(&mut self, name: &str, value: T)
        requires
            old(self).wf(),
        ensures
            final(self).wf(),
            as_map(final(self).entries()) == as_map(old(self).entries()).insert(name@, value),
    {
        let at = self.place(name);
        let ghost before = self.entries();
        let ghost e = (name@, value);
        proof {
            lemma_placed(before, e, at as int);
            if at < self.entries@.len() {
                assert(before[at as int].0 == self.entries@[at as int].0@);
            }
        }
        if at < self.entries.len() && same(&self.entries[at].0, name) {
            self.entries.set(at, (name.to_string(), value));
            assert(self.entries() =~= before.update(at as int, e));
        } else {
            self.entries.insert(at, (name.to_string(), value));
            assert(self.entries() =~= before.insert(at as int, e));
        }
    }

    /// The value of a name.
    pub fn get(&self, name: &str) -> (r: Option<&T>)
        requires
            self.wf(),
        ensures
            match r {
                Some(v) => has_name(self.entries(), name@) && *v == as_map(self.entries())[name@],
                None => !has_name(self.entries(), name@),
            },
    {
        let mut i: usize = 0;
        while i < self.entries.len()
            invariant
                self.wf(),
                i <= self.entries@.len(),
                forall|k: int| 0 <= k < i ==> (#[trigger] self.entries()[k]).0 != name@,
            decreases self.entries@.len() - i,
        {
            assert(self.entries()[i as int] == (
                self.entries@[i as int].0@,
                self.entries@[i as int].1,
            ));
            if same(&self.entries[i].0, name) {
                proof {
                    lemma_value_of(self.entries(), i as int);
                }
                return Some(&self.entries[i].1);
            }
            i = i + 1;
        }
        None
    }
}

} // verus!
