//! An insertion-ordered table of values under text keys.
//!
//! The inventory of an account is kept in such tables: a value stored under a
//! key that is already present takes the place of the old one, and a new key
//! goes to the end. A hash index finds the position of a key.
use vstd::hash_map::StringHashMap;
use vstd::prelude::*;

verus! {

/// The rows of a table, in the order in which their keys first came.
pub type Rows<V> = Seq<(Seq<char>, V)>;

/// Some row of `rows` has the key `key`.
pub open spec fn has_key<V>(rows: Rows<V>, key: Seq<char>) -> bool {
    exists|i: int| 0 <= i < rows.len() && #[trigger] rows[i].0 == key
}

/// The position of a row with the key `key`, where there is one.
pub open spec fn position<V>(rows: Rows<V>, key: Seq<char>) -> int {
    choose|i: int| 0 <= i < rows.len() && #[trigger] rows[i].0 == key
}

/// The value stored under `key`.
pub open spec fn lookup<V>(rows: Rows<V>, key: Seq<char>) -> Option<V> {
    if has_key(rows, key) {
        Some(rows[position(rows, key)].1)
    } else {
        None
    }
}

/// `rows` after `value` was stored under `key`.
pub open spec fn put<V>(rows: Rows<V>, key: Seq<char>, value: V) -> Rows<V> {
    if has_key(rows, key) {
        rows.update(position(rows, key), (key, value))
    } else {
        rows.push((key, value))
    }
}

/// No key occurs twice.
pub open spec fn distinct_keys<V>(rows: Rows<V>) -> bool {
    forall|i: int, j: int|
        0 <= i < rows.len() && 0 <= j < rows.len() && #[trigger] rows[i].0 == #[trigger] rows[j].0
            ==> i == j
}

/// A value that knows the key under which it is stored. A value without a key
/// is not stored at all.
pub trait Identified: Sized {
    spec fn spec_key(self) -> Option<Seq<char>>;

    fn key(&self) -> (key: Option<String>)
        ensures
            key is Some == self.spec_key() is Some,
            key is Some ==> key->0@ == self.spec_key()->0,
    ;
}

/// `rows` after each of `items` that has a key was stored, in order.
pub open spec fn put_all<V: Identified>(rows: Rows<V>, items: Seq<V>) -> Rows<V>
    decreases items.len(),
{
    if items.len() == 0 {
        rows
    } else {
        let earlier = put_all(rows, items.drop_last());
        match items.last().spec_key() {
            Some(key) => put(earlier, key, items.last()),
            None => earlier,
        }
    }
}

#[verifier::reject_recursive_types(V)]
struct Index<V> {
    rows: Vec<(String, V)>,
    positions: StringHashMap<usize>,
}

impl<V> Index<V> {
    spec fn view(&self) -> Rows<V> {
        Seq::new(self.rows@.len(), |i: int| (self.rows@[i].0@, self.rows@[i].1))
    }

    spec fn well_formed(&self) -> bool {
        &&& forall|i: int|
            0 <= i < self.rows@.len() ==> self.positions@.contains_key(#[trigger] self.rows@[i].0@)
                && self.positions@[self.rows@[i].0@] == i
        &&& forall|key: Seq<char>| #[trigger]
            self.positions@.contains_key(key) ==> self.positions@[key] < self.rows@.len()
                && self.rows@[self.positions@[key] as int].0@ == key
    }

    proof fn lemma_key(&self, key: Seq<char>)
        requires
            self.well_formed(),
        ensures
            distinct_keys(self.view()),
            has_key(self.view(), key) == self.positions@.contains_key(key),
            has_key(self.view(), key) ==> position(self.view(), key) == self.positions@[key],
    {
        let rows = self.view();
        if has_key(rows, key) {
            let i = position(rows, key);
            assert(self.rows@[i].0@ == key);
        }
        if self.positions@.contains_key(key) {
            let i = self.positions@[key] as int;
            assert(rows[i].0 == key);
        }
        assert forall|i: int, j: int|
            0 <= i < rows.len() && 0 <= j < rows.len() && #[trigger] rows[i].0
                == #[trigger] rows[j].0 implies i == j by {
            assert(self.positions@[self.rows@[i].0@] == i);
            assert(self.positions@[self.rows@[j].0@] == j);
        }
    }

    fn insert(&mut self, key: String, value: V)
        requires
            old(self).well_formed(),
        ensures
            final(self).well_formed(),
            final(self).view() == put(old(self).view(), key@, value),
    {
        proof {
            self.lemma_key(key@);
        }
        let found: Option<usize> = match self.positions.get(key.as_str()) {
            Some(at) => Some(*at),
            None => None,
        };
        match found {
            Some(at) => {
                self.rows.set(at, (key, value));
            },
            None => {
                self.positions.insert(key.clone(), self.rows.len());
                self.rows.push((key, value));
            },
        }
        assert(self.view() =~= put(old(self).view(), key@, value));
    }
}

/// An insertion-ordered table of values under text keys. Its keys are distinct.
#[verifier::reject_recursive_types(V)]
pub struct Table<V> {
    index: Index<V>,
}

impl<V> View for Table<V> {
    type V = Rows<V>;

    closed spec fn view(&self) -> Rows<V> {
        self.index.view()
    }
}

impl<V> Table<V> {
    #[verifier::type_invariant]
    spec fn well_formed(&self) -> bool {
        self.index.well_formed()
    }

    /// The empty table.
    pub fn new() -> (table: Self)
        ensures
            table@ == Rows::<V>::empty(),
    {
        let index = Index { rows: Vec::new(), positions: StringHashMap::new() };
        assert(index.view() =~= Rows::<V>::empty());
        Table { index }
    }

    /// The number of rows, whose keys are distinct.
    pub fn len(&self) -> (len: usize)
        ensures
            len == self@.len(),
            distinct_keys(self@),
    {
        proof {
            use_type_invariant(self);
            self.index.lemma_key(Seq::empty());
        }
        self.index.rows.len()
    }

    /// Stores `value` under `key`, in place of the value that was there.
    pub fn insert(&mut self, key: String, value: V)
        ensures
            final(self)@ == put(old(self)@, key@, value),
    {
        proof {
            use_type_invariant(&*self);
        }
        let mut index = Index { rows: Vec::new(), positions: StringHashMap::new() };
        std::mem::swap(&mut index, &mut self.index);
        index.insert(key, value);
        self.index = index;
    }

    /// The value stored under `key`.
    pub fn get(&self, key: &str) -> (value: Option<&V>)
        ensures
            value is Some == has_key(self@, key@),
            value is Some ==> Some(*value->0) == lookup(self@, key@),
    {
        proof {
            use_type_invariant(self);
            self.index.lemma_key(key@);
        }
        match self.index.positions.get(key) {
            Some(at) => Some(&self.index.rows[*at].1),
            None => None,
        }
    }

    /// The key and the value of the row at `at`.
    pub fn row(&self, at: usize) -> (row: (&String, &V))
        requires
            at < self@.len(),
        ensures
            row.0@ == self@[at as int].0,
            *row.1 == self@[at as int].1,
    {
        let row = &self.index.rows[at];
        (&row.0, &row.1)
    }
}

impl<V: Identified> Table<V> {
    /// Stores each of `items` under its own key, in order, and leaves out the
    /// items that have none.
    pub fn insert_all(&mut self, items: Vec<V>)
        ensures
            final(self)@ == put_all(old(self)@, items@),
    {
        let ghost before = self@;
        let ghost all = items@;
        assert(all.take(0) =~= Seq::empty());
        for item in it: items
            invariant
                it.seq() == all,
                self@ == put_all(before, all.take(it.index())),
        {
            proof {
                let upto = all.take(it.index() + 1);
                assert(upto.drop_last() =~= all.take(it.index()));
                assert(upto.last() == item);
            }
            match item.key() {
                Some(key) => self.insert(key, item),
                None => {},
            }
        }
        assert(all.take(all.len() as int) =~= all);
    }
}

} // verus!
