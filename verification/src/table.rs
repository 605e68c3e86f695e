//! Intern tables: each distinct value is held once and is known by a surrogate id.

use vstd::prelude::*;

verus! {

/// The most rows a table can hold: surrogate ids are positive 64-bit signed integers.
pub const CAPACITY: u64 = 0x7fff_ffff_ffff_ffff;

/// Values that can be interned: they can be compared, and equal means equal as
/// mathematical values.
pub trait Value: DeepView + Sized {
    fn same(&self, other: &Self) -> (same: bool)
        ensures
            same == (self.deep_view() == other.deep_view()),
    ;

    fn copy(&self) -> (copy: Self)
        ensures
            copy.deep_view() == self.deep_view(),
    ;
}

impl Value for String {
    fn same(&self, other: &Self) -> (same: bool) {
        *self == *other
    }

    fn copy(&self) -> (copy: Self) {
        self.clone()
    }
}

/// Three texts that are interned as one value.
#[derive(Default, Debug, Clone, PartialEq)]
pub struct Triple {
    pub first: String,
    pub second: String,
    pub third: String,
}

impl DeepView for Triple {
    type V = (Seq<char>, Seq<char>, Seq<char>);

    open spec fn deep_view(&self) -> (Seq<char>, Seq<char>, Seq<char>) {
        (self.first@, self.second@, self.third@)
    }
}

impl Value for Triple {
    fn same(&self, other: &Self) -> (same: bool) {
        self.first == other.first && self.second == other.second && self.third == other.third
    }

    fn copy(&self) -> (copy: Self) {
        Triple {
            first: self.first.clone(),
            second: self.second.clone(),
            third: self.third.clone(),
        }
    }
}

/// Where `value` stands in `rows`.
pub open spec fn position<A>(rows: Seq<A>, value: A) -> int {
    choose|i: int| 0 <= i < rows.len() && rows[i] == value
}

/// An intern table as a mathematical value: its rows in the order in which they came. The
/// row at position `i` has the surrogate id `i + 1`.
pub open spec fn well_formed<A>(rows: Seq<A>) -> bool {
    &&& rows.no_duplicates()
    &&& rows.len() <= CAPACITY
}

/// The surrogate id under which `rows` holds `value`, where it holds it.
pub open spec fn id_of<A>(rows: Seq<A>, value: A) -> int {
    position(rows, value) + 1
}

/// Interning `value` in `rows`: the rows afterwards, and the id of the value. A value that
/// is held already keeps its row and id; a new one is added at the end; a full table takes
/// no new value and yields no id.
pub open spec fn interned<A>(rows: Seq<A>, value: A) -> (Seq<A>, Option<int>) {
    if rows.contains(value) {
        (rows, Some(id_of(rows, value)))
    } else if rows.len() < CAPACITY {
        (rows.push(value), Some(rows.len() as int + 1))
    } else {
        (rows, None)
    }
}

/// An intern table. Rows are never changed or removed.
#[derive(Default, Debug, Clone, PartialEq)]
pub struct InternTable<T> {
    rows: Vec<T>,
}

impl<T: Value> DeepView for InternTable<T> {
    type V = Seq<T::V>;

    closed spec fn deep_view(&self) -> Seq<T::V> {
        self.rows.deep_view()
    }
}

impl<T: Value> InternTable<T> {
    /// Whether no value is held twice and every row has an id.
    pub open spec fn wf(&self) -> bool {
        well_formed(self.deep_view())
    }

    /// A table without rows.
    pub fn new() -> (table: Self)
        ensures
            table.deep_view() == Seq::<T::V>::empty(),
            table.wf(),
    {
        let table = InternTable { rows: Vec::new() };
        assert(table.rows.deep_view() =~= Seq::empty());
        table
    }

    /// The number of rows.
    pub fn len(&self) -> (n: usize)
        ensures
            n == self.deep_view().len(),
    {
        self.rows.len()
    }

    /// The id under which the table holds `value`, if it holds it.
    pub fn find(&self, value: &T) -> (id: Option<i64>)
        requires
            self.wf(),
        ensures
            match id {
                Some(id) => self.deep_view().contains(value.deep_view()) && id == id_of(
                    self.deep_view(),
                    value.deep_view(),
                ),
                None => !self.deep_view().contains(value.deep_view()),
            },
    {
        let mut i: usize = 0;
        while i < self.rows.len()
            invariant
                i <= self.rows.len(),
                self.wf(),
                forall|k: int| 0 <= k < i ==> self.deep_view()[k] != value.deep_view(),
            decreases self.rows.len() - i,
        {
            if self.rows[i].same(value) {
                assert(self.deep_view()[i as int] == value.deep_view());
                return Some((i + 1) as i64);
            }
            i += 1;
        }
        None
    }

    /// A copy of the table.
    pub fn snapshot(&self) -> (copy: Self)
        ensures
            copy.deep_view() == self.deep_view(),
    {
        let mut rows: Vec<T> = Vec::new();
        let mut i: usize = 0;
        assert(rows.deep_view() =~= self.rows.deep_view().take(0));
        while i < self.rows.len()
            invariant
                i <= self.rows.len(),
                rows.deep_view() == self.rows.deep_view().take(i as int),
            decreases self.rows.len() - i,
        {
            let ghost before = rows.deep_view();
            rows.push(self.rows[i].copy());
            assert(rows.deep_view() =~= before.push(self.rows.deep_view()[i as int]));
            assert(self.rows.deep_view().take(i + 1) =~= self.rows.deep_view().take(
                i as int,
            ).push(self.rows.deep_view()[i as int]));
            i += 1;
        }
        assert(self.rows.deep_view().take(i as int) =~= self.rows.deep_view());
        InternTable { rows }
    }

    /// The value of the row with the surrogate id `id`.
    pub fn get(&self, id: i64) -> (value: Option<&T>)
        ensures
            match value {
                Some(value) => 1 <= id <= self.deep_view().len() && value.deep_view()
                    == self.deep_view()[id - 1],
                None => !(1 <= id <= self.deep_view().len()),
            },
    {
        if 1 <= id && (id as u64) <= self.rows.len() as u64 {
            Some(&self.rows[(id - 1) as usize])
        } else {
            None
        }
    }

    /// Interns `value`: returns its id, adding a row for it first if the table does not hold
    /// it. A full table takes no new value.
    pub fn intern(&mut self, value: T) -> (id: Option<i64>)
        requires
            old(self).wf(),
        ensures
            final(self).wf(),
            final(self).deep_view() == interned(old(self).deep_view(), value.deep_view()).0,
            match id {
                Some(id) => interned(old(self).deep_view(), value.deep_view()).1 == Some(
                    id as int,
                ),
                None => interned(old(self).deep_view(), value.deep_view()).1 is None,
            },
    {
        match self.find(&value) {
            Some(id) => Some(id),
            None => {
                if (self.rows.len() as u64) < CAPACITY {
                    let ghost model = value.deep_view();
                    self.rows.push(value);
                    assert(self.rows.deep_view() =~= old(self).rows.deep_view().push(model));
                    Some(self.rows.len() as i64)
                } else {
                    None
                }
            },
        }
    }
}

/// Whether `after` holds the rows of `before`, each at its place, and possibly more behind
/// them.
pub open spec fn extends<A>(after: Seq<A>, before: Seq<A>) -> bool {
    &&& before.len() <= after.len()
    &&& forall|i: int| 0 <= i < before.len() ==> after[i] == before[i]
}

/// Interning never changes or removes a row: the table afterwards extends the table
/// before and is well formed as it was. The id that is returned is that of a row that
/// holds the value. No id is returned only where the value is new and the table is full,
/// and then the table is unchanged.
pub proof fn interning_extends<A>(rows: Seq<A>, value: A)
    requires
        well_formed(rows),
    ensures
        well_formed(interned(rows, value).0),
        extends(interned(rows, value).0, rows),
        interned(rows, value).1 matches Some(id) ==> 1 <= id <= interned(rows, value).0.len()
            && interned(rows, value).0[id - 1] == value,
        interned(rows, value).1 is None ==> interned(rows, value).0 == rows && !rows.contains(
            value,
        ) && rows.len() >= CAPACITY,
{
    if !rows.contains(value) && rows.len() < CAPACITY {
        let after = rows.push(value);
        assert forall|i: int, j: int|
            0 <= i < after.len() && 0 <= j < after.len() && i != j implies after[i]
            != after[j] by {
            if i < rows.len() && j < rows.len() {
                assert(rows[i] != rows[j]);
            } else if i < rows.len() {
                assert(rows[i] != value);
            } else {
                assert(rows[j] != value);
            }
        }
    }
}

/// A value that a well-formed table holds is found under the id of its row, and interning
/// it changes nothing.
pub proof fn interning_again<A>(rows: Seq<A>, value: A, id: int)
    requires
        well_formed(rows),
        1 <= id <= rows.len(),
        rows[id - 1] == value,
    ensures
        interned(rows, value) == (rows, Some(id)),
{
    assert(rows.contains(value));
    let at = position(rows, value);
    if at != id - 1 {
        assert(rows[at] == rows[id - 1]);
    }
}

} // verus!
