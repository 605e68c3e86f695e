//! Junction tables: which record is associated with which interned member.

use vstd::prelude::*;

verus! {

/// One junction row: the surrogate id of a record and the surrogate id of a member.
#[derive(Debug, Clone, Copy, PartialEq, Eq, Structural)]
pub struct Link {
    pub record: i64,
    pub member: i64,
}

/// What is left of `links` when the rows of `record` are taken out.
pub open spec fn without_record(links: Set<Link>, record: i64) -> Set<Link> {
    links.filter(|link: Link| link.record != record)
}

/// A junction table. Its pair of ids is its primary key: no row occurs twice.
#[derive(Default, Debug, Clone, PartialEq)]
pub struct LinkTable {
    rows: Vec<Link>,
}

impl View for LinkTable {
    type V = Set<Link>;

    closed spec fn view(&self) -> Set<Link> {
        self.rows@.to_set()
    }
}

impl LinkTable {
    /// A table without rows.
    pub fn new() -> (table: Self)
        ensures
            table@ == Set::<Link>::empty(),
    {
        let table = LinkTable { rows: Vec::new() };
        assert(table.rows@.to_set() =~= Set::empty());
        table
    }

    /// A copy of the table.
    pub fn snapshot(&self) -> (copy: Self)
        ensures
            copy@ == self@,
    {
        let mut rows: Vec<Link> = Vec::new();
        let mut i: usize = 0;
        while i < self.rows.len()
            invariant
                i <= self.rows.len(),
                rows@ == self.rows@.take(i as int),
            decreases self.rows.len() - i,
        {
            rows.push(self.rows[i]);
            i += 1;
        }
        assert(self.rows@.take(i as int) =~= self.rows@);
        LinkTable { rows }
    }

    /// Whether the table holds the row of `record` and `member`.
    pub fn contains(&self, record: i64, member: i64) -> (found: bool)
        ensures
            found == self@.contains(Link { record, member }),
    {
        let mut i: usize = 0;
        while i < self.rows.len()
            invariant
                i <= self.rows.len(),
                forall|k: int| 0 <= k < i ==> self.rows@[k] != (Link { record, member }),
            decreases self.rows.len() - i,
        {
            if self.rows[i].record == record && self.rows[i].member == member {
                assert(self.rows@[i as int] == Link { record, member });
                return true;
            }
            i += 1;
        }
        false
    }

    /// Adds the row of `record` and `member`. A row that the table holds already is a
    /// conflict on the primary key: nothing is added then, and `false` is returned.
    pub fn add(&mut self, record: i64, member: i64) -> (added: bool)
        ensures
            added == !old(self)@.contains(Link { record, member }),
            final(self)@ == if added {
                old(self)@.insert(Link { record, member })
            } else {
                old(self)@
            },
    {
        if self.contains(record, member) {
            false
        } else {
            self.rows.push(Link { record, member });
            proof {
                old(self).rows@.lemma_push_to_set_commute(Link { record, member });
            }
            true
        }
    }

    /// Removes the rows of `record`.
    pub fn clear(&mut self, record: i64)
        ensures
            final(self)@ == without_record(old(self)@, record),
    {
        let mut kept: Vec<Link> = Vec::new();
        let mut i: usize = 0;
        while i < self.rows.len()
            invariant
                i <= self.rows.len(),
                forall|link: Link|
                    kept@.contains(link) <==> self.rows@.take(i as int).contains(link)
                        && link.record != record,
            decreases self.rows.len() - i,
        {
            let row = self.rows[i];
            let ghost before = kept@;
            if row.record != record {
                kept.push(row);
            }
            proof {
                let seen = self.rows@.take(i as int);
                assert(self.rows@.take(i + 1) =~= seen.push(row));
                assert forall|link: Link|
                    kept@.contains(link) <==> seen.push(row).contains(link) && link.record
                        != record by {
                    vstd::seq_lib::lemma_seq_contains_after_push(seen, row, link);
                    vstd::seq_lib::lemma_seq_contains_after_push(before, row, link);
                    assert(before.contains(link) <==> seen.contains(link) && link.record != record);
                }
            }
            i += 1;
        }
        assert(self.rows@.take(i as int) =~= self.rows@);
        assert(kept@.to_set() =~= without_record(self.rows@.to_set(), record));
        self.rows = kept;
    }
}

} // verus!
