//! The table of advisory rows, one per natural id.

use crate::nvd::Score;
use crate::table::{position, well_formed, CAPACITY};
use crate::timestamp::Timestamp;
use vstd::prelude::*;

verus! {

/// The scalar fields of one advisory as they are stored, with the surrogate ids of its
/// access and impact values.
#[derive(Default, Debug, Clone, PartialEq)]
pub struct RecordRow {
    pub modified: Timestamp,
    pub published: Timestamp,
    pub access_id: i64,
    pub assigner: String,
    pub cvss: Option<Score>,
    pub cvss_time: Option<Timestamp>,
    pub cvss_vector: Option<String>,
    pub cwe: String,
    /// The natural id of the advisory, the key of the table.
    pub cve_id: String,
    pub impact_id: i64,
    pub last_modified: Timestamp,
    pub summary: String,
}

/// A [`RecordRow`] as a mathematical value.
pub struct RecordView {
    pub modified: Timestamp,
    pub published: Timestamp,
    pub access_id: i64,
    pub assigner: Seq<char>,
    pub cvss: Option<Score>,
    pub cvss_time: Option<Timestamp>,
    pub cvss_vector: Option<Seq<char>>,
    pub cwe: Seq<char>,
    pub cve_id: Seq<char>,
    pub impact_id: i64,
    pub last_modified: Timestamp,
    pub summary: Seq<char>,
}

impl DeepView for RecordRow {
    type V = RecordView;

    open spec fn deep_view(&self) -> RecordView {
        RecordView {
            modified: self.modified,
            published: self.published,
            access_id: self.access_id,
            assigner: self.assigner@,
            cvss: self.cvss,
            cvss_time: self.cvss_time,
            cvss_vector: self.cvss_vector.deep_view(),
            cwe: self.cwe@,
            cve_id: self.cve_id@,
            impact_id: self.impact_id,
            last_modified: self.last_modified,
            summary: self.summary@,
        }
    }
}

impl RecordRow {
    /// A copy of the row.
    pub fn copy(&self) -> (copy: Self)
        ensures
            copy.deep_view() == self.deep_view(),
    {
        RecordRow {
            modified: self.modified,
            published: self.published,
            access_id: self.access_id,
            assigner: self.assigner.clone(),
            cvss: self.cvss,
            cvss_time: self.cvss_time,
            cvss_vector: match &self.cvss_vector {
                Some(text) => Some(text.clone()),
                None => None,
            },
            cwe: self.cwe.clone(),
            cve_id: self.cve_id.clone(),
            impact_id: self.impact_id,
            last_modified: self.last_modified,
            summary: self.summary.clone(),
        }
    }
}

/// The natural ids of the rows, in their order.
pub open spec fn keys(rows: Seq<RecordView>) -> Seq<Seq<char>> {
    rows.map_values(|row: RecordView| row.cve_id)
}

/// Writing `row` into `rows`: the rows afterwards, and the surrogate id of the row. Where
/// a row with the natural id of `row` exists, it is overwritten in place and keeps its
/// surrogate id; else `row` is added at the end. A full table takes no new row and yields
/// no id. The row at position `i` has the surrogate id `i + 1`.
pub open spec fn upserted(rows: Seq<RecordView>, row: RecordView) -> (Seq<RecordView>, Option<int>) {
    if keys(rows).contains(row.cve_id) {
        let at = position(keys(rows), row.cve_id);
        (rows.update(at, row), Some(at + 1))
    } else if rows.len() < CAPACITY {
        (rows.push(row), Some(rows.len() as int + 1))
    } else {
        (rows, None)
    }
}

/// The table of advisory rows. No two rows have the same natural id, and no row is ever
/// removed.
#[derive(Default, Debug, Clone, PartialEq)]
pub struct RecordTable {
    rows: Vec<RecordRow>,
}

impl DeepView for RecordTable {
    type V = Seq<RecordView>;

    closed spec fn deep_view(&self) -> Seq<RecordView> {
        self.rows.deep_view()
    }
}

impl RecordTable {
    /// Whether no natural id occurs twice and every row has a surrogate id.
    pub open spec fn wf(&self) -> bool {
        well_formed(keys(self.deep_view()))
    }

    /// A table without rows.
    pub fn new() -> (table: Self)
        ensures
            table.deep_view() == Seq::<RecordView>::empty(),
            table.wf(),
    {
        let table = RecordTable { rows: Vec::new() };
        assert(table.rows.deep_view() =~= Seq::empty());
        assert(keys(table.rows.deep_view()) =~= Seq::empty());
        table
    }

    /// The number of rows.
    pub fn len(&self) -> (n: usize)
        ensures
            n == self.deep_view().len(),
    {
        self.rows.len()
    }

    /// A copy of the table.
    pub fn snapshot(&self) -> (copy: Self)
        ensures
            copy.deep_view() == self.deep_view(),
    {
        let mut rows: Vec<RecordRow> = Vec::new();
        let mut i: usize = 0;
        assert(rows.deep_view() =~= self.rows.deep_view().take(0));
        while i < self.rows.len()
            invariant
                i <= self.rows.len(),
                rows.deep_view() == self.rows.deep_view().take(i as int),
            decreases self.rows.len() - i,
        {
            let ghost before = rows.deep_view();
            rows.push(self.rows[i].copy());
            assert(rows.deep_view() =~= before.push(self.rows.deep_view()[i as int]));
            assert(self.rows.deep_view().take(i + 1) =~= self.rows.deep_view().take(
                i as int,
            ).push(self.rows.deep_view()[i as int]));
            i += 1;
        }
        assert(self.rows.deep_view().take(i as int) =~= self.rows.deep_view());
        RecordTable { rows }
    }

    /// The surrogate id of the row with the natural id `cve_id`, if there is one.
    pub fn find(&self, cve_id: &String) -> (id: Option<i64>)
        requires
            self.wf(),
        ensures
            match id {
                Some(id) => keys(self.deep_view()).contains(cve_id@) && id == position(
                    keys(self.deep_view()),
                    cve_id@,
                ) + 1,
                None => !keys(self.deep_view()).contains(cve_id@),
            },
    {
        let mut i: usize = 0;
        while i < self.rows.len()
            invariant
                i <= self.rows.len(),
                self.wf(),
                forall|k: int| 0 <= k < i ==> keys(self.deep_view())[k] != cve_id@,
            decreases self.rows.len() - i,
        {
            if self.rows[i].cve_id == *cve_id {
                assert(keys(self.deep_view())[i as int] == cve_id@);
                return Some((i + 1) as i64);
            }
            i += 1;
        }
        None
    }

    /// The row with the surrogate id `id`.
    pub fn get(&self, id: i64) -> (row: Option<&RecordRow>)
        ensures
            match row {
                Some(row) => 1 <= id <= self.deep_view().len() && row.deep_view()
                    == self.deep_view()[id - 1],
                None => !(1 <= id <= self.deep_view().len()),
            },
    {
        if 1 <= id && (id as u64) <= self.rows.len() as u64 {
            Some(&self.rows[(id - 1) as usize])
        } else {
            None
        }
    }

    /// Writes `row`: over the row with the same natural id where there is one, else as a
    /// new row. Returns the surrogate id of the row; a full table takes no new row.
    pub fn upsert(&mut self, row: RecordRow) -> (id: Option<i64>)
        requires
            old(self).wf(),
        ensures
            final(self).wf(),
            final(self).deep_view() == upserted(old(self).deep_view(), row.deep_view()).0,
            match id {
                Some(id) => upserted(old(self).deep_view(), row.deep_view()).1 == Some(id as int),
                None => upserted(old(self).deep_view(), row.deep_view()).1 is None,
            },
    {
        let ghost model = row.deep_view();
        let ghost before = self.deep_view();
        match self.find(&row.cve_id) {
            Some(id) => {
                self.rows.set((id - 1) as usize, row);
                proof {
                    assert(self.rows.deep_view() =~= before.update(id - 1, model));
                    assert(keys(before.update(id - 1, model)) =~= keys(before));
                }
                Some(id)
            },
            None => {
                if (self.rows.len() as u64) < CAPACITY {
                    self.rows.push(row);
                    proof {
                        assert(self.rows.deep_view() =~= before.push(model));
                        assert(keys(before.push(model)) =~= keys(before).push(model.cve_id));
                        assert forall|i: int, j: int|
                            0 <= i < before.len() + 1 && 0 <= j < before.len() + 1 && i
                                != j implies keys(before).push(model.cve_id)[i] != keys(
                            before,
                        ).push(model.cve_id)[j] by {
                            if i < before.len() && j < before.len() {
                                assert(keys(before)[i] != keys(before)[j]);
                            } else if i < before.len() {
                                assert(keys(before)[i] != model.cve_id);
                            } else {
                                assert(keys(before)[j] != model.cve_id);
                            }
                        }
                    }
                    Some(self.rows.len() as i64)
                } else {
                    None
                }
            },
        }
    }
}

/// Writing a row keeps every other row, with its surrogate id, and keeps the table well
/// formed. The id that is returned is that of a row that now holds exactly what was
/// written. No id is returned only where the natural id is new and the table is full, and
/// then the table is unchanged.
pub proof fn upsert_writes(rows: Seq<RecordView>, row: RecordView)
    requires
        well_formed(keys(rows)),
    ensures
        well_formed(keys(upserted(rows, row).0)),
        rows.len() <= upserted(rows, row).0.len(),
        forall|i: int|
            0 <= i < rows.len() && rows[i].cve_id != row.cve_id ==> upserted(rows, row).0[i]
                == rows[i],
        upserted(rows, row).1 matches Some(id) ==> 1 <= id <= upserted(rows, row).0.len()
            && upserted(rows, row).0[id - 1] == row,
        upserted(rows, row).1 is None ==> upserted(rows, row).0 == rows && rows.len() >= CAPACITY,
{
    if keys(rows).contains(row.cve_id) {
        let at = position(keys(rows), row.cve_id);
        assert(keys(rows.update(at, row)) =~= keys(rows));
    } else if rows.len() < CAPACITY {
        let after = keys(rows).push(row.cve_id);
        assert(keys(rows.push(row)) =~= after);
        assert forall|i: int, j: int|
            0 <= i < after.len() && 0 <= j < after.len() && i != j implies after[i]
            != after[j] by {
            if i < rows.len() && j < rows.len() {
                assert(keys(rows)[i] != keys(rows)[j]);
            } else if i < rows.len() {
                assert(keys(rows)[i] != row.cve_id);
            } else {
                assert(keys(rows)[j] != row.cve_id);
            }
        }
    }
}

/// Writing the same row a second time changes nothing and returns the same id.
pub proof fn upsert_again(rows: Seq<RecordView>, row: RecordView)
    requires
        well_formed(keys(rows)),
    ensures
        upserted(upserted(rows, row).0, row) == upserted(rows, row),
{
    upsert_writes(rows, row);
    let (after, id) = upserted(rows, row);
    match id {
        Some(id) => {
            assert(keys(after)[id - 1] == row.cve_id);
            assert(keys(after).contains(row.cve_id));
            let at = position(keys(after), row.cve_id);
            if at != id - 1 {
                assert(keys(after)[at] == keys(after)[id - 1]);
            }
            assert(after.update(at, row) =~= after);
        },
        None => {},
    }
}

} // verus!
