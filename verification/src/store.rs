//! The relational store as a value: its tables, and what each statement does to them.

use crate::links::{without_record, Link, LinkTable};
use crate::records::{keys, upsert_writes, upserted, RecordRow, RecordTable, RecordView};
use crate::statement::{reply_of, Collection, Reply, Statement, StatementView};
use crate::table::{
    id_of, interned, interning_extends, well_formed, InternTable, Triple, CAPACITY,
};
use vstd::prelude::*;

verus! {

/// The two tables of one collection as mathematical values.
#[verifier::ext_equal]
pub struct CollectionView {
    /// The interned member values. The value at position `i` has the id `i + 1`.
    pub values: Seq<Seq<char>>,
    /// The junction rows.
    pub links: Set<Link>,
}

/// The contents of the store as a mathematical value. In each table the row at position
/// `i` has the surrogate id `i + 1`.
#[verifier::ext_equal]
pub struct StoreView {
    pub accesses: Seq<(Seq<char>, Seq<char>, Seq<char>)>,
    pub impacts: Seq<(Seq<char>, Seq<char>, Seq<char>)>,
    pub records: Seq<RecordView>,
    pub references: CollectionView,
    pub configurations: CollectionView,
    pub configurations_cpe22: CollectionView,
    pub products: CollectionView,
}

impl StoreView {
    /// The two tables of `collection`.
    pub open spec fn collection(self, collection: Collection) -> CollectionView {
        match collection {
            Collection::References => self.references,
            Collection::Configurations => self.configurations,
            Collection::ConfigurationsCpe22 => self.configurations_cpe22,
            Collection::Products => self.products,
        }
    }

    /// The store with the two tables of `collection` replaced by `tables`.
    pub open spec fn with_collection(self, collection: Collection, tables: CollectionView) -> StoreView {
        match collection {
            Collection::References => StoreView { references: tables, ..self },
            Collection::Configurations => StoreView { configurations: tables, ..self },
            Collection::ConfigurationsCpe22 => StoreView { configurations_cpe22: tables, ..self },
            Collection::Products => StoreView { products: tables, ..self },
        }
    }

    /// Whether every unique constraint holds: no intern table holds a value twice, no two
    /// advisory rows have the same natural id, and every row has a surrogate id.
    pub open spec fn wf(self) -> bool {
        &&& well_formed(self.accesses)
        &&& well_formed(self.impacts)
        &&& well_formed(keys(self.records))
        &&& well_formed(self.references.values)
        &&& well_formed(self.configurations.values)
        &&& well_formed(self.configurations_cpe22.values)
        &&& well_formed(self.products.values)
    }
}

/// Whether `id` is the surrogate id of one of `rows` rows.
pub open spec fn is_id(id: i64, rows: nat) -> bool {
    1 <= id <= rows
}

/// The tables of a collection after a member value was interned, and the answer.
pub open spec fn member_interned(tables: CollectionView, value: Seq<char>) -> (
    CollectionView,
    Reply,
) {
    let (rows, id) = interned(tables.values, value);
    (CollectionView { values: rows, ..tables }, reply_of(id))
}

/// The tables of a collection after the junction rows of `record` were deleted.
pub open spec fn record_unlinked(tables: CollectionView, record: i64) -> CollectionView {
    CollectionView { links: without_record(tables.links, record), ..tables }
}

/// The tables of a collection after the junction row of `record` and `member` was
/// inserted, and the answer. The statement fails, and changes nothing, unless `record` is
/// the id of one of the `records` advisory rows, `member` is the id of a member value, and
/// the junction row does not exist yet.
pub open spec fn member_linked(tables: CollectionView, records: nat, record: i64, member: i64) -> (
    CollectionView,
    Reply,
) {
    if is_id(record, records) && is_id(member, tables.values.len()) && !tables.links.contains(
        Link { record, member },
    ) {
        (
            CollectionView { links: tables.links.insert(Link { record, member }), ..tables },
            Reply::Done,
        )
    } else {
        (tables, Reply::Failed)
    }
}

/// What a statement does to the store, and what the store answers.
///
/// Interning and writing an advisory row insert, or on a conflict with the unique
/// constraint keep the existing row's id. An advisory row must refer to existing access
/// and impact rows, and a junction row to an existing advisory row and member. A junction
/// row that exists already is a conflict on the primary key. A failed statement changes
/// nothing.
pub open spec fn executed(store: StoreView, statement: StatementView) -> (StoreView, Reply) {
    match statement {
        StatementView::InternAccess { access } => {
            let (rows, id) = interned(store.accesses, access);
            (StoreView { accesses: rows, ..store }, reply_of(id))
        },
        StatementView::InternImpact { impact } => {
            let (rows, id) = interned(store.impacts, impact);
            (StoreView { impacts: rows, ..store }, reply_of(id))
        },
        StatementView::UpsertRecord { row } => {
            if is_id(row.access_id, store.accesses.len()) && is_id(
                row.impact_id,
                store.impacts.len(),
            ) {
                let (rows, id) = upserted(store.records, row);
                (StoreView { records: rows, ..store }, reply_of(id))
            } else {
                (store, Reply::Failed)
            }
        },
        StatementView::ClearLinks { collection, record } => (
            store.with_collection(
                collection,
                record_unlinked(store.collection(collection), record),
            ),
            Reply::Done,
        ),
        StatementView::InternMember { collection, value } => {
            let (tables, reply) = member_interned(store.collection(collection), value);
            (store.with_collection(collection, tables), reply)
        },
        StatementView::Link { collection, record, member } => {
            let (tables, reply) = member_linked(
                store.collection(collection),
                store.records.len(),
                record,
                member,
            );
            (store.with_collection(collection, tables), reply)
        },
    }
}

/// The set that `record` has in a collection, as far as the first `count` member values
/// go: those of them to which the record has a junction row, in the order of the member
/// table.
pub open spec fn stored_set(tables: CollectionView, record: i64, count: nat) -> Seq<Seq<char>>
    decreases count,
{
    if count == 0 {
        Seq::empty()
    } else {
        let before = stored_set(tables, record, (count - 1) as nat);
        if tables.links.contains(Link { record, member: count as i64 }) {
            before.push(tables.values[count - 1])
        } else {
            before
        }
    }
}

/// The intern table and the junction table of one collection.
#[derive(Default, Debug, Clone, PartialEq)]
pub struct CollectionTables {
    values: InternTable<String>,
    links: LinkTable,
}

impl View for CollectionTables {
    type V = CollectionView;

    closed spec fn view(&self) -> CollectionView {
        CollectionView { values: self.values.deep_view(), links: self.links@ }
    }
}

impl CollectionTables {
    /// Two tables without rows.
    pub fn new() -> (tables: Self)
        ensures
            tables@ == (CollectionView { values: Seq::empty(), links: Set::empty() }),
    {
        CollectionTables { values: InternTable::new(), links: LinkTable::new() }
    }

    /// A copy of the two tables.
    pub fn snapshot(&self) -> (copy: Self)
        ensures
            copy@ == self@,
    {
        CollectionTables { values: self.values.snapshot(), links: self.links.snapshot() }
    }

    /// The id of a member value, if it is interned.
    pub fn member_id(&self, value: &String) -> (id: Option<i64>)
        requires
            well_formed(self@.values),
        ensures
            match id {
                Some(id) => self@.values.contains(value@) && id == id_of(self@.values, value@),
                None => !self@.values.contains(value@),
            },
    {
        self.values.find(value)
    }

    /// Whether there is a junction row of `record` and `member`.
    pub fn is_linked(&self, record: i64, member: i64) -> (linked: bool)
        ensures
            linked == self@.links.contains(Link { record, member }),
    {
        self.links.contains(record, member)
    }

    /// The set that `record` has in this collection: the member values to which it has a
    /// junction row, in the order of the member table.
    pub fn set_of(&self, record: i64) -> (set: Vec<String>)
        requires
            well_formed(self@.values),
        ensures
            set.deep_view() == stored_set(self@, record, self@.values.len()),
    {
        let mut set: Vec<String> = Vec::new();
        let mut i: usize = 0;
        assert(set.deep_view() =~= Seq::empty());
        while i < self.values.len()
            invariant
                i <= self@.values.len(),
                well_formed(self@.values),
                set.deep_view() == stored_set(self@, record, i as nat),
            decreases self@.values.len() - i,
        {
            let member = (i + 1) as i64;
            if self.links.contains(record, member) {
                match self.values.get(member) {
                    Some(value) => {
                        let ghost before = set.deep_view();
                        set.push(value.clone());
                        assert(set.deep_view() =~= before.push(self@.values[i as int]));
                    },
                    None => {},
                }
            }
            i += 1;
        }
        set
    }

    /// Interns a member value.
    pub fn intern(&mut self, value: String) -> (id: Option<i64>)
        requires
            well_formed(old(self)@.values),
        ensures
            final(self)@.links == old(self)@.links,
            final(self)@.values == interned(old(self)@.values, value@).0,
            well_formed(final(self)@.values),
            match id {
                Some(id) => interned(old(self)@.values, value@).1 == Some(id as int),
                None => interned(old(self)@.values, value@).1 is None,
            },
    {
        self.values.intern(value)
    }

    /// Deletes the junction rows of `record`.
    pub fn clear(&mut self, record: i64)
        ensures
            final(self)@ == (CollectionView {
                links: without_record(old(self)@.links, record),
                ..old(self)@
            }),
    {
        self.links.clear(record);
    }

    /// Inserts the junction row of `record` and `member`, where `member` is the id of a
    /// member value and the row does not exist yet.
    pub fn link(&mut self, record: i64, member: i64) -> (added: bool)
        ensures
            added == (is_id(member, old(self)@.values.len()) && !old(self)@.links.contains(
                Link { record, member },
            )),
            final(self)@ == if added {
                CollectionView {
                    links: old(self)@.links.insert(Link { record, member }),
                    ..old(self)@
                }
            } else {
                old(self)@
            },
    {
        if 1 <= member && (member as u64) <= self.values.len() as u64 {
            self.links.add(record, member)
        } else {
            false
        }
    }
}

/// The relational store, held in memory.
#[derive(Default, Debug, Clone, PartialEq)]
pub struct Store {
    accesses: InternTable<Triple>,
    impacts: InternTable<Triple>,
    records: RecordTable,
    references: CollectionTables,
    configurations: CollectionTables,
    configurations_cpe22: CollectionTables,
    products: CollectionTables,
}

impl View for Store {
    type V = StoreView;

    closed spec fn view(&self) -> StoreView {
        StoreView {
            accesses: self.accesses.deep_view(),
            impacts: self.impacts.deep_view(),
            records: self.records.deep_view(),
            references: self.references@,
            configurations: self.configurations@,
            configurations_cpe22: self.configurations_cpe22@,
            products: self.products@,
        }
    }
}

impl Store {
    /// Whether every unique constraint of the store holds.
    pub open spec fn wf(&self) -> bool {
        self@.wf()
    }

    /// A store whose tables are all empty.
    pub fn new() -> (store: Self)
        ensures
            store.wf(),
            store@.accesses.len() == 0,
            store@.impacts.len() == 0,
            store@.records.len() == 0,
            forall|collection: Collection|
                #![auto]
                store@.collection(collection) == (CollectionView {
                    values: Seq::empty(),
                    links: Set::empty(),
                }),
    {
        let store = Store {
            accesses: InternTable::new(),
            impacts: InternTable::new(),
            records: RecordTable::new(),
            references: CollectionTables::new(),
            configurations: CollectionTables::new(),
            configurations_cpe22: CollectionTables::new(),
            products: CollectionTables::new(),
        };
        assert(keys(store@.records) =~= Seq::empty());
        store
    }

    /// A copy of the store, to go back to.
    pub fn snapshot(&self) -> (copy: Self)
        ensures
            copy@ == self@,
    {
        Store {
            accesses: self.accesses.snapshot(),
            impacts: self.impacts.snapshot(),
            records: self.records.snapshot(),
            references: self.references.snapshot(),
            configurations: self.configurations.snapshot(),
            configurations_cpe22: self.configurations_cpe22.snapshot(),
            products: self.products.snapshot(),
        }
    }

    /// The tables of a collection.
    pub fn tables(&self, collection: Collection) -> (tables: &CollectionTables)
        ensures
            tables@ == self@.collection(collection),
    {
        match collection {
            Collection::References => &self.references,
            Collection::Configurations => &self.configurations,
            Collection::ConfigurationsCpe22 => &self.configurations_cpe22,
            Collection::Products => &self.products,
        }
    }

    /// The id of an access value, if it is interned.
    pub fn access_id(&self, value: &Triple) -> (id: Option<i64>)
        requires
            self.wf(),
        ensures
            match id {
                Some(id) => self@.accesses.contains(value.deep_view()) && id == id_of(
                    self@.accesses,
                    value.deep_view(),
                ),
                None => !self@.accesses.contains(value.deep_view()),
            },
    {
        self.accesses.find(value)
    }

    /// The id of an impact value, if it is interned.
    pub fn impact_id(&self, value: &Triple) -> (id: Option<i64>)
        requires
            self.wf(),
        ensures
            match id {
                Some(id) => self@.impacts.contains(value.deep_view()) && id == id_of(
                    self@.impacts,
                    value.deep_view(),
                ),
                None => !self@.impacts.contains(value.deep_view()),
            },
    {
        self.impacts.find(value)
    }

    /// The access value with the id `id`.
    pub fn access(&self, id: i64) -> (value: Option<&Triple>)
        ensures
            match value {
                Some(value) => is_id(id, self@.accesses.len()) && value.deep_view()
                    == self@.accesses[id - 1],
                None => !is_id(id, self@.accesses.len()),
            },
    {
        self.accesses.get(id)
    }

    /// The impact value with the id `id`.
    pub fn impact(&self, id: i64) -> (value: Option<&Triple>)
        ensures
            match value {
                Some(value) => is_id(id, self@.impacts.len()) && value.deep_view()
                    == self@.impacts[id - 1],
                None => !is_id(id, self@.impacts.len()),
            },
    {
        self.impacts.get(id)
    }

    /// The surrogate id of the advisory row with the natural id `cve_id`, if there is one.
    pub fn record_id(&self, cve_id: &String) -> (id: Option<i64>)
        requires
            self.wf(),
        ensures
            match id {
                Some(id) => keys(self@.records).contains(cve_id@) && id == id_of(
                    keys(self@.records),
                    cve_id@,
                ),
                None => !keys(self@.records).contains(cve_id@),
            },
    {
        self.records.find(cve_id)
    }

    /// The advisory row with the surrogate id `id`.
    pub fn record(&self, id: i64) -> (row: Option<&RecordRow>)
        ensures
            match row {
                Some(row) => is_id(id, self@.records.len()) && row.deep_view()
                    == self@.records[id - 1],
                None => !is_id(id, self@.records.len()),
            },
    {
        self.records.get(id)
    }

    /// Carries out one statement.
    pub fn execute(&mut self, statement: Statement) -> (reply: Reply)
        requires
            old(self).wf(),
        ensures
            final(self).wf(),
            (final(self)@, reply) == executed(old(self)@, statement.deep_view()),
    {
        match statement {
            Statement::InternAccess { access } => answer(self.accesses.intern(access)),
            Statement::InternImpact { impact } => answer(self.impacts.intern(impact)),
            Statement::UpsertRecord { row } => {
                if 1 <= row.access_id && (row.access_id as u64) <= self.accesses.len() as u64 && 1
                    <= row.impact_id && (row.impact_id as u64) <= self.impacts.len() as u64 {
                    answer(self.records.upsert(row))
                } else {
                    Reply::Failed
                }
            },
            Statement::ClearLinks { collection, record } => {
                match collection {
                    Collection::References => self.references.clear(record),
                    Collection::Configurations => self.configurations.clear(record),
                    Collection::ConfigurationsCpe22 => self.configurations_cpe22.clear(record),
                    Collection::Products => self.products.clear(record),
                }
                Reply::Done
            },
            Statement::InternMember { collection, value } => {
                let id = match collection {
                    Collection::References => self.references.intern(value),
                    Collection::Configurations => self.configurations.intern(value),
                    Collection::ConfigurationsCpe22 => self.configurations_cpe22.intern(value),
                    Collection::Products => self.products.intern(value),
                };
                answer(id)
            },
            Statement::Link { collection, record, member } => {
                if 1 <= record && (record as u64) <= self.records.len() as u64 {
                    let added = match collection {
                        Collection::References => self.references.link(record, member),
                        Collection::Configurations => self.configurations.link(record, member),
                        Collection::ConfigurationsCpe22 => self.configurations_cpe22.link(
                            record,
                            member,
                        ),
                        Collection::Products => self.products.link(record, member),
                    };
                    if added {
                        Reply::Done
                    } else {
                        Reply::Failed
                    }
                } else {
                    Reply::Failed
                }
            },
        }
    }
}

/// The answer for an id that a table gave, or the failure where it gave none.
fn answer(id: Option<i64>) -> (reply: Reply)
    ensures
        reply == match id {
            Some(id) => Reply::Id(id),
            None => Reply::Failed,
        },
{
    match id {
        Some(id) => Reply::Id(id),
        None => Reply::Failed,
    }
}

/// No statement breaks a unique constraint: on a store whose constraints hold, they hold
/// after any statement.
pub proof fn execution_keeps_constraints(store: StoreView, statement: StatementView)
    requires
        store.wf(),
    ensures
        executed(store, statement).0.wf(),
{
    match statement {
        StatementView::InternAccess { access } => {
            interning_extends(store.accesses, access);
        },
        StatementView::InternImpact { impact } => {
            interning_extends(store.impacts, impact);
        },
        StatementView::UpsertRecord { row } => {
            upsert_writes(store.records, row);
        },
        StatementView::InternMember { collection, value } => {
            interning_extends(store.collection(collection).values, value);
        },
        _ => {},
    }
}

/// The stored set of a record lists the values of the members to which the record has a
/// junction row, and nothing else.
pub proof fn stored_set_lists_members(
    tables: CollectionView,
    record: i64,
    count: nat,
    value: Seq<char>,
)
    requires
        count <= tables.values.len(),
        tables.values.len() <= CAPACITY,
    ensures
        stored_set(tables, record, count).contains(value) <==> exists|member: i64|
            1 <= member <= count && #[trigger] tables.links.contains(Link { record, member })
                && tables.values[member - 1] == value,
    decreases count,
{
    if count > 0 {
        let fewer = (count - 1) as nat;
        let before = stored_set(tables, record, fewer);
        let last = count as i64;
        stored_set_lists_members(tables, record, fewer, value);
        vstd::seq_lib::lemma_seq_contains_after_push(before, tables.values[count - 1], value);
        if stored_set(tables, record, count).contains(value) {
            if before.contains(value) {
                let member = choose|member: i64|
                    1 <= member <= fewer && #[trigger] tables.links.contains(
                        Link { record, member },
                    ) && tables.values[member - 1] == value;
                assert(1 <= member <= count && tables.links.contains(Link { record, member })
                    && tables.values[member - 1] == value);
            } else {
                assert(tables.links.contains(Link { record, member: last }));
            }
        }
        if exists|member: i64|
            1 <= member <= count && #[trigger] tables.links.contains(Link { record, member })
                && tables.values[member - 1] == value {
            let member = choose|member: i64|
                1 <= member <= count && #[trigger] tables.links.contains(Link { record, member })
                    && tables.values[member - 1] == value;
            if member < count {
                assert(1 <= member <= fewer && tables.links.contains(Link { record, member })
                    && tables.values[member - 1] == value);
            }
        }
    }
}

} // verus!
