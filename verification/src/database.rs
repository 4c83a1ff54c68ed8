//! The type database: an immutable, validated view of the kernel's type
//! graph.
//!
//! A database is built once from the plain records and the name table that
//! the kernel's type-data source exposes. Construction validates every
//! record's trailing array against its declared count, so that every later
//! read is in bounds; after construction the database is never mutated, and
//! every query is a pure function of its contents.

use vstd::prelude::*;

use crate::names::name_at;
use crate::record::ENUM32_WORDS;
use crate::record::ENUM64_WORDS;
use crate::record::KIND_ENUM32;
use crate::record::KIND_ENUM64;
use crate::record::KIND_STRUCT;
use crate::record::MEMBER_WORDS;
use crate::record::RecordModel;
use crate::record::TypeRecord;
use crate::record::kind_of;
use crate::record::record_wf;
use crate::record::spec_kind;
use crate::record::vlen_of;

verus! {

/// Mathematical image of a type database: the record nodes and the name
/// table they index into.
pub struct DbModel {
    /// The record nodes, addressed by their position.
    pub records: Seq<RecordModel>,
    /// The name table.
    pub names: Seq<u8>,
}

/// The images of a sequence of records.
pub open spec fn records_model(rs: Seq<TypeRecord>) -> Seq<RecordModel> {
    Seq::new(rs.len(), |i: int| rs[i]@)
}

/// A database is well formed when every record's trailing array holds
/// exactly the words its declared count calls for.
pub open spec fn db_wf(m: DbModel) -> bool {
    forall|i: int| 0 <= i < m.records.len() ==> record_wf(#[trigger] m.records[i])
}

/// Whether record `m` matches a lookup by name, optionally filtered to one
/// kind. A record whose name offset does not resolve matches nothing.
pub open spec fn record_matches(
    m: RecordModel,
    names: Seq<u8>,
    name: Seq<u8>,
    kind: Option<u32>,
) -> bool {
    &&& name_at(names, m.name_off as int) == Some(name)
    &&& match kind {
        Some(k) => spec_kind(m.info) == k,
        None => true,
    }
}

/// The position of the first record at or after `i` that matches the lookup.
pub open spec fn find_from(
    records: Seq<RecordModel>,
    names: Seq<u8>,
    name: Seq<u8>,
    kind: Option<u32>,
    i: int,
) -> Option<int>
    decreases records.len() - i,
{
    if i < 0 || i >= records.len() {
        None
    } else if record_matches(records[i], names, name, kind) {
        Some(i)
    } else {
        find_from(records, names, name, kind, i + 1)
    }
}

/// The position of the first record of the database that matches the lookup.
pub open spec fn spec_find(m: DbModel, name: Seq<u8>, kind: Option<u32>) -> Option<int> {
    find_from(m.records, m.names, name, kind, 0)
}

/// A found position lies inside the record sequence, and the record there
/// matches the lookup.
pub proof fn lemma_find_from_found(
    records: Seq<RecordModel>,
    names: Seq<u8>,
    name: Seq<u8>,
    kind: Option<u32>,
    i: int,
)
    requires
        find_from(records, names, name, kind, i) is Some,
    ensures
        i <= find_from(records, names, name, kind, i)->0 < records.len(),
        record_matches(records[find_from(records, names, name, kind, i)->0], names, name, kind),
    decreases records.len() - i,
{
    if 0 <= i < records.len() && !record_matches(records[i], names, name, kind) {
        lemma_find_from_found(records, names, name, kind, i + 1);
    }
}

/// When no record at or after `i` matches, the lookup finds nothing.
pub proof fn lemma_find_from_none(
    records: Seq<RecordModel>,
    names: Seq<u8>,
    name: Seq<u8>,
    kind: Option<u32>,
    i: int,
)
    requires
        forall|j: int| i <= j < records.len() ==> !record_matches(
            #[trigger] records[j],
            names,
            name,
            kind,
        ),
    ensures
        find_from(records, names, name, kind, i) is None,
    decreases records.len() - i,
{
    if 0 <= i < records.len() {
        lemma_find_from_none(records, names, name, kind, i + 1);
    }
}

/// Process-wide, read-only cache of the kernel's type graph. Immutable once
/// initialized; every record was validated at construction.
pub struct TypeDatabase {
    pub(crate) records: Vec<TypeRecord>,
    pub(crate) names: Vec<u8>,
}

impl View for TypeDatabase {
    type V = DbModel;

    closed spec fn view(&self) -> DbModel {
        DbModel { records: records_model(self.records@), names: self.names@ }
    }
}

impl TypeDatabase {
    /// Every database value is well formed, from construction on.
    #[verifier::type_invariant]
    pub open spec fn wf(self) -> bool {
        db_wf(self@)
    }

    /// Builds the database, validating every record's trailing array against
    /// the count and layout its info word declares. Returns `None` — load
    /// failure, fatal to the caller — when any record is malformed.
    pub fn new(records: Vec<TypeRecord>, names: Vec<u8>) -> (r: Option<TypeDatabase>)
        ensures
            match r {
                Some(db) => db@ == (DbModel { records: records_model(records@), names: names@ }),
                None => !db_wf(DbModel { records: records_model(records@), names: names@ }),
            },
    {
        let ghost m = DbModel { records: records_model(records@), names: names@ };
        let n = records.len();
        let mut i: usize = 0;
        while i < n
            invariant
                i <= n == records@.len(),
                m == (DbModel { records: records_model(records@), names: names@ }),
                forall|j: int| 0 <= j < i ==> record_wf(#[trigger] m.records[j]),
            decreases n - i,
        {
            let rec = &records[i];
            let k = kind_of(rec.info);
            let vlen = vlen_of(rec.info);
            let expected: Option<usize> = if k == KIND_ENUM32 {
                Some(ENUM32_WORDS * (vlen as usize))
            } else if k == KIND_ENUM64 {
                Some(ENUM64_WORDS * (vlen as usize))
            } else if k == KIND_STRUCT {
                Some(MEMBER_WORDS * (vlen as usize))
            } else {
                None
            };
            if let Some(need) = expected {
                if rec.tail.len() != need {
                    proof {
                        assert(!record_wf(m.records[i as int]));
                    }
                    return None;
                }
            }
            proof {
                assert(record_wf(m.records[i as int]));
            }
            i = i + 1;
        }
        proof {
            assert(db_wf(m));
        }
        Some(TypeDatabase { records, names })
    }

    /// Borrows record `i`.
    pub(crate) fn record_at(&self, i: usize) -> (r: &TypeRecord)
        requires
            i < self@.records.len(),
        ensures
            r@ == self@.records[i as int],
    {
        &self.records[i]
    }

    /// Borrows the name table.
    pub(crate) fn name_table(&self) -> (r: &Vec<u8>)
        ensures
            r@ == self@.names,
    {
        &self.names
    }

    /// Finds the first record named `name`, optionally filtered to one kind.
    pub(crate) fn find_index(&self, name: &[u8], kind: Option<u32>) -> (r: Option<usize>)
        ensures
            match r {
                Some(i) => spec_find(self@, name@, kind) == Some(i as int) && i
                    < self@.records.len(),
                None => spec_find(self@, name@, kind) is None,
            },
    {
        let n = self.records.len();
        let mut i: usize = 0;
        while i < n
            invariant
                i <= n == self@.records.len(),
                spec_find(self@, name@, kind) == find_from(
                    self@.records,
                    self@.names,
                    name@,
                    kind,
                    i as int,
                ),
            decreases n - i,
        {
            let rec = &self.records[i];
            let name_matches = match crate::names::resolve_name(&self.names, rec.name_off) {
                Some(resolved) => crate::names::bytes_equal(&resolved, name),
                None => false,
            };
            let kind_matches = match kind {
                Some(k) => kind_of(rec.info) == k,
                None => true,
            };
            if name_matches && kind_matches {
                return Some(i);
            }
            proof {
                assert(!record_matches(self@.records[i as int], self@.names, name@, kind));
            }
            i = i + 1;
        }
        None
    }
}

} // verus!
