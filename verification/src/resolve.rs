//! The two query primitives: symbolic enumerator resolution and structural
//! field-presence probing.
//!
//! Both scan a single record's trailing array in declaration order, resolving
//! each entry's name through the name table. A name-table offset that does
//! not resolve makes the whole database suspect, so it surfaces as
//! `MalformedName`; an exhausted scan is `NotFound` for an enumerator and a
//! plain `false` for a structure field.

use vstd::prelude::*;

use crate::CompatError;
use crate::database::DbModel;
use crate::database::TypeDatabase;
use crate::database::lemma_find_from_none;
use crate::database::record_matches;
use crate::database::spec_find;
use crate::names::bytes_equal;
use crate::names::name_at;
use crate::names::resolve_name;
use crate::record::KIND_ENUM32;
use crate::record::KIND_ENUM64;
use crate::record::KIND_STRUCT;
use crate::record::RecordModel;
use crate::record::enum32_name_off;
use crate::record::enum32_raw;
use crate::record::enum32_value;
use crate::record::enum64_hi;
use crate::record::enum64_lo;
use crate::record::enum64_name_off;
use crate::record::enum64_value;
use crate::record::member_name_off;
use crate::record::spec_enum32_value;
use crate::record::spec_enum64_value;
use crate::record::spec_kind;
use crate::record::spec_vlen;

verus! {

/// Scans the enumerators of an enumeration-32 record from position `i` in
/// declaration order: the value of the first one named `target`, `NotFound`
/// past the end, `MalformedName` on the first unresolvable name.
pub open spec fn scan_enum32(
    m: RecordModel,
    names: Seq<u8>,
    target: Seq<u8>,
    i: int,
) -> Result<u64, CompatError>
    decreases spec_vlen(m.info) - i,
{
    if i < 0 || i >= spec_vlen(m.info) {
        Err(CompatError::NotFound)
    } else {
        match name_at(names, enum32_name_off(m, i) as int) {
            None => Err(CompatError::MalformedName),
            Some(nm) => if nm == target {
                Ok(spec_enum32_value(enum32_raw(m, i)))
            } else {
                scan_enum32(m, names, target, i + 1)
            },
        }
    }
}

/// The enumeration-64 counterpart of `scan_enum32`, reassembling each value
/// from its halves.
pub open spec fn scan_enum64(
    m: RecordModel,
    names: Seq<u8>,
    target: Seq<u8>,
    i: int,
) -> Result<u64, CompatError>
    decreases spec_vlen(m.info) - i,
{
    if i < 0 || i >= spec_vlen(m.info) {
        Err(CompatError::NotFound)
    } else {
        match name_at(names, enum64_name_off(m, i) as int) {
            None => Err(CompatError::MalformedName),
            Some(nm) => if nm == target {
                Ok(spec_enum64_value(enum64_lo(m, i), enum64_hi(m, i)))
            } else {
                scan_enum64(m, names, target, i + 1)
            },
        }
    }
}

/// Scans the members of a structure record from position `i`: `true` when
/// one is named `target`, `false` past the end, `MalformedName` on the first
/// unresolvable name. Absence of a field is an answer, not an error.
pub open spec fn scan_members(
    m: RecordModel,
    names: Seq<u8>,
    target: Seq<u8>,
    i: int,
) -> Result<bool, CompatError>
    decreases spec_vlen(m.info) - i,
{
    if i < 0 || i >= spec_vlen(m.info) {
        Ok(false)
    } else {
        match name_at(names, member_name_off(m, i) as int) {
            None => Err(CompatError::MalformedName),
            Some(nm) => if nm == target {
                Ok(true)
            } else {
                scan_members(m, names, target, i + 1)
            },
        }
    }
}

/// What `read_enum` answers: locate the first record named `tname` of
/// any kind; when it is an enumeration, scan its enumerators for `member`;
/// a missing type, a non-enumeration type, and an exhausted scan are all
/// `NotFound`.
pub open spec fn spec_read_enum(
    m: DbModel,
    tname: Seq<u8>,
    member: Seq<u8>,
) -> Result<u64, CompatError> {
    match spec_find(m, tname, None) {
        None => Err(CompatError::NotFound),
        Some(i) => {
            let rec = m.records[i];
            if spec_kind(rec.info) == KIND_ENUM32 {
                scan_enum32(rec, m.names, member, 0)
            } else if spec_kind(rec.info) == KIND_ENUM64 {
                scan_enum64(rec, m.names, member, 0)
            } else {
                Err(CompatError::NotFound)
            }
        },
    }
}

/// What `struct_has_field` answers: locate the first record named
/// `tname` that is a structure — a same-named record of another kind
/// does not satisfy the lookup — and scan its members for `field`.
pub open spec fn spec_struct_has_field(
    m: DbModel,
    tname: Seq<u8>,
    field: Seq<u8>,
) -> Result<bool, CompatError> {
    match spec_find(m, tname, Some(KIND_STRUCT)) {
        None => Err(CompatError::NotFound),
        Some(i) => scan_members(m.records[i], m.names, field, 0),
    }
}

/// No resolvable enumerator of record `m` is named `member`. Holds
/// vacuously of records that are not enumerations: they have no enumerators
/// at all.
pub open spec fn enum_member_missing(m: RecordModel, names: Seq<u8>, member: Seq<u8>) -> bool {
    if spec_kind(m.info) == KIND_ENUM32 {
        forall|j: int|
            0 <= j < spec_vlen(m.info) ==> (name_at(
                names,
                (#[trigger] enum32_name_off(m, j)) as int,
            ) matches Some(nm) && nm != member)
    } else if spec_kind(m.info) == KIND_ENUM64 {
        forall|j: int|
            0 <= j < spec_vlen(m.info) ==> (name_at(
                names,
                (#[trigger] enum64_name_off(m, j)) as int,
            ) matches Some(nm) && nm != member)
    } else {
        true
    }
}

/// Every member name offset of record `m` resolves in the name table.
pub open spec fn members_resolvable(m: RecordModel, names: Seq<u8>) -> bool {
    forall|j: int|
        0 <= j < spec_vlen(m.info) ==> name_at(
            names,
            (#[trigger] member_name_off(m, j)) as int,
        ) is Some
}

proof fn lemma_scan_enum32_exhausts(m: RecordModel, names: Seq<u8>, target: Seq<u8>, i: int)
    requires
        spec_kind(m.info) == KIND_ENUM32,
        enum_member_missing(m, names, target),
        0 <= i,
    ensures
        scan_enum32(m, names, target, i) == Err::<u64, CompatError>(CompatError::NotFound),
    decreases spec_vlen(m.info) - i,
{
    if i < spec_vlen(m.info) {
        lemma_scan_enum32_exhausts(m, names, target, i + 1);
    }
}

proof fn lemma_scan_enum64_exhausts(m: RecordModel, names: Seq<u8>, target: Seq<u8>, i: int)
    requires
        spec_kind(m.info) == KIND_ENUM64,
        enum_member_missing(m, names, target),
        0 <= i,
    ensures
        scan_enum64(m, names, target, i) == Err::<u64, CompatError>(CompatError::NotFound),
    decreases spec_vlen(m.info) - i,
{
    if i < spec_vlen(m.info) {
        lemma_scan_enum64_exhausts(m, names, target, i + 1);
    }
}

proof fn lemma_scan_members_total(m: RecordModel, names: Seq<u8>, target: Seq<u8>, i: int)
    requires
        members_resolvable(m, names),
        0 <= i,
    ensures
        scan_members(m, names, target, i) is Ok,
    decreases spec_vlen(m.info) - i,
{
    if i < spec_vlen(m.info) {
        lemma_scan_members_total(m, names, target, i + 1);
    }
}

/// An enumerator lookup in a type the database does not carry answers
/// `NotFound`, whatever member is asked for: never a panic, never an
/// arbitrary value.
pub proof fn lemma_read_enum_unknown_type(db: DbModel, tname: Seq<u8>, member: Seq<u8>)
    requires
        forall|i: int|
            0 <= i < db.records.len() ==> name_at(
                db.names,
                (#[trigger] db.records[i]).name_off as int,
            ) != Some(tname),
    ensures
        spec_read_enum(db, tname, member) == Err::<u64, CompatError>(CompatError::NotFound),
{
    assert forall|j: int| 0 <= j < db.records.len() implies !record_matches(
        #[trigger] db.records[j],
        db.names,
        tname,
        None,
    ) by {}
    lemma_find_from_none(db.records, db.names, tname, None, 0);
}

/// An enumerator lookup in an existing type answers `NotFound` when no
/// resolvable enumerator of that type carries the asked-for name — also
/// when the type is not an enumeration at all, since a member cannot exist
/// in a non-enumeration type.
pub proof fn lemma_read_enum_unknown_member(db: DbModel, tname: Seq<u8>, member: Seq<u8>)
    requires
        spec_find(db, tname, None) is Some,
        enum_member_missing(db.records[spec_find(db, tname, None)->0], db.names, member),
    ensures
        spec_read_enum(db, tname, member) == Err::<u64, CompatError>(CompatError::NotFound),
{
    crate::database::lemma_find_from_found(db.records, db.names, tname, None, 0);
    let i = spec_find(db, tname, None)->0;
    let rec = db.records[i];
    if spec_kind(rec.info) == KIND_ENUM32 {
        lemma_scan_enum32_exhausts(rec, db.names, member, 0);
    } else if spec_kind(rec.info) == KIND_ENUM64 {
        lemma_scan_enum64_exhausts(rec, db.names, member, 0);
    }
}

/// A field probe on a name that no structure record carries answers
/// `NotFound` — distinguishable from a `false` answer about an existing
/// structure — even when records of other kinds carry the same name.
pub proof fn lemma_probe_unknown_struct(db: DbModel, tname: Seq<u8>, field: Seq<u8>)
    requires
        forall|i: int|
            0 <= i < db.records.len() ==> !(name_at(
                db.names,
                (#[trigger] db.records[i]).name_off as int,
            ) == Some(tname) && spec_kind(db.records[i].info) == KIND_STRUCT),
    ensures
        spec_struct_has_field(db, tname, field) == Err::<bool, CompatError>(CompatError::NotFound),
{
    assert forall|j: int| 0 <= j < db.records.len() implies !record_matches(
        #[trigger] db.records[j],
        db.names,
        tname,
        Some(KIND_STRUCT),
    ) by {}
    lemma_find_from_none(db.records, db.names, tname, Some(KIND_STRUCT), 0);
}

/// Once a structure is found and its member names all resolve, the probe
/// never fails: absence of the field is a normal answer, not an error.
pub proof fn lemma_probe_total(db: DbModel, tname: Seq<u8>, field: Seq<u8>)
    requires
        spec_find(db, tname, Some(KIND_STRUCT)) is Some,
        members_resolvable(db.records[spec_find(db, tname, Some(KIND_STRUCT))->0], db.names),
    ensures
        spec_struct_has_field(db, tname, field) is Ok,
{
    lemma_scan_members_total(
        db.records[spec_find(db, tname, Some(KIND_STRUCT))->0],
        db.names,
        field,
        0,
    );
}

/// Queries are functions of the database value alone: any two databases
/// holding the same records and the same name table answer every lookup
/// alike, so repeated loads that expose one initialized instance answer
/// consistently, query after query.
pub proof fn lemma_queries_deterministic(d1: DbModel, d2: DbModel, tname: Seq<u8>, member: Seq<u8>)
    requires
        d1 == d2,
    ensures
        spec_read_enum(d1, tname, member) == spec_read_enum(d2, tname, member),
        spec_struct_has_field(d1, tname, member) == spec_struct_has_field(d2, tname, member),
{
}

/// Resolves the named enumerator of the named enumeration type to its
/// numeric value under the running kernel's definitions.
#[verifier::loop_isolation(false)]
pub fn read_enum(db: &TypeDatabase, tname: &[u8], member: &[u8]) -> (r: Result<
    u64,
    CompatError,
>)
    ensures
        r == spec_read_enum(db@, tname@, member@),
{
    proof {
        use_type_invariant(&*db);
    }
    let found = db.find_index(tname, None);
    let idx = match found {
        None => {
            return Err(CompatError::NotFound);
        },
        Some(i) => i,
    };
    let rec = db.record_at(idx);
    let ghost rm = db@.records[idx as int];
    proof {
        assert(crate::record::record_wf(rm));
    }
    let k = crate::record::kind_of(rec.info);
    let vlen = crate::record::vlen_of(rec.info);
    if k == KIND_ENUM32 {
        let mut j: usize = 0;
        while j < vlen as usize
            invariant
                j <= spec_vlen(rm.info),
                rec@ == rm,
                crate::record::record_wf(rm),
                spec_kind(rm.info) == KIND_ENUM32,
                scan_enum32(rm, db@.names, member@, 0) == scan_enum32(
                    rm,
                    db@.names,
                    member@,
                    j as int,
                ),
            decreases vlen - j,
        {
            let (name_off, raw) = rec.enum32_entry(j);
            match resolve_name(db.name_table(), name_off) {
                None => {
                    return Err(CompatError::MalformedName);
                },
                Some(nm) => {
                    if bytes_equal(&nm, member) {
                        return Ok(enum32_value(raw));
                    }
                },
            }
            j = j + 1;
        }
        Err(CompatError::NotFound)
    } else if k == KIND_ENUM64 {
        let mut j: usize = 0;
        while j < vlen as usize
            invariant
                j <= spec_vlen(rm.info),
                rec@ == rm,
                crate::record::record_wf(rm),
                spec_kind(rm.info) == KIND_ENUM64,
                scan_enum64(rm, db@.names, member@, 0) == scan_enum64(
                    rm,
                    db@.names,
                    member@,
                    j as int,
                ),
            decreases vlen - j,
        {
            let (name_off, lo, hi) = rec.enum64_entry(j);
            match resolve_name(db.name_table(), name_off) {
                None => {
                    return Err(CompatError::MalformedName);
                },
                Some(nm) => {
                    if bytes_equal(&nm, member) {
                        return Ok(enum64_value(lo, hi));
                    }
                },
            }
            j = j + 1;
        }
        Err(CompatError::NotFound)
    } else {
        Err(CompatError::NotFound)
    }
}

/// Resolves the named enumerator, falling back to `default` on any failure.
/// Callers use this to bind optional or newly introduced symbolic constants.
pub fn read_enum_or(db: &TypeDatabase, tname: &[u8], member: &[u8], default: u64) -> (v: u64)
    ensures
        v == match spec_read_enum(db@, tname@, member@) {
            Ok(value) => value,
            Err(_) => default,
        },
{
    match read_enum(db, tname, member) {
        Ok(value) => value,
        Err(_) => default,
    }
}

/// Tests whether the running kernel's definition of the named structure
/// currently contains the named field.
#[verifier::loop_isolation(false)]
pub fn struct_has_field(db: &TypeDatabase, tname: &[u8], field: &[u8]) -> (r: Result<
    bool,
    CompatError,
>)
    ensures
        r == spec_struct_has_field(db@, tname@, field@),
{
    proof {
        use_type_invariant(&*db);
    }
    let found = db.find_index(tname, Some(KIND_STRUCT));
    let idx = match found {
        None => {
            return Err(CompatError::NotFound);
        },
        Some(i) => i,
    };
    let rec = db.record_at(idx);
    let ghost rm = db@.records[idx as int];
    proof {
        assert(crate::record::record_wf(rm));
        crate::database::lemma_find_from_found(
            db@.records,
            db@.names,
            tname@,
            Some(KIND_STRUCT),
            0,
        );
    }
    let vlen = crate::record::vlen_of(rec.info);
    let mut j: usize = 0;
    while j < vlen as usize
        invariant
            j <= spec_vlen(rm.info),
            rec@ == rm,
            crate::record::record_wf(rm),
            spec_kind(rm.info) == KIND_STRUCT,
            scan_members(rm, db@.names, field@, 0) == scan_members(rm, db@.names, field@, j as int),
        decreases vlen - j,
    {
        let name_off = rec.member_entry(j);
        match resolve_name(db.name_table(), name_off) {
            None => {
                return Err(CompatError::MalformedName);
            },
            Some(nm) => {
                if bytes_equal(&nm, field) {
                    return Ok(true);
                }
            },
        }
        j = j + 1;
    }
    Ok(false)
}

} // verus!
