//! The name table: a byte region addressed by offset.
//!
//! Every name offset in a type record is valid only relative to the table
//! that came with the same database. A name is the run of bytes from its
//! offset up to the first NUL terminator; an offset outside the table, or one
//! with no terminator after it, is malformed.

use vstd::prelude::*;

verus! {

/// The name at byte offset `off` of the table: the bytes from `off` up to
/// (not including) the first NUL terminator, or `None` when `off` lies
/// outside the table or no terminator follows it.
pub open spec fn name_at(table: Seq<u8>, off: int) -> Option<Seq<u8>>
    decreases table.len() - off,
{
    if off < 0 || off >= table.len() {
        None
    } else if table[off] == 0 {
        Some(Seq::empty())
    } else {
        match name_at(table, off + 1) {
            Some(rest) => Some(seq![table[off]] + rest),
            None => None,
        }
    }
}

/// When a NUL stands at `end` and none before it from `off` on, the name at
/// `off` is exactly the bytes between the two.
proof fn lemma_name_at_found(table: Seq<u8>, off: int, end: int)
    requires
        0 <= off <= end < table.len(),
        forall|j: int| off <= j < end ==> table[j] != 0,
        table[end] == 0,
    ensures
        name_at(table, off) == Some(table.subrange(off, end)),
    decreases end - off,
{
    if off == end {
        assert(table.subrange(off, end) =~= Seq::<u8>::empty());
    } else {
        lemma_name_at_found(table, off + 1, end);
        assert(table.subrange(off, end) =~= seq![table[off]] + table.subrange(off + 1, end));
    }
}

/// When no NUL stands at or after `off`, the offset is malformed.
proof fn lemma_name_at_none(table: Seq<u8>, off: int)
    requires
        0 <= off,
        forall|j: int| off <= j < table.len() ==> table[j] != 0,
    ensures
        name_at(table, off) is None,
    decreases table.len() - off,
{
    if off < table.len() {
        lemma_name_at_none(table, off + 1);
    }
}

/// Resolves the name at byte offset `off`, or reports a malformed offset.
pub fn resolve_name(table: &Vec<u8>, off: u32) -> (r: Option<Vec<u8>>)
    ensures
        match r {
            Some(name) => name_at(table@, off as int) == Some(name@),
            None => name_at(table@, off as int) is None,
        },
{
    let n = table.len();
    if off as usize >= n {
        return None;
    }
    let start: usize = off as usize;
    let mut end: usize = start;
    while end < n && table[end] != 0
        invariant
            start <= end <= n == table@.len(),
            forall|j: int| start <= j < end ==> table@[j] != 0,
        decreases n - end,
    {
        end = end + 1;
    }
    if end == n {
        proof {
            lemma_name_at_none(table@, off as int);
        }
        return None;
    }
    let mut name: Vec<u8> = Vec::new();
    let mut i: usize = start;
    while i < end
        invariant
            start <= i <= end < table@.len(),
            name@ =~= table@.subrange(start as int, i as int),
        decreases end - i,
    {
        name.push(table[i]);
        proof {
            assert(name@ =~= table@.subrange(start as int, i + 1 as int));
        }
        i = i + 1;
    }
    proof {
        lemma_name_at_found(table@, off as int, end as int);
    }
    Some(name)
}

/// Compares a resolved name against a caller-supplied one, byte for byte.
pub fn bytes_equal(a: &Vec<u8>, b: &[u8]) -> (r: bool)
    ensures
        r == (a@ == b@),
{
    if a.len() != b.len() {
        return false;
    }
    let n = a.len();
    let mut i: usize = 0;
    while i < n
        invariant
            i <= n == a@.len() == b@.len(),
            forall|j: int| 0 <= j < i ==> a@[j] == b@[j],
        decreases n - i,
    {
        if a[i] != b[i] {
            return false;
        }
        i = i + 1;
    }
    proof {
        assert(a@ =~= b@);
    }
    true
}

} // verus!
