//! The ordered in-memory collection of records.
//!
//! Position is the only identity a record has: an update or a delete names a
//! zero-based position, and indices shift down after a removal.

use vstd::prelude::*;
use vstd::pervasive::VecAdditionalExecFns;

use crate::record::Record;

verus! {

/// Reported when an update or a delete names a position outside the store.
#[derive(Clone, Copy, Debug, PartialEq, Eq, Structural)]
pub struct IndexError;

/// The ordered in-memory collection of records, created empty and mutated
/// only by `add`, `update` and `delete`.
pub struct Store {
    records: Vec<Record>,
}

impl View for Store {
    type V = Seq<Record>;

    closed spec fn view(&self) -> Seq<Record> {
        self.records@
    }
}

impl Store {
    /// Creates an empty store.
    pub fn new() -> (s: Store)
        ensures
            s@ == Seq::<Record>::empty(),
    {
        Store { records: Vec::new() }
    }

    /// The number of records currently held.
    pub fn len(&self) -> (n: usize)
        ensures
            n == self@.len(),
    {
        self.records.len()
    }

    /// Appends a record at the end; always succeeds, and the existing
    /// entries keep their order and positions.
    pub fn add(&mut self, r: Record)
        ensures
            final(self)@ == old(self)@.push(r),
    {
        self.records.push(r);
    }

    /// The current contents in insertion order, as a read-only view.
    pub fn list(&self) -> (v: &Vec<Record>)
        ensures
            v@ == self@,
    {
        &self.records
    }

    /// The record at a zero-based position, if any.
    pub fn get(&self, i: usize) -> (r: Option<&Record>)
        ensures
            match r {
                Some(rec) => i < self@.len() && *rec == self@[i as int],
                None => i >= self@.len(),
            },
    {
        if i < self.records.len() {
            Some(&self.records[i])
        } else {
            None
        }
    }

    /// Replaces all fields of the record at a zero-based position at once;
    /// out of range, nothing changes and the error is reported.
    pub fn update(&mut self, i: usize, r: Record) -> (res: Result<(), IndexError>)
        ensures
            i < old(self)@.len() ==> res is Ok && final(self)@ == old(self)@.update(i as int, r),
            i >= old(self)@.len() ==> res is Err && final(self)@ == old(self)@,
    {
        if i < self.records.len() {
            self.records.set(i, r);
            Ok(())
        } else {
            Err(IndexError)
        }
    }

    /// Removes the record at a zero-based position, shifting every later
    /// record down by one; out of range, nothing changes and the error is
    /// reported.
    pub fn delete(&mut self, i: usize) -> (res: Result<(), IndexError>)
        ensures
            i < old(self)@.len() ==> res is Ok && final(self)@ == old(self)@.remove(i as int),
            i >= old(self)@.len() ==> res is Err && final(self)@ == old(self)@,
    {
        if i < self.records.len() {
            self.records.remove(i);
            Ok(())
        } else {
            Err(IndexError)
        }
    }
}

/// Appending keeps every existing record at its position and places the new
/// one at the end: adding records and then listing them yields them in
/// insertion order.
pub proof fn lemma_add_keeps_order(s: Seq<Record>, r: Record)
    ensures
        s.push(r).len() == s.len() + 1,
        forall|j: int| 0 <= j < s.len() ==> s.push(r)[j] == s[j],
        s.push(r)[s.len() as int] == r,
{
}

/// Replacing the record at position `i` changes that position alone: all
/// four fields are replaced at once, and every other record is untouched.
pub proof fn lemma_update_is_pointwise(s: Seq<Record>, i: int, r: Record)
    requires
        0 <= i < s.len(),
    ensures
        s.update(i, r).len() == s.len(),
        s.update(i, r)[i] == r,
        forall|j: int| 0 <= j < s.len() && j != i ==> s.update(i, r)[j] == s[j],
{
}

/// Deleting position `i` removes exactly that record: earlier records keep
/// their positions and every later record shifts down by one.
pub proof fn lemma_delete_shifts(s: Seq<Record>, i: int)
    requires
        0 <= i < s.len(),
    ensures
        s.remove(i).len() == s.len() - 1,
        forall|j: int| 0 <= j < i ==> s.remove(i)[j] == s[j],
        forall|j: int| i <= j < s.len() - 1 ==> s.remove(i)[j] == s[j + 1],
{
}

} // verus!
