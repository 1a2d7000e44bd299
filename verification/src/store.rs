//! The store of escrow records, keyed by the records' derived addresses.

use crate::identity::Identity;
use crate::record::{Escrow, EscrowError, EscrowView};
use crate::table::Table;
use vstd::prelude::*;

verus! {

/// Escrow records under their addresses. A record is created once, may be
/// overwritten in place, and is never removed.
#[derive(Debug)]
pub struct RecordStore {
    table: Table<Escrow>,
}

impl View for RecordStore {
    type V = Map<Seq<u8>, EscrowView>;

    closed spec fn view(&self) -> Map<Seq<u8>, EscrowView> {
        self.table@
    }
}

impl RecordStore {
    /// No address holds two records.
    pub closed spec fn wf(&self) -> bool {
        self.table.wf()
    }

    /// A store without records.
    pub fn new() -> (store: RecordStore)
        ensures
            store.wf(),
            store@ == Map::<Seq<u8>, EscrowView>::empty(),
    {
        RecordStore { table: Table::new() }
    }

    /// Whether a record is stored at the address.
    pub fn contains(&self, key: &Identity) -> (held: bool)
        requires
            self.wf(),
        ensures
            held == self@.contains_key(key@),
    {
        self.table.position(key).is_some()
    }

    /// Stores a new record at an address. Fails with `AlreadyExists`, and
    /// changes nothing, where the address already holds a record.
    pub fn create(&mut self, key: &Identity, initial: Escrow) -> (result: Result<(), EscrowError>)
        requires
            old(self).wf(),
        ensures
            final(self).wf(),
            result == if old(self)@.contains_key(key@) {
                Err::<(), EscrowError>(EscrowError::AlreadyExists)
            } else {
                Ok(())
            },
            result is Ok ==> final(self)@ == old(self)@.insert(key@, initial@),
            result is Err ==> final(self)@ == old(self)@,
    {
        match self.table.position(key) {
            Some(_) => Err(EscrowError::AlreadyExists),
            None => {
                self.table.append(*key, initial);
                Ok(())
            },
        }
    }

    /// A copy of the record stored at an address. Fails with `NotFound` where
    /// the address holds none.
    pub fn load(&self, key: &Identity) -> (result: Result<Escrow, EscrowError>)
        requires
            self.wf(),
        ensures
            match result {
                Ok(record) => self@.contains_key(key@) && record@ == self@[key@],
                Err(error) => error == EscrowError::NotFound && !self@.contains_key(key@),
            },
    {
        match self.table.position(key) {
            Some(at) => Ok(self.table.get(at).duplicate()),
            None => Err(EscrowError::NotFound),
        }
    }

    /// Overwrites in place the record stored at an address. Fails with
    /// `NotFound`, and changes nothing, where the address holds none.
    pub fn store(&mut self, key: &Identity, updated: Escrow) -> (result: Result<(), EscrowError>)
        requires
            old(self).wf(),
        ensures
            final(self).wf(),
            result == if old(self)@.contains_key(key@) {
                Ok::<(), EscrowError>(())
            } else {
                Err(EscrowError::NotFound)
            },
            result is Ok ==> final(self)@ == old(self)@.insert(key@, updated@),
            result is Err ==> final(self)@ == old(self)@,
    {
        match self.table.position(key) {
            Some(at) => {
                self.table.replace(at, updated);
                Ok(())
            },
            None => Err(EscrowError::NotFound),
        }
    }
}

} // verus!
