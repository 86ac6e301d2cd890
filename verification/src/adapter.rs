//! The entry points through which a guest reaches its host's objects.

use crate::error::BridgeError;
use crate::table::{Handle, HandleTable, TableView};
use vstd::prelude::*;

verus! {

/// What the host has to tell an observer: an object came to be, or ceased.
#[derive(Clone, Copy, Debug, PartialEq, Eq, Structural)]
pub enum AuditRecord {
    /// An object was created in `state` and is named by `handle`.
    Created { handle: Handle, state: u32 },
    /// The object that `handle` named was destroyed in `state`.
    Destroyed { handle: Handle, state: u32 },
}

/// One `Destroyed` record for each entry, in the order of the entries.
pub open spec fn destroyed(entries: Seq<(Handle, u32)>) -> Seq<AuditRecord> {
    Seq::new(
        entries.len(),
        |i: int| AuditRecord::Destroyed { handle: entries[i].0, state: entries[i].1 },
    )
}

/// What an adapter is, seen from outside: its table, and the records that no
/// observer has taken yet.
pub struct AdapterView {
    pub table: TableView,
    pub audit: Seq<AuditRecord>,
}

impl AdapterView {
    /// The adapter that has served no call.
    pub open spec fn empty() -> AdapterView {
        AdapterView { table: TableView::empty(), audit: Seq::empty() }
    }

    /// What `new` answers: the fresh handle, or a trap where no handle is
    /// left to issue.
    pub open spec fn new_reply(self) -> Result<Handle, BridgeError> {
        if self.table.has_room() {
            Ok(self.table.fresh())
        } else {
            Err(BridgeError::GuestTrap)
        }
    }

    /// The adapter after `new(value)`.
    pub open spec fn new(self, value: u32) -> AdapterView {
        if self.table.has_room() {
            AdapterView {
                table: self.table.create(value),
                audit: self.audit.push(
                    AuditRecord::Created { handle: self.table.fresh(), state: value },
                ),
            }
        } else {
            self
        }
    }

    /// What `set` and `drop` answer for `handle`.
    pub open spec fn unit_reply(self, handle: Handle) -> Result<(), BridgeError> {
        match self.table.read(handle) {
            Ok(_) => Ok(()),
            Err(error) => Err(error),
        }
    }

    /// The adapter after `set(handle, value)`.
    pub open spec fn set(self, handle: Handle, value: u32) -> AdapterView {
        AdapterView { table: self.table.write(handle, value), audit: self.audit }
    }

    /// The adapter after `drop(handle)`.
    pub open spec fn drop(self, handle: Handle) -> AdapterView {
        if self.table.live.contains_key(handle) {
            AdapterView {
                table: self.table.destroy(handle),
                audit: self.audit.push(
                    AuditRecord::Destroyed { handle, state: self.table.live[handle] },
                ),
            }
        } else {
            self
        }
    }

    /// The adapter after every live object was released.
    pub open spec fn release_all(self) -> AdapterView {
        AdapterView {
            table: self.table.drained(),
            audit: self.audit + destroyed(self.table.entries()),
        }
    }
}

/// Serves the calls of one guest on one table, and keeps a record of every
/// object created and destroyed until an observer takes it.
pub struct InterfaceAdapter {
    table: HandleTable,
    audit: Vec<AuditRecord>,
}

impl View for InterfaceAdapter {
    type V = AdapterView;

    closed spec fn view(&self) -> AdapterView {
        AdapterView { table: self.table@, audit: self.audit@ }
    }
}

impl Default for InterfaceAdapter {
    /// An adapter on a fresh table.
    fn default() -> (adapter: InterfaceAdapter)
        ensures
            adapter@ == AdapterView::empty(),
            adapter@.table.wf(),
    {
        InterfaceAdapter { table: HandleTable::new(), audit: Vec::new() }
    }
}

impl InterfaceAdapter {
    /// Creates an object in state `value` and returns its handle. A guest
    /// that has used up the handle space is trapped: nothing is created.
    pub fn new(&mut self, value: u32) -> (reply: Result<Handle, BridgeError>)
        ensures
            reply == old(self)@.new_reply(),
            final(self)@ == old(self)@.new(value),
            final(self)@.table.wf(),
    {
        if self.table.has_room() {
            let handle = self.table.create(value);
            self.audit.push(AuditRecord::Created { handle, state: value });
            Ok(handle)
        } else {
            Err(BridgeError::GuestTrap)
        }
    }

    /// Replaces the state of the object that `handle` names.
    pub fn set(&mut self, handle: Handle, value: u32) -> (reply: Result<(), BridgeError>)
        ensures
            reply == old(self)@.unit_reply(handle),
            final(self)@ == old(self)@.set(handle, value),
            final(self)@.table.wf(),
    {
        self.table.write(handle, value)
    }

    /// The state of the object that `handle` names.
    pub fn get(&self, handle: Handle) -> (reply: Result<u32, BridgeError>)
        ensures
            reply == self@.table.read(handle),
    {
        self.table.read(handle)
    }

    /// Destroys the object that `handle` names.
    pub fn drop(&mut self, handle: Handle) -> (reply: Result<(), BridgeError>)
        ensures
            reply == old(self)@.unit_reply(handle),
            final(self)@ == old(self)@.drop(handle),
            final(self)@.table.wf(),
    {
        match self.table.destroy(handle) {
            Ok(state) => {
                self.audit.push(AuditRecord::Destroyed { handle, state });
                Ok(())
            },
            Err(error) => {
                assert(self@.table.live =~= old(self)@.table.live);
                Err(error)
            },
        }
    }

    /// Destroys every object that is still live, in ascending order of the
    /// handles, whether or not the guest asked for it.
    pub fn release_all(&mut self)
        ensures
            final(self)@ == old(self)@.release_all(),
            final(self)@.table.wf(),
    {
        let released = self.table.drain();
        let mut i: usize = 0;
        while i < released.len()
            invariant
                i <= released.len(),
                released@ == old(self)@.table.entries(),
                self.table@ == old(self)@.table.drained(),
                self.table@.wf(),
                self.audit@ == old(self)@.audit + destroyed(released@).take(i as int),
            decreases released.len() - i,
        {
            let (handle, state) = released[i];
            self.audit.push(AuditRecord::Destroyed { handle, state });
            assert(destroyed(released@).take(i + 1) =~= destroyed(released@).take(i as int).push(
                destroyed(released@)[i as int],
            ));
            i = i + 1;
        }
        assert(destroyed(released@).take(i as int) =~= destroyed(released@));
    }

    /// Hands over the records gathered since they were last taken.
    pub fn take_audit(&mut self) -> (records: Vec<AuditRecord>)
        ensures
            records@ == old(self)@.audit,
            final(self)@ == (AdapterView { table: old(self)@.table, audit: Seq::empty() }),
    {
        let mut records = Vec::new();
        std::mem::swap(&mut records, &mut self.audit);
        records
    }

    /// The table behind this adapter.
    pub fn table(&self) -> (table: &HandleTable)
        ensures
            table@ == self@.table,
    {
        &self.table
    }
}

} // verus!
