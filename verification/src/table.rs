//! The handle table: which handles are live, and the object behind each.

use crate::error::BridgeError;
use crate::object::CapabilityObject;
use std::collections::HashMap;
use vstd::prelude::*;

verus! {

/// A handle: the integer by which a guest names one object of its host.
pub type Handle = u32;

/// How many handles one table can issue in its life.
pub const HANDLE_SPACE: u64 = 0x1_0000_0000;

/// What a handle table is, seen from outside: the state of each live object,
/// and how many handles the table has issued so far.
pub struct TableView {
    pub live: Map<Handle, u32>,
    pub issued: nat,
}

impl TableView {
    /// The table that has issued nothing.
    pub open spec fn empty() -> TableView {
        TableView { live: Map::empty(), issued: 0 }
    }

    /// Handles are issued in ascending order, so every live handle lies below
    /// the number issued, and that number never leaves the handle space.
    pub open spec fn wf(self) -> bool {
        &&& self.live.dom().finite()
        &&& self.issued <= HANDLE_SPACE
        &&& forall|h: Handle| self.live.contains_key(h) ==> (h as nat) < self.issued
    }

    /// Whether a handle is left to issue.
    pub open spec fn has_room(self) -> bool {
        self.issued < HANDLE_SPACE
    }

    /// The handle that the next creation issues.
    pub open spec fn fresh(self) -> Handle
        recommends
            self.has_room(),
    {
        self.issued as Handle
    }

    /// The table after an object in state `initial` was created.
    pub open spec fn create(self, initial: u32) -> TableView
        recommends
            self.has_room(),
    {
        TableView { live: self.live.insert(self.fresh(), initial), issued: self.issued + 1 }
    }

    /// What reading `handle` returns.
    pub open spec fn read(self, handle: Handle) -> Result<u32, BridgeError> {
        if self.live.contains_key(handle) {
            Ok(self.live[handle])
        } else {
            Err(BridgeError::UnknownHandle(handle))
        }
    }

    /// The table after `state` was written through `handle`: unchanged where
    /// the handle is not live.
    pub open spec fn write(self, handle: Handle, state: u32) -> TableView {
        if self.live.contains_key(handle) {
            TableView { live: self.live.insert(handle, state), issued: self.issued }
        } else {
            self
        }
    }

    /// The table after `handle` was destroyed: unchanged where the handle is
    /// not live.
    pub open spec fn destroy(self, handle: Handle) -> TableView {
        TableView { live: self.live.remove(handle), issued: self.issued }
    }

    /// The live objects whose handle lies below `bound`, each with its state,
    /// in ascending order of their handles.
    pub open spec fn entries_below(self, bound: nat) -> Seq<(Handle, u32)>
        decreases bound,
    {
        if bound == 0 {
            Seq::empty()
        } else {
            let handle = (bound - 1) as Handle;
            let below = self.entries_below((bound - 1) as nat);
            if self.live.contains_key(handle) {
                below.push((handle, self.live[handle]))
            } else {
                below
            }
        }
    }

    /// Every live object with its state, in ascending order of the handles.
    pub open spec fn entries(self) -> Seq<(Handle, u32)> {
        self.entries_below(self.issued)
    }

    /// The table after every live object was destroyed.
    pub open spec fn drained(self) -> TableView {
        TableView { live: Map::empty(), issued: self.issued }
    }
}

/// Maps each live handle to the object it names, and owns those objects.
pub struct HandleTable {
    objects: HashMap<Handle, CapabilityObject>,
    issued: u64,
}

/// The state of each object of a map from handles to objects.
spec fn states(objects: Map<Handle, CapabilityObject>) -> Map<Handle, u32> {
    objects.map_values(|object: CapabilityObject| object.value)
}

/// `states` keeps the handles, and follows insertion and removal.
proof fn lemma_states(objects: Map<Handle, CapabilityObject>)
    ensures
        states(objects).dom() == objects.dom(),
        forall|h: Handle, object: CapabilityObject| #[trigger]
            states(objects.insert(h, object)) == states(objects).insert(h, object.value),
        forall|h: Handle| #[trigger] states(objects.remove(h)) == states(objects).remove(h),
{
    assert(states(objects).dom() =~= objects.dom());
    assert forall|h: Handle, object: CapabilityObject| #[trigger]
        states(objects.insert(h, object)) == states(objects).insert(h, object.value) by {
        assert(states(objects.insert(h, object)) =~= states(objects).insert(h, object.value));
    }
    assert forall|h: Handle| #[trigger]
        states(objects.remove(h)) == states(objects).remove(h) by {
        assert(states(objects.remove(h)) =~= states(objects).remove(h));
    }
}

/// Where no live handle lies at or above `from`, the entries below a larger
/// bound are those below `from`.
proof fn lemma_entries_end(table: TableView, from: nat, to: nat)
    requires
        from <= to <= HANDLE_SPACE,
        forall|h: Handle| table.live.contains_key(h) ==> (h as nat) < from,
    ensures
        table.entries_below(to) == table.entries_below(from),
    decreases to - from,
{
    if from < to {
        lemma_entries_end(table, from, (to - 1) as nat);
    }
}

impl View for HandleTable {
    type V = TableView;

    closed spec fn view(&self) -> TableView {
        TableView { live: states(self.objects@), issued: self.issued as nat }
    }
}

impl HandleTable {
    #[verifier::type_invariant]
    spec fn inv(self) -> bool {
        &&& self.issued <= HANDLE_SPACE
        &&& forall|h: Handle| self.objects@.contains_key(h) ==> (h as int) < self.issued
    }

    /// An empty table.
    pub fn new() -> (table: HandleTable)
        ensures
            table@ == TableView::empty(),
            table@.wf(),
    {
        let table = HandleTable { objects: HashMap::new(), issued: 0 };
        assert(table@.live =~= Map::empty());
        table
    }

    /// Whether the table can issue another handle.
    pub fn has_room(&self) -> (room: bool)
        ensures
            room == self@.has_room(),
            self@.wf(),
    {
        proof {
            use_type_invariant(self);
            lemma_states(self.objects@);
        }
        self.issued < HANDLE_SPACE
    }

    /// How many objects are live.
    pub fn len(&self) -> (count: usize)
        ensures
            count == self@.live.len(),
    {
        proof {
            lemma_states(self.objects@);
        }
        self.objects.len()
    }

    /// Whether `handle` names a live object.
    pub fn is_live(&self, handle: Handle) -> (live: bool)
        ensures
            live == self@.live.contains_key(handle),
    {
        proof {
            lemma_states(self.objects@);
        }
        self.objects.contains_key(&handle)
    }

    /// Creates an object in state `initial` and returns the handle issued for
    /// it, which no live object has.
    pub fn create(&mut self, initial: u32) -> (handle: Handle)
        requires
            old(self)@.has_room(),
        ensures
            handle == old(self)@.fresh(),
            !old(self)@.live.contains_key(handle),
            final(self)@ == old(self)@.create(initial),
            final(self)@.wf(),
    {
        proof {
            use_type_invariant(&*self);
            lemma_states(self.objects@);
        }
        let handle = self.issued as Handle;
        let mut objects = HashMap::new();
        std::mem::swap(&mut objects, &mut self.objects);
        objects.insert(handle, CapabilityObject::new(initial));
        self.issued = self.issued + 1;
        self.objects = objects;
        handle
    }

    /// The state of the object that `handle` names.
    pub fn read(&self, handle: Handle) -> (result: Result<u32, BridgeError>)
        ensures
            result == self@.read(handle),
    {
        proof {
            lemma_states(self.objects@);
        }
        match self.objects.get(&handle) {
            Some(object) => Ok(object.get()),
            None => Err(BridgeError::UnknownHandle(handle)),
        }
    }

    /// Replaces the state of the object that `handle` names. Where the handle
    /// is not live, nothing changes.
    pub fn write(&mut self, handle: Handle, state: u32) -> (result: Result<(), BridgeError>)
        ensures
            result == match old(self)@.read(handle) {
                Ok(_) => Ok::<(), BridgeError>(()),
                Err(error) => Err(error),
            },
            final(self)@ == old(self)@.write(handle, state),
            final(self)@.wf(),
    {
        proof {
            use_type_invariant(&*self);
            lemma_states(self.objects@);
        }
        let mut objects = HashMap::new();
        std::mem::swap(&mut objects, &mut self.objects);
        let result = match objects.remove(&handle) {
            Some(mut object) => {
                object.set(state);
                objects.insert(handle, object);
                assert(objects@ =~= old(self).objects@.insert(handle, object));
                Ok(())
            },
            None => {
                assert(objects@ =~= old(self).objects@);
                Err(BridgeError::UnknownHandle(handle))
            },
        };
        self.objects = objects;
        result
    }

    /// Removes the object that `handle` names and returns its final state.
    /// Where the handle is not live, nothing changes.
    pub fn destroy(&mut self, handle: Handle) -> (result: Result<u32, BridgeError>)
        ensures
            result == old(self)@.read(handle),
            final(self)@ == old(self)@.destroy(handle),
            final(self)@.wf(),
    {
        proof {
            use_type_invariant(&*self);
            lemma_states(self.objects@);
        }
        let mut objects = HashMap::new();
        std::mem::swap(&mut objects, &mut self.objects);
        let removed = objects.remove(&handle);
        self.objects = objects;
        match removed {
            Some(object) => Ok(object.get()),
            None => Err(BridgeError::UnknownHandle(handle)),
        }
    }

    /// Destroys every live object, in ascending order of the handles, and
    /// returns each handle with the final state of its object. The order is
    /// that of the handles so that it does not depend on how the map happens
    /// to be laid out.
    pub fn drain(&mut self) -> (released: Vec<(Handle, u32)>)
        ensures
            released@ == old(self)@.entries(),
            final(self)@ == old(self)@.drained(),
            final(self)@.wf(),
    {
        proof {
            use_type_invariant(&*self);
        }
        let mut objects = HashMap::new();
        std::mem::swap(&mut objects, &mut self.objects);
        let ghost before = objects@;
        let mut released: Vec<(Handle, u32)> = Vec::new();
        let mut next: u64 = 0;
        while next < self.issued && !objects.is_empty()
            invariant
                next <= self.issued <= HANDLE_SPACE,
                self.issued == old(self).issued,
                self.objects@ == Map::<Handle, CapabilityObject>::empty(),
                before == old(self).objects@,
                released@ == old(self)@.entries_below(next as nat),
                forall|h: Handle| #[trigger]
                    objects@.contains_key(h) <==> before.contains_key(h) && h >= next,
                forall|h: Handle| #[trigger]
                    objects@.contains_key(h) ==> objects@[h] == before[h],
            decreases self.issued - next,
        {
            let handle = next as Handle;
            proof {
                lemma_states(before);
            }
            match objects.remove(&handle) {
                Some(object) => {
                    released.push((handle, object.get()));
                },
                None => {},
            }
            next = next + 1;
        }
        proof {
            lemma_states(before);
            if next < self.issued {
                assert forall|h: Handle| old(self)@.live.contains_key(h) implies (h as nat)
                    < next by {
                    assert(!objects@.contains_key(h));
                }
            }
            lemma_entries_end(old(self)@, next as nat, self.issued as nat);
        }
        assert(self@.live =~= Map::empty());
        released
    }
}

} // verus!
