//! What holds of every table, whatever is done to it.

use crate::adapter::destroyed;
use crate::error::BridgeError;
use crate::session::{Event, Phase, SessionView};
use crate::table::{Handle, TableView};
use vstd::prelude::*;

verus! {

/// One operation on a table.
pub enum TableOp {
    Create(u32),
    Read(Handle),
    Write(Handle, u32),
    Destroy(Handle),
}

impl TableOp {
    /// Whether the operation writes or destroys through `handle`.
    pub open spec fn changes(self, handle: Handle) -> bool {
        match self {
            TableOp::Write(h, _) => h == handle,
            TableOp::Destroy(h) => h == handle,
            _ => false,
        }
    }
}

/// The table after one operation. A creation for which no handle is left
/// does not take place.
pub open spec fn apply(table: TableView, op: TableOp) -> TableView {
    match op {
        TableOp::Create(initial) => if table.has_room() {
            table.create(initial)
        } else {
            table
        },
        TableOp::Read(_) => table,
        TableOp::Write(handle, state) => table.write(handle, state),
        TableOp::Destroy(handle) => table.destroy(handle),
    }
}

/// The table after a sequence of operations, first to last.
pub open spec fn run(table: TableView, ops: Seq<TableOp>) -> TableView
    decreases ops.len(),
{
    if ops.len() == 0 {
        table
    } else {
        apply(run(table, ops.drop_last()), ops.last())
    }
}

/// Every operation keeps a table well formed, and takes back no handle.
pub proof fn law_apply_keeps_wf(table: TableView, op: TableOp)
    requires
        table.wf(),
    ensures
        apply(table, op).wf(),
        apply(table, op).issued >= table.issued,
{
}

/// Every sequence of operations keeps a table well formed, and takes back no
/// handle.
pub proof fn law_run_keeps_wf(table: TableView, ops: Seq<TableOp>)
    requires
        table.wf(),
    ensures
        run(table, ops).wf(),
        run(table, ops).issued >= table.issued,
    decreases ops.len(),
{
    if ops.len() > 0 {
        law_run_keeps_wf(table, ops.drop_last());
        law_apply_keeps_wf(run(table, ops.drop_last()), ops.last());
    }
}

/// A state written through a live handle is what every later read of that
/// handle returns, whatever is created, read, written or destroyed in
/// between, until the handle itself is written or destroyed.
pub proof fn law_read_after_write(table: TableView, handle: Handle, state: u32, ops: Seq<TableOp>)
    requires
        table.wf(),
        table.live.contains_key(handle),
        forall|i: int| 0 <= i < ops.len() ==> !(#[trigger] ops[i]).changes(handle),
    ensures
        run(table.write(handle, state), ops).read(handle) == Ok::<u32, BridgeError>(state),
    decreases ops.len(),
{
    let written = table.write(handle, state);
    if ops.len() > 0 {
        let before = ops.drop_last();
        assert forall|i: int| 0 <= i < before.len() implies !(#[trigger] before[i]).changes(
            handle,
        ) by {
            assert(before[i] == ops[i]);
        }
        law_read_after_write(table, handle, state, before);
        law_run_keeps_wf(written, before);
        assert(!ops.last().changes(handle));
    }
}

/// On a handle that is not live, reading, writing and destroying fail with
/// `UnknownHandle` and leave the table as it was.
pub proof fn law_unknown_handle(table: TableView, handle: Handle, state: u32)
    requires
        !table.live.contains_key(handle),
    ensures
        table.read(handle) == Err::<u32, BridgeError>(BridgeError::UnknownHandle(handle)),
        table.write(handle, state) == table,
        table.destroy(handle) == table,
{
    assert(table.live.remove(handle) =~= table.live);
}

/// A handle that is not live stays so through every sequence of operations
/// in which no creation issues it.
pub proof fn law_dead_until_reissued(table: TableView, handle: Handle, ops: Seq<TableOp>)
    requires
        !table.live.contains_key(handle),
        forall|i: int|
            0 <= i < ops.len() && (#[trigger] ops[i]) is Create ==> run(
                table,
                ops.take(i),
            ).fresh() != handle,
    ensures
        !run(table, ops).live.contains_key(handle),
    decreases ops.len(),
{
    if ops.len() > 0 {
        let before = ops.drop_last();
        assert forall|i: int| 0 <= i < before.len() && (#[trigger] before[i]) is Create implies run(
            table,
            before.take(i),
        ).fresh() != handle by {
            assert(before[i] == ops[i]);
            assert(before.take(i) =~= ops.take(i));
        }
        law_dead_until_reissued(table, handle, before);
        assert(ops.take(ops.len() - 1) =~= before);
        assert(ops[ops.len() - 1] == ops.last());
    }
}

/// Once destroyed, a handle is never live again: every later operation on
/// it fails with `UnknownHandle`, since a table issues each handle once.
pub proof fn law_destroyed_stays_dead(table: TableView, handle: Handle, ops: Seq<TableOp>)
    requires
        table.wf(),
        table.live.contains_key(handle),
    ensures
        run(table.destroy(handle), ops).read(handle) == Err::<u32, BridgeError>(
            BridgeError::UnknownHandle(handle),
        ),
    decreases ops.len(),
{
    let destroyed = table.destroy(handle);
    if ops.len() > 0 {
        let before = ops.drop_last();
        law_destroyed_stays_dead(table, handle, before);
        law_run_keeps_wf(destroyed, before);
    }
}

/// The live handles of `table` that lie below `bound`.
pub open spec fn live_below(table: TableView, bound: nat) -> Set<Handle> {
    table.live.dom().filter(|h: Handle| (h as nat) < bound)
}

/// The entries below a bound are as many as the live handles below it, and
/// each of those handles stands among them with its state.
pub proof fn law_entries_below(table: TableView, bound: nat)
    requires
        table.live.dom().finite(),
        bound <= 0x1_0000_0000,
    ensures
        table.entries_below(bound).len() == live_below(table, bound).len(),
        forall|h: Handle|
            table.live.contains_key(h) && (h as nat) < bound ==> table.entries_below(
                bound,
            ).contains((h, #[trigger] table.live[h])),
        forall|i: int|
            0 <= i < table.entries_below(bound).len() ==> {
                let entry = #[trigger] table.entries_below(bound)[i];
                table.live.contains_key(entry.0) && table.live[entry.0] == entry.1 && (
                entry.0 as nat) < bound
            },
    decreases bound,
{
    if bound == 0 {
        assert(live_below(table, bound) =~= Set::empty());
    } else {
        let handle = (bound - 1) as Handle;
        let fewer = (bound - 1) as nat;
        law_entries_below(table, fewer);
        let below = table.entries_below(fewer);
        table.live.dom().lemma_len_filter(|h: Handle| (h as nat) < fewer);
        if table.live.contains_key(handle) {
            assert(live_below(table, bound) =~= live_below(table, fewer).insert(handle));
            assert forall|h: Handle|
                table.live.contains_key(h) && (h as nat) < bound implies table.entries_below(
                bound,
            ).contains((h, #[trigger] table.live[h])) by {
                if h == handle {
                    assert(below.push((handle, table.live[handle]))[below.len() as int] == (
                        handle,
                        table.live[handle],
                    ));
                } else {
                    let i = choose|i: int| 0 <= i < below.len() && below[i] == (h, table.live[h]);
                    assert(below.push((handle, table.live[handle]))[i] == (h, table.live[h]));
                }
            }
        } else {
            assert(live_below(table, bound) =~= live_below(table, fewer));
        }
    }
}

/// Draining a table releases each live object once: the entries are as many
/// as the live objects, every live handle stands among them with the state
/// of its object, and nothing is live in the table after.
pub proof fn law_drain_releases_all(table: TableView)
    requires
        table.wf(),
    ensures
        table.entries().len() == table.live.len(),
        destroyed(table.entries()).len() == table.live.len(),
        forall|h: Handle|
            table.live.contains_key(h) ==> table.entries().contains((h, #[trigger] table.live[h])),
        table.drained().live.len() == 0,
        table.drained().wf(),
{
    law_entries_below(table, table.issued);
    assert(live_below(table, table.issued) =~= table.live.dom());
}

/// However a session ends, nothing is live after: each object that was live
/// is released, and one record is written for each.
pub proof fn law_teardown_releases_all(session: SessionView, event: Event)
    requires
        session.adapter.table.wf(),
        !(session.phase is Terminated),
        session.phase.after(event) is Terminated,
    ensures
        session.step(event).adapter.table.live.len() == 0,
        session.step(event).adapter.audit == session.adapter.audit + destroyed(
            session.adapter.table.entries(),
        ),
        session.step(event).adapter.audit.len() == session.adapter.audit.len()
            + session.adapter.table.live.len(),
{
    law_drain_releases_all(session.adapter.table);
}

/// Nothing follows the end of a session: no event leads out of `Terminated`,
/// and no call creates an object there.
pub proof fn law_terminated_is_final(session: SessionView, event: Event, value: u32)
    requires
        session.phase is Terminated,
    ensures
        session.step(event) == session,
        session.new(value) == session,
        session.new_reply() == Err::<Handle, BridgeError>(BridgeError::GuestTrap),
{
}

/// The guest runs only in a session that was linked and instantiated: from
/// any other phase no single event leads to `Running`, and a failure to link
/// or to instantiate ends the session.
pub proof fn law_guest_runs_only_after_instantiation(phase: Phase, event: Event)
    ensures
        phase.after(event) is Running ==> phase is Running || (phase is Instantiated
            && event is GuestEntered),
        phase is Configured && event is ProviderMissing ==> phase.after(event) is Terminated,
        phase is Linked && event is ModuleRejected ==> phase.after(event) is Terminated,
{
}

/// A session starts out well formed, and every event and every guest call
/// keeps it so: no object is live before the guest runs, and none after.
pub proof fn law_session_keeps_wf(
    session: SessionView,
    event: Event,
    error: BridgeError,
    handle: Handle,
    value: u32,
)
    requires
        session.wf(),
    ensures
        SessionView::configured().wf(),
        session.step(event).wf(),
        session.fail(error).wf(),
        session.new(value).wf(),
        session.set(handle, value).wf(),
        session.drop(handle).wf(),
{
    assert(session.adapter.table.live.remove(handle).dom().finite());
    if !(session.phase is Running) {
        assert(session.adapter.table.live.remove(handle) =~= session.adapter.table.live);
    }
}

/// A call that names a handle which is not live fails with `UnknownHandle`
/// and leaves the session as it was: its phase, its objects, its records.
pub proof fn law_unknown_handle_keeps_session(session: SessionView, handle: Handle, value: u32)
    requires
        !session.adapter.table.live.contains_key(handle),
    ensures
        session.adapter.table.read(handle) == Err::<u32, BridgeError>(
            BridgeError::UnknownHandle(handle),
        ),
        session.adapter.unit_reply(handle) == Err::<(), BridgeError>(
            BridgeError::UnknownHandle(handle),
        ),
        session.set(handle, value) == session,
        session.drop(handle) == session,
{
}

} // verus!
