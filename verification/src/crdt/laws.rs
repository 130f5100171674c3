//! What holds of the merge function for every state and every log.

use vstd::prelude::*;
use crate::crdt::model::DocState;
use crate::crdt::records::TabView;
use crate::sync::operation::{CrdtOperation, StoredOperation, TabData};

verus! {

/// A tab that is written and then closed is gone.
pub proof fn lemma_upsert_then_close(
    state: DocState,
    id: String,
    data: TabData,
    closed_at: u64,
    first_clock: u64,
    second_clock: u64,
)
    ensures
        !state.apply(CrdtOperation::UpsertTab { id, data }, first_clock).apply(
            CrdtOperation::CloseTab { id, closed_at },
            second_clock,
        ).tabs.contains_key(id@),
{
}

/// Of two writes of the same tab the later one wins in every field: the
/// state is the one that the later write alone would have left.
pub proof fn lemma_last_upsert_wins(
    state: DocState,
    id: String,
    first: TabData,
    second: TabData,
    first_clock: u64,
    second_clock: u64,
)
    ensures
        state.apply(CrdtOperation::UpsertTab { id, data: first }, first_clock).apply(
            CrdtOperation::UpsertTab { id, data: second },
            second_clock,
        ) == state.apply(CrdtOperation::UpsertTab { id, data: second }, second_clock),
        state.apply(CrdtOperation::UpsertTab { id, data: first }, first_clock).apply(
            CrdtOperation::UpsertTab { id, data: second },
            second_clock,
        ).tabs[id@] == (TabView {
            id: id@,
            window_id: second.window_id@,
            url: second.url@,
            title: second.title@,
            active: second.active,
            index: second.index,
            updated_at: second_clock,
        }),
{
    let once = state.apply(CrdtOperation::UpsertTab { id, data: second }, second_clock);
    let twice = state.apply(CrdtOperation::UpsertTab { id, data: first }, first_clock).apply(
        CrdtOperation::UpsertTab { id, data: second },
        second_clock,
    );
    assert(twice.tabs =~= once.tabs);
}

/// Whether the operation decides alone what the document holds under its
/// target afterwards, whatever it held before: a write or a close of a tab,
/// the tracking or untracking of a window.
pub open spec fn settles(operation: CrdtOperation) -> bool {
    operation is UpsertTab || operation is CloseTab || operation is TrackWindow
        || operation is UntrackWindow
}

/// Whether some operation of the log settles the tab `id`.
pub open spec fn settles_tab(log: Seq<StoredOperation>, id: Seq<char>) -> bool {
    exists|i: int|
        0 <= i < log.len() && settles((#[trigger] log[i]).operation) && log[i].operation.on_tab()
            && log[i].operation.target() == id
}

/// Whether some operation of the log settles the window `id`.
pub open spec fn settles_window(log: Seq<StoredOperation>, id: Seq<char>) -> bool {
    exists|i: int|
        0 <= i < log.len() && settles((#[trigger] log[i]).operation) && !log[i].operation.on_tab()
            && log[i].operation.target() == id
}

/// States that replay reaches from the empty document: every record is
/// filed under its own id and no window counts tabs.
pub open spec fn replayed(state: DocState) -> bool {
    &&& state.keyed_by_id()
    &&& forall|id: Seq<char>| #[trigger]
        state.windows.contains_key(id) ==> state.windows[id].tab_count == 0
}

/// Whether two states hold the same under the tab `id`.
pub open spec fn same_tab(a: DocState, b: DocState, id: Seq<char>) -> bool {
    a.tabs.contains_key(id) == b.tabs.contains_key(id) && (a.tabs.contains_key(id) ==> a.tabs[id]
        == b.tabs[id])
}

/// Whether two states hold the same under the window `id`.
pub open spec fn same_window(a: DocState, b: DocState, id: Seq<char>) -> bool {
    a.windows.contains_key(id) == b.windows.contains_key(id) && (a.windows.contains_key(id)
        ==> a.windows[id] == b.windows[id])
}

/// One operation keeps a state among those that replay reaches.
pub proof fn lemma_apply_keeps_replayed(state: DocState, operation: CrdtOperation, clock: u64)
    requires
        replayed(state),
    ensures
        replayed(state.apply(operation, clock)),
{
}

/// A replay keeps a state among those that replay reaches.
pub proof fn lemma_replay_keeps_replayed(state: DocState, log: Seq<StoredOperation>)
    requires
        replayed(state),
    ensures
        replayed(state.replay(log)),
    decreases log.len(),
{
    if log.len() > 0 {
        lemma_replay_keeps_replayed(state, log.drop_last());
        lemma_apply_keeps_replayed(
            state.replay(log.drop_last()),
            log.last().operation,
            log.last().clock,
        );
    }
}

/// One operation touches nothing but its target, and what it leaves under
/// its target depends only on what was there.
proof fn lemma_apply_local(a: DocState, b: DocState, operation: CrdtOperation, clock: u64)
    requires
        replayed(a),
        replayed(b),
    ensures
        forall|id: Seq<char>|
            (same_tab(a, b, id) || (id == operation.target() && settles(operation)
                && operation.on_tab())) ==> #[trigger] same_tab(
                a.apply(operation, clock),
                b.apply(operation, clock),
                id,
            ),
        forall|id: Seq<char>|
            (same_window(a, b, id) || (id == operation.target() && settles(operation)
                && !operation.on_tab())) ==> #[trigger] same_window(
                a.apply(operation, clock),
                b.apply(operation, clock),
                id,
            ),
        forall|id: Seq<char>|
            !(id == operation.target() && settles(operation) && operation.on_tab()) && !a.tabs.contains_key(
                id,
            ) ==> !(#[trigger] a.apply(operation, clock).tabs.contains_key(id)),
        forall|id: Seq<char>|
            !(id == operation.target() && settles(operation) && !operation.on_tab())
                && !a.windows.contains_key(id) ==> !(#[trigger] a.apply(
                operation,
                clock,
            ).windows.contains_key(id)),
{
}

/// Whatever two documents held before, after the same replay they hold the
/// same under every id that the log settles.
pub proof fn lemma_replay_settles(a: DocState, b: DocState, log: Seq<StoredOperation>)
    requires
        replayed(a),
        replayed(b),
    ensures
        forall|id: Seq<char>| #[trigger]
            settles_tab(log, id) ==> same_tab(a.replay(log), b.replay(log), id),
        forall|id: Seq<char>| #[trigger]
            settles_window(log, id) ==> same_window(a.replay(log), b.replay(log), id),
    decreases log.len(),
{
    if log.len() > 0 {
        let front = log.drop_last();
        let last = log.last();
        lemma_replay_settles(a, b, front);
        lemma_replay_keeps_replayed(a, front);
        lemma_replay_keeps_replayed(b, front);
        lemma_apply_local(a.replay(front), b.replay(front), last.operation, last.clock);
        assert forall|id: Seq<char>| #[trigger] settles_tab(log, id) implies same_tab(
            a.replay(log),
            b.replay(log),
            id,
        ) by {
            let i = choose|i: int|
                0 <= i < log.len() && settles((#[trigger] log[i]).operation)
                    && log[i].operation.on_tab() && log[i].operation.target() == id;
            if i < front.len() {
                assert(front[i] == log[i]);
                assert(settles_tab(front, id));
            }
        }
        assert forall|id: Seq<char>| #[trigger] settles_window(log, id) implies same_window(
            a.replay(log),
            b.replay(log),
            id,
        ) by {
            let i = choose|i: int|
                0 <= i < log.len() && settles((#[trigger] log[i]).operation)
                    && !log[i].operation.on_tab() && log[i].operation.target() == id;
            if i < front.len() {
                assert(front[i] == log[i]);
                assert(settles_window(front, id));
            }
        }
    }
}

/// A replay creates nothing under an id that its log does not settle.
pub proof fn lemma_replay_creates_only_settled(state: DocState, log: Seq<StoredOperation>)
    requires
        replayed(state),
    ensures
        forall|id: Seq<char>|
            !settles_tab(log, id) && !state.tabs.contains_key(id) ==> !(#[trigger] state.replay(
                log,
            ).tabs.contains_key(id)),
        forall|id: Seq<char>|
            !settles_window(log, id) && !state.windows.contains_key(id) ==> !(#[trigger] state.replay(
                log,
            ).windows.contains_key(id)),
    decreases log.len(),
{
    if log.len() > 0 {
        let front = log.drop_last();
        let last = log.last();
        lemma_replay_creates_only_settled(state, front);
        lemma_replay_keeps_replayed(state, front);
        lemma_apply_local(state.replay(front), state.replay(front), last.operation, last.clock);
        assert forall|id: Seq<char>|
            !settles_tab(log, id) && !state.tabs.contains_key(id) implies !(#[trigger] state.replay(
            log,
        ).tabs.contains_key(id)) by {
            if settles_tab(front, id) {
                let i = choose|i: int|
                    0 <= i < front.len() && settles((#[trigger] front[i]).operation)
                        && front[i].operation.on_tab() && front[i].operation.target() == id;
                assert(log[i] == front[i]);
            }
            assert(log[log.len() - 1] == last);
        }
        assert forall|id: Seq<char>|
            !settles_window(log, id) && !state.windows.contains_key(id) implies !(
        #[trigger] state.replay(log).windows.contains_key(id)) by {
            if settles_window(front, id) {
                let i = choose|i: int|
                    0 <= i < front.len() && settles((#[trigger] front[i]).operation)
                        && !front[i].operation.on_tab() && front[i].operation.target() == id;
                assert(log[i] == front[i]);
            }
            assert(log[log.len() - 1] == last);
        }
    }
}

/// Replaying a log into a fresh document, and replaying it into a document
/// that already holds an earlier part of it, end in the same tabs and the
/// same windows.
pub proof fn lemma_replay_over_earlier_part(log: Seq<StoredOperation>, earlier: int)
    requires
        0 <= earlier <= log.len(),
    ensures
        DocState::empty().replay(log.take(earlier)).replay(log) == DocState::empty().replay(log),
{
    let fresh = DocState::empty();
    let part = log.take(earlier);
    let resumed = fresh.replay(part);
    lemma_replay_keeps_replayed(fresh, part);
    lemma_replay_settles(fresh, resumed, log);
    lemma_replay_creates_only_settled(fresh, log);
    lemma_replay_creates_only_settled(fresh, part);
    lemma_replay_creates_only_settled(resumed, log);
    let left = resumed.replay(log);
    let right = fresh.replay(log);
    assert forall|id: Seq<char>| same_tab(left, right, id) by {
        if settles_tab(log, id) {
        } else {
            if settles_tab(part, id) {
                let i = choose|i: int|
                    0 <= i < part.len() && settles((#[trigger] part[i]).operation)
                        && part[i].operation.on_tab() && part[i].operation.target() == id;
                assert(log[i] == part[i]);
            }
            assert(!resumed.tabs.contains_key(id));
            assert(!left.tabs.contains_key(id));
            assert(!right.tabs.contains_key(id));
        }
    }
    assert forall|id: Seq<char>| same_window(left, right, id) by {
        if settles_window(log, id) {
        } else {
            if settles_window(part, id) {
                let i = choose|i: int|
                    0 <= i < part.len() && settles((#[trigger] part[i]).operation)
                        && !part[i].operation.on_tab() && part[i].operation.target() == id;
                assert(log[i] == part[i]);
            }
            assert(!resumed.windows.contains_key(id));
            assert(!left.windows.contains_key(id));
            assert(!right.windows.contains_key(id));
        }
    }
    assert forall|id: Seq<char>| #[trigger]
        left.tabs.dom().contains(id) == right.tabs.dom().contains(id) by {
        assert(same_tab(left, right, id));
    }
    assert forall|id: Seq<char>| #[trigger] left.tabs.dom().contains(id) implies left.tabs[id]
        == right.tabs[id] by {
        assert(same_tab(left, right, id));
    }
    assert forall|id: Seq<char>| #[trigger]
        left.windows.dom().contains(id) == right.windows.dom().contains(id) by {
        assert(same_window(left, right, id));
    }
    assert forall|id: Seq<char>| #[trigger]
        left.windows.dom().contains(id) implies left.windows[id] == right.windows[id] by {
        assert(same_window(left, right, id));
    }
    assert(left.tabs =~= right.tabs);
    assert(left.windows =~= right.windows);
}

/// Replaying the full log a second time into the document that its first
/// replay left changes nothing.
pub proof fn lemma_replay_twice(log: Seq<StoredOperation>)
    ensures
        DocState::empty().replay(log).replay(log) == DocState::empty().replay(log),
{
    assert(log.take(log.len() as int) =~= log);
    lemma_replay_over_earlier_part(log, log.len() as int);
}

} // verus!
