//! The document is the fold of the log: what the server holds in memory is
//! what a replay of its log would rebuild.

use vstd::prelude::*;
use crate::crdt::model::DocState;
use crate::repository::model::{
    ascending,
    is_max_clock,
    lists_all,
    lists_id,
    record_id,
    stored,
    LogEntries,
};
use crate::sync::operation::{CrdtOperation, StoredOperation};

verus! {

/// Whether `state` is the fold of the log: the replay of every record, by
/// ascending clock, into an empty document.
pub open spec fn folded(log: LogEntries, state: DocState) -> bool {
    forall|listed: Seq<StoredOperation>|
        ascending(listed) && #[trigger] lists_all(log, listed) ==> DocState::empty().replay(listed)
            == state
}

/// Whether a log is one that the sync protocol writes: no two records have
/// the same clock, and no record has the clock zero.
pub open spec fn stamped_apart(log: LogEntries) -> bool {
    &&& forall|a: Seq<char>, b: Seq<char>|
        #[trigger] log.contains_key(a) && #[trigger] log.contains_key(b) && a != b ==> log[a].clock
            != log[b].clock
    &&& forall|id: Seq<char>| #[trigger] log.contains_key(id) ==> log[id].clock > 0
}

/// A record that is stored with a clock above every clock in the log comes
/// last in every listing by ascending clock.
proof fn lemma_newest_is_last(
    before: LogEntries,
    after: LogEntries,
    operation: CrdtOperation,
    clock: u64,
    device: Seq<char>,
    listed: Seq<StoredOperation>,
)
    requires
        stored(before, after, operation, clock, device),
        forall|id: Seq<char>| #[trigger] before.contains_key(id) ==> before[id].clock < clock,
        ascending(listed),
        lists_all(after, listed),
    ensures
        listed.len() > 0,
        listed.last().operation == operation,
        listed.last().clock == clock,
        ascending(listed.drop_last()),
        lists_all(before, listed.drop_last()),
{
    let id = record_id(clock, device, operation.target());
    assert(after.contains_key(id));
    assert(lists_id(listed, id));
    let i = choose|i: int| 0 <= i < listed.len() && (#[trigger] listed[i]).id@ == id;
    assert(listed[i] == after[id]);
    let last = listed.len() - 1;
    if i < last {
        assert(listed[i].clock <= listed[last].clock);
        assert(after.contains_key(listed[last].id@));
        assert(listed[last].id@ != listed[i].id@);
        assert(before.contains_key(listed[last].id@));
        assert(after[listed[last].id@] == before[listed[last].id@]);
    }
    let front = listed.drop_last();
    assert forall|j: int| 0 <= j < front.len() implies before.contains_key(
        (#[trigger] front[j]).id@,
    ) && before[front[j].id@] == front[j] by {
        assert(front[j] == listed[j]);
        assert(listed[j].id@ != listed[last].id@);
        assert(after.contains_key(listed[j].id@));
    }
    assert forall|a: int, b: int| 0 <= a < b < front.len() implies (#[trigger] front[a]).id@ != (
    #[trigger] front[b]).id@ && front[a].clock <= front[b].clock by {
        assert(front[a] == listed[a]);
        assert(front[b] == listed[b]);
    }
    assert forall|key: Seq<char>| #[trigger] before.contains_key(key) implies lists_id(
        front,
        key,
    ) by {
        assert(after.contains_key(key));
        assert(lists_id(listed, key));
        let j = choose|j: int| 0 <= j < listed.len() && (#[trigger] listed[j]).id@ == key;
        assert(j != last);
        assert(front[j].id@ == key);
    }
}

/// Storing a record with a clock above every clock in the log, and
/// applying its operation at that clock, keeps the document the fold of
/// the log.
pub proof fn lemma_fold_step(
    before: LogEntries,
    after: LogEntries,
    state: DocState,
    operation: CrdtOperation,
    clock: u64,
    device: Seq<char>,
)
    requires
        stored(before, after, operation, clock, device),
        forall|id: Seq<char>| #[trigger] before.contains_key(id) ==> before[id].clock < clock,
        folded(before, state),
    ensures
        folded(after, state.apply(operation, clock)),
{
    assert forall|listed: Seq<StoredOperation>|
        ascending(listed) && #[trigger] lists_all(after, listed) implies DocState::empty().replay(
        listed,
    ) == state.apply(operation, clock) by {
        lemma_newest_is_last(before, after, operation, clock, device, listed);
        assert(lists_all(before, listed.drop_last()));
    }
}

/// Storing a record with a clock above zero and above every clock in the
/// log keeps the clocks of the log apart.
pub proof fn lemma_stamp_step(
    before: LogEntries,
    after: LogEntries,
    operation: CrdtOperation,
    clock: u64,
    device: Seq<char>,
)
    requires
        stored(before, after, operation, clock, device),
        forall|id: Seq<char>| #[trigger] before.contains_key(id) ==> before[id].clock < clock,
        clock > 0,
        stamped_apart(before),
    ensures
        stamped_apart(after),
{
    let id = record_id(clock, device, operation.target());
    assert forall|a: Seq<char>, b: Seq<char>|
        #[trigger] after.contains_key(a) && #[trigger] after.contains_key(b) && a
            != b implies after[a].clock != after[b].clock by {
        if a != id {
            assert(before.contains_key(a));
        }
        if b != id {
            assert(before.contains_key(b));
        }
    }
    assert forall|key: Seq<char>| #[trigger] after.contains_key(key) implies after[key].clock
        > 0 by {
        if key != id {
            assert(before.contains_key(key));
        }
    }
}

/// The empty document is the fold of the empty log.
pub proof fn lemma_fold_of_empty_log()
    ensures
        folded(LogEntries::empty(), DocState::empty()),
        stamped_apart(LogEntries::empty()),
{
    assert forall|listed: Seq<StoredOperation>|
        ascending(listed) && #[trigger] lists_all(
            LogEntries::empty(),
            listed,
        ) implies DocState::empty().replay(listed) == DocState::empty() by {
        if listed.len() > 0 {
            assert(LogEntries::empty().contains_key(listed[0].id@));
        }
    }
}

/// A log whose clocks are apart has one listing by ascending clock.
pub proof fn lemma_one_listing(log: LogEntries, a: Seq<StoredOperation>, b: Seq<StoredOperation>)
    requires
        stamped_apart(log),
        ascending(a),
        lists_all(log, a),
        ascending(b),
        lists_all(log, b),
    ensures
        a == b,
    decreases a.len(),
{
    if a.len() == 0 {
        if b.len() > 0 {
            assert(log.contains_key(b[0].id@));
            assert(lists_id(a, b[0].id@));
        }
        assert(a =~= b);
    } else {
        let last_a = a.last();
        assert(log.contains_key(last_a.id@));
        assert(lists_id(b, last_a.id@));
        let j = choose|j: int| 0 <= j < b.len() && (#[trigger] b[j]).id@ == last_a.id@;
        assert(b[j] == last_a);
        let last_b = b.last();
        assert(log.contains_key(last_b.id@));
        assert(lists_id(a, last_b.id@));
        let i = choose|i: int| 0 <= i < a.len() && (#[trigger] a[i]).id@ == last_b.id@;
        assert(a[i] == last_b);
        assert(a[i].clock <= a[a.len() - 1].clock);
        assert(b[j].clock <= b[b.len() - 1].clock);
        assert(last_a.clock == last_b.clock);
        assert(last_a.id@ == last_b.id@);
        let rest = log.remove(last_a.id@);
        lemma_listing_without_last(log, a);
        lemma_listing_without_last(log, b);
        lemma_one_listing(rest, a.drop_last(), b.drop_last());
        assert(a =~= a.drop_last().push(last_a));
        assert(b =~= b.drop_last().push(last_b));
    }
}

/// A listing without its last record lists the log without that record.
proof fn lemma_listing_without_last(log: LogEntries, listed: Seq<StoredOperation>)
    requires
        stamped_apart(log),
        ascending(listed),
        lists_all(log, listed),
        listed.len() > 0,
    ensures
        stamped_apart(log.remove(listed.last().id@)),
        ascending(listed.drop_last()),
        lists_all(log.remove(listed.last().id@), listed.drop_last()),
{
    let last = listed.len() - 1;
    let front = listed.drop_last();
    let rest = log.remove(listed.last().id@);
    assert forall|j: int| 0 <= j < front.len() implies rest.contains_key((#[trigger] front[j]).id@)
        && rest[front[j].id@] == front[j] by {
        assert(front[j] == listed[j]);
        assert(listed[j].id@ != listed[last].id@);
        assert(log.contains_key(listed[j].id@));
    }
    assert forall|x: int, y: int| 0 <= x < y < front.len() implies (#[trigger] front[x]).id@ != (
    #[trigger] front[y]).id@ && front[x].clock <= front[y].clock by {
        assert(front[x] == listed[x]);
        assert(front[y] == listed[y]);
    }
    assert forall|key: Seq<char>| #[trigger] rest.contains_key(key) implies lists_id(front, key) by {
        assert(log.contains_key(key));
        assert(lists_id(listed, key));
        let j = choose|j: int| 0 <= j < listed.len() && (#[trigger] listed[j]).id@ == key;
        assert(front[j].id@ == key);
    }
    assert forall|x: Seq<char>, y: Seq<char>|
        #[trigger] rest.contains_key(x) && #[trigger] rest.contains_key(y) && x
            != y implies rest[x].clock != rest[y].clock by {
        assert(log.contains_key(x) && log.contains_key(y));
    }
    assert forall|key: Seq<char>| #[trigger] rest.contains_key(key) implies rest[key].clock
        > 0 by {
        assert(log.contains_key(key));
    }
}

/// Recovery rebuilds the document: over a log whose clocks are apart, the
/// replay of any listing by ascending clock is the fold of the log.
pub proof fn lemma_replay_is_the_fold(log: LogEntries, listed: Seq<StoredOperation>)
    requires
        stamped_apart(log),
        ascending(listed),
        lists_all(log, listed),
    ensures
        folded(log, DocState::empty().replay(listed)),
{
    assert forall|other: Seq<StoredOperation>|
        ascending(other) && #[trigger] lists_all(log, other) implies DocState::empty().replay(other)
        == DocState::empty().replay(listed) by {
        lemma_one_listing(log, other, listed);
    }
}

/// A log that the protocol has written to has a largest clock above zero
/// unless it is empty.
pub proof fn lemma_zero_means_empty(log: LogEntries)
    requires
        stamped_apart(log),
        is_max_clock(log, 0),
    ensures
        log == LogEntries::empty(),
{
    assert forall|id: Seq<char>| !log.contains_key(id) by {
        if log.contains_key(id) {
            assert(log[id].clock <= 0);
        }
    }
    assert(log =~= LogEntries::empty());
}

} // verus!
