//! What holds of every run of a queue: the laws of the fetch/commit protocol.
//!
//! A run is a sequence of events: the queue is asked to issue the command of
//! a slot, or a completion comes back from the ring. The laws follow the
//! queue through a run together with a note, for each slot, of whether a
//! command issued for it has not completed yet.
use vstd::prelude::*;
use crate::io::spec_all_tags;
use crate::io::spec_cmd_done;
use crate::io::spec_cmds_all;
use crate::io::spec_done_tags;
use crate::io::spec_handle_all;
use crate::io::spec_handle_cqe;
use crate::io::spec_issue;
use crate::io::spec_issue_all;
use crate::io::spec_mark_io_done;
use crate::io::spec_new_queue;
use crate::io::spec_next_cmd_op;
use crate::io::spec_queue_io_cmd;
use crate::io::spec_reaped_queue;
use crate::io::UblkCqe;
use crate::io::UblkIOView;
use crate::io::UblkIoCmd;
use crate::io::UblkQueueView;
use crate::io::UBLK_IO_FREE;
use crate::io::UBLK_IO_NEED_COMMIT_RQ_COMP;
use crate::io::UBLK_IO_NEED_FETCH_RQ;
use crate::sys::ublksrv_io_cmd;
use crate::sys::UBLK_IO_COMMIT_AND_FETCH_REQ;
use crate::sys::UBLK_IO_FETCH_REQ;
use crate::sys::UBLK_IO_RES_ABORT;
use crate::user_data::spec_build_user_data;
use crate::user_data::spec_is_target_io;
use crate::user_data::spec_user_data_to_tag;

verus! {

/// The facts on the flag bits that the laws rest on.
proof fn lemma_flag_bits(f: u32)
    by (bit_vector)
    ensures
        f & 4 != 0 ==> f != 0,
        0u32 & 4 == 0,
        (f | (2u32 | 4u32)) & 4 != 0,
        (f | (2u32 | 4u32)) & 2 != 0,
        (f | (2u32 | 4u32)) & 1 == f & 1,
        (1u32 | 4u32) & 4 != 0,
        (1u32 | 4u32) & 2 == 0,
        (1u32 | 4u32) & 1 != 0,
        4u32 & 4 != 0,
        4u32 & 2 == 0,
        4u32 & 1 == 0,
        0u32 & 1 == 0,
        (f & !1u32) & 1 == 0,
        (f | 1) & 1 != 0,
{
}

/// The command of a slot is a function of its flags alone. A slot that was
/// just marked done gets a commit-and-fetch; a fresh slot, free and in need
/// of a fetch, gets a fetch; a slot that is only free gets none, and neither
/// does a slot whose flags are cleared.
pub proof fn lemma_next_cmd_op_cases(io: UblkIOView, res: i32)
    ensures
        spec_next_cmd_op(spec_mark_io_done(io, res).flags) == Some(UBLK_IO_COMMIT_AND_FETCH_REQ),
        spec_next_cmd_op(UBLK_IO_NEED_FETCH_RQ | UBLK_IO_FREE) == Some(UBLK_IO_FETCH_REQ),
        spec_next_cmd_op(UBLK_IO_FREE) == None::<u32>,
        spec_next_cmd_op(0) == None::<u32>,
        spec_next_cmd_op(io.flags) is Some ==> io.flags & UBLK_IO_FREE != 0,
        spec_next_cmd_op(io.flags) == Some(UBLK_IO_FETCH_REQ) ==> io.flags & UBLK_IO_NEED_FETCH_RQ
            != 0 && io.flags & UBLK_IO_NEED_COMMIT_RQ_COMP == 0,
        spec_next_cmd_op(io.flags) == Some(UBLK_IO_COMMIT_AND_FETCH_REQ) ==> io.flags
            & UBLK_IO_NEED_COMMIT_RQ_COMP != 0,
{
    lemma_flag_bits(io.flags);
}

/// A queue and, for each slot, whether a fetch or commit that was issued for
/// it has not completed yet.
pub struct TrackedQueue {
    pub q: UblkQueueView,
    pub outstanding: Seq<bool>,
}

/// What happens to a queue.
pub enum QueueEvent {
    /// The queue is asked to issue the command of slot `tag`.
    Issue { tag: u16 },
    /// A completion is handled; `left` is the slot record as the backend
    /// left it, where the backend was asked.
    Complete { cqe: UblkCqe, left: UblkIOView },
}

/// Number of slots with a command outstanding.
pub open spec fn spec_count(outstanding: Seq<bool>) -> nat
    decreases outstanding.len(),
{
    if outstanding.len() == 0 {
        0
    } else {
        spec_count(outstanding.drop_last()) + if outstanding.last() {
            1nat
        } else {
            0nat
        }
    }
}

/// Exclusion: a slot with a command outstanding has all its flags cleared, so
/// it is not free; and the count of commands in flight is the number of
/// slots with a command outstanding.
pub open spec fn spec_exclusive(t: TrackedQueue) -> bool {
    &&& t.q.wf()
    &&& t.outstanding.len() == t.q.q_depth
    &&& forall|tag: int|
        0 <= tag < t.q.q_depth && #[trigger] t.outstanding[tag] ==> t.q.ios[tag].flags == 0
    &&& t.q.cmd_inflight == spec_count(t.outstanding)
}

/// Whether the event can happen: a tag is that of a slot; the ring completes
/// a fetch or commit only for a slot that has one outstanding; and a backend
/// I/O belongs to a slot that has none.
pub open spec fn spec_event_ok(t: TrackedQueue, e: QueueEvent) -> bool {
    match e {
        QueueEvent::Issue { tag } => tag < t.q.q_depth,
        QueueEvent::Complete { cqe, left } => {
            let tag = spec_user_data_to_tag(cqe.user_data);
            &&& tag < t.q.q_depth
            &&& spec_is_target_io(cqe.user_data) != t.outstanding[tag as int]
        },
    }
}

/// The queue after the event.
pub open spec fn spec_step(t: TrackedQueue, e: QueueEvent) -> TrackedQueue {
    match e {
        QueueEvent::Issue { tag } => TrackedQueue {
            q: spec_issue(t.q, tag),
            outstanding: if spec_queue_io_cmd(t.q, tag) is Some {
                t.outstanding.update(tag as int, true)
            } else {
                t.outstanding
            },
        },
        QueueEvent::Complete { cqe, left } => TrackedQueue {
            q: spec_handle_cqe(t.q, cqe, left),
            outstanding: if spec_is_target_io(cqe.user_data) {
                t.outstanding
            } else {
                t.outstanding.update(spec_user_data_to_tag(cqe.user_data) as int, false)
            },
        },
    }
}

/// Whether the events can happen one after the other, starting from `t`.
pub open spec fn spec_run_ok(t: TrackedQueue, events: Seq<QueueEvent>) -> bool
    decreases events.len(),
{
    events.len() == 0 || (spec_run_ok(t, events.drop_last()) && spec_event_ok(
        spec_run(t, events.drop_last()),
        events.last(),
    ))
}

/// The queue after the events.
pub open spec fn spec_run(t: TrackedQueue, events: Seq<QueueEvent>) -> TrackedQueue
    decreases events.len(),
{
    if events.len() == 0 {
        t
    } else {
        spec_step(spec_run(t, events.drop_last()), events.last())
    }
}

/// A fresh queue with no command outstanding.
pub open spec fn spec_fresh(
    q_id: u16,
    depth: u16,
    io_cmd_buf: u64,
    bufs: Seq<u64>,
) -> TrackedQueue {
    TrackedQueue {
        q: spec_new_queue(q_id, depth, io_cmd_buf, bufs),
        outstanding: Seq::new(depth as nat, |tag: int| false),
    }
}

/// Among slots of which none has a command outstanding, none is counted.
proof fn lemma_count_all_false(n: nat)
    ensures
        spec_count(Seq::new(n, |tag: int| false)) == 0,
    decreases n,
{
    if n > 0 {
        lemma_count_all_false((n - 1) as nat);
        assert(Seq::new(n, |tag: int| false).drop_last() =~= Seq::new(
            (n - 1) as nat,
            |tag: int| false,
        ));
    }
}

/// No more slots are counted than there are.
proof fn lemma_count_bound(s: Seq<bool>)
    ensures
        spec_count(s) <= s.len(),
    decreases s.len(),
{
    if s.len() > 0 {
        lemma_count_bound(s.drop_last());
    }
}

/// Changing the note of one slot changes the count by that slot alone.
proof fn lemma_count_update(s: Seq<bool>, i: int, b: bool)
    requires
        0 <= i < s.len(),
    ensures
        spec_count(s.update(i, b)) == spec_count(s) - (if s[i] {
            1int
        } else {
            0int
        }) + (if b {
            1int
        } else {
            0int
        }),
    decreases s.len(),
{
    if i == s.len() - 1 {
        assert(s.update(i, b).drop_last() =~= s.drop_last());
    } else {
        lemma_count_update(s.drop_last(), i, b);
        assert(s.update(i, b).drop_last() =~= s.drop_last().update(i, b));
    }
}

/// Exclusion holds of a fresh queue.
pub proof fn lemma_fresh_exclusive(q_id: u16, depth: u16, io_cmd_buf: u64, bufs: Seq<u64>)
    ensures
        spec_exclusive(spec_fresh(q_id, depth, io_cmd_buf, bufs)),
{
    lemma_count_all_false(depth as nat);
}

/// No second command for a slot: a queue of which exclusion holds issues a
/// command for a slot only if none is outstanding for it.
pub proof fn lemma_one_command_per_slot(t: TrackedQueue, tag: u16)
    requires
        spec_exclusive(t),
        tag < t.q.q_depth,
    ensures
        spec_queue_io_cmd(t.q, tag) is Some ==> !t.outstanding[tag as int],
{
    lemma_flag_bits(t.q.ios[tag as int].flags);
}

/// The count of commands in flight is the number of slots with a command
/// outstanding: it never exceeds the depth of the queue, so that issuing
/// never overflows it, and it is above zero whenever a completion of a fetch
/// or commit can arrive.
pub proof fn lemma_inflight_counts_outstanding(t: TrackedQueue, tag: u16)
    requires
        spec_exclusive(t),
        tag < t.q.q_depth,
    ensures
        t.q.cmd_inflight <= t.q.q_depth,
        t.q.cmd_inflight < u32::MAX,
        t.outstanding[tag as int] ==> t.q.cmd_inflight > 0,
{
    lemma_count_bound(t.outstanding);
    if t.outstanding[tag as int] {
        lemma_count_update(t.outstanding, tag as int, false);
    }
}

/// Every event that can happen keeps exclusion.
pub proof fn lemma_step_keeps_exclusive(t: TrackedQueue, e: QueueEvent)
    requires
        spec_exclusive(t),
        spec_event_ok(t, e),
    ensures
        spec_exclusive(spec_step(t, e)),
{
    lemma_count_bound(t.outstanding);
    match e {
        QueueEvent::Issue { tag } => {
            lemma_flag_bits(t.q.ios[tag as int].flags);
            if spec_queue_io_cmd(t.q, tag) is Some {
                lemma_count_update(t.outstanding, tag as int, true);
            }
        },
        QueueEvent::Complete { cqe, left } => {
            let tag = spec_user_data_to_tag(cqe.user_data);
            if !spec_is_target_io(cqe.user_data) {
                lemma_count_update(t.outstanding, tag as int, false);
            }
        },
    }
}

/// At most one command per slot, all along a run: whatever events happen to
/// a queue of which exclusion holds, exclusion holds of it afterwards; so at
/// no point of the run is a command issued for a slot that has one outstanding.
pub proof fn lemma_run_keeps_exclusive(t: TrackedQueue, events: Seq<QueueEvent>)
    requires
        spec_exclusive(t),
        spec_run_ok(t, events),
    ensures
        spec_exclusive(spec_run(t, events)),
    decreases events.len(),
{
    if events.len() > 0 {
        lemma_run_keeps_exclusive(t, events.drop_last());
        lemma_step_keeps_exclusive(spec_run(t, events.drop_last()), events.last());
    }
}

/// No need without leave: a slot that is in need of a fetch, or that owes a
/// result, is free to have its command issued.
pub open spec fn spec_needs_are_free(q: UblkQueueView) -> bool {
    forall|tag: int|
        0 <= tag < q.q_depth ==> ((#[trigger] q.ios[tag]).flags & (UBLK_IO_NEED_FETCH_RQ
            | UBLK_IO_NEED_COMMIT_RQ_COMP) != 0 ==> q.ios[tag].flags & UBLK_IO_FREE != 0)
}

/// The facts on the flag bits that `spec_needs_are_free` rests on.
proof fn lemma_need_bits(f: u32)
    by (bit_vector)
    ensures
        f & (1u32 | 2u32) != 0 <==> (f & 1 != 0 || f & 2 != 0),
        (f | (2u32 | 4u32)) & 4 != 0,
        (f & (1u32 | 2u32) != 0 ==> f & 4 != 0) ==> ((f & !1u32) & (1u32 | 2u32) != 0 ==> (f
            & !1u32) & 4 != 0),
        0u32 & (1u32 | 2u32) == 0,
        4u32 & 4 != 0,
        (1u32 | 4u32) & 4 != 0,
{
}

/// The command of a slot goes by its needs: all along a run, whatever the
/// backend does, a slot that owes a result is issued a commit-and-fetch, a
/// slot that is only in need of a fetch is issued a fetch, and a slot that
/// needs neither is issued nothing.
pub proof fn lemma_command_by_need(q: UblkQueueView, tag: u16)
    requires
        q.wf(),
        spec_needs_are_free(q),
        tag < q.q_depth,
    ensures
        ({
            let flags = q.ios[tag as int].flags;
            spec_next_cmd_op(flags) == if flags & UBLK_IO_NEED_COMMIT_RQ_COMP != 0 {
                Some(UBLK_IO_COMMIT_AND_FETCH_REQ)
            } else if flags & UBLK_IO_NEED_FETCH_RQ != 0 {
                Some(UBLK_IO_FETCH_REQ)
            } else {
                None
            }
        }),
{
    lemma_need_bits(q.ios[tag as int].flags);
}

/// A fresh queue has no need without leave.
pub proof fn lemma_fresh_needs_are_free(q_id: u16, depth: u16, io_cmd_buf: u64, bufs: Seq<u64>)
    ensures
        spec_needs_are_free(spec_new_queue(q_id, depth, io_cmd_buf, bufs)),
{
    lemma_need_bits(0);
}

/// No event brings a need without leave, whatever the backend does.
pub proof fn lemma_step_keeps_needs_free(t: TrackedQueue, e: QueueEvent)
    requires
        t.q.wf(),
        spec_needs_are_free(t.q),
        match e {
            QueueEvent::Issue { tag } => tag < t.q.q_depth,
            QueueEvent::Complete { cqe, left } => spec_user_data_to_tag(cqe.user_data)
                < t.q.q_depth,
        },
    ensures
        spec_step(t, e).q.wf(),
        spec_needs_are_free(spec_step(t, e).q),
{
    let s = spec_step(t, e).q;
    let tag = match e {
        QueueEvent::Issue { tag } => tag as int,
        QueueEvent::Complete { cqe, left } => spec_user_data_to_tag(cqe.user_data) as int,
    };
    let booked = match e {
        QueueEvent::Issue { tag } => t.q.ios[tag as int],
        QueueEvent::Complete { cqe, left } => if spec_is_target_io(cqe.user_data) {
            t.q.ios[tag]
        } else {
            spec_cmd_done(t.q, tag as u32, cqe.res).ios[tag]
        },
    };
    lemma_need_bits(t.q.ios[tag].flags);
    lemma_need_bits(booked.flags);
    assert forall|k: int| 0 <= k < s.q_depth implies ((#[trigger] s.ios[k]).flags & (
    UBLK_IO_NEED_FETCH_RQ | UBLK_IO_NEED_COMMIT_RQ_COMP) != 0 ==> s.ios[k].flags & UBLK_IO_FREE
        != 0) by {
        assert(t.q.ios[k].flags & (UBLK_IO_NEED_FETCH_RQ | UBLK_IO_NEED_COMMIT_RQ_COMP) != 0
            ==> t.q.ios[k].flags & UBLK_IO_FREE != 0);
    }
}

/// No need without leave, all along a run.
pub proof fn lemma_run_keeps_needs_free(t: TrackedQueue, events: Seq<QueueEvent>)
    requires
        spec_exclusive(t),
        spec_needs_are_free(t.q),
        spec_run_ok(t, events),
    ensures
        spec_run(t, events).q.wf(),
        spec_needs_are_free(spec_run(t, events).q),
    decreases events.len(),
{
    if events.len() > 0 {
        lemma_run_keeps_needs_free(t, events.drop_last());
        lemma_run_keeps_exclusive(t, events.drop_last());
        lemma_step_keeps_needs_free(spec_run(t, events.drop_last()), events.last());
    }
}

/// Every slot has issued its first fetch: none is in need of a fetch.
pub open spec fn spec_all_fetched(q: UblkQueueView) -> bool {
    forall|tag: int|
        0 <= tag < q.q_depth ==> (#[trigger] q.ios[tag]).flags & UBLK_IO_NEED_FETCH_RQ == 0
}

/// The fetch of slot `tag` of a fresh queue.
pub open spec fn spec_first_fetch(q_id: u16, bufs: Seq<u64>, tag: int) -> UblkIoCmd {
    UblkIoCmd {
        cmd_op: UBLK_IO_FETCH_REQ,
        cmd: ublksrv_io_cmd { q_id, tag: tag as u16, result: -1i32, addr: bufs[tag] },
        user_data: spec_build_user_data(tag as u16, UBLK_IO_FETCH_REQ, 0, false),
    }
}

/// The first batch up to slot `n`: the slots below `n` have issued their
/// fetch, the others are as `new` made them.
proof fn lemma_first_batch_upto(q_id: u16, depth: u16, io_cmd_buf: u64, bufs: Seq<u64>, n: u32)
    requires
        n <= depth,
        bufs.len() == depth,
    ensures
        ({
            let q = spec_new_queue(q_id, depth, io_cmd_buf, bufs);
            let after = spec_issue_all(q, spec_all_tags(n));
            let cmds = spec_cmds_all(q, spec_all_tags(n));
            &&& after.wf()
            &&& after.q_depth == depth
            &&& after.q_id == q_id
            &&& after.io_cmd_buf == io_cmd_buf
            &&& after.q_state == 0
            &&& after.cmd_inflight == n
            &&& cmds.len() == n
            &&& forall|tag: int|
                0 <= tag < depth ==> (#[trigger] after.ios[tag]) == (UblkIOView {
                    buf_addr: bufs[tag],
                    flags: if tag < n {
                        0
                    } else {
                        UBLK_IO_NEED_FETCH_RQ | UBLK_IO_FREE
                    },
                    result: -1i32,
                })
            &&& forall|tag: int|
                0 <= tag < n ==> #[trigger] cmds[tag] == spec_first_fetch(q_id, bufs, tag)
        }),
    decreases n,
{
    if n > 0 {
        lemma_first_batch_upto(q_id, depth, io_cmd_buf, bufs, (n - 1) as u32);
        lemma_flag_bits(0);
        assert(spec_all_tags(n).drop_last() =~= spec_all_tags((n - 1) as u32));
        let q = spec_new_queue(q_id, depth, io_cmd_buf, bufs);
        let before = spec_issue_all(q, spec_all_tags((n - 1) as u32));
        let before_cmds = spec_cmds_all(q, spec_all_tags((n - 1) as u32));
        let after = spec_issue_all(q, spec_all_tags(n));
        let cmds = spec_cmds_all(q, spec_all_tags(n));
        assert(before.ios[n - 1].flags == (UBLK_IO_NEED_FETCH_RQ | UBLK_IO_FREE));
        assert(cmds == before_cmds.push(spec_first_fetch(q_id, bufs, n - 1)));
        assert forall|tag: int| 0 <= tag < depth implies (#[trigger] after.ios[tag]).result
            == -1i32 by {
            assert(before.ios[tag].result == -1i32);
        }
        assert forall|tag: int| 0 <= tag < n implies #[trigger] cmds[tag] == spec_first_fetch(
            q_id,
            bufs,
            tag,
        ) by {
            if tag < n - 1 {
                assert(before_cmds[tag] == spec_first_fetch(q_id, bufs, tag));
            }
        }
    }
}

/// The first batch: on a fresh queue, issuing for every slot issues the fetch
/// of every slot, by rising tag; afterwards every slot has its flags
/// cleared, as many commands are in flight as there are slots, and the queue
/// is not stopping.
pub proof fn lemma_first_batch(q_id: u16, depth: u16, io_cmd_buf: u64, bufs: Seq<u64>)
    requires
        bufs.len() == depth,
    ensures
        ({
            let q = spec_new_queue(q_id, depth, io_cmd_buf, bufs);
            let after = spec_issue_all(q, spec_all_tags(depth as u32));
            let cmds = spec_cmds_all(q, spec_all_tags(depth as u32));
            &&& after.wf()
            &&& after.q_depth == depth
            &&& after.cmd_inflight == depth
            &&& !after.stopping()
            &&& spec_all_fetched(after)
            &&& cmds.len() == depth
            &&& forall|tag: int|
                0 <= tag < depth ==> (#[trigger] after.ios[tag]).flags == 0
                    && after.ios[tag].buf_addr == bufs[tag]
            &&& forall|tag: int|
                0 <= tag < depth ==> #[trigger] cmds[tag] == spec_first_fetch(q_id, bufs, tag)
        }),
{
    lemma_first_batch_upto(q_id, depth, io_cmd_buf, bufs, depth as u32);
    lemma_flag_bits(0);
    let q = spec_new_queue(q_id, depth, io_cmd_buf, bufs);
    let after = spec_issue_all(q, spec_all_tags(depth as u32));
    assert forall|tag: int| 0 <= tag < after.q_depth implies (#[trigger] after.ios[tag]).flags
        & UBLK_IO_NEED_FETCH_RQ == 0 by {
        assert(after.ios[tag].flags == 0);
    }
}

/// Where every slot has issued its first fetch, the command of a slot is
/// never a plain fetch: it is a commit-and-fetch or none.
pub proof fn lemma_no_fetch_left(q: UblkQueueView, tag: u16)
    requires
        q.wf(),
        tag < q.q_depth,
        spec_all_fetched(q),
    ensures
        spec_next_cmd_op(q.ios[tag as int].flags) != Some(UBLK_IO_FETCH_REQ),
        match spec_queue_io_cmd(q, tag) {
            Some(cmd) => cmd.cmd_op == UBLK_IO_COMMIT_AND_FETCH_REQ,
            None => true,
        },
{
}

/// No event gives a slot its need of a fetch back, whatever the backend does.
pub proof fn lemma_step_keeps_all_fetched(t: TrackedQueue, e: QueueEvent)
    requires
        t.q.wf(),
        spec_all_fetched(t.q),
        match e {
            QueueEvent::Issue { tag } => tag < t.q.q_depth,
            QueueEvent::Complete { cqe, left } => spec_user_data_to_tag(cqe.user_data)
                < t.q.q_depth,
        },
    ensures
        spec_step(t, e).q.wf(),
        spec_all_fetched(spec_step(t, e).q),
{
    let s = spec_step(t, e).q;
    let tag = match e {
        QueueEvent::Issue { tag } => tag as int,
        QueueEvent::Complete { cqe, left } => spec_user_data_to_tag(cqe.user_data) as int,
    };
    let booked = match e {
        QueueEvent::Issue { tag } => t.q.ios[tag as int],
        QueueEvent::Complete { cqe, left } => if spec_is_target_io(cqe.user_data) {
            t.q.ios[tag]
        } else {
            spec_cmd_done(t.q, tag as u32, cqe.res).ios[tag]
        },
    };
    lemma_flag_bits(t.q.ios[tag].flags);
    lemma_flag_bits(booked.flags);
    assert forall|k: int| 0 <= k < s.q_depth implies (#[trigger] s.ios[k]).flags
        & UBLK_IO_NEED_FETCH_RQ == 0 by {
        assert(t.q.ios[k].flags & UBLK_IO_NEED_FETCH_RQ == 0);
    }
}

/// A queue that is stopping stays stopping, whatever happens; and the
/// completion of a fetch or commit that the driver aborted leaves the queue
/// stopping.
pub proof fn lemma_stopping_stays(t: TrackedQueue, e: QueueEvent)
    ensures
        t.q.stopping() ==> spec_step(t, e).q.stopping(),
        match e {
            QueueEvent::Issue { tag } => true,
            QueueEvent::Complete { cqe, left } => !spec_is_target_io(cqe.user_data) && cqe.res
                == UBLK_IO_RES_ABORT ==> spec_step(t, e).q.stopping(),
        },
{
    lemma_flag_bits(t.q.q_state);
}

/// No fetch once the queue is stopping: take a queue that is stopping and
/// whose slots have all issued their first fetch. Whatever events happen to
/// it, and whatever the backend does, the queue stays stopping and the
/// command of any slot is never a plain fetch again; a commit-and-fetch may
/// still be issued.
pub proof fn lemma_no_fetch_once_stopping(t: TrackedQueue, events: Seq<QueueEvent>, tag: u16)
    requires
        spec_exclusive(t),
        t.q.stopping(),
        spec_all_fetched(t.q),
        spec_run_ok(t, events),
        tag < t.q.q_depth,
    ensures
        spec_exclusive(spec_run(t, events)),
        spec_run(t, events).q.q_depth == t.q.q_depth,
        spec_run(t, events).q.stopping(),
        spec_all_fetched(spec_run(t, events).q),
        match spec_queue_io_cmd(spec_run(t, events).q, tag) {
            Some(cmd) => cmd.cmd_op == UBLK_IO_COMMIT_AND_FETCH_REQ,
            None => true,
        },
    decreases events.len(),
{
    if events.len() > 0 {
        let prev = spec_run(t, events.drop_last());
        lemma_no_fetch_once_stopping(t, events.drop_last(), tag);
        lemma_step_keeps_exclusive(prev, events.last());
        lemma_step_keeps_all_fetched(prev, events.last());
        lemma_stopping_stays(prev, events.last());
    }
    lemma_no_fetch_left(spec_run(t, events).q, tag);
}

/// The buffer of a slot stays the same all along a run, whatever the backend does.
pub proof fn lemma_run_keeps_buffers(t: TrackedQueue, events: Seq<QueueEvent>, tag: u16)
    requires
        spec_exclusive(t),
        spec_run_ok(t, events),
        tag < t.q.q_depth,
    ensures
        spec_run(t, events).q.q_depth == t.q.q_depth,
        spec_run(t, events).q.q_id == t.q.q_id,
        spec_run(t, events).q.io_cmd_buf == t.q.io_cmd_buf,
        spec_run(t, events).q.ios[tag as int].buf_addr == t.q.ios[tag as int].buf_addr,
    decreases events.len(),
{
    if events.len() > 0 {
        lemma_run_keeps_buffers(t, events.drop_last(), tag);
        lemma_run_keeps_exclusive(t, events.drop_last());
    }
}

/// Asking the queue to issue for the tags of `tags` in turn is the run of
/// the events `Issue` for these tags.
pub open spec fn spec_issue_events(tags: Seq<u16>) -> Seq<QueueEvent> {
    Seq::new(tags.len(), |i: int| QueueEvent::Issue { tag: tags[i] })
}

/// Handling the completions `cqes` in turn is the run of the events
/// `Complete` for them.
pub open spec fn spec_complete_events(
    cqes: Seq<UblkCqe>,
    lefts: Seq<UblkIOView>,
) -> Seq<QueueEvent> {
    Seq::new(cqes.len(), |i: int| QueueEvent::Complete { cqe: cqes[i], left: lefts[i] })
}

/// What `submit_fetch_commands` and the second half of a reap pass do to a
/// queue is a run of `Issue` events.
pub proof fn lemma_issue_all_is_run(t: TrackedQueue, tags: Seq<u16>)
    ensures
        spec_run(t, spec_issue_events(tags)).q == spec_issue_all(t.q, tags),
    decreases tags.len(),
{
    if tags.len() > 0 {
        lemma_issue_all_is_run(t, tags.drop_last());
        assert(spec_issue_events(tags).drop_last() =~= spec_issue_events(tags.drop_last()));
    }
}

/// What the first half of a reap pass does to a queue is a run of `Complete`
/// events.
pub proof fn lemma_handle_all_is_run(t: TrackedQueue, cqes: Seq<UblkCqe>, lefts: Seq<UblkIOView>)
    requires
        lefts.len() == cqes.len(),
    ensures
        spec_run(t, spec_complete_events(cqes, lefts)).q == spec_handle_all(
            t.q,
            cqes,
            lefts,
        ),
    decreases cqes.len(),
{
    if cqes.len() > 0 {
        lemma_handle_all_is_run(t, cqes.drop_last(), lefts.drop_last());
        assert(spec_complete_events(cqes, lefts).drop_last() =~= spec_complete_events(
            cqes.drop_last(),
            lefts.drop_last(),
        ));
    }
}

/// The run of two sequences of events, one after the other, is the run of
/// the second from where the first has led.
pub proof fn lemma_run_append(t: TrackedQueue, first: Seq<QueueEvent>, second: Seq<QueueEvent>)
    ensures
        spec_run(t, first + second) == spec_run(spec_run(t, first), second),
    decreases second.len(),
{
    if second.len() == 0 {
        assert(first + second =~= first);
    } else {
        lemma_run_append(t, first, second.drop_last());
        assert((first + second).drop_last() =~= first + second.drop_last());
        assert((first + second).last() == second.last());
    }
}

/// The events of a reap pass: a `Complete` for each completion, then an
/// `Issue` for each slot that was found done.
pub open spec fn spec_reap_events(
    q: UblkQueueView,
    cqes: Seq<UblkCqe>,
    lefts: Seq<UblkIOView>,
) -> Seq<QueueEvent> {
    spec_complete_events(cqes, lefts) + spec_issue_events(
        spec_done_tags(q, cqes, lefts),
    )
}

/// What a reap pass does to a queue is the run of its events.
pub proof fn lemma_reap_is_run(t: TrackedQueue, cqes: Seq<UblkCqe>, lefts: Seq<UblkIOView>)
    requires
        lefts.len() == cqes.len(),
    ensures
        spec_run(t, spec_reap_events(t.q, cqes, lefts)).q == spec_reaped_queue(
            t.q,
            cqes,
            lefts,
        ),
{
    let completes = spec_complete_events(cqes, lefts);
    let issues = spec_issue_events(spec_done_tags(t.q, cqes, lefts));
    lemma_run_append(t, completes, issues);
    lemma_handle_all_is_run(t, cqes, lefts);
    lemma_issue_all_is_run(spec_run(t, completes), spec_done_tags(t.q, cqes, lefts));
}

} // verus!
