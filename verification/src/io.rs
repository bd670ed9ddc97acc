//! The per-queue dispatch engine: the slot table of one hardware queue and the
//! fetch/commit protocol that keeps the driver supplied with commands.
//!
//! The engine owns no ring. A function that issues commands hands them back
//! for the caller to submit, and the completions that the caller reaps are
//! handed in as plain values.
use vstd::prelude::*;
use crate::dev::UblkDev;
use crate::error::UblkError;
use crate::sys::ublksrv_io_cmd;
use crate::sys::ENODEV;
use crate::sys::UBLKSRV_CMD_BUF_OFFSET;
use crate::sys::UBLK_IO_COMMIT_AND_FETCH_REQ;
use crate::sys::UBLK_IO_DESC_SIZE;
use crate::sys::UBLK_IO_FETCH_REQ;
use crate::sys::UBLK_IO_RES_ABORT;
use crate::sys::UBLK_MAX_QUEUE_DEPTH;
use crate::user_data::build_user_data;
use crate::user_data::is_target_io;
use crate::user_data::spec_build_user_data;
use crate::user_data::spec_is_target_io;
use crate::user_data::spec_user_data_to_tag;
use crate::user_data::user_data_to_tag;
use crate::util::round_up;
use crate::util::spec_is_pow2;
use crate::util::spec_round_up;

verus! {

/// Slot flag: the slot has not asked the driver for a request yet.
pub const UBLK_IO_NEED_FETCH_RQ: u32 = 1;

/// Slot flag: the slot's request is done and its result is owed to the driver.
pub const UBLK_IO_NEED_COMMIT_RQ_COMP: u32 = 2;

/// Slot flag: the slot's next ring command may be issued.
pub const UBLK_IO_FREE: u32 = 4;

/// Queue state: the device is draining; no request shall be fetched any more.
pub const UBLK_QUEUE_STOPPING: u32 = 1;

/// Queue state: the queue has no command in flight.
pub const UBLK_QUEUE_IDLE: u32 = 2;

/// The bookkeeping of one slot of a queue.
#[derive(Debug)]
pub struct UblkIO {
    buf_addr: u64,
    flags: u32,
    result: i32,
}

/// What a slot record holds.
pub struct UblkIOView {
    /// Address of the slot's buffer.
    pub buf_addr: u64,
    /// The slot flags.
    pub flags: u32,
    /// Result of the slot's last request: a byte count, or an error code below zero.
    pub result: i32,
}

impl View for UblkIO {
    type V = UblkIOView;

    closed spec fn view(&self) -> UblkIOView {
        UblkIOView { buf_addr: self.buf_addr, flags: self.flags, result: self.result }
    }
}

/// A command for the ring: what its submission entry carries.
#[derive(Clone, Copy, Debug, PartialEq, Eq, Structural)]
pub struct UblkIoCmd {
    /// `UBLK_IO_FETCH_REQ` or `UBLK_IO_COMMIT_AND_FETCH_REQ`.
    pub cmd_op: u32,
    /// The inline payload.
    pub cmd: ublksrv_io_cmd,
    /// The correlation value.
    pub user_data: u64,
}

/// A completion reaped from the ring.
#[derive(Clone, Copy, Debug, PartialEq, Eq, Structural)]
pub struct UblkCqe {
    /// The correlation value of the command that completed.
    pub user_data: u64,
    /// Its result.
    pub res: i32,
}

/// Whether a slot with these flags counts as done: its result is owed to the
/// driver, or it is free.
pub open spec fn spec_is_done(flags: u32) -> bool {
    flags & (UBLK_IO_NEED_COMMIT_RQ_COMP | UBLK_IO_FREE) != 0
}

/// The command that is issued for a slot with these flags, if any: none
/// unless the slot is free; then a commit-and-fetch if a result is owed,
/// else a fetch if the slot has never fetched, else none.
pub open spec fn spec_next_cmd_op(flags: u32) -> Option<u32> {
    if flags & UBLK_IO_FREE == 0 {
        None
    } else if flags & UBLK_IO_NEED_COMMIT_RQ_COMP != 0 {
        Some(UBLK_IO_COMMIT_AND_FETCH_REQ)
    } else if flags & UBLK_IO_NEED_FETCH_RQ != 0 {
        Some(UBLK_IO_FETCH_REQ)
    } else {
        None
    }
}

/// The slot after its request was completed with `res`.
pub open spec fn spec_mark_io_done(io: UblkIOView, res: i32) -> UblkIOView {
    UblkIOView {
        buf_addr: io.buf_addr,
        flags: io.flags | (UBLK_IO_NEED_COMMIT_RQ_COMP | UBLK_IO_FREE),
        result: res,
    }
}

impl UblkIO {
    /// Whether the slot counts as done.
    pub fn is_done(&self) -> (b: bool)
        ensures
            b == spec_is_done(self@.flags),
    {
        self.flags & (UBLK_IO_NEED_COMMIT_RQ_COMP | UBLK_IO_FREE) != 0
    }

    /// Address of the slot's buffer.
    pub fn buf_addr(&self) -> (a: u64)
        ensures
            a == self@.buf_addr,
    {
        self.buf_addr
    }

    /// The slot flags.
    pub fn flags(&self) -> (f: u32)
        ensures
            f == self@.flags,
    {
        self.flags
    }

    /// Result of the slot's last request.
    pub fn result(&self) -> (r: i32)
        ensures
            r == self@.result,
    {
        self.result
    }
}

/// The backend of a queue: what handles the requests of the driver.
pub trait UblkQueueOps: Sized {
    /// Starts handling the request that the driver delivered for slot `tag`,
    /// whose record is `io`. A backend that is done with the request at once
    /// says so with `UblkQueue::complete_io`; this is all that the queue
    /// takes from `io` afterwards. An error is for a request that is malformed.
    fn queue_io(&self, q: &UblkQueue<'_, Self>, io: &mut UblkIO, tag: u32) -> (r: Result<
        i32,
        UblkError,
    >)
        requires
            q@.wf(),
            tag < q@.q_depth,
            old(io)@ == q@.ios[tag as int],
    ;

    /// Takes the completion of an I/O that the backend issued itself for
    /// slot `tag`, whose record is `io`: its result and its correlation
    /// value. A backend that is done with the request of the slot now says
    /// so with `UblkQueue::complete_io`.
    fn tgt_io_done(
        &self,
        q: &UblkQueue<'_, Self>,
        io: &mut UblkIO,
        tag: u32,
        res: i32,
        user_data: u64,
    )
        requires
            q@.wf(),
            tag < q@.q_depth,
            old(io)@ == q@.ios[tag as int],
    ;
}

/// One hardware queue of a device: its slot table, its count of commands in
/// flight and its state.
pub struct UblkQueue<'a, Q> {
    q_id: u16,
    q_depth: u32,
    io_cmd_buf: u64,
    ops: Q,
    dev: &'a UblkDev,
    cmd_inflight: u32,
    q_state: u32,
    ios: Vec<UblkIO>,
}

/// What a queue holds, but for its backend and its device.
pub struct UblkQueueView {
    /// Index of the queue in its device.
    pub q_id: u16,
    /// Number of slots.
    pub q_depth: u32,
    /// Address at which the descriptor array of the queue is mapped.
    pub io_cmd_buf: u64,
    /// Number of fetch and commit commands that were issued and have not completed.
    pub cmd_inflight: u32,
    /// The queue state bits.
    pub q_state: u32,
    /// The slot records, by tag.
    pub ios: Seq<UblkIOView>,
}

impl UblkQueueView {
    /// There is one record for each slot, and every tag fits in sixteen bits.
    pub open spec fn wf(self) -> bool {
        self.ios.len() == self.q_depth && self.q_depth <= 0xffff
    }

    /// Whether the queue is draining.
    pub open spec fn stopping(self) -> bool {
        self.q_state & UBLK_QUEUE_STOPPING != 0
    }

    /// Whether the queue has drained: it is stopping and no command is in flight.
    pub open spec fn done(self) -> bool {
        self.stopping() && self.cmd_inflight == 0
    }
}

impl<'a, Q> View for UblkQueue<'a, Q> {
    type V = UblkQueueView;

    closed spec fn view(&self) -> UblkQueueView {
        UblkQueueView {
            q_id: self.q_id,
            q_depth: self.q_depth,
            io_cmd_buf: self.io_cmd_buf,
            cmd_inflight: self.cmd_inflight,
            q_state: self.q_state,
            ios: Seq::new(self.ios@.len(), |t: int| self.ios@[t]@),
        }
    }
}

/// A queue as `UblkQueue::new` makes it: every slot free and in need of a
/// fetch, with its buffer and the result -1; nothing in flight; not stopping.
pub open spec fn spec_new_queue(
    q_id: u16,
    depth: u16,
    io_cmd_buf: u64,
    bufs: Seq<u64>,
) -> UblkQueueView {
    UblkQueueView {
        q_id,
        q_depth: depth as u32,
        io_cmd_buf,
        cmd_inflight: 0,
        q_state: 0,
        ios: Seq::new(
            depth as nat,
            |t: int|
                UblkIOView {
                    buf_addr: bufs[t],
                    flags: UBLK_IO_NEED_FETCH_RQ | UBLK_IO_FREE,
                    result: -1i32,
                },
        ),
    }
}

/// The command that `q` issues for slot `tag`, if it issues one.
pub open spec fn spec_queue_io_cmd(q: UblkQueueView, tag: u16) -> Option<UblkIoCmd> {
    let io = q.ios[tag as int];
    match spec_next_cmd_op(io.flags) {
        None => None,
        Some(op) => Some(
            UblkIoCmd {
                cmd_op: op,
                cmd: ublksrv_io_cmd { q_id: q.q_id, tag, result: io.result, addr: io.buf_addr },
                user_data: spec_build_user_data(tag, op, 0, false),
            },
        ),
    }
}

/// The queue after it was asked to issue a command for slot `tag`: where one
/// is issued, the slot's flags are cleared and one more command is in flight.
pub open spec fn spec_issue(q: UblkQueueView, tag: u16) -> UblkQueueView {
    let io = q.ios[tag as int];
    if spec_next_cmd_op(io.flags) is Some {
        UblkQueueView {
            cmd_inflight: (q.cmd_inflight + 1) as u32,
            ios: q.ios.update(
                tag as int,
                UblkIOView { buf_addr: io.buf_addr, flags: 0, result: io.result },
            ),
            ..q
        }
    } else {
        q
    }
}

/// The queue after it was asked, for each tag of `tags` in turn, to issue a command.
pub open spec fn spec_issue_all(q: UblkQueueView, tags: Seq<u16>) -> UblkQueueView
    decreases tags.len(),
{
    if tags.len() == 0 {
        q
    } else {
        spec_issue(spec_issue_all(q, tags.drop_last()), tags.last())
    }
}

/// The commands issued on the way of `spec_issue_all`, in the order of issue.
pub open spec fn spec_cmds_all(q: UblkQueueView, tags: Seq<u16>) -> Seq<UblkIoCmd>
    decreases tags.len(),
{
    if tags.len() == 0 {
        Seq::empty()
    } else {
        let before = spec_issue_all(q, tags.drop_last());
        let cmds = spec_cmds_all(q, tags.drop_last());
        match spec_queue_io_cmd(before, tags.last()) {
            None => cmds,
            Some(cmd) => cmds.push(cmd),
        }
    }
}

/// The tags `0, 1, .., n - 1`.
pub open spec fn spec_all_tags(n: u32) -> Seq<u16> {
    Seq::new(n as nat, |t: int| t as u16)
}

/// Whether the completion is that of a fetch or commit that delivered a
/// request, so that the backend is asked to handle it.
pub open spec fn spec_runs_queue_io(cqe: UblkCqe) -> bool {
    !spec_is_target_io(cqe.user_data) && cqe.res >= 0
}

/// The queue after the fetch or commit of slot `tag` completed with `res`,
/// before the backend is asked anything: one command less is in flight; an
/// abort, or a queue that is stopping already, leaves the queue stopping and
/// the slot without its need to fetch; a result below zero leaves the slot
/// free and nothing else.
pub open spec fn spec_cmd_done(q: UblkQueueView, tag: u32, res: i32) -> UblkQueueView {
    let io = q.ios[tag as int];
    let stop = res == UBLK_IO_RES_ABORT || q.stopping();
    let kept = if stop {
        io.flags & !UBLK_IO_NEED_FETCH_RQ
    } else {
        io.flags
    };
    UblkQueueView {
        cmd_inflight: (q.cmd_inflight - 1) as u32,
        q_state: if stop {
            q.q_state | UBLK_QUEUE_STOPPING
        } else {
            q.q_state
        },
        ios: q.ios.update(
            tag as int,
            UblkIOView {
                buf_addr: io.buf_addr,
                flags: if res >= 0 {
                    kept
                } else {
                    UBLK_IO_FREE
                },
                result: io.result,
            },
        ),
        ..q
    }
}

/// Whether a record with these flags is marked done, as `complete_io` marks it.
pub open spec fn spec_marked_done(flags: u32) -> bool {
    flags & (UBLK_IO_NEED_COMMIT_RQ_COMP | UBLK_IO_FREE) == (UBLK_IO_NEED_COMMIT_RQ_COMP
        | UBLK_IO_FREE)
}

/// What a slot takes from the record that the backend was handed and left
/// behind: where the record is marked done, the mark and the result;
/// nothing else, and nothing where it is not marked.
pub open spec fn spec_take_marks(io: UblkIOView, left: UblkIOView) -> UblkIOView {
    if spec_marked_done(left.flags) {
        spec_mark_io_done(io, left.result)
    } else {
        io
    }
}

/// The queue after the backend was handed the record of slot `tag` and left
/// it as `left`.
pub open spec fn spec_hook_done(q: UblkQueueView, tag: u32, left: UblkIOView) -> UblkQueueView {
    UblkQueueView { ios: q.ios.update(tag as int, spec_take_marks(q.ios[tag as int], left)), ..q }
}

/// The queue after one completion was handled, where `left` is the slot
/// record as the backend left it (it counts only where the backend was asked):
/// the completion of a backend I/O touches nothing but what the slot takes
/// from that record; the completion of a fetch or commit is booked as
/// `spec_cmd_done` says, and where it delivered a request the slot takes
/// from the backend's record afterwards.
pub open spec fn spec_handle_cqe(
    q: UblkQueueView,
    cqe: UblkCqe,
    left: UblkIOView,
) -> UblkQueueView {
    let tag = spec_user_data_to_tag(cqe.user_data);
    if spec_is_target_io(cqe.user_data) {
        spec_hook_done(q, tag, left)
    } else if cqe.res >= 0 {
        spec_hook_done(spec_cmd_done(q, tag, cqe.res), tag, left)
    } else {
        spec_cmd_done(q, tag, cqe.res)
    }
}

/// The queue after the completions `cqes` were handled in turn, `lefts[i]`
/// being the slot record that the backend left at the `i`-th of them.
pub open spec fn spec_handle_all(
    q: UblkQueueView,
    cqes: Seq<UblkCqe>,
    lefts: Seq<UblkIOView>,
) -> UblkQueueView
    decreases cqes.len(),
{
    if cqes.len() == 0 {
        q
    } else {
        spec_handle_cqe(
            spec_handle_all(q, cqes.drop_last(), lefts.drop_last()),
            cqes.last(),
            lefts.last(),
        )
    }
}

/// The tags of the slots that were found done right after their completion
/// was handled, in the order of the completions.
pub open spec fn spec_done_tags(
    q: UblkQueueView,
    cqes: Seq<UblkCqe>,
    lefts: Seq<UblkIOView>,
) -> Seq<u16>
    decreases cqes.len(),
{
    if cqes.len() == 0 {
        Seq::empty()
    } else {
        let tags = spec_done_tags(q, cqes.drop_last(), lefts.drop_last());
        let now = spec_handle_all(q, cqes, lefts);
        let tag = spec_user_data_to_tag(cqes.last().user_data);
        if spec_is_done(now.ios[tag as int].flags) {
            tags.push(tag as u16)
        } else {
            tags
        }
    }
}

/// Number of completions of fetch and commit commands among `cqes`.
pub open spec fn spec_count_cmd_cqes(cqes: Seq<UblkCqe>) -> nat
    decreases cqes.len(),
{
    if cqes.len() == 0 {
        0
    } else {
        spec_count_cmd_cqes(cqes.drop_last()) + if spec_is_target_io(cqes.last().user_data) {
            0nat
        } else {
            1nat
        }
    }
}

/// Whether the completions `cqes` can be reaped by `q`: each is for a slot of
/// the queue, no more fetch and commit commands complete than are in flight,
/// and the count of commands in flight stays within 32 bits whatever is
/// issued again.
pub open spec fn spec_can_reap(q: UblkQueueView, cqes: Seq<UblkCqe>) -> bool {
    &&& forall|i: int|
        0 <= i < cqes.len() ==> spec_user_data_to_tag(#[trigger] cqes[i].user_data) < q.q_depth
    &&& spec_count_cmd_cqes(cqes) <= q.cmd_inflight
    &&& q.cmd_inflight + cqes.len() <= u32::MAX
}

/// The queue after a reap pass over `cqes`: every completion handled, then
/// the next command issued for every slot that was found done.
pub open spec fn spec_reaped_queue(
    q: UblkQueueView,
    cqes: Seq<UblkCqe>,
    lefts: Seq<UblkIOView>,
) -> UblkQueueView {
    spec_issue_all(spec_handle_all(q, cqes, lefts), spec_done_tags(q, cqes, lefts))
}

/// The commands that a reap pass over `cqes` issues.
pub open spec fn spec_reaped_cmds(
    q: UblkQueueView,
    cqes: Seq<UblkCqe>,
    lefts: Seq<UblkIOView>,
) -> Seq<UblkIoCmd> {
    spec_cmds_all(spec_handle_all(q, cqes, lefts), spec_done_tags(q, cqes, lefts))
}

/// What a reap pass hands back.
#[derive(Debug)]
pub struct UblkReaped {
    /// Number of completions handled.
    pub count: usize,
    /// The commands issued in the pass, for the caller to submit.
    pub cmds: Vec<UblkIoCmd>,
}

/// Size in bytes of the mapping that holds the descriptor array of a queue
/// with `depth` slots, on a machine with pages of `page_sz` bytes: the size
/// of the array, rounded up to whole pages where `page_sz` is a power of two.
pub fn cmd_buf_sz(depth: u32, page_sz: u32) -> (size: u32)
    requires
        page_sz >= 1,
        depth * UBLK_IO_DESC_SIZE + page_sz - 1 <= u32::MAX,
    ensures
        size == spec_round_up((depth * UBLK_IO_DESC_SIZE) as u32, page_sz),
        spec_is_pow2(page_sz) ==> size % page_sz == 0 && depth * UBLK_IO_DESC_SIZE <= size < depth
            * UBLK_IO_DESC_SIZE + page_sz,
{
    let size: u32 = depth * UBLK_IO_DESC_SIZE;
    round_up(size, page_sz)
}

/// Offset in the character device at which the descriptor array of queue
/// `q_id` starts: the arrays lie one fixed stride apart.
pub fn cmd_buf_off(q_id: u16) -> (off: i64)
    ensures
        off == UBLKSRV_CMD_BUF_OFFSET + q_id * (UBLK_MAX_QUEUE_DEPTH * UBLK_IO_DESC_SIZE),
{
    let stride: i64 = (UBLK_MAX_QUEUE_DEPTH as i64) * (UBLK_IO_DESC_SIZE as i64);
    UBLKSRV_CMD_BUF_OFFSET as i64 + q_id as i64 * stride
}

impl<'a, Q: UblkQueueOps> UblkQueue<'a, Q> {
    /// Makes the queue `q_id` of `dev`. `io_cmd_buf` is the address at which
    /// the descriptor array of the queue was mapped, or `None` where mapping
    /// it failed; `bufs` holds the address of one buffer for each slot.
    pub fn new(
        ops: Q,
        q_id: u16,
        dev: &'a UblkDev,
        io_cmd_buf: Option<u64>,
        bufs: Vec<u64>,
    ) -> (r: Result<UblkQueue<'a, Q>, UblkError>)
        ensures
            match r {
                Ok(q) => io_cmd_buf is Some && bufs@.len() == dev.dev_info.queue_depth && q@
                    == spec_new_queue(q_id, dev.dev_info.queue_depth, io_cmd_buf->0, bufs@)
                    && q@.wf() && q.spec_dev() == dev && q.spec_ops() == ops,
                Err(e) => if io_cmd_buf is None {
                    e == UblkError::MapFailed
                } else {
                    bufs@.len() != dev.dev_info.queue_depth && e == UblkError::BufferCount
                },
            },
    {
        let depth: u32 = dev.dev_info.queue_depth as u32;
        let io_cmd_buf: u64 = match io_cmd_buf {
            Some(addr) => addr,
            None => {
                return Err(UblkError::MapFailed);
            },
        };
        if bufs.len() != depth as usize {
            return Err(UblkError::BufferCount);
        }
        let mut ios: Vec<UblkIO> = Vec::with_capacity(depth as usize);
        let mut t: usize = 0;
        while t < depth as usize
            invariant
                t <= depth,
                bufs@.len() == depth,
                ios@.len() == t,
                forall|j: int|
                    0 <= j < t ==> (#[trigger] ios@[j])@ == (UblkIOView {
                        buf_addr: bufs@[j],
                        flags: UBLK_IO_NEED_FETCH_RQ | UBLK_IO_FREE,
                        result: -1i32,
                    }),
            decreases depth - t,
        {
            ios.push(
                UblkIO {
                    buf_addr: bufs[t],
                    flags: UBLK_IO_NEED_FETCH_RQ | UBLK_IO_FREE,
                    result: -1,
                },
            );
            t = t + 1;
        }
        let q = UblkQueue {
            q_id,
            q_depth: depth,
            io_cmd_buf,
            ops,
            dev,
            cmd_inflight: 0,
            q_state: 0,
            ios,
        };
        assert(q@.ios =~= spec_new_queue(q_id, dev.dev_info.queue_depth, io_cmd_buf, bufs@).ios);
        Ok(q)
    }

    /// The device of the queue.
    pub closed spec fn spec_dev(&self) -> &'a UblkDev {
        self.dev
    }

    /// The backend of the queue.
    pub closed spec fn spec_ops(&self) -> Q {
        self.ops
    }

    /// The device of the queue.
    pub fn dev(&self) -> (dev: &'a UblkDev)
        ensures
            dev == self.spec_dev(),
    {
        self.dev
    }

    /// Index of the queue in its device.
    pub fn q_id(&self) -> (q_id: u16)
        ensures
            q_id == self@.q_id,
    {
        self.q_id
    }

    /// Number of slots of the queue.
    pub fn q_depth(&self) -> (q_depth: u32)
        ensures
            q_depth == self@.q_depth,
    {
        self.q_depth
    }

    /// Number of fetch and commit commands in flight.
    pub fn cmd_inflight(&self) -> (n: u32)
        ensures
            n == self@.cmd_inflight,
    {
        self.cmd_inflight
    }

    /// The queue state bits.
    pub fn q_state(&self) -> (state: u32)
        ensures
            state == self@.q_state,
    {
        self.q_state
    }

    /// The record of slot `tag`.
    pub fn io(&self, tag: u16) -> (io: &UblkIO)
        requires
            self@.wf(),
            tag < self@.q_depth,
        ensures
            io@ == self@.ios[tag as int],
    {
        &self.ios[tag as usize]
    }

    /// Marks the request of a slot as completed with `res`: its result is
    /// owed to the driver, and the slot's next command may be issued.
    fn mark_io_done(&self, io: &mut UblkIO, _tag: u16, res: i32)
        ensures
            final(io)@ == spec_mark_io_done(old(io)@, res),
    {
        io.flags = io.flags | (UBLK_IO_NEED_COMMIT_RQ_COMP | UBLK_IO_FREE);
        io.result = res;
    }

    /// Address of the request descriptor of slot `idx` in the mapped array.
    pub fn get_iod(&self, idx: u32) -> (addr: u64)
        requires
            self@.io_cmd_buf + idx * UBLK_IO_DESC_SIZE <= u64::MAX,
        ensures
            addr == self@.io_cmd_buf + idx * UBLK_IO_DESC_SIZE,
    {
        self.io_cmd_buf + idx as u64 * 24
    }

    /// Chooses and builds the command to issue for slot `tag`: a
    /// commit-and-fetch where a result is owed, else a fetch where the slot
    /// has never fetched; none where the slot is not free or needs neither.
    pub fn __queue_io_cmd(&self, tag: u16) -> (cmd: Option<UblkIoCmd>)
        requires
            self@.wf(),
            tag < self@.q_depth,
        ensures
            cmd == spec_queue_io_cmd(self@, tag),
    {
        let io = &self.ios[tag as usize];
        let cmd_op: u32;
        if (io.flags & UBLK_IO_FREE) == 0 {
            return None;
        }
        if (io.flags & UBLK_IO_NEED_COMMIT_RQ_COMP) != 0 {
            cmd_op = UBLK_IO_COMMIT_AND_FETCH_REQ;
        } else if (io.flags & UBLK_IO_NEED_FETCH_RQ) != 0 {
            cmd_op = UBLK_IO_FETCH_REQ;
        } else {
            return None;
        }
        let cmd = ublksrv_io_cmd { tag, addr: io.buf_addr, q_id: self.q_id, result: io.result };
        let data = build_user_data(tag, cmd_op, 0, false);
        Some(UblkIoCmd { cmd_op, cmd, user_data: data })
    }

    /// Issues the command that slot `tag` is due, if any, and hands it back
    /// for submission. Issuing clears the slot's flags, so that no second
    /// command is issued for the slot before this one has completed.
    pub fn queue_io_cmd(&mut self, tag: u16) -> (cmd: Option<UblkIoCmd>)
        requires
            old(self)@.wf(),
            tag < old(self)@.q_depth,
            old(self)@.cmd_inflight < u32::MAX,
        ensures
            cmd == spec_queue_io_cmd(old(self)@, tag),
            final(self)@ == spec_issue(old(self)@, tag),
            final(self)@.wf(),
            final(self).spec_dev() == old(self).spec_dev(),
            final(self).spec_ops() == old(self).spec_ops(),
    {
        let res = self.__queue_io_cmd(tag);
        if res.is_some() {
            self.cmd_inflight = self.cmd_inflight + 1;
            self.ios[tag as usize].flags = 0;
        }
        assert(self@.ios =~= spec_issue(old(self)@, tag).ios);
        res
    }

    /// Whether no command is in flight.
    pub fn queue_is_idle(&self) -> (b: bool)
        ensures
            b == (self@.cmd_inflight == 0),
    {
        self.cmd_inflight == 0
    }

    /// Whether the queue has drained: it is stopping and no command is in flight.
    pub fn queue_is_done(&self) -> (b: bool)
        ensures
            b == self@.done(),
    {
        (self.q_state & UBLK_QUEUE_STOPPING) != 0 && self.queue_is_idle()
    }

    /// Completes the request of a slot with `res`, a byte count or an error
    /// code below zero: the result is owed to the driver from now on, and the
    /// slot's next command may be issued.
    pub fn complete_io(&self, io: &mut UblkIO, tag: u16, res: i32)
        ensures
            final(io)@ == spec_mark_io_done(old(io)@, res),
    {
        self.mark_io_done(io, tag, res);
    }

    /// Issues the first command of every slot and hands the commands back for
    /// submission. On a queue fresh from `new` these are the fetches of all
    /// slots, by rising tag.
    pub fn submit_fetch_commands(&mut self) -> (cmds: Vec<UblkIoCmd>)
        requires
            old(self)@.wf(),
            old(self)@.cmd_inflight + old(self)@.q_depth <= u32::MAX,
        ensures
            final(self)@ == spec_issue_all(old(self)@, spec_all_tags(old(self)@.q_depth)),
            cmds@ == spec_cmds_all(old(self)@, spec_all_tags(old(self)@.q_depth)),
            final(self)@.wf(),
            final(self).spec_dev() == old(self).spec_dev(),
            final(self).spec_ops() == old(self).spec_ops(),
    {
        let mut cmds: Vec<UblkIoCmd> = Vec::new();
        let mut i: u32 = 0;
        let depth: u32 = self.q_depth;
        while i < depth
            invariant
                i <= depth,
                depth == old(self)@.q_depth,
                self@.wf(),
                self@.q_depth == depth,
                self.spec_dev() == old(self).spec_dev(),
                self.spec_ops() == old(self).spec_ops(),
                old(self)@.cmd_inflight + depth <= u32::MAX,
                self@.cmd_inflight <= old(self)@.cmd_inflight + i,
                self@ == spec_issue_all(old(self)@, spec_all_tags(i)),
                cmds@ == spec_cmds_all(old(self)@, spec_all_tags(i)),
            decreases depth - i,
        {
            proof {
                assert(spec_all_tags((i + 1) as u32).drop_last() =~= spec_all_tags(i));
                assert(spec_all_tags((i + 1) as u32).last() == i as u16);
            }
            let cmd = self.queue_io_cmd(i as u16);
            match cmd {
                Some(c) => {
                    cmds.push(c);
                },
                None => {},
            }
            i = i + 1;
        }
        cmds
    }

    /// A copy of the record of slot `tag`, to hand to the backend.
    fn lend_io(&self, tag: u32) -> (io: UblkIO)
        requires
            self@.wf(),
            tag < self@.q_depth,
        ensures
            io@ == self@.ios[tag as int],
    {
        let t = tag as usize;
        UblkIO {
            buf_addr: self.ios[t].buf_addr,
            flags: self.ios[t].flags,
            result: self.ios[t].result,
        }
    }

    /// Takes from the record `left`, as the backend left it, what slot `tag`
    /// takes from it: the mark that the request is done, with the result.
    fn take_marks(&mut self, tag: u32, left: &UblkIO)
        requires
            old(self)@.wf(),
            tag < old(self)@.q_depth,
        ensures
            final(self)@ == spec_hook_done(old(self)@, tag, left@),
            final(self)@ == spec_hook_done(old(self)@, tag, final(self)@.ios[tag as int]),
            final(self)@.wf(),
            final(self).spec_dev() == old(self).spec_dev(),
            final(self).spec_ops() == old(self).spec_ops(),
    {
        let t = tag as usize;
        let ghost had = self.ios[t as int].flags;
        let done: u32 = UBLK_IO_NEED_COMMIT_RQ_COMP | UBLK_IO_FREE;
        if left.flags & done == done {
            self.ios[t].flags = self.ios[t].flags | done;
            self.ios[t].result = left.result;
        }
        assert((had | 6u32) & 6u32 == 6u32 && (had & 6u32 == 6u32 ==> had | 6u32 == had))
            by (bit_vector);
        assert(2u32 | 4u32 == 6u32) by (bit_vector);
        assert(self@.ios =~= spec_hook_done(old(self)@, tag, left@).ios);
        assert(self@.ios =~= spec_hook_done(old(self)@, tag, self@.ios[tag as int]).ios);
    }

    /// Hands the completion of a backend I/O to the backend, with the record
    /// of the slot it belongs to. The queue's own bookkeeping is not touched,
    /// but for what the slot takes from the record afterwards.
    fn handle_tgt_cqe(&mut self, res: i32, data: u64)
        requires
            old(self)@.wf(),
            spec_user_data_to_tag(data) < old(self)@.q_depth,
        ensures
            final(self)@ == spec_hook_done(
                old(self)@,
                spec_user_data_to_tag(data),
                final(self)@.ios[spec_user_data_to_tag(data) as int],
            ),
            final(self)@.wf(),
            final(self).spec_dev() == old(self).spec_dev(),
            final(self).spec_ops() == old(self).spec_ops(),
    {
        let tag = user_data_to_tag(data);
        let mut io = self.lend_io(tag);
        self.ops.tgt_io_done(&*self, &mut io, tag, res, data);
        self.take_marks(tag, &io);
    }

    /// Books the completion of the fetch or commit of slot `tag`, as
    /// `spec_cmd_done` says, and tells whether it delivered a request.
    fn cmd_done(&mut self, tag: u32, res: i32) -> (delivered: bool)
        requires
            old(self)@.wf(),
            tag < old(self)@.q_depth,
            old(self)@.cmd_inflight > 0,
        ensures
            final(self)@ == spec_cmd_done(old(self)@, tag, res),
            delivered == (res >= 0),
            final(self)@.wf(),
            final(self).spec_dev() == old(self).spec_dev(),
            final(self).spec_ops() == old(self).spec_ops(),
    {
        let t = tag as usize;
        self.cmd_inflight = self.cmd_inflight - 1;
        if res == UBLK_IO_RES_ABORT || ((self.q_state & UBLK_QUEUE_STOPPING) != 0) {
            self.q_state = self.q_state | UBLK_QUEUE_STOPPING;
            self.ios[t].flags = self.ios[t].flags & !UBLK_IO_NEED_FETCH_RQ;
        }
        if res < 0 {
            self.ios[t].flags = UBLK_IO_FREE;
        }
        assert(self@.ios =~= spec_cmd_done(old(self)@, tag, res).ios);
        res >= 0
    }

    /// Handles one completion. That of a backend I/O goes to the backend's
    /// `tgt_io_done`. That of a fetch or commit is booked, and where it
    /// delivered a request the backend's `queue_io` is asked to handle it; an
    /// error of the backend is handed on. What the backend left in the record
    /// of the slot can be read off the slot afterwards: it is marked done with
    /// the backend's result, or it is as it was booked.
    pub fn handle_cqe(&mut self, e: &UblkCqe) -> (r: Result<(), UblkError>)
        requires
            old(self)@.wf(),
            spec_user_data_to_tag(e.user_data) < old(self)@.q_depth,
            !spec_is_target_io(e.user_data) ==> old(self)@.cmd_inflight > 0,
        ensures
            final(self)@ == spec_handle_cqe(
                old(self)@,
                *e,
                final(self)@.ios[spec_user_data_to_tag(e.user_data) as int],
            ),
            r is Err ==> spec_runs_queue_io(*e),
            final(self)@.wf(),
            final(self).spec_dev() == old(self).spec_dev(),
            final(self).spec_ops() == old(self).spec_ops(),
    {
        let data = e.user_data;
        let res = e.res;
        let tag = user_data_to_tag(data);
        if is_target_io(data) {
            self.handle_tgt_cqe(res, data);
            return Ok(());
        }
        let delivered = self.cmd_done(tag, res);
        if delivered {
            let mut io = self.lend_io(tag);
            let r = self.ops.queue_io(&*self, &mut io, tag);
            self.take_marks(tag, &io);
            match r {
                Ok(_) => Ok(()),
                Err(err) => Err(err),
            }
        } else {
            assert(self@.ios =~= spec_handle_cqe(old(self)@, *e, self@.ios[tag as int]).ios);
            Ok(())
        }
    }

    /// Says whether the worker of the queue is finished. `sq_is_empty` tells
    /// whether nothing waits for submission. The answer is `Some` of the "no
    /// such device" code below zero exactly if the queue is stopping, no
    /// command is in flight and nothing waits for submission; else it is
    /// `None`, and the worker submits, waits for a completion and reaps.
    pub fn process_io(&self, sq_is_empty: bool) -> (r: Option<i32>)
        ensures
            r == if self@.done() && sq_is_empty {
                Some((-ENODEV) as i32)
            } else {
                None
            },
    {
        if self.queue_is_done() {
            if sq_is_empty {
                return Some(-ENODEV);
            }
        }
        None
    }

    /// Whether the completions `cqes` can be reaped: what `reap_events_uring`
    /// asks of them.
    pub fn can_reap(&self, cqes: &Vec<UblkCqe>) -> (b: bool)
        requires
            self@.wf(),
        ensures
            b == spec_can_reap(self@, cqes@),
    {
        let n = cqes.len();
        if n > u32::MAX as usize || self.cmd_inflight > u32::MAX - n as u32 {
            return false;
        }
        let mut cmds: usize = 0;
        let mut i: usize = 0;
        while i < n
            invariant
                n == cqes@.len(),
                i <= n,
                cmds <= i,
                cmds == spec_count_cmd_cqes(cqes@.take(i as int)),
                forall|j: int|
                    0 <= j < i ==> spec_user_data_to_tag(#[trigger] cqes@[j].user_data)
                        < self@.q_depth,
            decreases n - i,
        {
            proof {
                assert(cqes@.take(i as int + 1).drop_last() =~= cqes@.take(i as int));
            }
            if user_data_to_tag(cqes[i].user_data) >= self.q_depth {
                return false;
            }
            if !is_target_io(cqes[i].user_data) {
                cmds = cmds + 1;
            }
            i = i + 1;
        }
        assert(cqes@.take(n as int) =~= cqes@);
        cmds <= self.cmd_inflight as usize
    }

    /// One reap pass: handles the completions in turn, then issues the next
    /// command of every slot that was found done right after its completion
    /// was handled, and hands those commands back for submission, with the
    /// count of completions. An error of the backend ends the pass at once:
    /// the completions up to that one are handled then, and nothing is issued.
    pub fn reap_events_uring(&mut self, cqes: &Vec<UblkCqe>) -> (r: Result<UblkReaped, UblkError>)
        requires
            old(self)@.wf(),
            spec_can_reap(old(self)@, cqes@),
        ensures
            final(self)@.wf(),
            final(self).spec_dev() == old(self).spec_dev(),
            final(self).spec_ops() == old(self).spec_ops(),
            match r {
                Ok(reaped) => reaped.count == cqes@.len() && exists|lefts: Seq<UblkIOView>|
                    lefts.len() == cqes@.len() && final(self)@ == #[trigger] spec_reaped_queue(
                        old(self)@,
                        cqes@,
                        lefts,
                    ) && reaped.cmds@ == spec_reaped_cmds(old(self)@, cqes@, lefts),
                Err(_) => exists|k: int, lefts: Seq<UblkIOView>|
                    0 <= k < cqes@.len() && spec_runs_queue_io(cqes@[k]) && lefts.len() == k + 1
                        && final(self)@ == #[trigger] spec_handle_all(
                        old(self)@,
                        cqes@.take(k + 1),
                        lefts,
                    ),
            },
    {
        let mut count: usize = 0;
        let mut done: Vec<u16> = Vec::with_capacity(32);
        let ghost mut lefts: Seq<UblkIOView> = Seq::empty();
        let n = cqes.len();
        while count < n
            invariant
                n == cqes@.len(),
                count <= n,
                self@.wf(),
                self@.q_depth == old(self)@.q_depth,
                self.spec_dev() == old(self).spec_dev(),
                self.spec_ops() == old(self).spec_ops(),
                forall|i: int|
                    0 <= i < cqes@.len() ==> spec_user_data_to_tag(#[trigger] cqes@[i].user_data)
                        < old(self)@.q_depth,
                spec_count_cmd_cqes(cqes@) <= old(self)@.cmd_inflight,
                lefts.len() == count,
                self@ == spec_handle_all(old(self)@, cqes@.take(count as int), lefts),
                done@ == spec_done_tags(old(self)@, cqes@.take(count as int), lefts),
                done@.len() <= count,
                forall|j: int| 0 <= j < done@.len() ==> #[trigger] done@[j] < old(self)@.q_depth,
                self@.cmd_inflight == old(self)@.cmd_inflight - spec_count_cmd_cqes(
                    cqes@.take(count as int),
                ),
            decreases n - count,
        {
            let cqe = cqes[count];
            let data = cqe.user_data;
            proof {
                lemma_count_cmd_cqes_take(cqes@, count as int + 1);
                assert(cqes@.take(count as int + 1).drop_last() =~= cqes@.take(count as int));
                assert(cqes@.take(count as int + 1).last() == cqe);
            }
            let handled = self.handle_cqe(&cqe);
            let tag = user_data_to_tag(data);
            proof {
                let before = lefts;
                lefts = lefts.push(self@.ios[tag as int]);
                assert(lefts.drop_last() =~= before);
            }
            match handled {
                Ok(_) => {},
                Err(err) => {
                    proof {
                        assert(spec_runs_queue_io(cqes@[count as int]));
                        assert(self@ == spec_handle_all(
                            old(self)@,
                            cqes@.take(count as int + 1),
                            lefts,
                        ));
                    }
                    return Err(err);
                },
            }
            count = count + 1;
            if self.ios[tag as usize].is_done() {
                done.push(tag as u16);
            }
        }
        assert(cqes@.take(count as int) =~= cqes@);
        let ghost handled = self@;
        let ghost tags = done@;
        let mut cmds: Vec<UblkIoCmd> = Vec::new();
        let m = done.len();
        let mut j: usize = 0;
        while j < m
            invariant
                m == done@.len(),
                j <= m,
                tags == done@,
                self@.wf(),
                self@.q_depth == old(self)@.q_depth,
                self.spec_dev() == old(self).spec_dev(),
                self.spec_ops() == old(self).spec_ops(),
                forall|k: int| 0 <= k < done@.len() ==> #[trigger] done@[k] < old(self)@.q_depth,
                handled.cmd_inflight + m <= u32::MAX,
                self@.cmd_inflight <= handled.cmd_inflight + j,
                self@ == spec_issue_all(handled, tags.take(j as int)),
                cmds@ == spec_cmds_all(handled, tags.take(j as int)),
            decreases m - j,
        {
            proof {
                assert(tags.take(j as int + 1).drop_last() =~= tags.take(j as int));
                assert(tags.take(j as int + 1).last() == tags[j as int]);
            }
            let cmd = self.queue_io_cmd(done[j]);
            match cmd {
                Some(c) => {
                    cmds.push(c);
                },
                None => {},
            }
            j = j + 1;
        }
        proof {
            assert(tags.take(m as int) =~= tags);
            assert(self@ == spec_reaped_queue(old(self)@, cqes@, lefts));
        }
        Ok(UblkReaped { count, cmds })
    }
}

/// Among the first `n` completions there are no more completions of fetch
/// and commit commands than among all of them.
pub proof fn lemma_count_cmd_cqes_take(cqes: Seq<UblkCqe>, n: int)
    requires
        0 <= n <= cqes.len(),
    ensures
        spec_count_cmd_cqes(cqes.take(n)) <= spec_count_cmd_cqes(cqes),
    decreases cqes.len() - n,
{
    if n < cqes.len() {
        lemma_count_cmd_cqes_take(cqes, n + 1);
        assert(cqes.take(n + 1).drop_last() =~= cqes.take(n));
    } else {
        assert(cqes.take(n) =~= cqes);
    }
}

} // verus!
