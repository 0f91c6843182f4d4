//! The element actor's lifecycle kernel.
//!
//! An element buffers every control message that arrives before `Start`,
//! replays the buffer in FIFO order when `Start` arrives, and thereafter
//! interleaves draining its inbound stream with polling the user future.
//! The kernel is the decision half of that loop: it consumes inbound events
//! and poll outcomes and answers with the commands the surrounding task must
//! perform (queue an envelope on the mailbox, notify the parent) and with
//! what to do next.

use vstd::prelude::*;
use crate::envelope::{Msg, MsgView};
use crate::message::{child_reserved, CtlMsg, CtlView};

verus! {

/// One wake-up's worth of the element's inbound stream: a message, the end
/// of the stream (every sender is gone), or nothing ready yet.
#[derive(Debug)]
pub enum Inbound {
    Ready(CtlMsg),
    Closed,
    Pending,
}

/// The mathematical value of an [`Inbound`].
pub enum InboundView {
    Ready(CtlView),
    Closed,
    Pending,
}

impl View for Inbound {
    type V = InboundView;

    open spec fn view(&self) -> InboundView {
        match self {
            Inbound::Ready(m) => InboundView::Ready(m@),
            Inbound::Closed => InboundView::Closed,
            Inbound::Pending => InboundView::Pending,
        }
    }
}

/// A command the element's task must perform after a kernel step.
#[derive(Debug)]
pub enum ChildCommand {
    /// Queue this envelope at the tail of the element's mailbox.
    Push(Msg),
    /// Tell the parent that this element stopped cleanly.
    NotifyStopped,
    /// Tell the parent that this element terminated with a fault.
    NotifyFaulted,
}

/// The mathematical value of a [`ChildCommand`].
pub enum ChildCmdView {
    Push(MsgView),
    NotifyStopped,
    NotifyFaulted,
}

impl View for ChildCommand {
    type V = ChildCmdView;

    open spec fn view(&self) -> ChildCmdView {
        match self {
            ChildCommand::Push(m) => ChildCmdView::Push(m@),
            ChildCommand::NotifyStopped => ChildCmdView::NotifyStopped,
            ChildCommand::NotifyFaulted => ChildCmdView::NotifyFaulted,
        }
    }
}

/// The views of a command sequence, in order.
pub open spec fn child_cmd_views(s: Seq<ChildCommand>) -> Seq<ChildCmdView> {
    s.map_values(|c: ChildCommand| c@)
}

/// What the element's task does after a kernel step.
#[derive(Clone, Copy, Debug, PartialEq, Eq, Structural)]
pub enum ChildFlow {
    /// Poll the inbound stream again at once.
    PollAgain,
    /// Yield cooperatively, then poll the inbound stream again.
    Sleep,
    /// Poll the user future once, then feed the outcome back.
    PollExec,
    /// The element is terminated; the task returns.
    Done,
}

/// What one poll of the (panic-catching) user future came to.
#[derive(Clone, Copy, Debug, PartialEq, Eq, Structural)]
pub enum ExecStatus {
    /// The future is not finished yet.
    Pending,
    /// The future completed with the user's `Ok`.
    CleanStop,
    /// The future completed with the user's `Err`.
    UserError,
    /// The future panicked and the panic was caught.
    Panicked,
}

/// The abstract state of an element's kernel.
pub struct ChildSt {
    pub started: bool,
    pub buffer: Seq<CtlView>,
}

/// The element actor's lifecycle kernel: the `started` latch and the FIFO
/// buffer of control messages received before `Start`.
#[derive(Debug)]
pub struct Child {
    started: bool,
    pre_start_msgs: Vec<CtlMsg>,
}

impl View for Child {
    type V = ChildSt;

    closed spec fn view(&self) -> ChildSt {
        ChildSt {
            started: self.started,
            buffer: self.pre_start_msgs@.map_values(|m: CtlMsg| m@),
        }
    }
}

/// The commands one control message makes an element perform: `Stop` and
/// `Kill` alike end the element with a clean-stop notice, `Tell` queues its
/// envelope on the mailbox.
pub open spec fn child_handle_cmds(m: CtlView) -> Seq<ChildCmdView> {
    match m {
        CtlView::Stop => seq![ChildCmdView::NotifyStopped],
        CtlView::Kill => seq![ChildCmdView::NotifyStopped],
        CtlView::Tell(mv) => seq![ChildCmdView::Push(mv)],
        _ => Seq::empty(),
    }
}

/// Whether one control message terminates the element.
pub open spec fn child_handle_done(m: CtlView) -> bool {
    m is Stop || m is Kill
}

/// The commands of replaying a buffered message sequence in FIFO order,
/// stopping at the first terminating message.
pub open spec fn drain_cmds(msgs: Seq<CtlView>) -> Seq<ChildCmdView>
    decreases msgs.len(),
{
    if msgs.len() == 0 {
        Seq::empty()
    } else if child_handle_done(msgs[0]) {
        child_handle_cmds(msgs[0])
    } else {
        child_handle_cmds(msgs[0]) + drain_cmds(msgs.drop_first())
    }
}

/// Whether replaying a buffered message sequence terminates the element.
pub open spec fn drain_done(msgs: Seq<CtlView>) -> bool
    decreases msgs.len(),
{
    msgs.len() > 0 && (child_handle_done(msgs[0]) || drain_done(msgs.drop_first()))
}

/// The outcome of one kernel step.
pub struct ChildStep {
    pub st: ChildSt,
    pub cmds: Seq<ChildCmdView>,
    pub flow: ChildFlow,
}

/// The element's lifecycle transition: what one wake-up of the inbound
/// stream does to the kernel state, which commands it issues, and what the
/// task does next.
pub open spec fn child_step_spec(st: ChildSt, inbound: InboundView) -> ChildStep {
    match inbound {
        InboundView::Ready(m) => {
            if m is Start {
                ChildStep {
                    st: ChildSt { started: true, buffer: Seq::empty() },
                    cmds: drain_cmds(st.buffer),
                    flow: if drain_done(st.buffer) {
                        ChildFlow::Done
                    } else {
                        ChildFlow::PollAgain
                    },
                }
            } else if !st.started {
                ChildStep {
                    st: ChildSt { started: false, buffer: st.buffer.push(m) },
                    cmds: Seq::empty(),
                    flow: ChildFlow::PollAgain,
                }
            } else {
                ChildStep {
                    st: st,
                    cmds: child_handle_cmds(m),
                    flow: if child_handle_done(m) {
                        ChildFlow::Done
                    } else {
                        ChildFlow::PollAgain
                    },
                }
            }
        }
        InboundView::Closed => ChildStep {
            st: st,
            cmds: seq![ChildCmdView::NotifyFaulted],
            flow: ChildFlow::Done,
        },
        InboundView::Pending => ChildStep {
            st: st,
            cmds: Seq::empty(),
            flow: if st.started {
                ChildFlow::PollExec
            } else {
                ChildFlow::Sleep
            },
        },
    }
}

/// How the element reacts to one poll of the user future: a clean completion
/// stops it, a user error or a caught panic faults it, a pending poll makes
/// the task yield.
pub open spec fn exec_outcome_spec(status: ExecStatus) -> (Seq<ChildCmdView>, ChildFlow) {
    match status {
        ExecStatus::Pending => (Seq::empty(), ChildFlow::Sleep),
        ExecStatus::CleanStop => (seq![ChildCmdView::NotifyStopped], ChildFlow::Done),
        ExecStatus::UserError => (seq![ChildCmdView::NotifyFaulted], ChildFlow::Done),
        ExecStatus::Panicked => (seq![ChildCmdView::NotifyFaulted], ChildFlow::Done),
    }
}

/// The buffer only ever holds messages an element may later handle: `Start`
/// is consumed by the step function and the reserved variants never reach an
/// element.
pub open spec fn child_buf_ok(buf: Seq<CtlView>) -> bool {
    forall|i: int| 0 <= i < buf.len() ==> !child_reserved(#[trigger] buf[i]) && !(buf[i] is Start)
}

impl Child {
    /// Well-formedness: everything buffered is replayable.
    pub open spec fn wf(&self) -> bool {
        child_buf_ok(self@.buffer)
    }

    /// A fresh element kernel: not started, empty buffer.
    pub fn new() -> (r: Self)
        ensures
            r@ == (ChildSt { started: false, buffer: Seq::<CtlView>::empty() }),
            r.wf(),
    {
        let r = Child { started: false, pre_start_msgs: Vec::new() };
        proof {
            assert(r@.buffer =~= Seq::<CtlView>::empty());
        }
        r
    }

    /// Whether `Start` has been received.
    pub fn is_started(&self) -> (r: bool)
        ensures
            r == self@.started,
    {
        self.started
    }

    /// Reacts to one control message of a started element.  `Start` is
    /// consumed by [`Child::step`] before it comes here, and the reserved
    /// variants never reach an element.
    pub fn handle(&mut self, msg: CtlMsg) -> (r: (Vec<ChildCommand>, bool))
        requires
            !(msg@ is Start),
            !child_reserved(msg@),
        ensures
            final(self)@ == old(self)@,
            child_cmd_views(r.0@) == child_handle_cmds(msg@),
            r.1 == child_handle_done(msg@),
    {
        let mut cmds: Vec<ChildCommand> = Vec::new();
        match msg {
            CtlMsg::Stop | CtlMsg::Kill => {
                cmds.push(ChildCommand::NotifyStopped);
                proof {
                    assert(child_cmd_views(cmds@) =~= child_handle_cmds(msg@));
                }
                (cmds, true)
            }
            CtlMsg::Tell(m) => {
                cmds.push(ChildCommand::Push(m));
                proof {
                    assert(child_cmd_views(cmds@) =~= child_handle_cmds(msg@));
                }
                (cmds, false)
            }
            _ => {
                proof {
                    assert(false);
                }
                (cmds, false)
            }
        }
    }

    /// One wake-up of the element's inbound stream.
    pub fn step(&mut self, inbound: Inbound) -> (r: (Vec<ChildCommand>, ChildFlow))
        requires
            old(self).wf(),
            inbound@ matches InboundView::Ready(m) ==> !child_reserved(m),
        ensures
            final(self).wf(),
            final(self)@ == child_step_spec(old(self)@, inbound@).st,
            child_cmd_views(r.0@) == child_step_spec(old(self)@, inbound@).cmds,
            r.1 == child_step_spec(old(self)@, inbound@).flow,
    {
        match inbound {
            Inbound::Ready(msg) => {
                if matches!(msg, CtlMsg::Start) {
                    self.started = true;
                    self.drain_buffer()
                } else if !self.started {
                    let ghost before = self@.buffer;
                    self.pre_start_msgs.push(msg);
                    proof {
                        assert(self@.buffer =~= before.push(msg@));
                    }
                    (Vec::new(), ChildFlow::PollAgain)
                } else {
                    let (cmds, done) = self.handle(msg);
                    let flow = if done {
                        ChildFlow::Done
                    } else {
                        ChildFlow::PollAgain
                    };
                    (cmds, flow)
                }
            }
            Inbound::Closed => {
                let mut cmds: Vec<ChildCommand> = Vec::new();
                cmds.push(ChildCommand::NotifyFaulted);
                proof {
                    assert(child_cmd_views(cmds@) =~= seq![ChildCmdView::NotifyFaulted]);
                }
                (cmds, ChildFlow::Done)
            }
            Inbound::Pending => {
                let flow = if self.started {
                    ChildFlow::PollExec
                } else {
                    ChildFlow::Sleep
                };
                (Vec::new(), flow)
            }
        }
    }

    /// Replays the pre-start buffer in FIFO order, stopping at the first
    /// terminating message; the buffer is left empty either way.
    fn drain_buffer(&mut self) -> (r: (Vec<ChildCommand>, ChildFlow))
        requires
            old(self).started,
            child_buf_ok(old(self)@.buffer),
        ensures
            final(self)@ == (ChildSt { started: true, buffer: Seq::<CtlView>::empty() }),
            child_cmd_views(r.0@) == drain_cmds(old(self)@.buffer),
            r.1 == (if drain_done(old(self)@.buffer) {
                ChildFlow::Done
            } else {
                ChildFlow::PollAgain
            }),
    {
        let ghost buf0 = self@.buffer;
        let mut cmds: Vec<ChildCommand> = Vec::new();
        let mut terminated = false;
        while !terminated && self.pre_start_msgs.len() > 0
            invariant
                self.started,
                child_buf_ok(self@.buffer),
                terminated ==> drain_done(buf0) && child_cmd_views(cmds@) == drain_cmds(buf0)
                    && self@.buffer.len() == 0,
                !terminated ==> drain_cmds(buf0) == child_cmd_views(cmds@) + drain_cmds(
                    self@.buffer,
                ) && drain_done(buf0) == drain_done(self@.buffer),
            decreases self.pre_start_msgs@.len(),
        {
            let ghost rest = self@.buffer;
            let msg = self.pre_start_msgs.remove(0);
            proof {
                assert(self@.buffer =~= rest.drop_first());
                assert(msg@ == rest[0]);
            }
            let (mut step_cmds, done) = self.handle(msg);
            let ghost cmds_before = cmds@;
            let ghost step_views = child_cmd_views(step_cmds@);
            cmds.append(&mut step_cmds);
            proof {
                assert(child_cmd_views(cmds@) =~= child_cmd_views(cmds_before) + step_views);
                if done {
                    assert(drain_cmds(rest) == child_handle_cmds(rest[0]));
                    assert(drain_done(rest));
                } else {
                    assert(drain_cmds(rest) == child_handle_cmds(rest[0]) + drain_cmds(
                        rest.drop_first(),
                    ));
                    assert(drain_done(rest) == drain_done(rest.drop_first()));
                    assert(child_cmd_views(cmds@) + drain_cmds(self@.buffer) =~= child_cmd_views(
                        cmds_before,
                    ) + drain_cmds(rest));
                }
            }
            if done {
                terminated = true;
                self.pre_start_msgs = Vec::new();
                proof {
                    assert(self@.buffer =~= Seq::<CtlView>::empty());
                    assert(child_cmd_views(cmds@) =~= drain_cmds(buf0));
                }
            }
        }
        proof {
            assert(self@.buffer =~= Seq::<CtlView>::empty());
            if !terminated {
                assert(drain_cmds(self@.buffer) =~= Seq::<ChildCmdView>::empty());
                assert(child_cmd_views(cmds@) =~= drain_cmds(buf0));
                assert(!drain_done(buf0));
            }
            assert(self@ == (ChildSt { started: true, buffer: Seq::<CtlView>::empty() }));
        }
        let flow = if terminated {
            ChildFlow::Done
        } else {
            ChildFlow::PollAgain
        };
        (cmds, flow)
    }

    /// Classifies one poll of the user future.  A caught panic and a
    /// user-reported error alike fault the element: no panic escapes the
    /// task boundary.
    pub fn on_exec(status: ExecStatus) -> (r: (Vec<ChildCommand>, ChildFlow))
        ensures
            child_cmd_views(r.0@) == exec_outcome_spec(status).0,
            r.1 == exec_outcome_spec(status).1,
    {
        let mut cmds: Vec<ChildCommand> = Vec::new();
        let flow = match status {
            ExecStatus::Pending => ChildFlow::Sleep,
            ExecStatus::CleanStop => {
                cmds.push(ChildCommand::NotifyStopped);
                ChildFlow::Done
            }
            ExecStatus::UserError | ExecStatus::Panicked => {
                cmds.push(ChildCommand::NotifyFaulted);
                ChildFlow::Done
            }
        };
        proof {
            assert(child_cmd_views(cmds@) =~= exec_outcome_spec(status).0);
        }
        (cmds, flow)
    }
}

/// The outcome of running the element kernel over a whole sequence of
/// wake-ups: the state reached, every command issued in order, and whether a
/// step terminated the element (later wake-ups are then never taken).
pub struct ChildRun {
    pub st: ChildSt,
    pub cmds: Seq<ChildCmdView>,
    pub done: bool,
}

/// Folds [`child_step_spec`] over a sequence of inbound events, stopping at
/// the first terminating step.
pub open spec fn child_run_spec(st: ChildSt, ins: Seq<InboundView>) -> ChildRun
    decreases ins.len(),
{
    if ins.len() == 0 {
        ChildRun { st: st, cmds: Seq::empty(), done: false }
    } else {
        let step = child_step_spec(st, ins[0]);
        if step.flow is Done {
            ChildRun { st: step.st, cmds: step.cmds, done: true }
        } else {
            let rest = child_run_spec(step.st, ins.drop_first());
            ChildRun { st: rest.st, cmds: step.cmds + rest.cmds, done: rest.done }
        }
    }
}

/// Each message of a sequence, as an inbound-ready event.
pub open spec fn readies(msgs: Seq<CtlView>) -> Seq<InboundView> {
    msgs.map_values(|m: CtlView| InboundView::Ready(m))
}

/// True when every message of the sequence is a user `Tell`.
pub open spec fn all_tells(msgs: Seq<CtlView>) -> bool {
    forall|i: int| 0 <= i < msgs.len() ==> #[trigger] msgs[i] is Tell
}

/// The mailbox commands of delivering a `Tell` sequence, in order.
pub open spec fn pushes(msgs: Seq<CtlView>) -> Seq<ChildCmdView> {
    msgs.map_values(|m: CtlView| ChildCmdView::Push(m->Tell_0))
}

/// While the element is not started, inbound messages other than `Start`
/// are buffered in arrival order: no command is issued and nothing ends.
pub proof fn lemma_buffering(st: ChildSt, msgs: Seq<CtlView>)
    requires
        !st.started,
        forall|i: int| 0 <= i < msgs.len() ==> !(#[trigger] msgs[i] is Start),
    ensures
        child_run_spec(st, readies(msgs)) == (ChildRun {
            st: ChildSt { started: false, buffer: st.buffer + msgs },
            cmds: Seq::<ChildCmdView>::empty(),
            done: false,
        }),
    decreases msgs.len(),
{
    if msgs.len() == 0 {
        assert(readies(msgs).len() == 0);
        assert(st.buffer + msgs =~= st.buffer);
    } else {
        let st1 = ChildSt { started: false, buffer: st.buffer.push(msgs[0]) };
        assert(readies(msgs)[0] == InboundView::Ready(msgs[0]));
        assert(readies(msgs).drop_first() =~= readies(msgs.drop_first()));
        lemma_buffering(st1, msgs.drop_first());
        assert(st1.buffer + msgs.drop_first() =~= st.buffer + msgs);
        assert(Seq::<ChildCmdView>::empty() + Seq::<ChildCmdView>::empty()
            =~= Seq::<ChildCmdView>::empty());
    }
}

/// Replaying a buffer that holds only `Tell`s queues every payload in order
/// and terminates nothing.
pub proof fn lemma_drain_tells(msgs: Seq<CtlView>)
    requires
        all_tells(msgs),
    ensures
        drain_cmds(msgs) == pushes(msgs),
        !drain_done(msgs),
    decreases msgs.len(),
{
    if msgs.len() == 0 {
        assert(drain_cmds(msgs) =~= pushes(msgs));
    } else {
        lemma_drain_tells(msgs.drop_first());
        assert(pushes(msgs).drop_first() =~= pushes(msgs.drop_first()));
        assert(drain_cmds(msgs) =~= pushes(msgs));
    }
}

/// Once started, a stream of `Tell`s queues every payload in order: the
/// element neither terminates nor changes state.
pub proof fn lemma_running_tells(st: ChildSt, msgs: Seq<CtlView>)
    requires
        st.started,
        all_tells(msgs),
    ensures
        child_run_spec(st, readies(msgs)) == (ChildRun { st: st, cmds: pushes(msgs), done: false }),
    decreases msgs.len(),
{
    if msgs.len() == 0 {
        assert(pushes(msgs) =~= Seq::<ChildCmdView>::empty());
    } else {
        assert(readies(msgs)[0] == InboundView::Ready(msgs[0]));
        assert(readies(msgs).drop_first() =~= readies(msgs.drop_first()));
        lemma_running_tells(st, msgs.drop_first());
        assert(child_handle_cmds(msgs[0]) + pushes(msgs.drop_first()) =~= pushes(msgs));
    }
}

/// Pre-start replay: the user future observes messages sent before `Start`
/// and messages sent after it as one FIFO sequence.  For any `Tell`s
/// `m1..mk` delivered before `Start` and `Tell`s `m(k+1)..mn` delivered
/// after it, the element queues exactly the payloads of `m1..mn`, in order.
pub proof fn lemma_pre_start_replay(pre: Seq<CtlView>, post: Seq<CtlView>)
    requires
        all_tells(pre),
        all_tells(post),
    ensures
        child_run_spec(
            ChildSt { started: false, buffer: Seq::empty() },
            readies(pre) + seq![InboundView::Ready(CtlView::Start)] + readies(post),
        ).cmds == pushes(pre) + pushes(post),
{
    let init = ChildSt { started: false, buffer: Seq::<CtlView>::empty() };
    let buffered = ChildSt { started: false, buffer: Seq::<CtlView>::empty() + pre };
    let started = ChildSt { started: true, buffer: Seq::<CtlView>::empty() };
    let tail = seq![InboundView::Ready(CtlView::Start)] + readies(post);

    lemma_buffering(init, pre);
    lemma_run_concat(init, readies(pre), tail);

    assert(tail[0] == InboundView::Ready(CtlView::Start));
    assert(buffered.buffer =~= pre);
    lemma_drain_tells(pre);
    assert(child_step_spec(buffered, tail[0]) == (ChildStep {
        st: started,
        cmds: pushes(pre),
        flow: ChildFlow::PollAgain,
    }));
    assert(tail.drop_first() =~= readies(post));
    lemma_running_tells(started, post);
    assert(child_run_spec(buffered, tail).cmds =~= pushes(pre) + pushes(post));
    assert(child_run_spec(init, readies(pre) + tail).cmds =~= pushes(pre) + pushes(post));
    assert(readies(pre) + seq![InboundView::Ready(CtlView::Start)] + readies(post) =~= readies(
        pre,
    ) + tail);
}

/// FIFO per pair: a started element queues a stream of `Tell`s on its
/// mailbox in exactly the order they arrive.
pub proof fn lemma_tell_fifo(msgs: Seq<CtlView>)
    requires
        all_tells(msgs),
    ensures
        child_run_spec(
            ChildSt { started: true, buffer: Seq::empty() },
            readies(msgs),
        ).cmds == pushes(msgs),
{
    lemma_running_tells(ChildSt { started: true, buffer: Seq::<CtlView>::empty() }, msgs);
}

/// Running a kernel over the concatenation of two event sequences, when the
/// first does not terminate it, is running them one after the other.
pub proof fn lemma_run_concat(st: ChildSt, a: Seq<InboundView>, b: Seq<InboundView>)
    requires
        !child_run_spec(st, a).done,
    ensures
        child_run_spec(st, a + b) == (ChildRun {
            st: child_run_spec(child_run_spec(st, a).st, b).st,
            cmds: child_run_spec(st, a).cmds + child_run_spec(child_run_spec(st, a).st, b).cmds,
            done: child_run_spec(child_run_spec(st, a).st, b).done,
        }),
    decreases a.len(),
{
    if a.len() == 0 {
        assert(a + b =~= b);
        assert(child_run_spec(st, a).cmds + child_run_spec(st, b).cmds =~= child_run_spec(
            st,
            b,
        ).cmds);
    } else {
        let step = child_step_spec(st, a[0]);
        assert((a + b)[0] == a[0]);
        assert((a + b).drop_first() =~= a.drop_first() + b);
        lemma_run_concat(step.st, a.drop_first(), b);
        let ra = child_run_spec(step.st, a.drop_first());
        let rb = child_run_spec(ra.st, b);
        assert(step.cmds + (ra.cmds + rb.cmds) =~= (step.cmds + ra.cmds) + rb.cmds);
    }
}

/// Panic containment: a caught panic of the user future and a user-reported
/// error are indistinguishable — both fault the element.
pub proof fn lemma_panic_is_fault()
    ensures
        exec_outcome_spec(ExecStatus::Panicked) == exec_outcome_spec(ExecStatus::UserError),
{
}

/// The `started` latch: once an element is started and its buffer is empty,
/// every later step leaves it started with an empty buffer — nothing is
/// buffered again.
pub proof fn lemma_started_latch(st: ChildSt, inbound: InboundView)
    requires
        st.started,
        st.buffer.len() == 0,
    ensures
        child_step_spec(st, inbound).st.started,
        child_step_spec(st, inbound).st.buffer.len() == 0,
{
}

} // verus!
