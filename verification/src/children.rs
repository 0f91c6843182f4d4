//! The group controller's lifecycle kernel.
//!
//! A group owns `redundancy` elements.  Before `Start` it buffers every other
//! control message; on `Start` it fans `Start` out to its elements and
//! replays the buffer in FIFO order.  Once running, a user `Tell` is fanned
//! out to every element, and any element's termination report tears the whole
//! pool down: one for all, preserving the fault kind.  The kernel is the
//! decision half of the controller's loop; the surrounding task performs the
//! commands (fan-out, teardown, notifying the supervisor) and feeds events in.

use vstd::prelude::*;
use crate::message::{group_reserved, CtlMsg, CtlView};
use crate::child::{Inbound, InboundView};

verus! {

/// A command the group's task must perform after a kernel step.
#[derive(Debug)]
pub enum GroupCommand {
    /// Send this control message to every element of the group.
    FanOut(CtlMsg),
    /// Send `Stop` to every element and await their tasks' joins.
    StopChildren,
    /// Send `Kill` to every element and await their tasks' joins.
    KillChildren,
    /// Tell the supervisor that the group stopped cleanly.
    NotifyStopped,
    /// Tell the supervisor that the group terminated with a fault.
    NotifyFaulted,
}

/// The mathematical value of a [`GroupCommand`].
pub enum GroupCmdView {
    FanOut(CtlView),
    StopChildren,
    KillChildren,
    NotifyStopped,
    NotifyFaulted,
}

impl View for GroupCommand {
    type V = GroupCmdView;

    open spec fn view(&self) -> GroupCmdView {
        match self {
            GroupCommand::FanOut(m) => GroupCmdView::FanOut(m@),
            GroupCommand::StopChildren => GroupCmdView::StopChildren,
            GroupCommand::KillChildren => GroupCmdView::KillChildren,
            GroupCommand::NotifyStopped => GroupCmdView::NotifyStopped,
            GroupCommand::NotifyFaulted => GroupCmdView::NotifyFaulted,
        }
    }
}

/// The views of a command sequence, in order.
pub open spec fn group_cmd_views(s: Seq<GroupCommand>) -> Seq<GroupCmdView> {
    s.map_values(|c: GroupCommand| c@)
}

/// What the group's task does after a kernel step.
#[derive(Clone, Copy, Debug, PartialEq, Eq, Structural)]
pub enum GroupFlow {
    /// Poll the inbound stream again at once.
    PollAgain,
    /// Yield cooperatively, then poll the inbound stream again.
    Sleep,
    /// The group is terminated; the task returns.
    Done,
}

/// The abstract state of a group kernel.
pub struct GroupSt {
    pub started: bool,
    /// The live set: the ids of the currently launched elements.
    pub launched: Seq<u64>,
    /// Control messages received before `Start`, in arrival order.
    pub buffer: Seq<CtlView>,
    /// The target pool size.
    pub redundancy: usize,
    /// The next fresh element id.
    pub next_id: u64,
}

/// True when no id occurs twice.
pub open spec fn distinct_ids(s: Seq<u64>) -> bool {
    forall|i: int, j: int| 0 <= i < j < s.len() ==> s[i] != s[j]
}

/// What one control message does to the live set, which commands it issues,
/// and whether it terminates the group.
pub struct GroupHandle {
    pub launched: Seq<u64>,
    pub cmds: Seq<GroupCmdView>,
    pub done: bool,
}

/// The group's reaction to one control message, over its live set alone.
/// `Stop` winds every element down gracefully; `Kill` tears them down; a
/// `Tell` is fanned out unchanged; a termination report from a live element
/// kills the rest and escalates, preserving the fault kind; a report from an
/// unknown id is ignored.
pub open spec fn group_handle_spec(launched: Seq<u64>, m: CtlView) -> GroupHandle {
    match m {
        CtlView::Stop => GroupHandle {
            launched: Seq::empty(),
            cmds: seq![GroupCmdView::StopChildren, GroupCmdView::NotifyStopped],
            done: true,
        },
        CtlView::Kill => GroupHandle {
            launched: Seq::empty(),
            cmds: seq![GroupCmdView::KillChildren, GroupCmdView::NotifyStopped],
            done: true,
        },
        CtlView::Tell(mv) => GroupHandle {
            launched: launched,
            cmds: seq![GroupCmdView::FanOut(CtlView::Tell(mv))],
            done: false,
        },
        CtlView::Stopped { id } => {
            if launched.contains(id) {
                GroupHandle {
                    launched: Seq::empty(),
                    cmds: seq![GroupCmdView::KillChildren, GroupCmdView::NotifyStopped],
                    done: true,
                }
            } else {
                GroupHandle { launched: launched, cmds: Seq::empty(), done: false }
            }
        },
        CtlView::Faulted { id } => {
            if launched.contains(id) {
                GroupHandle {
                    launched: Seq::empty(),
                    cmds: seq![GroupCmdView::KillChildren, GroupCmdView::NotifyFaulted],
                    done: true,
                }
            } else {
                GroupHandle { launched: launched, cmds: Seq::empty(), done: false }
            }
        },
        _ => GroupHandle { launched: launched, cmds: Seq::empty(), done: false },
    }
}

/// The result of replaying a buffered message sequence through the group's
/// handler, stopping at the first terminating message.
pub struct GroupDrain {
    pub launched: Seq<u64>,
    pub cmds: Seq<GroupCmdView>,
    pub done: bool,
}

/// Replays a buffered message sequence in FIFO order through
/// [`group_handle_spec`], stopping at the first terminating message.
pub open spec fn group_drain(launched: Seq<u64>, msgs: Seq<CtlView>) -> GroupDrain
    decreases msgs.len(),
{
    if msgs.len() == 0 {
        GroupDrain { launched: launched, cmds: Seq::empty(), done: false }
    } else {
        let h = group_handle_spec(launched, msgs[0]);
        if h.done {
            GroupDrain { launched: h.launched, cmds: h.cmds, done: true }
        } else {
            let rest = group_drain(h.launched, msgs.drop_first());
            GroupDrain { launched: rest.launched, cmds: h.cmds + rest.cmds, done: rest.done }
        }
    }
}

/// The outcome of one group kernel step.
pub struct GroupStep {
    pub st: GroupSt,
    pub cmds: Seq<GroupCmdView>,
    pub flow: GroupFlow,
}

/// The group's lifecycle transition: what one wake-up of the inbound stream
/// does to the kernel state, which commands it issues, and what the task
/// does next.  `Start` latches the group, fans `Start` out to the elements
/// and replays the buffer; a closed inbound stream kills the pool and
/// escalates as a fault.
pub open spec fn group_step_spec(st: GroupSt, inbound: InboundView) -> GroupStep {
    match inbound {
        InboundView::Ready(m) => {
            if m is Start {
                let d = group_drain(st.launched, st.buffer);
                GroupStep {
                    st: GroupSt {
                        started: true,
                        launched: d.launched,
                        buffer: Seq::empty(),
                        redundancy: st.redundancy,
                        next_id: st.next_id,
                    },
                    cmds: seq![GroupCmdView::FanOut(CtlView::Start)] + d.cmds,
                    flow: if d.done {
                        GroupFlow::Done
                    } else {
                        GroupFlow::PollAgain
                    },
                }
            } else if !st.started {
                GroupStep {
                    st: GroupSt { buffer: st.buffer.push(m), ..st },
                    cmds: Seq::empty(),
                    flow: GroupFlow::PollAgain,
                }
            } else {
                let h = group_handle_spec(st.launched, m);
                GroupStep {
                    st: GroupSt { launched: h.launched, ..st },
                    cmds: h.cmds,
                    flow: if h.done {
                        GroupFlow::Done
                    } else {
                        GroupFlow::PollAgain
                    },
                }
            }
        }
        InboundView::Closed => GroupStep {
            st: GroupSt { launched: Seq::empty(), ..st },
            cmds: seq![GroupCmdView::KillChildren, GroupCmdView::NotifyFaulted],
            flow: GroupFlow::Done,
        },
        InboundView::Pending => GroupStep { st: st, cmds: Seq::empty(), flow: GroupFlow::Sleep },
    }
}

/// One-for-all escalation: a termination report from any live element makes
/// the group kill every remaining element at once and report its own
/// termination, a fault staying a fault and a clean stop staying a stop.
pub proof fn lemma_one_for_all(launched: Seq<u64>, id: u64)
    requires
        launched.contains(id),
    ensures
        group_handle_spec(launched, CtlView::Stopped { id }) == (GroupHandle {
            launched: Seq::<u64>::empty(),
            cmds: seq![GroupCmdView::KillChildren, GroupCmdView::NotifyStopped],
            done: true,
        }),
        group_handle_spec(launched, CtlView::Faulted { id }) == (GroupHandle {
            launched: Seq::<u64>::empty(),
            cmds: seq![GroupCmdView::KillChildren, GroupCmdView::NotifyFaulted],
            done: true,
        }),
{
}

/// A replayed buffer either leaves the live set exactly as it was or, when
/// a message tore the pool down, leaves it empty.
pub proof fn lemma_drain_launched_cases(launched: Seq<u64>, msgs: Seq<CtlView>)
    ensures
        group_drain(launched, msgs).launched == launched || group_drain(
            launched,
            msgs,
        ).launched == Seq::<u64>::empty(),
    decreases msgs.len(),
{
    if msgs.len() > 0 {
        let h = group_handle_spec(launched, msgs[0]);
        if !h.done {
            lemma_drain_launched_cases(h.launched, msgs.drop_first());
        }
    }
}

/// Replaying a buffer that terminates nothing leaves the live set as it
/// was: only a terminating message tears the pool down.
pub proof fn lemma_drain_preserves_launched(launched: Seq<u64>, msgs: Seq<CtlView>)
    requires
        !group_drain(launched, msgs).done,
    ensures
        group_drain(launched, msgs).launched == launched,
    decreases msgs.len(),
{
    if msgs.len() > 0 {
        let h = group_handle_spec(launched, msgs[0]);
        lemma_drain_preserves_launched(h.launched, msgs.drop_first());
    }
}

/// Stability of the live set: between construction (or reset) and the step
/// that terminates the group, no step changes the launched elements — the
/// pool keeps exactly its `redundancy` ids.
pub proof fn lemma_live_set_stable(st: GroupSt, inbound: InboundView)
    requires
        group_step_spec(st, inbound).flow != GroupFlow::Done,
    ensures
        group_step_spec(st, inbound).st.launched == st.launched,
        group_step_spec(st, inbound).st.launched.len() == st.launched.len(),
{
    if inbound matches InboundView::Ready(m) && m is Start {
        lemma_drain_preserves_launched(st.launched, st.buffer);
    }
}

/// The `started` latch: once a group is started and its buffer is empty,
/// every later step leaves it started with an empty buffer — nothing is
/// buffered again.
pub proof fn lemma_group_started_latch(st: GroupSt, inbound: InboundView)
    requires
        st.started,
        st.buffer.len() == 0,
    ensures
        group_step_spec(st, inbound).st.started,
        group_step_spec(st, inbound).st.buffer.len() == 0,
{
}

/// The group controller's kernel state.
#[derive(Debug)]
pub struct Children {
    started: bool,
    launched: Vec<u64>,
    pre_start_msgs: Vec<CtlMsg>,
    redundancy: usize,
    next_id: u64,
}

impl View for Children {
    type V = GroupSt;

    closed spec fn view(&self) -> GroupSt {
        GroupSt {
            started: self.started,
            launched: self.launched@,
            buffer: self.pre_start_msgs@.map_values(|m: CtlMsg| m@),
            redundancy: self.redundancy,
            next_id: self.next_id,
        }
    }
}

/// True when `v` holds `id`.
fn contains_id(v: &Vec<u64>, id: u64) -> (r: bool)
    ensures
        r == v@.contains(id),
{
    let mut i: usize = 0;
    while i < v.len()
        invariant
            i <= v@.len(),
            forall|j: int| 0 <= j < i ==> v@[j] != id,
        decreases v@.len() - i,
    {
        if v[i] == id {
            return true;
        }
        i = i + 1;
    }
    proof {
        assert(!v@.contains(id));
    }
    false
}

impl Children {
    /// Well-formedness: no element id occurs twice in the live set, and
    /// every live id is below the next fresh one.
    pub open spec fn wf(&self) -> bool {
        &&& distinct_ids(self@.launched)
        &&& forall|i: int| 0 <= i < self@.launched.len() ==> #[trigger] self@.launched[i]
            < self@.next_id
    }

    /// A fresh group kernel with exactly `redundancy` distinct elements:
    /// not started, empty buffer, live set `0..redundancy`.
    pub fn new(redundancy: usize) -> (r: Self)
        requires
            redundancy <= u64::MAX,
        ensures
            r.wf(),
            r@.started == false,
            r@.buffer == Seq::<CtlView>::empty(),
            r@.redundancy == redundancy,
            r@.launched =~= Seq::new(redundancy as nat, |i: int| i as u64),
            r@.launched.len() == redundancy,
    {
        let mut r = Children {
            started: false,
            launched: Vec::new(),
            pre_start_msgs: Vec::new(),
            redundancy,
            next_id: 0,
        };
        proof {
            assert(r@.buffer =~= Seq::<CtlView>::empty());
        }
        let _ids = r.new_elems();
        proof {
            assert(r@.launched =~= Seq::new(redundancy as nat, |i: int| i as u64));
        }
        r
    }

    /// The target pool size.
    pub fn redundancy(&self) -> (r: usize)
        ensures
            r == self@.redundancy,
    {
        self.redundancy
    }

    /// Whether `Start` has been received.
    pub fn is_started(&self) -> (r: bool)
        ensures
            r == self@.started,
    {
        self.started
    }

    /// The live set: one id per launched element.
    pub fn launched_ids(&self) -> (r: &Vec<u64>)
        ensures
            r@ == self@.launched,
    {
        &self.launched
    }

    /// Launches a fresh element per pool slot: mints `redundancy` fresh,
    /// distinct ids and adds them to the live set.  The caller spawns one
    /// element task per returned id, in order.
    pub fn new_elems(&mut self) -> (ids: Vec<u64>)
        requires
            old(self).wf(),
            old(self)@.next_id + old(self)@.redundancy <= u64::MAX,
        ensures
            final(self).wf(),
            ids@ == Seq::new(
                old(self)@.redundancy as nat,
                |i: int| (old(self)@.next_id + i) as u64,
            ),
            final(self)@.launched == old(self)@.launched + ids@,
            final(self)@.launched.len() == old(self)@.launched.len() + old(self)@.redundancy,
            final(self)@.next_id == old(self)@.next_id + old(self)@.redundancy,
            final(self)@.started == old(self)@.started,
            final(self)@.buffer == old(self)@.buffer,
            final(self)@.redundancy == old(self)@.redundancy,
    {
        let ghost launched0 = self@.launched;
        let ghost id0 = self@.next_id;
        let mut ids: Vec<u64> = Vec::new();
        let mut k: usize = 0;
        while k < self.redundancy
            invariant
                self.redundancy == old(self)@.redundancy,
                self.started == old(self)@.started,
                self.pre_start_msgs@ == old(self).pre_start_msgs@,
                k <= self.redundancy,
                id0 + self.redundancy <= u64::MAX,
                self.next_id == id0 + k,
                ids@ == Seq::new(k as nat, |i: int| (id0 + i) as u64),
                self.launched@ == launched0 + ids@,
                distinct_ids(launched0),
                forall|i: int| 0 <= i < launched0.len() ==> #[trigger] launched0[i] < id0,
                distinct_ids(self.launched@),
                forall|i: int| 0 <= i < self.launched@.len() ==> #[trigger] self.launched@[i]
                    < self.next_id,
            decreases self.redundancy - k,
        {
            let id = self.next_id;
            self.launched.push(id);
            ids.push(id);
            self.next_id = self.next_id + 1;
            k = k + 1;
            proof {
                assert(ids@ =~= Seq::new(k as nat, |i: int| (id0 + i) as u64));
                assert(self.launched@ =~= launched0 + ids@);
            }
        }
        ids
    }

    /// Tears the pool down and launches it afresh, as the supervisor's
    /// restart does: the caller first kills the old elements and awaits
    /// their joins, then spawns one element per returned fresh id.  The
    /// `started` latch and the buffer are left as they were.
    pub fn reset(&mut self) -> (ids: Vec<u64>)
        requires
            old(self).wf(),
            old(self)@.next_id + old(self)@.redundancy <= u64::MAX,
        ensures
            final(self).wf(),
            final(self)@.launched == ids@,
            final(self)@.launched.len() == old(self)@.redundancy,
            distinct_ids(final(self)@.launched),
            final(self)@.started == old(self)@.started,
            final(self)@.buffer == old(self)@.buffer,
            final(self)@.redundancy == old(self)@.redundancy,
    {
        self.launched = Vec::new();
        let ids = self.new_elems();
        proof {
            assert(final(self)@.launched =~= ids@);
        }
        ids
    }

    /// Reacts to one control message of a started group.  `Start` is
    /// consumed by [`Children::step`] before it comes here, and the
    /// reserved variants never reach a group.
    pub fn handle(&mut self, msg: CtlMsg) -> (r: (Vec<GroupCommand>, bool))
        requires
            !(msg@ is Start),
            !group_reserved(msg@),
        ensures
            final(self)@ == (GroupSt {
                launched: group_handle_spec(old(self)@.launched, msg@).launched,
                ..old(self)@
            }),
            group_cmd_views(r.0@) == group_handle_spec(old(self)@.launched, msg@).cmds,
            r.1 == group_handle_spec(old(self)@.launched, msg@).done,
    {
        let mut cmds: Vec<GroupCommand> = Vec::new();
        let ghost launched0 = self@.launched;
        match msg {
            CtlMsg::Stop => {
                self.launched = Vec::new();
                cmds.push(GroupCommand::StopChildren);
                cmds.push(GroupCommand::NotifyStopped);
                proof {
                    assert(self@.launched =~= Seq::<u64>::empty());
                    assert(group_cmd_views(cmds@) =~= group_handle_spec(launched0, msg@).cmds);
                }
                (cmds, true)
            }
            CtlMsg::Kill => {
                self.launched = Vec::new();
                cmds.push(GroupCommand::KillChildren);
                cmds.push(GroupCommand::NotifyStopped);
                proof {
                    assert(self@.launched =~= Seq::<u64>::empty());
                    assert(group_cmd_views(cmds@) =~= group_handle_spec(launched0, msg@).cmds);
                }
                (cmds, true)
            }
            CtlMsg::Tell(m) => {
                cmds.push(GroupCommand::FanOut(CtlMsg::Tell(m)));
                proof {
                    assert(group_cmd_views(cmds@) =~= group_handle_spec(launched0, msg@).cmds);
                }
                (cmds, false)
            }
            CtlMsg::Stopped { id } => {
                if contains_id(&self.launched, id) {
                    self.launched = Vec::new();
                    cmds.push(GroupCommand::KillChildren);
                    cmds.push(GroupCommand::NotifyStopped);
                    proof {
                        assert(self@.launched =~= Seq::<u64>::empty());
                        assert(group_cmd_views(cmds@) =~= group_handle_spec(launched0, msg@).cmds);
                    }
                    (cmds, true)
                } else {
                    proof {
                        assert(group_cmd_views(cmds@) =~= group_handle_spec(launched0, msg@).cmds);
                    }
                    (cmds, false)
                }
            }
            CtlMsg::Faulted { id } => {
                if contains_id(&self.launched, id) {
                    self.launched = Vec::new();
                    cmds.push(GroupCommand::KillChildren);
                    cmds.push(GroupCommand::NotifyFaulted);
                    proof {
                        assert(self@.launched =~= Seq::<u64>::empty());
                        assert(group_cmd_views(cmds@) =~= group_handle_spec(launched0, msg@).cmds);
                    }
                    (cmds, true)
                } else {
                    proof {
                        assert(group_cmd_views(cmds@) =~= group_handle_spec(launched0, msg@).cmds);
                    }
                    (cmds, false)
                }
            }
            _ => {
                proof {
                    assert(false);
                }
                (cmds, false)
            }
        }
    }

    /// One wake-up of the group's inbound stream.
    pub fn step(&mut self, inbound: Inbound) -> (r: (Vec<GroupCommand>, GroupFlow))
        requires
            old(self).wf(),
            old(self).group_buf_ok(),
            inbound@ matches InboundView::Ready(m) ==> !group_reserved(m),
        ensures
            final(self).wf(),
            final(self).group_buf_ok(),
            final(self)@ == group_step_spec(old(self)@, inbound@).st,
            group_cmd_views(r.0@) == group_step_spec(old(self)@, inbound@).cmds,
            r.1 == group_step_spec(old(self)@, inbound@).flow,
    {
        match inbound {
            Inbound::Ready(msg) => {
                if matches!(msg, CtlMsg::Start) {
                    self.started = true;
                    let r = self.drain_buffer();
                    proof {
                        lemma_drain_launched_cases(old(self)@.launched, old(self)@.buffer);
                    }
                    r
                } else if !self.started {
                    let ghost before = self@.buffer;
                    self.pre_start_msgs.push(msg);
                    proof {
                        assert(self@.buffer =~= before.push(msg@));
                    }
                    (Vec::new(), GroupFlow::PollAgain)
                } else {
                    let (cmds, done) = self.handle(msg);
                    let flow = if done {
                        GroupFlow::Done
                    } else {
                        GroupFlow::PollAgain
                    };
                    (cmds, flow)
                }
            }
            Inbound::Closed => {
                self.launched = Vec::new();
                let mut cmds: Vec<GroupCommand> = Vec::new();
                cmds.push(GroupCommand::KillChildren);
                cmds.push(GroupCommand::NotifyFaulted);
                proof {
                    assert(self@.launched =~= Seq::<u64>::empty());
                    assert(group_cmd_views(cmds@) =~= seq![
                        GroupCmdView::KillChildren,
                        GroupCmdView::NotifyFaulted,
                    ]);
                }
                (cmds, GroupFlow::Done)
            }
            Inbound::Pending => (Vec::new(), GroupFlow::Sleep),
        }
    }

    /// Well-formedness of the buffer: everything buffered is replayable.
    pub open spec fn group_buf_ok(&self) -> bool {
        forall|i: int| 0 <= i < self@.buffer.len() ==> !group_reserved(#[trigger] self@.buffer[i])
            && !(self@.buffer[i] is Start)
    }

    /// Replays the pre-start buffer in FIFO order through the handler,
    /// stopping at the first terminating message; the buffer is left empty
    /// either way, and `Start` is fanned out to the elements first.
    fn drain_buffer(&mut self) -> (r: (Vec<GroupCommand>, GroupFlow))
        requires
            old(self).started,
            forall|i: int| 0 <= i < old(self)@.buffer.len() ==> !group_reserved(
                #[trigger] old(self)@.buffer[i],
            ) && !(old(self)@.buffer[i] is Start),
        ensures
            final(self)@ == (GroupSt {
                started: true,
                launched: group_drain(old(self)@.launched, old(self)@.buffer).launched,
                buffer: Seq::empty(),
                redundancy: old(self)@.redundancy,
                next_id: old(self)@.next_id,
            }),
            group_cmd_views(r.0@) == seq![GroupCmdView::FanOut(CtlView::Start)] + group_drain(
                old(self)@.launched,
                old(self)@.buffer,
            ).cmds,
            r.1 == (if group_drain(old(self)@.launched, old(self)@.buffer).done {
                GroupFlow::Done
            } else {
                GroupFlow::PollAgain
            }),
    {
        let ghost launched0 = self@.launched;
        let ghost buf0 = self@.buffer;
        let mut dcmds: Vec<GroupCommand> = Vec::new();
        let mut terminated = false;
        while !terminated && self.pre_start_msgs.len() > 0
            invariant
                self.started,
                self.redundancy == old(self)@.redundancy,
                self.next_id == old(self)@.next_id,
                forall|i: int| 0 <= i < self@.buffer.len() ==> !group_reserved(
                    #[trigger] self@.buffer[i],
                ) && !(self@.buffer[i] is Start),
                terminated ==> group_drain(launched0, buf0).done && group_cmd_views(dcmds@)
                    == group_drain(launched0, buf0).cmds && self@.buffer.len() == 0
                    && self@.launched == group_drain(launched0, buf0).launched,
                !terminated ==> {
                    let total = group_drain(launched0, buf0);
                    let rest = group_drain(self@.launched, self@.buffer);
                    &&& total.cmds == group_cmd_views(dcmds@) + rest.cmds
                    &&& total.done == rest.done
                    &&& total.launched == rest.launched
                },
            decreases self.pre_start_msgs@.len(),
        {
            let ghost launched_here = self@.launched;
            let ghost rest_before = self@.buffer;
            let msg = self.pre_start_msgs.remove(0);
            proof {
                assert(self@.buffer =~= rest_before.drop_first());
                assert(msg@ == rest_before[0]);
            }
            let (mut step_cmds, done) = self.handle(msg);
            let ghost cmds_before = dcmds@;
            let ghost step_views = group_cmd_views(step_cmds@);
            dcmds.append(&mut step_cmds);
            proof {
                assert(group_cmd_views(dcmds@) =~= group_cmd_views(cmds_before) + step_views);
                let h = group_handle_spec(launched_here, rest_before[0]);
                if done {
                    assert(group_drain(launched_here, rest_before) == (GroupDrain {
                        launched: h.launched,
                        cmds: h.cmds,
                        done: true,
                    }));
                } else {
                    assert(group_drain(launched_here, rest_before).cmds == h.cmds + group_drain(
                        h.launched,
                        rest_before.drop_first(),
                    ).cmds);
                }
            }
            if done {
                terminated = true;
                self.pre_start_msgs = Vec::new();
                proof {
                    assert(self@.buffer =~= Seq::<CtlView>::empty());
                    assert(group_cmd_views(dcmds@) =~= group_drain(launched0, buf0).cmds);
                }
            } else {
                proof {
                    assert(group_drain(launched0, buf0).cmds =~= group_cmd_views(dcmds@)
                        + group_drain(self@.launched, self@.buffer).cmds);
                }
            }
        }
        proof {
            assert(self@.buffer =~= Seq::<CtlView>::empty());
            if !terminated {
                assert(group_drain(self@.launched, self@.buffer).cmds
                    =~= Seq::<GroupCmdView>::empty());
                assert(group_cmd_views(dcmds@) =~= group_drain(launched0, buf0).cmds);
                assert(!group_drain(launched0, buf0).done);
                assert(self@.launched == group_drain(launched0, buf0).launched);
            }
        }
        let mut cmds: Vec<GroupCommand> = Vec::new();
        cmds.push(GroupCommand::FanOut(CtlMsg::Start));
        let ghost dviews = group_cmd_views(dcmds@);
        cmds.append(&mut dcmds);
        proof {
            assert(group_cmd_views(cmds@) =~= seq![GroupCmdView::FanOut(CtlView::Start)] + dviews);
        }
        let flow = if terminated {
            GroupFlow::Done
        } else {
            GroupFlow::PollAgain
        };
        (cmds, flow)
    }
}

} // verus!
