use children_group::child::{Child, ChildCommand, ChildFlow, ExecStatus, Inbound};
use children_group::children::{Children, GroupCommand, GroupFlow};
use children_group::envelope::Payload;
use children_group::message::CtlMsg;

fn distinct(ids: &[u64]) -> bool {
    for i in 0..ids.len() {
        for j in (i + 1)..ids.len() {
            if ids[i] == ids[j] {
                return false;
            }
        }
    }
    true
}

#[test]
fn construction_launches_exactly_redundancy_distinct_elements() {
    let g = Children::new(3);
    assert_eq!(g.redundancy(), 3);
    assert_eq!(g.launched_ids().len(), 3);
    assert!(distinct(g.launched_ids()));
    assert!(!g.is_started());
}

#[test]
fn reset_relaunches_redundancy_fresh_elements() {
    let mut g = Children::new(3);
    let before = g.launched_ids().clone();
    let fresh = g.reset();
    assert_eq!(fresh.len(), 3);
    assert_eq!(g.launched_ids(), &fresh);
    assert!(distinct(&fresh));
    for id in &fresh {
        assert!(!before.contains(id), "a reset mints fresh ids");
    }
}

#[test]
fn reset_after_termination_restores_the_pool() {
    let mut g = Children::new(2);
    g.step(Inbound::Ready(CtlMsg::Start));
    g.step(Inbound::Ready(CtlMsg::Stop));
    assert!(g.launched_ids().is_empty());
    let fresh = g.reset();
    assert_eq!(fresh.len(), 2);
    assert_eq!(g.launched_ids(), &fresh);
    assert!(distinct(&fresh));
    // the started latch survives a reset
    assert!(g.is_started());
}

#[test]
fn start_fans_out_to_the_elements() {
    let mut g = Children::new(2);
    let (cmds, flow) = g.step(Inbound::Ready(CtlMsg::Start));
    assert!(matches!(&cmds[..], [GroupCommand::FanOut(CtlMsg::Start)]));
    assert_eq!(flow, GroupFlow::PollAgain);
    assert!(g.is_started());
}

#[test]
fn happy_path_stop_report_tears_the_pool_down() {
    // three elements whose work completes at once: the first clean-stop
    // report makes the group kill the rest and report a clean stop
    let mut g = Children::new(3);
    g.step(Inbound::Ready(CtlMsg::Start));
    let id = g.launched_ids()[0];
    let (cmds, flow) = g.step(Inbound::Ready(CtlMsg::Stopped { id }));
    assert!(matches!(
        &cmds[..],
        [GroupCommand::KillChildren, GroupCommand::NotifyStopped]
    ));
    assert_eq!(flow, GroupFlow::Done);
    assert!(g.launched_ids().is_empty());
}

#[test]
fn single_fault_faults_the_whole_group() {
    let mut g = Children::new(3);
    g.step(Inbound::Ready(CtlMsg::Start));
    let id = g.launched_ids()[0];
    let (cmds, flow) = g.step(Inbound::Ready(CtlMsg::Faulted { id }));
    assert!(matches!(
        &cmds[..],
        [GroupCommand::KillChildren, GroupCommand::NotifyFaulted]
    ));
    assert_eq!(flow, GroupFlow::Done);
    assert!(g.launched_ids().is_empty());
}

#[test]
fn panicking_elements_fault_the_group() {
    // two elements whose user future panics: each faults, and the first
    // fault report faults the whole group
    let mut g = Children::new(2);
    g.step(Inbound::Ready(CtlMsg::Start));
    let mut reports = Vec::new();
    for id in g.launched_ids().clone() {
        let mut c = Child::new();
        c.step(Inbound::Ready(CtlMsg::Start));
        let (cmds, flow) = Child::on_exec(ExecStatus::Panicked);
        assert_eq!(flow, ChildFlow::Done);
        assert!(matches!(&cmds[..], [ChildCommand::NotifyFaulted]));
        reports.push(CtlMsg::Faulted { id });
    }
    let (cmds, flow) = g.step(Inbound::Ready(reports.remove(0)));
    assert!(matches!(
        &cmds[..],
        [GroupCommand::KillChildren, GroupCommand::NotifyFaulted]
    ));
    assert_eq!(flow, GroupFlow::Done);
}

#[test]
fn report_from_unknown_id_is_ignored() {
    let mut g = Children::new(2);
    g.step(Inbound::Ready(CtlMsg::Start));
    let unknown = 1_000_000;
    assert!(!g.launched_ids().contains(&unknown));
    let (cmds, flow) = g.step(Inbound::Ready(CtlMsg::Stopped { id: unknown }));
    assert!(cmds.is_empty());
    assert_eq!(flow, GroupFlow::PollAgain);
    assert_eq!(g.launched_ids().len(), 2);
}

#[test]
fn stop_before_start_terminates_on_replay() {
    let mut g = Children::new(2);
    let (cmds, flow) = g.step(Inbound::Ready(CtlMsg::Stop));
    assert!(cmds.is_empty());
    assert_eq!(flow, GroupFlow::PollAgain);
    let (cmds, flow) = g.step(Inbound::Ready(CtlMsg::Start));
    assert!(matches!(
        &cmds[..],
        [
            GroupCommand::FanOut(CtlMsg::Start),
            GroupCommand::StopChildren,
            GroupCommand::NotifyStopped,
        ]
    ));
    assert_eq!(flow, GroupFlow::Done);
}

#[test]
fn stop_winds_the_pool_down_gracefully() {
    let mut g = Children::new(2);
    g.step(Inbound::Ready(CtlMsg::Start));
    let (cmds, flow) = g.step(Inbound::Ready(CtlMsg::Stop));
    assert!(matches!(
        &cmds[..],
        [GroupCommand::StopChildren, GroupCommand::NotifyStopped]
    ));
    assert_eq!(flow, GroupFlow::Done);
}

#[test]
fn kill_tears_the_pool_down() {
    let mut g = Children::new(2);
    g.step(Inbound::Ready(CtlMsg::Start));
    let (cmds, flow) = g.step(Inbound::Ready(CtlMsg::Kill));
    assert!(matches!(
        &cmds[..],
        [GroupCommand::KillChildren, GroupCommand::NotifyStopped]
    ));
    assert_eq!(flow, GroupFlow::Done);
}

#[test]
fn closed_inbound_stream_kills_and_faults() {
    let mut g = Children::new(2);
    g.step(Inbound::Ready(CtlMsg::Start));
    let (cmds, flow) = g.step(Inbound::Closed);
    assert!(matches!(
        &cmds[..],
        [GroupCommand::KillChildren, GroupCommand::NotifyFaulted]
    ));
    assert_eq!(flow, GroupFlow::Done);
    assert!(g.launched_ids().is_empty());
}

#[test]
fn broadcast_is_delivered_to_every_element() {
    // a shared tell fans out; each element queues it, and the payload can be
    // read through a fresh strong reference on each of them
    let mut g = Children::new(2);
    g.step(Inbound::Ready(CtlMsg::Start));
    let shared = CtlMsg::broadcast(Payload { tag: 42, data: b"x".to_vec() });
    let (mut cmds, _) = g.step(Inbound::Ready(shared));
    let fanned = match cmds.remove(0) {
        GroupCommand::FanOut(m) => m,
        _ => panic!("a tell is fanned out"),
    };
    let envelope = match fanned {
        CtlMsg::Tell(m) => m,
        _ => panic!("the fanned-out message is the tell itself"),
    };
    assert!(envelope.is_broadcast());
    let copy = envelope.try_clone().expect("shared envelopes duplicate per element");
    for per_element in [envelope, copy] {
        let mut c = Child::new();
        c.step(Inbound::Ready(CtlMsg::Start));
        let (mut cmds, _) = c.step(Inbound::Ready(CtlMsg::Tell(per_element)));
        match cmds.remove(0) {
            ChildCommand::Push(m) => {
                let a = m.downcast_ref(42).expect("matching shared payload");
                assert_eq!(a.data, b"x".to_vec());
            }
            _ => panic!("a tell queues a mailbox push"),
        }
    }
}

#[test]
fn buffered_tell_reaches_the_mailbox_after_start() {
    // one element; a tell sent before start is replayed on start and the
    // user future then consumes exactly that message and completes
    let mut g = Children::new(1);
    let hello = CtlMsg::broadcast(Payload { tag: 7, data: b"hello".to_vec() });
    let (cmds, _) = g.step(Inbound::Ready(hello));
    assert!(cmds.is_empty());
    let (mut cmds, flow) = g.step(Inbound::Ready(CtlMsg::Start));
    assert_eq!(flow, GroupFlow::PollAgain);
    assert!(matches!(cmds.remove(0), GroupCommand::FanOut(CtlMsg::Start)));
    let envelope = match cmds.remove(0) {
        GroupCommand::FanOut(CtlMsg::Tell(m)) => m,
        _ => panic!("the buffered tell is replayed after start"),
    };
    let mut c = Child::new();
    c.step(Inbound::Ready(CtlMsg::Start));
    let (mut child_cmds, _) = c.step(Inbound::Ready(CtlMsg::Tell(envelope)));
    let mut state = children_group::context_state::ContextState::new();
    match child_cmds.remove(0) {
        ChildCommand::Push(m) => state.push_msg(m),
        _ => panic!("a tell queues a mailbox push"),
    }
    let observed = state.pull_msg().expect("exactly one message");
    assert_eq!(observed.downcast_ref(7).expect("shared payload").data, b"hello".to_vec());
    let (cmds, flow) = Child::on_exec(ExecStatus::CleanStop);
    assert!(matches!(&cmds[..], [ChildCommand::NotifyStopped]));
    assert_eq!(flow, ChildFlow::Done);
}
