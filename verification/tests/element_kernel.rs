use children_group::child::{Child, ChildCommand, ChildFlow, ExecStatus, Inbound};
use children_group::context_state::ContextState;
use children_group::envelope::Payload;
use children_group::message::CtlMsg;

fn tell(tag: u64, data: &[u8]) -> CtlMsg {
    CtlMsg::tell(Payload { tag, data: data.to_vec() })
}

#[test]
fn messages_before_start_are_buffered_silently() {
    let mut c = Child::new();
    assert!(!c.is_started());
    let (cmds, flow) = c.step(Inbound::Ready(tell(1, b"a")));
    assert!(cmds.is_empty());
    assert_eq!(flow, ChildFlow::PollAgain);
    let (cmds, flow) = c.step(Inbound::Pending);
    assert!(cmds.is_empty());
    assert_eq!(flow, ChildFlow::Sleep);
}

#[test]
fn pre_start_replay_keeps_order() {
    let mut c = Child::new();
    c.step(Inbound::Ready(tell(1, b"m1")));
    c.step(Inbound::Ready(tell(1, b"m2")));
    let (cmds, flow) = c.step(Inbound::Ready(CtlMsg::Start));
    assert_eq!(flow, ChildFlow::PollAgain);
    assert!(c.is_started());
    let datas: Vec<Vec<u8>> = cmds
        .into_iter()
        .map(|cmd| match cmd {
            ChildCommand::Push(m) => m.downcast(1).ok().expect("replayed tells").data,
            other => panic!("only mailbox pushes expected, got {:?}", other),
        })
        .collect();
    assert_eq!(datas, vec![b"m1".to_vec(), b"m2".to_vec()]);
    // later tells follow the replayed ones in order
    let (cmds, _) = c.step(Inbound::Ready(tell(1, b"m3")));
    assert!(matches!(&cmds[..], [ChildCommand::Push(_)]));
}

#[test]
fn tells_arrive_fifo_once_started() {
    let mut c = Child::new();
    c.step(Inbound::Ready(CtlMsg::Start));
    let mut state = ContextState::new();
    for data in [b"a".as_slice(), b"b".as_slice(), b"c".as_slice()] {
        let (mut cmds, flow) = c.step(Inbound::Ready(tell(7, data)));
        assert_eq!(flow, ChildFlow::PollAgain);
        match cmds.remove(0) {
            ChildCommand::Push(m) => state.push_msg(m),
            _ => panic!("a tell queues a mailbox push"),
        }
    }
    assert_eq!(state.len(), 3);
    let mut seen: Vec<Vec<u8>> = Vec::new();
    while let Some(m) = state.pull_msg() {
        seen.push(m.downcast(7).ok().expect("owned tells").data);
    }
    assert_eq!(seen, vec![b"a".to_vec(), b"b".to_vec(), b"c".to_vec()]);
}

#[test]
fn stop_and_kill_alike_terminate_with_stop_notice() {
    for msg in [CtlMsg::Stop, CtlMsg::Kill] {
        let mut c = Child::new();
        c.step(Inbound::Ready(CtlMsg::Start));
        let (cmds, flow) = c.step(Inbound::Ready(msg));
        assert!(matches!(&cmds[..], [ChildCommand::NotifyStopped]));
        assert_eq!(flow, ChildFlow::Done);
    }
}

#[test]
fn stop_buffered_before_start_terminates_on_replay() {
    let mut c = Child::new();
    c.step(Inbound::Ready(CtlMsg::Stop));
    let (cmds, flow) = c.step(Inbound::Ready(CtlMsg::Start));
    assert!(matches!(&cmds[..], [ChildCommand::NotifyStopped]));
    // the element ends during replay: the user future is never polled
    assert_eq!(flow, ChildFlow::Done);
}

#[test]
fn closed_inbound_stream_is_a_fault() {
    let mut c = Child::new();
    let (cmds, flow) = c.step(Inbound::Closed);
    assert!(matches!(&cmds[..], [ChildCommand::NotifyFaulted]));
    assert_eq!(flow, ChildFlow::Done);
}

#[test]
fn started_and_idle_polls_the_user_future() {
    let mut c = Child::new();
    c.step(Inbound::Ready(CtlMsg::Start));
    let (cmds, flow) = c.step(Inbound::Pending);
    assert!(cmds.is_empty());
    assert_eq!(flow, ChildFlow::PollExec);
}

#[test]
fn clean_completion_stops_the_element() {
    let (cmds, flow) = Child::on_exec(ExecStatus::CleanStop);
    assert!(matches!(&cmds[..], [ChildCommand::NotifyStopped]));
    assert_eq!(flow, ChildFlow::Done);
}

#[test]
fn user_error_faults_the_element() {
    let (cmds, flow) = Child::on_exec(ExecStatus::UserError);
    assert!(matches!(&cmds[..], [ChildCommand::NotifyFaulted]));
    assert_eq!(flow, ChildFlow::Done);
}

#[test]
fn caught_panic_faults_exactly_like_a_user_error() {
    let (p_cmds, p_flow) = Child::on_exec(ExecStatus::Panicked);
    let (e_cmds, e_flow) = Child::on_exec(ExecStatus::UserError);
    assert!(matches!(&p_cmds[..], [ChildCommand::NotifyFaulted]));
    assert!(matches!(&e_cmds[..], [ChildCommand::NotifyFaulted]));
    assert_eq!(p_flow, e_flow);
}

#[test]
fn pending_user_future_yields() {
    let (cmds, flow) = Child::on_exec(ExecStatus::Pending);
    assert!(cmds.is_empty());
    assert_eq!(flow, ChildFlow::Sleep);
}

#[test]
fn mailbox_is_fifo() {
    let mut state = ContextState::new();
    assert_eq!(state.len(), 0);
    assert!(state.pull_msg().is_none());
    state.push_msg(children_group::envelope::Msg::owned(Payload { tag: 1, data: vec![1] }));
    state.push_msg(children_group::envelope::Msg::owned(Payload { tag: 1, data: vec![2] }));
    let first = state.pull_msg().expect("two queued");
    assert_eq!(first.downcast(1).ok().unwrap().data, vec![1]);
    let second = state.pull_msg().expect("one left");
    assert_eq!(second.downcast(1).ok().unwrap().data, vec![2]);
    assert!(state.pull_msg().is_none());
}
