//! The control message variant that flows through the supervision tree into
//! groups and elements.

use vstd::prelude::*;
use crate::envelope::{Msg, MsgView, Payload};

verus! {

/// A control message.  `Deploy`, `Prune` and `SuperviseWith` are reserved at
/// this layer: the kernels refuse to handle them.
#[derive(Debug)]
pub enum CtlMsg {
    /// Start the receiver; buffered messages are replayed first.
    Start,
    /// Ask the receiver to wind down gracefully.
    Stop,
    /// Tear the receiver down immediately.
    Kill,
    /// A user payload to deliver to mailboxes.
    Tell(Msg),
    /// Reserved for the supervision tree.
    Deploy,
    /// Reserved for the supervision tree.
    Prune,
    /// Reserved for the supervision tree.
    SuperviseWith,
    /// An element reports that it stopped cleanly.
    Stopped { id: u64 },
    /// An element reports that it terminated with a fault.
    Faulted { id: u64 },
}

/// The mathematical value of a [`CtlMsg`].
pub enum CtlView {
    Start,
    Stop,
    Kill,
    Tell(MsgView),
    Deploy,
    Prune,
    SuperviseWith,
    Stopped { id: u64 },
    Faulted { id: u64 },
}

impl View for CtlMsg {
    type V = CtlView;

    open spec fn view(&self) -> CtlView {
        match self {
            CtlMsg::Start => CtlView::Start,
            CtlMsg::Stop => CtlView::Stop,
            CtlMsg::Kill => CtlView::Kill,
            CtlMsg::Tell(m) => CtlView::Tell(m@),
            CtlMsg::Deploy => CtlView::Deploy,
            CtlMsg::Prune => CtlView::Prune,
            CtlMsg::SuperviseWith => CtlView::SuperviseWith,
            CtlMsg::Stopped { id } => CtlView::Stopped { id: *id },
            CtlMsg::Faulted { id } => CtlView::Faulted { id: *id },
        }
    }
}

/// True of the variants that are reserved for the supervision tree and must
/// not reach a group's handler.
pub open spec fn group_reserved(m: CtlView) -> bool {
    m is Deploy || m is Prune || m is SuperviseWith
}

/// True of the variants an element's handler refuses: the reserved ones, and
/// the termination reports that only a group may consume.
pub open spec fn child_reserved(m: CtlView) -> bool {
    group_reserved(m) || m is Stopped || m is Faulted
}

impl CtlMsg {
    /// Wraps a user payload for delivery to a single element.
    pub fn tell(msg: Payload) -> (r: Self)
        ensures
            r@ == CtlView::Tell(MsgView { shared: false, payload: msg@ }),
    {
        CtlMsg::Tell(Msg::owned(msg))
    }

    /// Wraps a user payload for fan-out to every element of a group.
    pub fn broadcast(msg: Payload) -> (r: Self)
        ensures
            r@ == CtlView::Tell(MsgView { shared: true, payload: msg@ }),
    {
        CtlMsg::Tell(Msg::shared(msg))
    }

    /// Recovers the user payload out of a `Tell`, whatever its sharing
    /// discipline, provided the tag matches; any other message yields `None`.
    pub fn into_msg(self, tag: u64) -> (r: Option<Payload>)
        ensures
            (self@ matches CtlView::Tell(m) && m.payload.tag == tag) <==> r is Some,
            self@ matches CtlView::Tell(m) ==> (r matches Some(p) ==> p@ == m.payload),
    {
        match self {
            CtlMsg::Tell(m) => {
                match m.try_unwrap(tag) {
                    Ok(p) => Some(p),
                    Err(m) => {
                        // A shared envelope with other live references: read
                        // the payload out without consuming the envelope.
                        match m.downcast_ref(tag) {
                            Some(a) => Some((*a).clone()),
                            None => None,
                        }
                    }
                }
            }
            _ => None,
        }
    }
}

} // verus!
