//! The external reference handles: cheaply cloneable capability tokens other
//! actors hold to address a group (`ChildrenRef`) or one of its elements
//! (`ChildRef`) over the group's inbound channels.  A handle does not own the
//! lifecycle; it only sends.  Every send is non-blocking and fails only when
//! the channel is closed, and a failed user send hands the user's payload
//! back.

use vstd::prelude::*;
use crate::envelope::Payload;
use crate::message::CtlMsg;
use futures::channel::mpsc::UnboundedSender;

verus! {

/// Declares `futures::channel::mpsc::UnboundedSender`, the send half of the
/// unbounded channels that carry control messages; the value is opaque here.
#[verifier::external_type_specification]
#[verifier::external_body]
#[verifier::reject_recursive_types(T)]
pub struct ExUnboundedSender<T>(UnboundedSender<T>);

/// Relies on `UnboundedSender::clone`: a new handle to the same channel.
/// Nothing is claimed of the result; the contracts never track which channel
/// a sender feeds.
pub assume_specification<T>[ <UnboundedSender<T> as Clone>::clone ](
    s: &UnboundedSender<T>,
) -> UnboundedSender<T>;

/// Relies on `UnboundedSender::unbounded_send` and `TrySendError::into_inner`:
/// the send fails only when the channel is closed, and the error hands back
/// exactly the message whose send was attempted.
#[verifier::external_body]
fn send_ctl(sender: &UnboundedSender<CtlMsg>, msg: CtlMsg) -> (r: Result<(), CtlMsg>)
    ensures
        r matches Err(m) ==> m@ == msg@,
{
    match sender.unbounded_send(msg) {
        Ok(()) => Ok(()),
        Err(e) => Err(e.into_inner()),
    }
}

/// A reference to one element of a children group.
pub struct ChildRef {
    id: u64,
    sender: UnboundedSender<CtlMsg>,
}

impl View for ChildRef {
    type V = u64;

    closed spec fn view(&self) -> u64 {
        self.id
    }
}

impl Clone for ChildRef {
    /// Cloning is cheap and yields an independent handle to the same
    /// element's channel.
    fn clone(&self) -> (r: Self)
        ensures
            r@ == self@,
    {
        ChildRef { id: self.id, sender: self.sender.clone() }
    }
}

impl ChildRef {
    /// A handle to the element `id` behind `sender`.
    pub fn new(id: u64, sender: UnboundedSender<CtlMsg>) -> (r: ChildRef)
        ensures
            r@ == id,
    {
        ChildRef { id, sender }
    }

    /// The element's id.
    pub fn id(&self) -> (r: u64)
        ensures
            r == self@,
    {
        self.id
    }

    /// Sends a user payload to this element alone, as an owned envelope in a
    /// `Tell`.  On a closed channel the user's payload is handed back.
    pub fn send_msg(&self, msg: Payload) -> (r: Result<(), Payload>)
        ensures
            r matches Err(p) ==> p@ == msg@,
    {
        let tag = msg.tag;
        let m = CtlMsg::tell(msg);
        match self.send(m) {
            Ok(()) => Ok(()),
            Err(m) => {
                match m.into_msg(tag) {
                    Some(p) => Err(p),
                    None => {
                        proof {
                            assert(false);
                        }
                        Ok(())
                    }
                }
            }
        }
    }

    /// Asks the element to stop its execution.
    pub fn stop(&self) -> Result<(), ()> {
        match self.send(CtlMsg::Stop) {
            Ok(()) => Ok(()),
            Err(m) => Err(()),
        }
    }

    /// Asks the element to tear itself down at once.
    pub fn kill(&self) -> Result<(), ()> {
        match self.send(CtlMsg::Kill) {
            Ok(()) => Ok(()),
            Err(m) => Err(()),
        }
    }

    /// Sends a control message to the element.  Failure hands the message
    /// back and means the channel is closed.
    pub fn send(&self, msg: CtlMsg) -> (r: Result<(), CtlMsg>)
        ensures
            r matches Err(m) ==> m@ == msg@,
    {
        send_ctl(&self.sender, msg)
    }
}

/// A reference to a whole children group, with a snapshot of its elements
/// taken when the handle was made.
pub struct ChildrenRef {
    id: u64,
    sender: UnboundedSender<CtlMsg>,
    children: Vec<ChildRef>,
}

/// The mathematical value of a [`ChildrenRef`]: the group's id and the ids
/// of the elements in the snapshot.
pub struct ChildrenRefView {
    pub id: u64,
    pub elems: Seq<u64>,
}

impl View for ChildrenRef {
    type V = ChildrenRefView;

    closed spec fn view(&self) -> ChildrenRefView {
        ChildrenRefView {
            id: self.id,
            elems: self.children@.map_values(|c: ChildRef| c@),
        }
    }
}

impl Clone for ChildrenRef {
    /// Cloning is cheap and yields an independent handle with the same
    /// element snapshot.
    fn clone(&self) -> (r: Self)
        ensures
            r@ == self@,
    {
        let mut children: Vec<ChildRef> = Vec::new();
        let mut i: usize = 0;
        while i < self.children.len()
            invariant
                i <= self.children@.len(),
                children@.len() == i,
                forall|j: int| 0 <= j < i ==> #[trigger] children@[j]@ == self.children@[j]@,
            decreases self.children@.len() - i,
        {
            children.push(self.children[i].clone());
            i = i + 1;
        }
        let r = ChildrenRef { id: self.id, sender: self.sender.clone(), children };
        proof {
            assert(r@.elems =~= self@.elems);
        }
        r
    }
}

impl ChildrenRef {
    /// A handle to the group `id` behind `sender`, with the given element
    /// snapshot.
    pub fn new(id: u64, sender: UnboundedSender<CtlMsg>, children: Vec<ChildRef>) -> (r:
        ChildrenRef)
        ensures
            r@.id == id,
            r@.elems == children@.map_values(|c: ChildRef| c@),
    {
        ChildrenRef { id, sender, children }
    }

    /// The group's id.
    pub fn id(&self) -> (r: u64)
        ensures
            r == self@.id,
    {
        self.id
    }

    /// The elements of the group as they were when this handle was made;
    /// a later restart of the group is not reflected here.
    pub fn elems(&self) -> (r: &Vec<ChildRef>)
        ensures
            r@.map_values(|c: ChildRef| c@) == self@.elems,
    {
        &self.children
    }

    /// Sends a user payload to the group, which fans it out to every
    /// element: the payload travels as a shared envelope in a `Tell`.  On a
    /// closed channel the user's payload is handed back.
    pub fn broadcast(&self, msg: Payload) -> (r: Result<(), Payload>)
        ensures
            r matches Err(p) ==> p@ == msg@,
    {
        let tag = msg.tag;
        let m = CtlMsg::broadcast(msg);
        match self.send(m) {
            Ok(()) => Ok(()),
            Err(m) => {
                match m.into_msg(tag) {
                    Some(p) => Err(p),
                    None => {
                        proof {
                            assert(false);
                        }
                        Ok(())
                    }
                }
            }
        }
    }

    /// Asks the group to stop all of its elements.
    pub fn stop(&self) -> Result<(), ()> {
        match self.send(CtlMsg::Stop) {
            Ok(()) => Ok(()),
            Err(m) => Err(()),
        }
    }

    /// Asks the group to tear all of its elements down at once.
    pub fn kill(&self) -> Result<(), ()> {
        match self.send(CtlMsg::Kill) {
            Ok(()) => Ok(()),
            Err(m) => Err(()),
        }
    }

    /// Sends a control message to the group.  Failure hands the message
    /// back and means the channel is closed.
    pub fn send(&self, msg: CtlMsg) -> (r: Result<(), CtlMsg>)
        ensures
            r matches Err(m) ==> m@ == msg@,
    {
        send_ctl(&self.sender, msg)
    }
}

} // verus!
