//! The per-element context state: the mailbox an element's controller fills
//! and the user work future drains.  The element actor and the user context
//! share ownership of one such value behind an exclusive lock; this module
//! holds the data and its FIFO discipline.

use vstd::prelude::*;
use crate::envelope::{Msg, MsgView};

verus! {

/// An element's context state: its mailbox, an ordered queue of envelopes.
pub struct ContextState {
    msgs: Vec<Msg>,
}

impl View for ContextState {
    type V = Seq<MsgView>;

    closed spec fn view(&self) -> Seq<MsgView> {
        self.msgs@.map_values(|m: Msg| m@)
    }
}

impl ContextState {
    /// A fresh, empty mailbox.
    pub fn new() -> (r: Self)
        ensures
            r@ == Seq::<MsgView>::empty(),
    {
        let r = ContextState { msgs: Vec::new() };
        proof {
            assert(r@ =~= Seq::<MsgView>::empty());
        }
        r
    }

    /// How many envelopes are queued.
    pub fn len(&self) -> (r: usize)
        ensures
            r == self@.len(),
    {
        self.msgs.len()
    }

    /// Appends an envelope at the tail of the mailbox: deliveries are kept
    /// in arrival order.
    pub fn push_msg(&mut self, msg: Msg)
        ensures
            final(self)@ == old(self)@.push(msg@),
    {
        let ghost before = self@;
        self.msgs.push(msg);
        proof {
            assert(self@ =~= before.push(msg@));
        }
    }

    /// Takes the oldest envelope off the head of the mailbox, if any.
    pub fn pull_msg(&mut self) -> (r: Option<Msg>)
        ensures
            old(self)@.len() == 0 ==> r is None && final(self)@ == old(self)@,
            old(self)@.len() > 0 ==> (r matches Some(m) && m@ == old(self)@[0]
                && final(self)@ == old(self)@.drop_first()),
    {
        if self.msgs.len() == 0 {
            None
        } else {
            let ghost before = self@;
            let m = self.msgs.remove(0);
            proof {
                assert(self@ =~= before.drop_first());
            }
            Some(m)
        }
    }
}

} // verus!
