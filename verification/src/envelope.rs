//! The message envelope: a runtime-typed user payload, either uniquely owned
//! (addressed to one element) or reference-counted (fanned out to the whole
//! group).

use vstd::prelude::*;
use std::sync::Arc;

verus! {

/// A user payload.  The dynamic type of the user's value is stood for by
/// `tag`, and the value itself by `data`; two payloads are of the same
/// dynamic type exactly when their tags are equal.
#[derive(Debug)]
pub struct Payload {
    pub tag: u64,
    pub data: Vec<u8>,
}

/// The mathematical value of a [`Payload`].
pub struct PayloadView {
    pub tag: u64,
    pub data: Seq<u8>,
}

impl View for Payload {
    type V = PayloadView;

    open spec fn view(&self) -> PayloadView {
        PayloadView { tag: self.tag, data: self.data@ }
    }
}

impl Clone for Payload {
    fn clone(&self) -> (r: Self)
        ensures
            r@ == self@,
    {
        let data = clone_bytes(&self.data);
        Payload { tag: self.tag, data }
    }
}

/// Copies a byte vector element by element.
fn clone_bytes(v: &Vec<u8>) -> (r: Vec<u8>)
    ensures
        r@ == v@,
{
    let mut r: Vec<u8> = Vec::new();
    let mut i: usize = 0;
    while i < v.len()
        invariant
            i <= v@.len(),
            r@ == v@.subrange(0, i as int),
        decreases v@.len() - i,
    {
        r.push(v[i]);
        i = i + 1;
        proof {
            assert(r@ == v@.subrange(0, i as int));
        }
    }
    proof {
        assert(r@ == v@);
    }
    r
}

#[derive(Debug)]
enum MsgInner {
    Shared(Arc<Payload>),
    Owned(Payload),
}

/// A message envelope: a payload together with its sharing discipline.
/// A `Shared` envelope may be duplicated by cloning its reference count;
/// an `Owned` payload is never duplicated.
#[derive(Debug)]
pub struct Msg(MsgInner);

/// The mathematical value of a [`Msg`]: whether it is shared, and its payload.
pub struct MsgView {
    pub shared: bool,
    pub payload: PayloadView,
}

impl View for Msg {
    type V = MsgView;

    closed spec fn view(&self) -> MsgView {
        match self.0 {
            MsgInner::Shared(a) => MsgView { shared: true, payload: a@ },
            MsgInner::Owned(p) => MsgView { shared: false, payload: p@ },
        }
    }
}

/// Relies on `std::sync::Arc::clone`: the new handle points at the same value.
#[verifier::external_body]
fn arc_clone(a: &Arc<Payload>) -> (r: Arc<Payload>)
    ensures
        r == *a,
{
    Arc::clone(a)
}

/// Relies on `std::sync::Arc::try_unwrap`: returns the inner value when the
/// argument was the last strong reference, and the same handle back otherwise.
#[verifier::external_body]
fn arc_try_unwrap(a: Arc<Payload>) -> (r: Result<Payload, Arc<Payload>>)
    ensures
        r matches Ok(p) ==> p == a,
        r matches Err(e) ==> e == a,
{
    Arc::try_unwrap(a)
}

impl Msg {
    /// Wraps a payload in a reference-counted cell, for group fan-out.
    pub fn shared(msg: Payload) -> (r: Self)
        ensures
            r@ == (MsgView { shared: true, payload: msg@ }),
    {
        Msg(MsgInner::Shared(Arc::new(msg)))
    }

    /// Wraps a payload in a uniquely owning cell, for a single consumer.
    pub fn owned(msg: Payload) -> (r: Self)
        ensures
            r@ == (MsgView { shared: false, payload: msg@ }),
    {
        Msg(MsgInner::Owned(msg))
    }

    /// True exactly when the envelope is shared.
    pub fn is_broadcast(&self) -> (r: bool)
        ensures
            r == self@.shared,
    {
        match self.0 {
            MsgInner::Shared(_) => true,
            MsgInner::Owned(_) => false,
        }
    }

    /// Consuming downcast: yields the payload exactly when the envelope is
    /// owned and of the asked-for type; otherwise the envelope comes back
    /// unchanged.
    pub fn downcast(self, tag: u64) -> (r: Result<Payload, Self>)
        ensures
            downcast_ok(self@, tag) ==> (r matches Ok(p) && p@ == self@.payload),
            !downcast_ok(self@, tag) ==> (r matches Err(m) && m@ == self@),
    {
        match self.0 {
            MsgInner::Owned(p) => {
                if p.tag == tag {
                    Ok(p)
                } else {
                    Err(Msg(MsgInner::Owned(p)))
                }
            }
            MsgInner::Shared(a) => Err(Msg(MsgInner::Shared(a))),
        }
    }

    /// Non-consuming downcast: yields a fresh strong reference exactly when
    /// the envelope is shared and of the asked-for type.
    pub fn downcast_ref(&self, tag: u64) -> (r: Option<Arc<Payload>>)
        ensures
            downcast_ref_ok(self@, tag) ==> (r matches Some(a) && a@ == self@.payload),
            !downcast_ref_ok(self@, tag) ==> r is None,
    {
        match &self.0 {
            MsgInner::Shared(a) => {
                if a.tag == tag {
                    Some(arc_clone(a))
                } else {
                    None
                }
            }
            MsgInner::Owned(_) => None,
        }
    }

    /// Duplicates the envelope exactly when it is shared, by cloning the
    /// reference count.  An owned payload is never duplicated.
    pub fn try_clone(&self) -> (r: Option<Self>)
        ensures
            self@.shared ==> (r matches Some(m) && m@ == self@),
            !self@.shared ==> r is None,
    {
        match &self.0 {
            MsgInner::Shared(a) => Some(Msg(MsgInner::Shared(arc_clone(a)))),
            MsgInner::Owned(_) => None,
        }
    }

    /// Unwraps the payload out of the envelope.  For an owned envelope this
    /// is `downcast`.  For a shared envelope of the asked-for type it
    /// succeeds only when this handle is the last strong reference; on any
    /// failure the envelope comes back unchanged.
    pub fn try_unwrap(self, tag: u64) -> (r: Result<Payload, Self>)
        ensures
            r matches Ok(p) ==> p@ == self@.payload && self@.payload.tag == tag,
            r matches Err(m) ==> m@ == self@,
            !self@.shared && self@.payload.tag == tag ==> r is Ok,
            self@.payload.tag != tag ==> r is Err,
    {
        match self.0 {
            MsgInner::Shared(a) => {
                if a.tag == tag {
                    match arc_try_unwrap(a) {
                        Ok(p) => Ok(p),
                        Err(a) => Err(Msg(MsgInner::Shared(a))),
                    }
                } else {
                    Err(Msg(MsgInner::Shared(a)))
                }
            }
            MsgInner::Owned(p) => {
                if p.tag == tag {
                    Ok(p)
                } else {
                    Err(Msg(MsgInner::Owned(p)))
                }
            }
        }
    }
}

/// When a consuming downcast succeeds: the envelope is owned and the tag
/// matches.
pub open spec fn downcast_ok(m: MsgView, tag: u64) -> bool {
    !m.shared && m.payload.tag == tag
}

/// When a non-consuming downcast succeeds: the envelope is shared and the tag
/// matches.
pub open spec fn downcast_ref_ok(m: MsgView, tag: u64) -> bool {
    m.shared && m.payload.tag == tag
}

/// Round-trip law for owned envelopes: wrapping a payload with `owned` and
/// downcasting it to its own type is the identity.
pub proof fn lemma_owned_round_trip(p: PayloadView)
    ensures
        downcast_ok(MsgView { shared: false, payload: p }, p.tag),
{
}

/// Round-trip law for shared envelopes: a non-consuming downcast to the
/// payload's own type succeeds, however many strong references exist.
pub proof fn lemma_shared_downcast_ref(p: PayloadView)
    ensures
        downcast_ref_ok(MsgView { shared: true, payload: p }, p.tag),
{
}

} // verus!
