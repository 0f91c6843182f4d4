use children_group::envelope::{Msg, Payload};

fn payload(tag: u64, data: &[u8]) -> Payload {
    Payload { tag, data: data.to_vec() }
}

#[test]
fn owned_round_trip() {
    let m = Msg::owned(payload(1, b"hello"));
    assert!(!m.is_broadcast());
    let p = m.downcast(1).ok().expect("owned downcast of matching tag");
    assert_eq!(p.tag, 1);
    assert_eq!(p.data, b"hello".to_vec());
}

#[test]
fn owned_downcast_wrong_tag_returns_envelope_unchanged() {
    let m = Msg::owned(payload(1, b"hello"));
    let m = m.downcast(2).err().expect("wrong tag must fail");
    assert!(!m.is_broadcast());
    let p = m.downcast(1).ok().expect("envelope unchanged after failed downcast");
    assert_eq!(p.data, b"hello".to_vec());
}

#[test]
fn shared_downcast_consuming_fails() {
    let m = Msg::shared(payload(1, b"x"));
    assert!(m.downcast(1).is_err());
}

#[test]
fn shared_downcast_ref_succeeds_repeatedly() {
    let m = Msg::shared(payload(3, b"x"));
    assert!(m.is_broadcast());
    let a = m.downcast_ref(3).expect("shared downcast_ref of matching tag");
    let b = m.downcast_ref(3).expect("downcast_ref any number of times");
    assert_eq!(a.data, b"x".to_vec());
    assert_eq!(b.data, b"x".to_vec());
    assert!(m.downcast_ref(4).is_none());
}

#[test]
fn owned_downcast_ref_fails() {
    let m = Msg::owned(payload(3, b"x"));
    assert!(m.downcast_ref(3).is_none());
}

#[test]
fn try_clone_shared_only() {
    let m = Msg::shared(payload(9, b"s"));
    let c = m.try_clone().expect("shared envelopes clone");
    assert!(c.is_broadcast());
    let o = Msg::owned(payload(9, b"o"));
    assert!(o.try_clone().is_none());
}

#[test]
fn try_unwrap_unique_holder_succeeds() {
    let m = Msg::shared(payload(5, b"once"));
    let p = m.try_unwrap(5).ok().expect("unique holder unwraps");
    assert_eq!(p.data, b"once".to_vec());
}

#[test]
fn try_unwrap_with_other_holder_fails_and_returns_envelope() {
    let m = Msg::shared(payload(5, b"twice"));
    let held = m.downcast_ref(5).expect("take a second strong reference");
    let m = m.try_unwrap(5).err().expect("not the unique holder");
    assert!(m.is_broadcast());
    assert_eq!(m.downcast_ref(5).expect("envelope unchanged").data, b"twice".to_vec());
    drop(held);
    let p = m.try_unwrap(5).ok().expect("unique again once the other holder is gone");
    assert_eq!(p.data, b"twice".to_vec());
}

#[test]
fn try_unwrap_wrong_tag_fails() {
    let m = Msg::shared(payload(5, b"z"));
    assert!(m.try_unwrap(6).is_err());
    let o = Msg::owned(payload(5, b"z"));
    assert!(o.try_unwrap(6).is_err());
}

#[test]
fn try_unwrap_owned_delegates_to_downcast() {
    let m = Msg::owned(payload(5, b"own"));
    let p = m.try_unwrap(5).ok().expect("owned of matching tag");
    assert_eq!(p.data, b"own".to_vec());
}
