use nix_value::value::{CallStatus, RefCall};
use nix_value::value_type::{
    NIX_TYPE_ATTRS, NIX_TYPE_BOOL, NIX_TYPE_EXTERNAL, NIX_TYPE_FLOAT, NIX_TYPE_FUNCTION,
    NIX_TYPE_INT, NIX_TYPE_LIST, NIX_TYPE_NULL, NIX_TYPE_PATH, NIX_TYPE_STRING, NIX_TYPE_THUNK,
};
use nix_value::{Value, ValueType};

/// A stand-in for the foreign heap: one node, with its count, its tag and a
/// log of the calls made on it.
struct FakeNode {
    address: usize,
    count: i64,
    tag: u32,
    increfs: usize,
    decrefs: usize,
    fail_decref: bool,
}

impl FakeNode {
    fn new(address: usize, count: i64, tag: u32) -> FakeNode {
        FakeNode { address, count, tag, increfs: 0, decrefs: 0, fail_decref: false }
    }

    fn call(&mut self, c: RefCall) -> CallStatus {
        match c {
            RefCall::Incref(a) => {
                assert_eq!(a, self.address);
                self.increfs += 1;
                self.count += 1;
                CallStatus::Succeeded
            }
            RefCall::Decref(a) => {
                assert_eq!(a, self.address);
                self.decrefs += 1;
                if self.fail_decref {
                    CallStatus::Failed
                } else {
                    self.count -= 1;
                    CallStatus::Succeeded
                }
            }
        }
    }

    fn force(&mut self, tag: u32) {
        if self.tag == NIX_TYPE_THUNK {
            self.tag = tag;
        }
    }

    fn borrow(&mut self) -> Value {
        let (v, c) = Value::new_borrowed(self.address);
        assert_eq!(self.call(c), CallStatus::Succeeded);
        v
    }

    fn clone_handle(&mut self, v: &Value) -> Value {
        let status = self.call(v.clone_call());
        v.complete_clone(status).expect("increment failed")
    }

    fn drop_handle(&mut self, v: Value) {
        let _ = self.call(v.release());
    }

    fn classify(&self, v: &Value) -> Option<ValueType> {
        assert_eq!(v.address(), self.address);
        ValueType::from_raw(self.tag)
    }
}

#[test]
fn from_raw_known_tags() {
    assert_eq!(ValueType::from_raw(NIX_TYPE_ATTRS), Some(ValueType::AttrSet));
    assert_eq!(ValueType::from_raw(NIX_TYPE_BOOL), Some(ValueType::Bool));
    assert_eq!(ValueType::from_raw(NIX_TYPE_EXTERNAL), Some(ValueType::External));
    assert_eq!(ValueType::from_raw(NIX_TYPE_FLOAT), Some(ValueType::Float));
    assert_eq!(ValueType::from_raw(NIX_TYPE_FUNCTION), Some(ValueType::Function));
    assert_eq!(ValueType::from_raw(NIX_TYPE_INT), Some(ValueType::Int));
    assert_eq!(ValueType::from_raw(NIX_TYPE_LIST), Some(ValueType::List));
    assert_eq!(ValueType::from_raw(NIX_TYPE_NULL), Some(ValueType::Null));
    assert_eq!(ValueType::from_raw(NIX_TYPE_PATH), Some(ValueType::Path));
    assert_eq!(ValueType::from_raw(NIX_TYPE_STRING), Some(ValueType::String));
}

#[test]
fn from_raw_tag_values() {
    assert_eq!(ValueType::from_raw(0), None);
    assert_eq!(ValueType::from_raw(1), Some(ValueType::Int));
    assert_eq!(ValueType::from_raw(2), Some(ValueType::Float));
    assert_eq!(ValueType::from_raw(7), Some(ValueType::AttrSet));
    assert_eq!(ValueType::from_raw(10), Some(ValueType::External));
}

#[test]
fn from_raw_thunk_is_unclassified() {
    assert_eq!(ValueType::from_raw(NIX_TYPE_THUNK), None);
}

#[test]
fn from_raw_unknown_tags() {
    assert_eq!(ValueType::from_raw(11), Some(ValueType::Unknown));
    assert_eq!(ValueType::from_raw(1000), Some(ValueType::Unknown));
    assert_eq!(ValueType::from_raw(u32::MAX), Some(ValueType::Unknown));
}

#[test]
fn adopt_makes_no_call() {
    let mut node = FakeNode::new(0x1000, 1, NIX_TYPE_INT);
    let v = Value::new(0x1000);
    assert_eq!(v.address(), 0x1000);
    assert_eq!(node.increfs, 0);
    assert_eq!(node.count, 1);
    node.drop_handle(v);
    assert_eq!(node.decrefs, 1);
    assert_eq!(node.count, 0);
}

#[test]
fn borrow_makes_one_increment() {
    let (v, c) = Value::new_borrowed(0x2000);
    assert_eq!(c, RefCall::Incref(0x2000));
    assert_eq!(v.address(), 0x2000);
    let mut node = FakeNode::new(0x2000, 1, NIX_TYPE_INT);
    let w = node.borrow();
    assert_eq!(node.increfs, 1);
    assert_eq!(node.count, 2);
    assert_eq!(w.address(), 0x2000);
}

#[test]
fn clone_call_is_one_increment() {
    let v = Value::new(0x3000);
    assert_eq!(v.clone_call(), RefCall::Incref(0x3000));
}

#[test]
fn complete_clone_aliases_the_node() {
    let v = Value::new(0x3000);
    let w = v.complete_clone(CallStatus::Succeeded).unwrap();
    assert_eq!(w.address(), 0x3000);
}

#[test]
fn complete_clone_refuses_failed_increment() {
    let v = Value::new(0x3000);
    assert!(v.complete_clone(CallStatus::Failed).is_none());
}

#[test]
fn release_is_one_decrement() {
    let v = Value::new(0x4000);
    assert_eq!(v.release(), RefCall::Decref(0x4000));
}

#[test]
fn release_with_failing_decrement_makes_one_call() {
    let mut node = FakeNode::new(0x4000, 1, NIX_TYPE_INT);
    node.fail_decref = true;
    let v = node.borrow();
    node.drop_handle(v);
    assert_eq!(node.decrefs, 1);
    assert_eq!(node.count, 2);
}

#[test]
fn clone_survives_release_of_original() {
    let mut node = FakeNode::new(0x5000, 1, NIX_TYPE_THUNK);
    let v = node.borrow();
    let w = node.clone_handle(&v);
    node.drop_handle(v);
    assert_eq!(node.count, 2);
    assert_eq!(w.address(), 0x5000);
    node.force(NIX_TYPE_LIST);
    assert_eq!(node.classify(&w), Some(ValueType::List));
}

#[test]
fn clones_then_releases_balance() {
    let mut node = FakeNode::new(0x6000, 1, NIX_TYPE_INT);
    let v = node.borrow();
    let mut handles = Vec::new();
    for _ in 0..5 {
        handles.push(node.clone_handle(&v));
    }
    assert_eq!(node.count, 7);
    node.drop_handle(v);
    for h in handles {
        node.drop_handle(h);
    }
    assert_eq!(node.increfs, 6);
    assert_eq!(node.decrefs, 6);
    assert_eq!(node.count, 1);
}

#[test]
fn borrow_clone_drop_scenario() {
    let mut node = FakeNode::new(0x7000, 1, NIX_TYPE_INT);
    let v = node.borrow();
    assert_eq!(node.count, 2);
    let w = node.clone_handle(&v);
    assert_eq!(node.count, 3);
    node.drop_handle(v);
    assert_eq!(node.count, 2);
    node.drop_handle(w);
    assert_eq!(node.count, 1);
}

#[test]
fn forcing_is_seen_through_every_alias() {
    let mut node = FakeNode::new(0x8000, 1, NIX_TYPE_THUNK);
    let v = node.borrow();
    let w = node.clone_handle(&v);
    assert_eq!(node.classify(&v), None);
    assert_eq!(node.classify(&w), None);
    node.force(NIX_TYPE_INT);
    assert_eq!(node.classify(&w), Some(ValueType::Int));
    assert_eq!(node.classify(&v), Some(ValueType::Int));
    node.force(NIX_TYPE_STRING);
    assert_eq!(node.classify(&v), Some(ValueType::Int));
}
