//! Event-response plumbing between a widget and its parent: a widget
//! answers an event with nothing (not handled), with a no-op callback
//! (consumed, nothing to do), or with a request the parent carries
//! out.

use vstd::prelude::*;
use crate::shapes::Shape;
use crate::state::ShapeBarShape;

verus! {

/// What a widget asks of its parent.
#[derive(Clone, Copy, Debug)]
pub enum BarAction {
    /// Nothing: the event is consumed.
    NoOp,
    /// Start previewing a palette shape under the pointer.
    PickShape(ShapeBarShape, Shape),
}

/// A widget's answer to its parent for a handled event.
#[derive(Clone, Copy, Debug)]
pub struct ParentCallback {
    pub action: BarAction,
}

impl ParentCallback {
    /// The answer that asks nothing of the parent.
    pub fn none() -> (r: ParentCallback)
        ensures
            r.action is NoOp,
    {
        ParentCallback { action: BarAction::NoOp }
    }
}

/// A widget's answer: `None` passes the event on, `Some` consumes it.
pub type ChildResponse = Option<ParentCallback>;

/// The answer of a widget that consumed the event and asks nothing of
/// its parent.
pub fn self_handled() -> (r: ChildResponse)
    ensures
        r matches Some(cb) && cb.action is NoOp,
{
    Some(ParentCallback::none())
}

/// Conversion into the id type events carry.
pub trait IntoEVId {
    fn into_id(self) -> (r: u64);
}

impl IntoEVId for u32 {
    fn into_id(self) -> (r: u64)
        ensures
            r as int == self as int,
    {
        self as u64
    }
}

impl IntoEVId for u64 {
    fn into_id(self) -> (r: u64)
        ensures
            r as int == self as int,
    {
        self
    }
}

impl IntoEVId for usize {
    fn into_id(self) -> (r: u64)
        ensures
            r as int == self as int,
    {
        self as u64
    }
}

} // verus!
