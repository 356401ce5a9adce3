//! An adapter that lets a client call a target whose interface it does not know.
use vstd::prelude::*;

use crate::text::reversed;

verus! {

pub trait Target {
    fn request(&self) -> String;
}

/// A target that the client can call directly.
pub struct OrdinaryTarget;

impl Target for OrdinaryTarget {
    fn request(&self) -> (r: String)
        ensures
            r@ == "Ordinary request"@,
    {
        "Ordinary request".to_string()
    }
}

/// A target with an interface of its own: its answer comes backwards.
pub struct SpecificTarget;

impl SpecificTarget {
    pub fn specific_request(&self) -> (r: String)
        ensures
            r@ == ".tseuqer cificepS"@,
    {
        ".tseuqer cificepS".to_string()
    }
}

/// Makes a `SpecificTarget` answer as a `Target`.
pub struct TargetAdapter {
    adaptee: SpecificTarget,
}

impl TargetAdapter {
    pub fn new(adaptee: SpecificTarget) -> (r: Self) {
        TargetAdapter { adaptee }
    }
}

impl Target for TargetAdapter {
    /// The adaptee's answer, turned the right way round.
    fn request(&self) -> (r: String)
        ensures
            r@ == ".tseuqer cificepS"@.reverse(),
    {
        let s = self.adaptee.specific_request();
        reversed(s.as_str())
    }
}

} // verus!
