//! Tools that agents can call.

use vstd::prelude::*;
use crate::text::{join_from, joined};

verus! {

/// The tool that looks at the screen and names what it sees.
#[derive(Debug, Clone, Copy, PartialEq, Eq)]
pub struct ScreenshotDetectionTool;

/// What the detection names until a detector is plugged in.
pub open spec fn detected_objects() -> Seq<Seq<char>> {
    seq!["object1"@, "object2"@]
}

impl ScreenshotDetectionTool {
    pub fn new() -> (r: Self) {
        Self
    }

    /// The objects found in a screenshot. No detector is plugged in yet:
    /// the answer is the same two names for every picture.
    pub fn detect_objects(&self) -> (r: Vec<String>)
        ensures
            r.deep_view() == detected_objects(),
    {
        let mut found: Vec<String> = Vec::new();
        found.push("object1".to_owned());
        found.push("object2".to_owned());
        assert(found.deep_view() =~= detected_objects());
        found
    }

    /// The tool's answer for a list of objects: their names, separated by a
    /// comma and a space.
    pub fn summarize(&self, objects: &Vec<String>) -> (r: String)
        ensures
            r@ == joined(objects.deep_view(), ", "@),
    {
        assert(objects.deep_view().skip(0) =~= objects.deep_view());
        join_from(objects, 0, ", ")
    }
}

} // verus!
