use vstd::prelude::*;

verus! {

/// One track of a recording: its human-readable title, where its file goes
/// (a path relative to the output root) and its exact length in microseconds.
#[derive(Debug)]
pub struct Song {
    pub title: String,
    pub target: String,
    pub length: u64,
}

impl Song {
    pub fn new(title: String, target: String, length: u64) -> (r: Song)
        ensures
            r.title@ == title@,
            r.target@ == target@,
            r.length == length,
    {
        Song { title, target, length }
    }

    /// Whether two descriptors name the same track.
    pub open spec fn same_as(&self, other: &Song) -> bool {
        self.title@ == other.title@ && self.target@ == other.target@ && self.length
            == other.length
    }
}

impl Clone for Song {
    fn clone(&self) -> (r: Song)
        ensures
            r == *self,
    {
        Song { title: self.title.clone(), target: self.target.clone(), length: self.length }
    }
}

impl PartialEq for Song {
    fn eq(&self, other: &Song) -> (r: bool)
        ensures
            r == self.same_as(other),
    {
        self.length == other.length && self.title == other.title && self.target == other.target
    }
}

impl vstd::std_specs::cmp::PartialEqSpecImpl for Song {
    open spec fn obeys_eq_spec() -> bool {
        true
    }

    open spec fn eq_spec(&self, other: &Song) -> bool {
        self.same_as(other)
    }
}

} // verus!
