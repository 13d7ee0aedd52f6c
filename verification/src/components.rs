//! The components that entities are made of.

use vstd::prelude::*;

verus! {

/// A position and a colour: one point of a body's spine.
#[derive(Clone, Copy, Debug, PartialEq, Eq)]
pub struct Vertebrae {
    pub position: [u32; 4],
    pub color: [u32; 4],
}

/// An entity's body: the points that it is drawn as.
#[derive(Debug, PartialEq, Eq)]
pub struct Body {
    pub spine: Vec<Vertebrae>,
}

/// The name of an entity.
#[derive(Debug, PartialEq, Eq)]
pub struct Name(pub String);

/// Marks an entity as part of what is saved.
#[derive(Clone, Copy, Debug, PartialEq, Eq, Structural)]
pub struct Save;

/// `record` is the packed record of `point`: its position, then its colour.
pub open spec fn is_record_of(record: [[u32; 4]; 2], point: Vertebrae) -> bool {
    record@[0] == point.position && record@[1] == point.color
}

impl Body {
    /// The body's points as packed records, one for each point of the spine
    /// and in its order.
    pub fn get_pixels(&self) -> (pixels: Vec<[[u32; 4]; 2]>)
        ensures
            pixels@.len() == self.spine@.len(),
            forall|i: int|
                0 <= i < self.spine@.len() ==> is_record_of(#[trigger] pixels@[i], self.spine@[i]),
    {
        let mut pixels: Vec<[[u32; 4]; 2]> = Vec::new();
        let mut i: usize = 0;
        while i < self.spine.len()
            invariant
                0 <= i <= self.spine@.len(),
                pixels@.len() == i,
                forall|j: int| 0 <= j < i ==> is_record_of(#[trigger] pixels@[j], self.spine@[j]),
            decreases self.spine@.len() - i,
        {
            let vertebrae = &self.spine[i];
            let record = [vertebrae.position, vertebrae.color];
            pixels.push(record);
            i = i + 1;
        }
        pixels
    }
}

} // verus!
