use vstd::prelude::*;

use crate::elements::Id;

verus! {

/// What is known of an element when it is met.
#[derive(Debug, Clone, Copy, PartialEq, Eq, Structural)]
pub struct ElementMetadata {
    /// The element identifier.
    pub id: Id,
    /// The number of bytes of identifier and size; `None` when unknown (after a
    /// seek into the middle of an element).
    pub header_size: Option<u32>,
    /// The size of the body; `None` when unknown.
    pub size: Option<u64>,
    /// The offset of the first byte of the header in the stream; `None` when unknown.
    pub position: Option<u64>,
}

/// Where a frame lies in the stream.
#[derive(Debug, Clone, Copy, PartialEq, Eq, Structural)]
pub struct FrameMetadata {
    /// The Block or SimpleBlock that holds the frame.
    pub parent_element: ElementMetadata,
    /// The offset of the first byte of the frame in the stream.
    pub position: u64,
    /// The size of the frame in bytes.
    pub size: u64,
}

/// What to do with an element that has been met.
#[derive(Debug, Clone, Copy, PartialEq, Eq, Structural)]
pub enum Action {
    /// Read and decode the element.
    Read,
    /// Skip the element without decoding it.
    Skip,
}

} // verus!
