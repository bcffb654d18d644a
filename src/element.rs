use vstd::prelude::*;

use crate::elements::Id;
use crate::enumerations::Enumeration;

verus! {

/// The header of an element: its identifier and sizes.
#[derive(Debug, Clone, Copy, PartialEq, Eq, Structural)]
pub struct Header {
    /// The element identifier.
    pub id: Id,
    /// The size of the header itself (identifier and size field).
    pub header_size: usize,
    /// The size of the body; `None` when the element declares an unknown size.
    pub body_size: Option<usize>,
    /// The size of header and body together; `None` when the body size is unknown.
    pub size: Option<usize>,
    /// The offset of the element from the start of the stream, when requested.
    pub position: Option<usize>,
}

impl Header {
    /// The total size is the header size plus the body size, when known.
    pub open spec fn wf(self) -> bool {
        match self.body_size {
            Some(b) => self.header_size + b <= usize::MAX && self.size == Some(
                (self.header_size + b) as usize,
            ),
            None => self.size is None,
        }
    }

    /// A header with a known body size and no position.
    pub fn new(id: Id, header_size: usize, body_size: usize) -> (r: Header)
        requires
            header_size + body_size <= usize::MAX,
        ensures
            r == (Header {
                id,
                header_size,
                body_size: Some(body_size),
                size: Some((header_size + body_size) as usize),
                position: None,
            }),
            r.wf(),
    {
        Header {
            id,
            header_size,
            body_size: Some(body_size),
            size: Some(header_size + body_size),
            position: None,
        }
    }

    /// A header that declares an unknown body size, with no position.
    pub fn with_unknown_size(id: Id, header_size: usize) -> (r: Header)
        ensures
            r == (Header { id, header_size, body_size: None, size: None, position: None }),
            r.wf(),
    {
        Header { id, header_size, body_size: None, size: None, position: None }
    }
}

/// The lacing of the frames of a block.
#[derive(Debug, Clone, Copy, PartialEq, Eq, Structural)]
pub enum Lacing {
    Xiph,
    Ebml,
    FixedSize,
}

/// The header of a Block.
#[derive(Debug, Clone, Copy, PartialEq, Eq, Structural)]
pub struct Block {
    pub track_number: usize,
    pub timestamp: i16,
    pub invisible: bool,
    pub lacing: Option<Lacing>,
    /// The number of frames in the lace, when the block is laced.
    pub num_frames: Option<u16>,
}

/// The header of a SimpleBlock.
#[derive(Debug, Clone, Copy, PartialEq, Eq, Structural)]
pub struct SimpleBlock {
    pub track_number: usize,
    pub timestamp: i16,
    pub keyframe: bool,
    pub invisible: bool,
    pub lacing: Option<Lacing>,
    pub discardable: bool,
    /// The number of frames in the lace, when the block is laced.
    pub num_frames: Option<u16>,
}

/// What a binary body holds.
#[derive(Debug, Clone, PartialEq)]
pub enum BinaryValue {
    /// A payload that is not decoded further, summarised as text.
    Standard(String),
    /// The identifier that a SeekId element refers to.
    SeekId(Id),
    /// The header of a SimpleBlock.
    SimpleBlock(SimpleBlock),
    /// The header of a Block.
    Block(Block),
    /// Padding.
    Void,
    /// A region of the input that could not be decoded.
    Corrupted,
}

/// An unsigned value, which may be a member of the element's enumeration.
#[derive(Debug, Clone, Copy, PartialEq, Eq, Structural)]
pub enum Unsigned {
    Standard(u64),
    Enumeration(Enumeration),
}

/// The bits of a float body as they were stored.
#[derive(Debug, Clone, Copy, PartialEq, Eq, Structural)]
pub enum FloatBits {
    /// An IEEE-754 binary32 value.
    Binary32(u32),
    /// An IEEE-754 binary64 value.
    Binary64(u64),
}

/// An instant in UTC, in whole seconds since 1970-01-01T00:00:00Z.
#[derive(Debug, Clone, Copy, PartialEq, Eq, Structural)]
pub struct Date {
    pub timestamp: i64,
}

/// The body of an element.
#[derive(Debug, Clone, PartialEq)]
pub enum Body {
    /// A master body: its children follow it in the stream.
    Master,
    Unsigned(Unsigned),
    Signed(i64),
    Float(FloatBits),
    /// A string with its trailing NUL characters removed.
    String(String),
    Utf8(String),
    Date(Date),
    Binary(BinaryValue),
}

/// An element: a header and its decoded body.
#[derive(Debug, Clone, PartialEq)]
pub struct Element {
    pub header: Header,
    pub body: Body,
}

impl Body {
    /// Whether this is a master body.
    pub fn is_master(&self) -> (r: bool)
        ensures
            r <==> *self is Master,
    {
        matches!(self, Body::Master)
    }
}

} // verus!
