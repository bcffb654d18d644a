use vstd::prelude::*;

verus! {

/// What can go wrong while decoding EBML content.
#[derive(Debug, Clone, Copy, PartialEq, Eq, Structural)]
pub enum Error {
    /// The input ends inside an element: more bytes are needed.
    NeedData,
    /// An identifier is wider than four bytes.
    InvalidId,
    /// A variable-size integer is wider than eight bytes.
    InvalidVarint,
    /// An element other than Segment or Cluster, or a body that is not a
    /// master, declares an unknown size.
    ForbiddenUnknownSize,
    /// A string body is not valid UTF-8.
    InvalidUtf8,
    /// An integer body is wider than eight bytes.
    ForbiddenIntegerSize,
    /// A float body is neither 0, 4 nor 8 bytes wide.
    ForbiddenFloatSize,
    /// No resynchronisation identifier was found.
    ValidElementNotFound,
    /// A block declares an unknown track number.
    MissingTrackNumber,
    /// A size does not fit the platform's pointer width.
    Overflow,
    /// A date lies outside the representable range.
    InvalidDate,
    /// The read buffer is too small to hold a single element header.
    OutOfBufferSpace,
}

} // verus!
