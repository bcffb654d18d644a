use vstd::prelude::*;

verus! {

/// The outcome of an operation that did not fail.
#[derive(Debug, Clone, Copy, PartialEq, Eq, Structural)]
pub enum GeneralStatus {
    /// The operation completed.
    OkCompleted,
    /// The operation completed in part (a short read, say), with the number of
    /// bytes it handled.
    OkPartial(u64),
    /// The operation would block and should be tried again later.
    WouldBlock,
    /// More data was requested but the stream has ended.
    EndOfFile,
}

/// Parsing errors.
#[derive(Debug, Clone, Copy, PartialEq, Eq, Structural)]
pub enum ErrorStatus {
    /// An element's identifier is malformed.
    InvalidElementId,
    /// An element's size is malformed.
    InvalidElementSize,
    /// An unknown element declares an unknown size.
    IndefiniteUnknownElement,
    /// A child element overflows its parent's bounds.
    ElementOverflow,
    /// An element's size exceeds the memory limits.
    NotEnoughMemory,
    /// An element's value is malformed.
    InvalidElementValue,
    /// Nesting exceeds the recursion limit.
    ExceededRecursionDepthLimit,
}

/// Codes that only the parser itself uses.
#[derive(Debug, Clone, Copy, PartialEq, Eq, Structural)]
pub enum InternalStatus {
    SwitchToSkip,
}

/// The status of an operation: success, failure or an internal code.
#[derive(Debug, Clone, Copy)]
pub enum Status {
    General(GeneralStatus),
    Error(ErrorStatus),
    Internal(InternalStatus),
}

impl Status {
    /// Whether the operation succeeded, completely or in part.
    pub fn ok(&self) -> (r: bool)
        ensures
            r <==> (*self matches Status::General(g) && (g is OkCompleted || g is OkPartial)),
    {
        matches!(self, Status::General(GeneralStatus::OkCompleted | GeneralStatus::OkPartial(_)))
    }

    /// Whether the operation completed.
    pub fn completed_ok(&self) -> (r: bool)
        ensures
            r <==> *self == Status::General(GeneralStatus::OkCompleted),
    {
        matches!(self, Status::General(GeneralStatus::OkCompleted))
    }

    /// Whether this is a parsing error.
    pub fn is_parsing_error(&self) -> (r: bool)
        ensures
            r <==> *self is Error,
    {
        matches!(self, Status::Error(_))
    }
}

impl From<GeneralStatus> for Status {
    fn from(status: GeneralStatus) -> (r: Status) {
        Status::General(status)
    }
}

impl vstd::std_specs::convert::FromSpecImpl<GeneralStatus> for Status {
    open spec fn obeys_from_spec() -> bool {
        true
    }

    open spec fn from_spec(v: GeneralStatus) -> Status {
        Status::General(v)
    }
}

impl From<ErrorStatus> for Status {
    fn from(status: ErrorStatus) -> (r: Status) {
        Status::Error(status)
    }
}

impl vstd::std_specs::convert::FromSpecImpl<ErrorStatus> for Status {
    open spec fn obeys_from_spec() -> bool {
        true
    }

    open spec fn from_spec(v: ErrorStatus) -> Status {
        Status::Error(v)
    }
}

impl From<InternalStatus> for Status {
    fn from(status: InternalStatus) -> (r: Status) {
        Status::Internal(status)
    }
}

impl vstd::std_specs::convert::FromSpecImpl<InternalStatus> for Status {
    open spec fn obeys_from_spec() -> bool {
        true
    }

    open spec fn from_spec(v: InternalStatus) -> Status {
        Status::Internal(v)
    }
}

impl PartialEq<GeneralStatus> for Status {
    fn eq(&self, other: &GeneralStatus) -> (r: bool) {
        match self {
            Status::General(general) => *general == *other,
            _ => false,
        }
    }
}

impl vstd::std_specs::cmp::PartialEqSpecImpl<GeneralStatus> for Status {
    open spec fn obeys_eq_spec() -> bool {
        true
    }

    open spec fn eq_spec(&self, other: &GeneralStatus) -> bool {
        *self == Status::General(*other)
    }
}

impl PartialEq<ErrorStatus> for Status {
    fn eq(&self, other: &ErrorStatus) -> (r: bool) {
        match self {
            Status::Error(error) => *error == *other,
            _ => false,
        }
    }
}

impl vstd::std_specs::cmp::PartialEqSpecImpl<ErrorStatus> for Status {
    open spec fn obeys_eq_spec() -> bool {
        true
    }

    open spec fn eq_spec(&self, other: &ErrorStatus) -> bool {
        *self == Status::Error(*other)
    }
}

impl PartialEq<InternalStatus> for Status {
    fn eq(&self, other: &InternalStatus) -> (r: bool) {
        match self {
            Status::Internal(internal) => *internal == *other,
            _ => false,
        }
    }
}

impl vstd::std_specs::cmp::PartialEqSpecImpl<InternalStatus> for Status {
    open spec fn obeys_eq_spec() -> bool {
        true
    }

    open spec fn eq_spec(&self, other: &InternalStatus) -> bool {
        *self == Status::Internal(*other)
    }
}

} // verus!
