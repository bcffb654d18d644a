use vstd::prelude::*;

use crate::element::{BinaryValue, Body, Element, Header};
use crate::elements::{id_of_wire, Id, Type};
use crate::error::Error;
use crate::parse::{
    binary_decodes, binary_error, body_error, body_taken, corrupted_element, element_decodes,
    element_error, find_valid_element, header_spec, parse_body, parse_element, parse_header, sync_at, take,
};
use crate::text::{decimal, length_summary};
use crate::vint::{id_spec, is_rest_after};

verus! {

/// The bytes of the stream that an element accounts for: a master its header
/// only, since its children follow it; any other element its header and body.
pub open spec fn extent(e: Element) -> nat {
    if e.body is Master {
        e.header.header_size as nat
    } else {
        match e.header.size {
            Some(s) => s as nat,
            None => e.header.header_size as nat,
        }
    }
}

/// The bytes that a sequence of elements accounts for.
pub open spec fn sum_extents(els: Seq<Element>) -> nat
    decreases els.len(),
{
    if els.len() == 0 {
        0
    } else {
        sum_extents(els.drop_last()) + extent(els.last())
    }
}

/// Whether an element stands for a corrupted region.
pub open spec fn is_corrupted(e: Element) -> bool {
    e.header.id == Id::Corrupted
}

/// No two neighbours are both corrupted regions.
pub open spec fn no_adjacent_corrupted(els: Seq<Element>) -> bool {
    forall|i: int, j: int|
        0 <= i && j == i + 1 && j < els.len() ==> !(is_corrupted(#[trigger] els[i]) && is_corrupted(
            #[trigger] els[j],
        ))
}

/// Each element carries its offset in the stream (the bytes that the elements
/// before it account for) when positions are shown, and no position otherwise.
pub open spec fn positions_stamped(els: Seq<Element>, show: bool) -> bool {
    forall|k: int|
        0 <= k < els.len() ==> (#[trigger] els[k]).header.position == (if show {
            Some(sum_extents(els.subrange(0, k)) as usize)
        } else {
            None
        })
}

/// `new` keeps the elements of `old`, except that a corrupted last element
/// may have grown, and may add elements after them.
pub open spec fn extends(old: Seq<Element>, new: Seq<Element>) -> bool {
    &&& old.len() <= new.len()
    &&& forall|k: int|
        0 <= k < old.len() ==> new[k] == old[k] || (k == old.len() - 1 && is_corrupted(old[k])
            && is_corrupted(new[k]))
}

/// Element `k` of `els` starts where the elements before it end, counted from
/// offset `base` of the stream; decoding a header there in `stream` gives its
/// header, and, when its body is not binary, decoding the whole element there
/// gives the element.
pub open spec fn found_in(els: Seq<Element>, k: int, stream: Seq<u8>, base: int) -> bool {
    let o = sum_extents(els.subrange(0, k)) - base;
    &&& 0 <= o <= stream.len()
    &&& match header_spec(stream.subrange(o, stream.len() as int)) {
        Ok(h) => h == (Header { position: None, ..els[k].header }),
        Err(_) => false,
    }
    &&& els[k].header.id.value_type() != Type::Binary ==> element_decodes(
        stream.subrange(o, stream.len() as int),
        Element { header: Header { position: None, ..els[k].header }, body: els[k].body },
    )
}

pub(crate) proof fn lemma_extends_prefix(old: Seq<Element>, new: Seq<Element>, k: int)
    requires
        extends(old, new),
        0 <= k < old.len(),
        !is_corrupted(old[k]),
    ensures
        new[k] == old[k],
        new.subrange(0, k) == old.subrange(0, k),
{
    assert(new.subrange(0, k) =~= old.subrange(0, k));
}

proof fn lemma_wire_id_not_corrupted(v: u32)
    ensures
        id_of_wire(v) != Id::Corrupted,
{
}

/// An element decoded from the front of a buffer, with the number of bytes of
/// its body that were left in the input and are to be skipped.
#[derive(Debug)]
pub struct ShortParsed {
    pub element: Element,
    pub bytes_to_be_skipped: usize,
}

/// The error that inspecting a binary body of `b` bytes of element `id` gives
/// from `s`, what the input holds of it, if any.
pub open spec fn peek_error(id: Id, b: nat, s: Seq<u8>) -> Option<Error> {
    if id == Id::Void {
        None
    } else if id == Id::SeekId || id == Id::SimpleBlock || id == Id::Block {
        binary_error(id, s.subrange(0, if b <= s.len() { b as int } else { s.len() as int }))
    } else if b > 64 {
        None
    } else if s.len() < b {
        Some(Error::NeedData)
    } else {
        binary_error(id, s.subrange(0, b as int))
    }
}

/// The error that a short decoding of the element at the start of `s` gives, if any.
pub open spec fn short_error(s: Seq<u8>) -> Option<Error> {
    match header_spec(s) {
        Err(e) => Some(e),
        Ok(h) => {
            let after = s.subrange(h.header_size as int, s.len() as int);
            if h.id.value_type() != Type::Binary {
                body_error(h, after)
            } else {
                match h.body_size {
                    None => Some(Error::ForbiddenUnknownSize),
                    Some(b) => peek_error(h.id, b as nat, after),
                }
            }
        },
    }
}

/// `sp`, with `rest` left of `input`, is the short decoding of the element at
/// the start of `input`.
pub open spec fn short_parsed(input: Seq<u8>, rest: Seq<u8>, sp: ShortParsed) -> bool {
    let n = (input.len() - rest.len()) as nat;
    let h = sp.element.header;
    &&& is_rest_after(input, rest, n)
    &&& header_spec(input) == Ok::<Header, Error>(h)
    &&& h.wf()
    &&& h.id != Id::Corrupted
    &&& n >= 1
    &&& n + sp.bytes_to_be_skipped == extent(sp.element)
    &&& h.id.value_type() != Type::Binary ==> sp.bytes_to_be_skipped == 0 && element_decodes(
        input,
        sp.element,
    )
    &&& !(sp.element.body is Master) ==> h.size is Some
    &&& h.body_size is None ==> (h.id == Id::Segment || h.id == Id::Cluster)
        && sp.element.body is Master
    &&& h.id.value_type() == Type::Binary ==> sp.element.body is Binary && !(sp.element.body matches Body::Binary(
        BinaryValue::Corrupted,
    )) && h.body_size == Some(sp.bytes_to_be_skipped)
}

/// Inspects the binary body of `header` from what `input` holds of it: padding
/// needs nothing, a SeekId or a block only its first bytes, a payload of more
/// than 64 bytes only its length; any other payload must be held whole.
pub fn peek_binary(header: &Header, input: &[u8]) -> (r: Result<BinaryValue, Error>)
    ensures
        header.body_size is None ==> r == Err::<BinaryValue, Error>(Error::ForbiddenUnknownSize),
        r matches Ok(v) ==> !(v is Corrupted),
        match header.body_size {
            Some(b) => match r {
                Ok(_) => peek_error(header.id, b as nat, input@) is None,
                Err(e) => peek_error(header.id, b as nat, input@) == Some(e),
            },
            None => true,
        },
        match header.body_size {
            Some(b) => b <= input@.len() ==> match r {
                Ok(v) => binary_error(header.id, input@.subrange(0, b as int)) is None
                    && binary_decodes(header.id, input@.subrange(0, b as int), v),
                Err(e) => binary_error(header.id, input@.subrange(0, b as int)) == Some(e),
            },
            None => true,
        },
        match header.body_size {
            Some(b) => (b > 64 && !(header.id == Id::SeekId || header.id == Id::SimpleBlock
                || header.id == Id::Block || header.id == Id::Void)) ==> (r matches Ok(
                BinaryValue::Standard(t),
            ) && t@ == decimal(b as nat) + " bytes"@),
            None => true,
        },
{
    let body_size = match header.body_size {
        Some(b) => b,
        None => return Err(Error::ForbiddenUnknownSize),
    };
    match header.id {
        Id::Void => Ok(BinaryValue::Void),
        Id::SeekId | Id::SimpleBlock | Id::Block => {
            let avail = if body_size <= input.len() {
                body_size
            } else {
                input.len()
            };
            BinaryValue::new(&header.id, &input[0..avail])
        },
        _ => {
            if body_size > 64 {
                return Ok(BinaryValue::Standard(length_summary(body_size)));
            }
            let (_, payload) = match take(input, body_size) {
                Ok(p) => p,
                Err(e) => return Err(e),
            };
            BinaryValue::new(&header.id, payload)
        },
    }
}

/// Decodes the element at the start of `input`, except that a binary body is
/// only inspected and left in the input, its size to be skipped.
pub fn parse_short(input: &[u8]) -> (r: Result<(&[u8], ShortParsed), Error>)
    ensures
        match r {
            Ok((rest, sp)) => short_parsed(input@, rest@, sp) && short_error(input@) is None,
            Err(e) => short_error(input@) == Some(e),
        },
{
    let (after_header, header) = match parse_header(input) {
        Ok(p) => p,
        Err(e) => return Err(e),
    };
    proof {
        let s = input@;
        match id_spec(s) {
            Ok((_, _)) => {
                lemma_wire_id_not_corrupted(
                    crate::vint::be_value(s.subrange(0, crate::vint::vint_width(s[0]) as int))
                        as u32,
                );
            },
            Err(_) => {},
        }
    }
    if header.id.get_type() != Type::Binary {
        let (rest, body) = match parse_body(after_header, &header) {
            Ok(p) => p,
            Err(e) => return Err(e),
        };
        proof {
            let s = input@;
            let hs = header.header_size as int;
            let n = body_taken(header) as int;
            assert(after_header@.subrange(0, n) =~= s.subrange(hs, hs + n));
            assert(rest@ =~= s.subrange(hs + n, s.len() as int));
        }
        Ok((rest, ShortParsed { element: Element { header, body }, bytes_to_be_skipped: 0 }))
    } else {
        let binary = match peek_binary(&header, after_header) {
            Ok(v) => v,
            Err(e) => return Err(e),
        };
        let body_size = match header.body_size {
            Some(b) => b,
            None => return Err(Error::ForbiddenUnknownSize),
        };
        Ok(
            (
                after_header,
                ShortParsed {
                    element: Element { header, body: Body::Binary(binary) },
                    bytes_to_be_skipped: body_size,
                },
            ),
        )
    }
}

/// Skips to the first resynchronisation identifier at or after `start`; the
/// bytes before it become a corrupted element.
fn skip_corrupted(input: &[u8], start: usize) -> (r: Result<(&[u8], Element), Error>)
    requires
        start <= input@.len(),
    ensures
        match r {
            Ok((rest, e)) => {
                let n = input@.len() - rest@.len();
                &&& is_rest_after(input@, rest@, n as nat)
                &&& start <= n
                &&& rest@.len() > 0
                &&& sync_at(input@, n)
                &&& forall|j: int| start <= j < n ==> !sync_at(input@, j)
                &&& e == corrupted_element(n as nat)
            },
            Err(e) => e == Error::ValidElementNotFound && forall|j: int|
                start <= j ==> !sync_at(input@, j),
        },
{
    let tail = &input[start..input.len()];
    proof {
        assert forall|o: int| 0 <= o implies sync_at(tail@, o) == sync_at(input@, start + o) by {
            if 0 <= o && o + 4 <= tail@.len() {
                assert(tail@.subrange(o, o + 4) =~= input@.subrange(start + o, start + o + 4));
            }
        }
    }
    match find_valid_element(tail) {
        Ok((rest, _)) => {
            let n = input.len() - rest.len();
            proof {
                assert forall|j: int| start <= j < n implies !sync_at(input@, j) by {
                    assert(sync_at(tail@, j - start) == sync_at(input@, j));
                }
                assert(sync_at(tail@, n - start));
                assert(rest@ =~= input@.subrange(n as int, input@.len() as int));
            }
            Ok(
                (
                    rest,
                    Element {
                        header: Header::new(Id::corrupted(), 0, n),
                        body: Body::Binary(BinaryValue::Corrupted),
                    },
                ),
            )
        },
        Err(e) => {
            proof {
                assert forall|j: int| start <= j implies !sync_at(input@, j) by {
                    assert(sync_at(tail@, j - start) == sync_at(input@, j));
                }
            }
            Err(e)
        },
    }
}

/// Skips to the next resynchronisation identifier, leaving corrupt mode once
/// one is found.
pub fn parse_short_corrupt<'a>(input: &'a [u8], is_corrupt: &mut bool) -> (r: Result<
    (&'a [u8], ShortParsed),
    Error,
>)
    ensures
        match r {
            Ok((rest, sp)) => {
                let n = (input@.len() - rest@.len()) as nat;
                &&& is_rest_after(input@, rest@, n)
                &&& sync_at(input@, n as int)
                &&& forall|j: int| 0 <= j < n ==> !sync_at(input@, j)
                &&& sp.element == corrupted_element(n)
                &&& sp.bytes_to_be_skipped == 0
                &&& !*final(is_corrupt)
            },
            Err(e) => e == Error::ValidElementNotFound && *final(is_corrupt) == *old(is_corrupt)
                && forall|j: int| !sync_at(input@, j),
        },
{
    match skip_corrupted(input, 0) {
        Ok((rest, element)) => {
            // A scan that leaves bytes behind has found an identifier to resume at.
            if rest.len() > 0 {
                *is_corrupt = false;
            }
            Ok((rest, ShortParsed { element, bytes_to_be_skipped: 0 }))
        },
        Err(e) => Err(e),
    }
}

/// Decodes the next element, or skips a corrupted region. In corrupt mode the
/// scan comes first; a decoding error other than a lack of data enters corrupt
/// mode and scans the same input from its start. A scan that finds a
/// resynchronisation identifier leaves corrupt mode.
pub fn parse_short_or_corrupt<'a>(input: &'a [u8], is_corrupt: &mut bool) -> (r: Result<
    (&'a [u8], ShortParsed),
    Error,
>)
    ensures
        match r {
            Ok((rest, sp)) => {
                let n = (input@.len() - rest@.len()) as nat;
                &&& is_rest_after(input@, rest@, n)
                &&& n + sp.bytes_to_be_skipped == extent(sp.element)
                &&& sp.element.header.wf()
                &&& sp.element.header.position is None
                &&& !(sp.element.body is Master) ==> sp.element.header.size is Some
                &&& !*final(is_corrupt)
                &&& n == 0 ==> is_corrupted(sp.element)
                &&& is_corrupted(sp.element) ==> {
                    &&& sp.bytes_to_be_skipped == 0
                    &&& sp.element == corrupted_element(n)
                    &&& *old(is_corrupt) || (short_error(input@) is Some && short_error(input@)
                        != Some(Error::NeedData))
                    &&& sync_at(input@, n as int)
                    &&& forall|j: int| 0 <= j < n ==> !sync_at(input@, j)
                }
                &&& !is_corrupted(sp.element) ==> !*old(is_corrupt) && short_parsed(
                    input@,
                    rest@,
                    sp,
                )
                &&& sp.bytes_to_be_skipped > 0 ==> sp.element.body is Binary
            },
            Err(e) => e == Error::NeedData || (e == Error::ValidElementNotFound && *final(is_corrupt)),
        },
        !*old(is_corrupt) && short_error(input@) is None ==> (match r {
            Ok((rest, sp)) => short_parsed(input@, rest@, sp),
            Err(_) => false,
        }),
        r == Err::<(&[u8], ShortParsed), Error>(Error::NeedData) <==> (!*old(is_corrupt)
            && short_error(input@) == Some(Error::NeedData)),
        r == Err::<(&[u8], ShortParsed), Error>(Error::NeedData) ==> *final(is_corrupt) == *old(
            is_corrupt,
        ),
        r == Err::<(&[u8], ShortParsed), Error>(Error::ValidElementNotFound) ==> forall|j: int|
            0 <= j ==> !sync_at(input@, j),
        *old(is_corrupt) ==> (match r {
            Ok((_, sp)) => is_corrupted(sp.element),
            Err(_) => true,
        }),
{
    if !*is_corrupt {
        match parse_short(input) {
            Ok(p) => return Ok(p),
            Err(Error::NeedData) => return Err(Error::NeedData),
            Err(_) => {
                *is_corrupt = true;
            },
        }
    }
    match parse_short_corrupt(input, is_corrupt) {
        Ok((rest, sp)) => {
            proof {
                vstd::slice::axiom_spec_len(input);
            }
            Ok((rest, sp))
        },
        Err(e) => Err(e),
    }
}

proof fn lemma_sum_push(els: Seq<Element>, e: Element)
    ensures
        sum_extents(els.push(e)) == sum_extents(els) + extent(e),
{
    assert(els.push(e).drop_last() =~= els);
}

/// Stamps `element` with the current position and advances the position past
/// the bytes the element accounts for.
pub fn insert_position(element: &mut Element, position: &mut Option<usize>) -> (r: Result<(), Error>)
    requires
        !(old(element).body is Master) ==> old(element).header.size is Some,
    ensures
        final(element).body == old(element).body,
        final(element).header == (Header { position: *old(position), ..old(element).header }),
        match r {
            Ok(()) => match *old(position) {
                Some(p) => p + extent(*old(element)) <= usize::MAX && *final(position) == Some(
                    (p + extent(*old(element))) as usize,
                ),
                None => *final(position) is None,
            },
            Err(e) => e == Error::Overflow && match *old(position) {
                Some(p) => p + extent(*old(element)) > usize::MAX,
                None => false,
            },
        },
{
    element.header.position = *position;
    match *position {
        Some(p) => {
            let step = if element.body.is_master() {
                element.header.header_size
            } else {
                element.header.size.unwrap()
            };
            if step > usize::MAX - p {
                return Err(Error::Overflow);
            }
            *position = Some(p + step);
            Ok(())
        },
        None => Ok(()),
    }
}

/// Appends a corrupted element, merging it into the last element when that is
/// corrupted too, so that one corrupted element covers each damaged stretch.
pub fn push_corrupt_element(elements: &mut Vec<Element>, corrupt_element: Element) -> (r: Result<
    (),
    Error,
>)
    requires
        is_corrupted(corrupt_element),
        corrupt_element.header.header_size == 0,
        corrupt_element.header.body_size is Some,
        corrupt_element.header.wf(),
        corrupt_element.body == Body::Binary(BinaryValue::Corrupted),
        forall|k: int|
            0 <= k < old(elements)@.len() && is_corrupted(#[trigger] old(elements)@[k]) ==> {
                let e = old(elements)@[k];
                &&& e.header.header_size == 0
                &&& e.header.body_size is Some
                &&& e.header.wf()
                &&& e.body == Body::Binary(BinaryValue::Corrupted)
            },
    ensures
        match r {
            Ok(()) => {
                let old_els = old(elements)@;
                let n = old_els.len();
                if n > 0 && is_corrupted(old_els[n - 1]) {
                    let last = old_els[n - 1];
                    let b = last.header.body_size.unwrap() + corrupt_element.header.body_size.unwrap();
                    b <= usize::MAX && final(elements)@ == old_els.update(
                        n - 1,
                        Element {
                            header: Header {
                                id: Id::Corrupted,
                                header_size: 0,
                                body_size: Some(b as usize),
                                size: Some(b as usize),
                                position: last.header.position,
                            },
                            body: Body::Binary(BinaryValue::Corrupted),
                        },
                    )
                } else {
                    final(elements)@ == old_els.push(corrupt_element)
                }
            },
            Err(e) => {
                let old_els = old(elements)@;
                let n = old_els.len();
                &&& e == Error::Overflow
                &&& n > 0
                &&& is_corrupted(old_els[n - 1])
                &&& old_els[n - 1].header.body_size.unwrap()
                    + corrupt_element.header.body_size.unwrap() > usize::MAX
            },
        },
{
    let n = elements.len();
    if n > 0 && matches!(elements[n - 1].header.id, Id::Corrupted) {
        let last_header = elements[n - 1].header;
        let b1 = last_header.body_size.unwrap();
        let b2 = corrupt_element.header.body_size.unwrap();
        if b1 > usize::MAX - b2 {
            return Err(Error::Overflow);
        }
        let merged = Element {
            header: Header {
                id: Id::Corrupted,
                header_size: 0,
                body_size: Some(b1 + b2),
                size: Some(b1 + b2),
                position: last_header.position,
            },
            body: Body::Binary(BinaryValue::Corrupted),
        };
        elements.set(n - 1, merged);
    } else {
        elements.push(corrupt_element);
    }
    Ok(())
}

/// Every corrupted element covers its bytes with its body alone.
pub open spec fn corrupted_well_formed(els: Seq<Element>) -> bool {
    forall|k: int|
        0 <= k < els.len() && is_corrupted(#[trigger] els[k]) ==> {
            let e = els[k];
            &&& e.header.header_size == 0
            &&& e.header.body_size is Some
            &&& e.header.wf()
            &&& e.body == Body::Binary(BinaryValue::Corrupted)
        }
}

/// What a decoded header accounts for in the stream: a master's header, any
/// other element's total size.
pub open spec fn header_extent(h: Header) -> nat {
    if h.id.value_type() == Type::Master {
        h.header_size as nat
    } else {
        match h.size {
            Some(size) => size as nat,
            None => h.header_size as nat,
        }
    }
}

/// A header decodes at offset `o` of `v`, which lies at offset `base` of the
/// stream, and the position after it passes `usize::MAX`.
pub open spec fn position_overflows(v: Seq<u8>, o: int, base: int) -> bool {
    match header_spec(v.subrange(o, v.len() as int)) {
        Ok(h) => base + o + header_extent(h) > usize::MAX,
        Err(_) => false,
    }
}

/// Outside corrupt mode, decoding at the start of `v` gets nowhere: the
/// element needs more bytes than `v` holds, or it is damaged and no
/// resynchronisation identifier follows its first byte.
pub open spec fn stalls_clean(v: Seq<u8>) -> bool {
    short_error(v) == Some(Error::NeedData) || (short_error(v) is Some && forall|j: int|
        1 <= j ==> !sync_at(v, j))
}

/// Decoding at the start of `v`, in corrupt mode or not, gets nowhere.
pub open spec fn stalls(v: Seq<u8>, corrupt: bool) -> bool {
    if corrupt {
        (forall|j: int| 0 <= j ==> !sync_at(v, j)) || (sync_at(v, 0) && stalls_clean(v))
    } else {
        stalls_clean(v)
    }
}

/// An element declares an unknown size only as a Segment or Cluster master.
pub open spec fn unknown_sizes_allowed(els: Seq<Element>) -> bool {
    forall|k: int|
        0 <= k < els.len() && (#[trigger] els[k]).header.body_size is None ==> (els[k].header.id
            == Id::Segment || els[k].header.id == Id::Cluster) && els[k].body is Master
}

proof fn lemma_last_extent_within(els: Seq<Element>)
    ensures
        els.len() > 0 ==> extent(els.last()) <= sum_extents(els),
{
}

/// The chunked driver. It holds the unconsumed bytes of the stream in a buffer
/// of bounded size, decodes as many elements from them as it can, and tells
/// its caller how many bytes to skip in the stream; the caller reads the
/// stream, hands over each chunk and performs the skips.
pub struct ChunkedParser {
    buffer: Vec<u8>,
    capacity: usize,
    position: Option<usize>,
    show_positions: bool,
    is_corrupt: bool,
    elements: Vec<Element>,
    finished: bool,
}

impl ChunkedParser {
    /// The elements emitted so far.
    pub closed spec fn emitted(&self) -> Seq<Element> {
        self.elements@
    }

    /// The bytes received and not yet consumed.
    pub closed spec fn pending(&self) -> Seq<u8> {
        self.buffer@
    }

    /// The size of the buffer.
    pub closed spec fn buffer_capacity(&self) -> nat {
        self.capacity as nat
    }

    /// Whether the end of the stream has been handled.
    pub closed spec fn done(&self) -> bool {
        self.finished
    }

    /// Whether elements are stamped with their positions.
    pub closed spec fn stamps_positions(&self) -> bool {
        self.show_positions
    }

    /// Whether the driver is skipping a corrupted region.
    pub closed spec fn in_corrupt_mode(&self) -> bool {
        self.is_corrupt
    }

    /// The bytes that the emitted elements and the pending bytes account for.
    pub open spec fn accounted(&self) -> nat {
        sum_extents(self.emitted()) + self.pending().len()
    }

    /// The driver's invariant.
    pub closed spec fn wf(&self) -> bool {
        &&& 0 < self.capacity
        &&& self.buffer@.len() <= self.capacity
        &&& no_adjacent_corrupted(self.elements@)
        &&& positions_stamped(self.elements@, self.show_positions)
        &&& corrupted_well_formed(self.elements@)
        &&& unknown_sizes_allowed(self.elements@)
        &&& self.position == (if self.show_positions {
            Some(sum_extents(self.elements@) as usize)
        } else {
            None
        })
        &&& self.show_positions ==> sum_extents(self.elements@) <= usize::MAX
        &&& self.finished ==> self.buffer@.len() == 0
        &&& !self.finished ==> self.buffer@.len() < self.capacity
    }

    /// A driver with a buffer of `buffer_size` bytes.
    pub fn new(buffer_size: usize, show_positions: bool) -> (r: ChunkedParser)
        requires
            buffer_size > 0,
        ensures
            r.wf(),
            r.emitted() == Seq::<Element>::empty(),
            r.pending() == Seq::<u8>::empty(),
            r.buffer_capacity() == buffer_size,
            !r.done(),
            r.stamps_positions() == show_positions,
    {
        ChunkedParser {
            buffer: Vec::new(),
            capacity: buffer_size,
            position: if show_positions {
                Some(0)
            } else {
                None
            },
            show_positions,
            is_corrupt: false,
            elements: Vec::new(),
            finished: false,
        }
    }

    /// How many bytes the next chunk may hold.
    pub fn space(&self) -> (r: usize)
        requires
            self.wf(),
        ensures
            r == self.buffer_capacity() - self.pending().len(),
            !self.done() ==> r > 0,
    {
        self.capacity - self.buffer.len()
    }

    /// Whether the end of the stream has been handled.
    pub fn is_finished(&self) -> (r: bool)
        ensures
            r == self.done(),
    {
        self.finished
    }

    /// The elements emitted so far.
    pub fn into_elements(self) -> (r: Vec<Element>)
        requires
            self.wf(),
        ensures
            r@ == self.emitted(),
            no_adjacent_corrupted(r@),
            positions_stamped(r@, self.stamps_positions()),
            corrupted_well_formed(r@),
            unknown_sizes_allowed(r@),
    {
        self.elements
    }

    #[verifier::rlimit(60)]
    fn emit(&mut self, element: Element) -> (r: Result<(), Error>)
        requires
            old(self).wf(),
            element.header.wf(),
            element.header.position is None,
            !(element.body is Master) ==> element.header.size is Some,
            element.header.body_size is None ==> (element.header.id == Id::Segment
                || element.header.id == Id::Cluster) && element.body is Master,
            is_corrupted(element) ==> element.header.header_size == 0
                && element.header.body_size is Some && element.body == Body::Binary(
                BinaryValue::Corrupted,
            ),
        ensures
            final(self).buffer == old(self).buffer,
            final(self).capacity == old(self).capacity,
            final(self).show_positions == old(self).show_positions,
            final(self).is_corrupt == old(self).is_corrupt,
            final(self).finished == old(self).finished,
            r is Ok ==> final(self).wf(),
            r is Ok ==> extends(old(self).elements@, final(self).elements@),
            r is Ok ==> final(self).elements@.len() <= old(self).elements@.len() + 1,
            r is Ok && final(self).elements@.len() == old(self).elements@.len() + 1 ==> {
                &&& final(self).elements@.drop_last() == old(self).elements@
                &&& final(self).elements@.last().header == (Header {
                    position: final(self).elements@.last().header.position,
                    ..element.header
                })
                &&& final(self).elements@.last().body == element.body
            },
            r is Ok ==> sum_extents(final(self).elements@) == sum_extents(old(self).elements@)
                + extent(element),
            r is Ok && !is_corrupted(element) ==> {
                &&& final(self).elements@.len() == old(self).elements@.len() + 1
                &&& final(self).elements@.last().body == element.body
                &&& final(self).elements@.drop_last() == old(self).elements@
            },
            r matches Err(e) ==> e == Error::Overflow,
            r is Err ==> (old(self).show_positions && sum_extents(old(self).elements@) + extent(
                element,
            ) > usize::MAX) || (old(self).elements@.len() > 0 && is_corrupted(
                old(self).elements@.last(),
            ) && is_corrupted(element) && extent(old(self).elements@.last()) + extent(element)
                > usize::MAX),
    {
        let mut e = element;
        let ghost old_els = self.elements@;
        assert(old_els == old(self).elements@);
        match insert_position(&mut e, &mut self.position) {
            Ok(()) => {},
            Err(err) => return Err(err),
        }
        if matches!(e.header.id, Id::Corrupted) {
            match push_corrupt_element(&mut self.elements, e) {
                Ok(()) => {},
                Err(err) => return Err(err),
            }
            proof {
                let els = self.elements@;
                let n = old_els.len();
                assert(old_els == old(self).elements@);
                if n > 0 && is_corrupted(old_els[n - 1]) {
                    assert(els.drop_last() =~= old_els.drop_last());
                    assert(sum_extents(els) == sum_extents(els.drop_last()) + extent(els.last()));
                    assert(sum_extents(old_els) == sum_extents(old_els.drop_last()) + extent(
                        old_els.last(),
                    ));
                    assert forall|k: int| 0 <= k < n implies els.subrange(0, k)
                        =~= old_els.subrange(0, k) by {}
                    let last = old_els[n - 1];
                    assert(is_corrupted(last));
                    assert(last.header.wf());
                    assert(extent(last) == last.header.body_size.unwrap());
                    assert(extent(element) == element.header.body_size.unwrap());
                    assert(extent(els.last()) == extent(last) + extent(element));
                    assert(sum_extents(els) == sum_extents(old_els) + extent(element));
                } else {
                    lemma_sum_push(old_els, e);
                    assert(extent(e) == extent(element));
                    assert forall|k: int| 0 <= k < n implies els.subrange(0, k)
                        =~= old_els.subrange(0, k) by {}
                    assert(els.subrange(0, n as int) =~= old_els);
                }
            }
        } else {
            self.elements.push(e);
            proof {
                let els = self.elements@;
                let n = old_els.len();
                lemma_sum_push(old_els, e);
                assert(extent(e) == extent(element));
                assert forall|k: int| 0 <= k < n implies els.subrange(0, k) =~= old_els.subrange(
                    0,
                    k,
                ) by {}
                assert(els.subrange(0, n as int) =~= old_els);
                assert(els.drop_last() =~= old_els);
            }
        }
        Ok(())
    }

    /// Hands over the next chunk of the stream; an empty chunk marks its end.
    /// Decodes what it can and returns how many bytes the caller must skip in
    /// the stream before it reads on; the bytes it keeps allow no further
    /// progress (`stalls`). When a decoding fails at a resynchronisation
    /// identifier, so that the scan skips nothing, the scan resumes after the
    /// failed element's first byte. At the end, bytes still pending become
    /// one corrupted element. Fails with `OutOfBufferSpace` when a full buffer
    /// allows no progress, and with `Overflow` when a position or a merged
    /// size exceeds the platform's range.
    #[verifier::rlimit(100)]
    pub fn feed(&mut self, chunk: &[u8]) -> (r: Result<usize, Error>)
        requires
            old(self).wf(),
            !old(self).done(),
            chunk@.len() <= old(self).buffer_capacity() - old(self).pending().len(),
        ensures
            final(self).buffer_capacity() == old(self).buffer_capacity(),
            final(self).stamps_positions() == old(self).stamps_positions(),
            r is Ok ==> final(self).wf(),
            r is Ok && chunk@.len() == 0 ==> {
                &&& final(self).done()
                &&& final(self).pending().len() == 0
                &&& r == Ok::<usize, Error>(0)
                &&& final(self).accounted() == old(self).accounted()
                &&& old(self).pending().len() == 0 ==> final(self).emitted() == old(self).emitted()
            },
            r is Ok && chunk@.len() > 0 ==> {
                &&& !final(self).done()
                &&& final(self).accounted() == old(self).accounted() + chunk@.len() + r->Ok_0
            },
            r is Ok && chunk@.len() > 0 && r->Ok_0 > 0 ==> {
                let els = final(self).emitted();
                &&& final(self).pending().len() == 0
                &&& els.len() > 0
                &&& els.last().body is Binary
                &&& !is_corrupted(els.last())
                &&& old(self).emitted().len() < els.len()
                &&& sum_extents(els.drop_last()) < old(self).accounted() + chunk@.len()
            },
            r matches Err(e) ==> e == Error::OutOfBufferSpace || e == Error::Overflow,
            r == Err::<usize, Error>(Error::OutOfBufferSpace) ==> old(self).pending().len()
                + chunk@.len() == old(self).buffer_capacity() && stalls(
                old(self).pending() + chunk@,
                final(self).in_corrupt_mode(),
            ),
            r == Ok::<usize, Error>(0) && chunk@.len() > 0 ==> stalls(
                final(self).pending(),
                final(self).in_corrupt_mode(),
            ),
            r == Err::<usize, Error>(Error::Overflow) ==> old(self).accounted() + chunk@.len()
                > usize::MAX || (old(self).stamps_positions() && exists|o: int|
                0 <= o <= (old(self).pending() + chunk@).len() && #[trigger] position_overflows(
                old(self).pending() + chunk@,
                o,
                sum_extents(old(self).emitted()) as int,
            )),
            chunk@.len() == 0 && old(self).pending().len() == 0 ==> r is Ok,
            r is Ok ==> extends(old(self).emitted(), final(self).emitted()),
            r is Ok && chunk@.len() == 0 ==> forall|k: int|
                old(self).emitted().len() <= k < final(self).emitted().len() ==> is_corrupted(
                    #[trigger] final(self).emitted()[k],
                ),
            r is Ok && chunk@.len() > 0 ==> {
                let view = old(self).pending() + chunk@;
                &&& final(self).pending().len() <= view.len()
                &&& final(self).pending() == view.subrange(
                    view.len() - final(self).pending().len(),
                    view.len() as int,
                )
                &&& forall|k: int|
                    old(self).emitted().len() <= k < final(self).emitted().len() && !is_corrupted(
                        #[trigger] final(self).emitted()[k],
                    ) ==> found_in(
                        final(self).emitted(),
                        k,
                        view,
                        sum_extents(old(self).emitted()) as int,
                    )
            },
    {
        if chunk.len() == 0 {
            let pending = self.buffer.len();
            if pending > 0 {
                let residue = Element {
                    header: Header::new(Id::corrupted(), 0, pending),
                    body: Body::Binary(BinaryValue::Corrupted),
                };
                match self.emit(residue) {
                    Ok(()) => {},
                    Err(e) => {
                        proof {
                            lemma_last_extent_within(old(self).elements@);
                        }
                        return Err(e);
                    },
                }
            }
            self.buffer = Vec::new();
            self.finished = true;
            return Ok(0);
        }
        let mut view: Vec<u8> = Vec::new();
        std::mem::swap(&mut view, &mut self.buffer);
        let ghost pending_before = view@;
        let mut i: usize = 0;
        while i < chunk.len()
            invariant
                i <= chunk@.len(),
                view@ == pending_before + chunk@.subrange(0, i as int),
            decreases chunk@.len() - i,
        {
            view.push(chunk[i]);
            i = i + 1;
            assert(view@ =~= pending_before + chunk@.subrange(0, i as int));
        }
        assert(chunk@.subrange(0, chunk@.len() as int) =~= chunk@);
        let ghost s0 = sum_extents(self.elements@);
        let mut cur: usize = 0;
        let mut skip_out: usize = 0;
        while cur < view.len()
            invariant
                self.wf(),
                !self.finished,
                self.buffer@.len() == 0,
                self.capacity == old(self).capacity,
                self.show_positions == old(self).show_positions,
                cur <= view@.len(),
                view@.len() == pending_before.len() + chunk@.len(),
                view@ == pending_before + chunk@,
                skip_out == 0,
                sum_extents(self.elements@) == s0 + cur,
                s0 == sum_extents(old(self).elements@),
                pending_before == old(self).buffer@,
                chunk@.len() > 0,
                extends(old(self).elements@, self.elements@),
                forall|k: int|
                    old(self).elements@.len() <= k < self.elements@.len() && !is_corrupted(
                        #[trigger] self.elements@[k],
                    ) ==> found_in(self.elements@, k, view@, s0 as int),
            ensures
                self.wf(),
                !self.finished,
                self.buffer@.len() == 0,
                self.capacity == old(self).capacity,
                self.show_positions == old(self).show_positions,
                cur <= view@.len(),
                view@ == pending_before + chunk@,
                sum_extents(self.elements@) == s0 + cur,
                extends(old(self).elements@, self.elements@),
                forall|k: int|
                    old(self).elements@.len() <= k < self.elements@.len() && !is_corrupted(
                        #[trigger] self.elements@[k],
                    ) ==> found_in(self.elements@, k, view@, s0 as int),
                stalls(view@.subrange(cur as int, view@.len() as int), self.is_corrupt),
            decreases 2 * (view@.len() - cur) + (if self.is_corrupt {
                1int
            } else {
                0int
            }),
        {
            let window = &view[cur..view.len()];
            let was_corrupt = self.is_corrupt;
            let parsed = parse_short_or_corrupt(window, &mut self.is_corrupt);
            match parsed {
                Err(_) => {
                    assert(window@ =~= view@.subrange(cur as int, view@.len() as int));
                    break;
                },
                Ok((rest, sp)) => {
                    // A decoding that failed at a resynchronisation identifier
                    // yields an empty skip; resume the scan after its first byte.
                    let (rest, sp) = if rest.len() == window.len() && !was_corrupt {
                        match skip_corrupted(window, 1) {
                            Ok((after, element)) => {
                                (after, ShortParsed { element, bytes_to_be_skipped: 0 })
                            },
                            Err(_) => {
                                self.is_corrupt = true;
                                assert(window@ =~= view@.subrange(cur as int, view@.len() as int));
                                break;
                            },
                        }
                    } else {
                        (rest, sp)
                    };
                    let consumed = view.len() - cur - rest.len();
                    let skip = sp.bytes_to_be_skipped;
                    let ghost before = self.elements@;
                    match self.emit(sp.element) {
                        Ok(()) => {},
                        Err(e) => {
                            proof {
                                lemma_last_extent_within(before);
                                if !is_corrupted(sp.element) {
                                    assert(window@ =~= view@.subrange(cur as int, view@.len() as int));
                                    assert(header_extent(sp.element.header) == extent(sp.element));
                                    assert(position_overflows(view@, cur as int, s0 as int));
                                }
                            }
                            return Err(e);
                        },
                    }
                    proof {
                        let els = self.elements@;
                        assert forall|k: int|
                            old(self).elements@.len() <= k < els.len() && !is_corrupted(
                                #[trigger] els[k],
                            ) implies found_in(els, k, view@, s0 as int) by {
                            if k < before.len() {
                                lemma_extends_prefix(before, els, k);
                            } else {
                                assert(k == before.len());
                                assert(els.subrange(0, k) =~= els.drop_last());
                                assert(Element {
                                    header: Header { position: None, ..els[k].header },
                                    body: els[k].body,
                                } == sp.element);
                            }
                        }
                        assert forall|k: int| 0 <= k < old(self).elements@.len() implies els[k]
                            == old(self).elements@[k] || (k == old(self).elements@.len() - 1
                            && is_corrupted(old(self).elements@[k]) && is_corrupted(els[k])) by {
                            if k < before.len() - 1 || !is_corrupted(before[k]) {
                            }
                        }
                    }
                    if rest.len() >= skip {
                        cur = cur + consumed + skip;
                    } else {
                        skip_out = skip - rest.len();
                        cur = view.len();
                        self.buffer = Vec::new();
                        return Ok(skip_out);
                    }
                },
            }
        }
        if cur == 0 && view.len() == self.capacity {
            assert(view@.subrange(0, view@.len() as int) =~= view@);
            return Err(Error::OutOfBufferSpace);
        }
        let mut rest_buffer: Vec<u8> = Vec::new();
        let mut j: usize = cur;
        while j < view.len()
            invariant
                cur <= j <= view@.len(),
                rest_buffer@ == view@.subrange(cur as int, j as int),
            decreases view@.len() - j,
        {
            rest_buffer.push(view[j]);
            j = j + 1;
            assert(rest_buffer@ =~= view@.subrange(cur as int, j as int));
        }
        self.buffer = rest_buffer;
        Ok(0)
    }
}

/// Every element that does not stand for a corrupted region is found again by
/// decoding a header at its position in `input`.
pub open spec fn positions_reparse(els: Seq<Element>, input: Seq<u8>) -> bool {
    forall|k: int|
        0 <= k < els.len() && !is_corrupted(#[trigger] els[k]) ==> match els[k].header.position {
            Some(p) => p <= input.len() && match header_spec(input.subrange(p as int, input.len() as int)) {
                Ok(h) => h.id == els[k].header.id,
                Err(_) => false,
            },
            None => false,
        }
}

/// Element `k` of `els` decodes whole, header and body, where the elements
/// before it end in `input`.
pub open spec fn decodes_at(els: Seq<Element>, k: int, input: Seq<u8>) -> bool {
    let p = sum_extents(els.subrange(0, k));
    &&& p <= input.len()
    &&& element_decodes(
        input.subrange(p as int, input.len() as int),
        Element { header: Header { position: None, ..els[k].header }, body: els[k].body },
    )
}

/// Decodes the element at the start of `input`, or, where that fails, skips to
/// the first resynchronisation identifier after the first byte. `None` when
/// decoding fails and no identifier follows.
fn decode_or_skip(input: &[u8]) -> (r: Option<(&[u8], Element)>)
    ensures
        match r {
            Some((rest, e)) => {
                let n = (input@.len() - rest@.len()) as nat;
                &&& is_rest_after(input@, rest@, n)
                &&& extent(e) == n
                &&& e.header.position is None
                &&& e.header.wf()
                &&& !(e.body is Master) ==> e.header.size is Some
                &&& !is_corrupted(e) ==> element_decodes(input@, e)
                &&& is_corrupted(e) ==> {
                    &&& e == corrupted_element(n)
                    &&& element_error(input@) is Some
                    &&& 1 <= n
                    &&& sync_at(input@, n as int)
                    &&& forall|j: int| 1 <= j < n ==> !sync_at(input@, j)
                }
            },
            None => element_error(input@) is Some && forall|j: int| 1 <= j ==> !sync_at(input@, j),
        },
{
    proof {
        vstd::slice::axiom_spec_len(input);
    }
    match parse_element(input) {
        Ok((rest, e)) => {
            proof {
                lemma_wire_id_not_corrupted(
                    crate::vint::be_value(
                        input@.subrange(0, crate::vint::vint_width(input@[0]) as int),
                    ) as u32,
                );
            }
            Some((rest, e))
        },
        Err(_) => match find_valid_element(input) {
            // A resynchronisation identifier at the failed element itself
            // gives an empty skip; resume the scan after its first byte.
            Ok((after, _)) if after.len() == input.len() => match skip_corrupted(input, 1) {
                Ok(p) => Some(p),
                Err(_) => None,
            },
            Ok(p) => Some(p),
            Err(_) => None,
        },
    }
}

/// Corrupted element `k` of `els` starts where decoding fails in `input` and
/// ends at the first resynchronisation identifier after its first byte.
pub open spec fn corrupt_region_at(els: Seq<Element>, k: int, input: Seq<u8>) -> bool {
    let p = sum_extents(els.subrange(0, k));
    let rest = input.subrange(p as int, input.len() as int);
    let n = extent(els[k]);
    &&& p <= input.len()
    &&& element_error(rest) is Some
    &&& 1 <= n
    &&& sync_at(rest, n as int)
    &&& forall|j: int| 1 <= j < n ==> !sync_at(rest, j)
}

/// Decodes the elements of a whole input one after the other, skipping
/// corrupted regions, until the input is used up or nothing more can be
/// decoded. With `show_position`, each element carries its offset in `input`.
pub fn parse_elements(input: &[u8], show_position: bool) -> (r: Vec<Element>)
    ensures
        positions_stamped(r@, show_position),
        sum_extents(r@) <= input@.len(),
        sum_extents(r@) < input@.len() ==> {
            let rest = input@.subrange(sum_extents(r@) as int, input@.len() as int);
            &&& element_error(rest) is Some
            &&& forall|j: int| 1 <= j ==> !sync_at(rest, j)
        },
        show_position ==> positions_reparse(r@, input@),
        forall|k: int|
            0 <= k < r@.len() && !is_corrupted(#[trigger] r@[k]) ==> decodes_at(r@, k, input@),
        forall|k: int|
            0 <= k < r@.len() && is_corrupted(#[trigger] r@[k]) ==> corrupt_region_at(
                r@,
                k,
                input@,
            ),
{
    let mut elements: Vec<Element> = Vec::new();
    let mut offset: usize = 0;
    let mut position: Option<usize> = if show_position {
        Some(0)
    } else {
        None
    };
    while offset < input.len()
        invariant
            offset <= input@.len(),
            sum_extents(elements@) == offset,
            position == (if show_position {
                Some(offset)
            } else {
                None
            }),
            positions_stamped(elements@, show_position),
            show_position ==> positions_reparse(elements@, input@),
            forall|k: int|
                0 <= k < elements@.len() && !is_corrupted(#[trigger] elements@[k]) ==> decodes_at(
                    elements@,
                    k,
                    input@,
                ),
            forall|k: int|
                0 <= k < elements@.len() && is_corrupted(#[trigger] elements@[k])
                    ==> corrupt_region_at(elements@, k, input@),
        ensures
            offset <= input@.len(),
            sum_extents(elements@) == offset,
            positions_stamped(elements@, show_position),
            show_position ==> positions_reparse(elements@, input@),
            forall|k: int|
                0 <= k < elements@.len() && !is_corrupted(#[trigger] elements@[k]) ==> decodes_at(
                    elements@,
                    k,
                    input@,
                ),
            forall|k: int|
                0 <= k < elements@.len() && is_corrupted(#[trigger] elements@[k])
                    ==> corrupt_region_at(elements@, k, input@),
            offset < input@.len() ==> {
                let rest = input@.subrange(offset as int, input@.len() as int);
                &&& element_error(rest) is Some
                &&& forall|j: int| 1 <= j ==> !sync_at(rest, j)
            },
        decreases input@.len() - offset,
    {
        let read_buffer = &input[offset..input.len()];
        let (rest, element) = match decode_or_skip(read_buffer) {
            Some(p) => p,
            None => break,
        };
        let consumed = read_buffer.len() - rest.len();
        proof {
            if !is_corrupted(element) {
                assert(element_decodes(read_buffer@, element));
                assert(header_spec(read_buffer@) == Ok::<Header, Error>(element.header));
            }
            assert(extent(element) == consumed);
        }
        let mut stamped = element;
        match insert_position(&mut stamped, &mut position) {
            Ok(()) => {},
            Err(_) => break,
        }
        let ghost old_els = elements@;
        elements.push(stamped);
        proof {
            let els = elements@;
            let n = old_els.len();
            lemma_sum_push(old_els, stamped);
            assert forall|k: int| 0 <= k < n implies els.subrange(0, k) =~= old_els.subrange(0, k) by {}
            assert(els.subrange(0, n as int) =~= old_els);
            assert(read_buffer@ =~= input@.subrange(offset as int, input@.len() as int));
            assert forall|k: int|
                0 <= k < els.len() && !is_corrupted(#[trigger] els[k]) implies decodes_at(
                els,
                k,
                input@,
            ) by {
                if k < n {
                    assert(els[k] == old_els[k]);
                } else {
                    assert(Element { header: Header { position: None, ..els[k].header }, body: els[k].body } == element);
                }
            }
            assert forall|k: int|
                0 <= k < els.len() && is_corrupted(#[trigger] els[k]) implies corrupt_region_at(
                els,
                k,
                input@,
            ) by {
                if k < n {
                    assert(els[k] == old_els[k]);
                }
            }
        }
        offset = offset + consumed;
    }
    elements
}

} // verus!
