use vstd::prelude::*;

use crate::driver::{
    corrupted_well_formed, position_overflows, stalls, unknown_sizes_allowed, extends, found_in, is_corrupted, lemma_extends_prefix, no_adjacent_corrupted,
    positions_reparse, positions_stamped, sum_extents, ChunkedParser,
};
use crate::element::{Element, Header};
use crate::parse::header_spec;
use crate::error::Error;

verus! {

proof fn lemma_found_after_feed(
    old_els: Seq<Element>,
    els: Seq<Element>,
    view: Seq<u8>,
    data: Seq<u8>,
    base: int,
)
    requires
        extends(old_els, els),
        0 <= base,
        base + view.len() <= data.len(),
        view == data.subrange(base, base + view.len()),
        forall|k: int|
            0 <= k < old_els.len() && !is_corrupted(#[trigger] old_els[k]) ==> found_in(
                old_els,
                k,
                data,
                0,
            ),
        forall|k: int|
            old_els.len() <= k < els.len() && !is_corrupted(#[trigger] els[k]) ==> found_in(
                els,
                k,
                view,
                base,
            ),
    ensures
        forall|k: int|
            0 <= k < els.len() && !is_corrupted(#[trigger] els[k]) ==> found_in(els, k, data, 0),
{
    assert forall|k: int| 0 <= k < els.len() && !is_corrupted(#[trigger] els[k]) implies found_in(
        els,
        k,
        data,
        0,
    ) by {
        if k < old_els.len() {
            lemma_extends_prefix(old_els, els, k);
        } else {
            let o = sum_extents(els.subrange(0, k)) - base;
            let part = view.subrange(o, view.len() as int);
            let whole = data.subrange(base + o, data.len() as int);
            assert(part =~= whole.subrange(0, part.len() as int));
            crate::parse::lemma_header_prefix(part, whole);
            let e = els[k];
            if e.header.id.value_type() != crate::elements::Type::Binary {
                crate::parse::lemma_element_prefix(
                    part,
                    whole,
                    Element { header: Header { position: None, ..e.header }, body: e.body },
                );
            }
        }
    }
}

proof fn lemma_found_after_end(old_els: Seq<Element>, els: Seq<Element>, data: Seq<u8>)
    requires
        extends(old_els, els),
        forall|k: int|
            0 <= k < old_els.len() && !is_corrupted(#[trigger] old_els[k]) ==> found_in(
                old_els,
                k,
                data,
                0,
            ),
        forall|k: int| old_els.len() <= k < els.len() ==> is_corrupted(#[trigger] els[k]),
    ensures
        forall|k: int|
            0 <= k < els.len() && !is_corrupted(#[trigger] els[k]) ==> found_in(els, k, data, 0),
{
    assert forall|k: int| 0 <= k < els.len() && !is_corrupted(#[trigger] els[k]) implies found_in(
        els,
        k,
        data,
        0,
    ) by {
        if k < old_els.len() {
            lemma_extends_prefix(old_els, els, k);
        }
    }
}

proof fn lemma_pending_after_feed(
    data: Seq<u8>,
    base: int,
    view: Seq<u8>,
    pending: Seq<u8>,
    sum: int,
    skip: int,
    cursor: int,
)
    requires
        0 <= base,
        base + view.len() <= data.len(),
        view == data.subrange(base, base + view.len()),
        pending.len() <= view.len(),
        pending == view.subrange(view.len() - pending.len(), view.len() as int),
        sum + pending.len() == base + view.len() + skip,
        0 <= skip,
        skip > 0 ==> pending.len() == 0,
        cursor == base + view.len() + skip,
        cursor <= data.len(),
    ensures
        pending == data.subrange(sum, cursor),
{
    assert(pending =~= data.subrange(sum, cursor));
}

proof fn lemma_positions_reparse(els: Seq<Element>, data: Seq<u8>)
    requires
        data.len() <= usize::MAX,
        positions_stamped(els, true),
        forall|k: int|
            0 <= k < els.len() && !is_corrupted(#[trigger] els[k]) ==> found_in(els, k, data, 0),
    ensures
        positions_reparse(els, data),
{
    assert forall|k: int| 0 <= k < els.len() && !is_corrupted(#[trigger] els[k]) implies match els[k].header.position {
        Some(p) => p <= data.len() && match crate::parse::header_spec(
            data.subrange(p as int, data.len() as int),
        ) {
            Ok(h) => h.id == els[k].header.id,
            Err(_) => false,
        },
        None => false,
    } by {
        assert(found_in(els, k, data, 0));
        assert(els[k].header.position == Some(sum_extents(els.subrange(0, k)) as usize));
    }
}

proof fn lemma_overflow_in_data(view: Seq<u8>, data: Seq<u8>, base: int, o: int)
    requires
        0 <= base,
        base + view.len() <= data.len(),
        view == data.subrange(base, base + view.len()),
        0 <= o <= view.len(),
        position_overflows(view, o, base),
    ensures
        position_overflows(data, base + o, 0),
{
    let part = view.subrange(o, view.len() as int);
    let whole = data.subrange(base + o, data.len() as int);
    assert(part =~= whole.subrange(0, part.len() as int));
    crate::parse::lemma_header_prefix(part, whole);
}

/// Runs the chunked driver over bytes held in memory, with a buffer of
/// `buffer_size` bytes: reads chunks from `data` and performs the skips that
/// the driver asks for. The emitted elements account for the bytes of `data`
/// one after the other, each found at its offset; only a last binary element
/// whose declared body runs past the end of `data` accounts for more. Fails
/// with `OutOfBufferSpace` only where a window of `buffer_size` bytes allows no
/// progress, and with `Overflow` only when positions are stamped.
#[verifier::rlimit(100)]
pub fn parse_elements_from_bytes(data: &[u8], buffer_size: usize, show_positions: bool) -> (r:
    Result<Vec<Element>, Error>)
    requires
        buffer_size > 0,
    ensures
        match r {
            Ok(els) => {
                &&& no_adjacent_corrupted(els@)
                &&& positions_stamped(els@, show_positions)
                &&& sum_extents(els@) >= data@.len()
                &&& sum_extents(els@) > data@.len() ==> {
                    let start = sum_extents(els@.drop_last());
                    &&& els@.len() > 0
                    &&& els@.last().body is Binary
                    &&& !is_corrupted(els@.last())
                    &&& start < data@.len()
                    &&& header_spec(data@.subrange(start as int, data@.len() as int)) == Ok::<
                        Header,
                        Error,
                    >(Header { position: None, ..els@.last().header })
                }
                &&& forall|k: int|
                    0 <= k < els@.len() && !is_corrupted(#[trigger] els@[k]) ==> found_in(
                        els@,
                        k,
                        data@,
                        0,
                    )
                &&& corrupted_well_formed(els@)
                &&& unknown_sizes_allowed(els@)
                &&& show_positions ==> positions_reparse(els@, data@)
            },
            Err(e) => e == Error::OutOfBufferSpace || e == Error::Overflow,
        },
        r == Err::<Vec<Element>, Error>(Error::Overflow) ==> show_positions && exists|o: int|
            0 <= o <= data@.len() && #[trigger] position_overflows(data@, o, 0),
        r == Err::<Vec<Element>, Error>(Error::OutOfBufferSpace) ==> buffer_size <= data@.len()
            && exists|o: int, corrupt: bool|
            0 <= o && o + buffer_size <= data@.len() && #[trigger] stalls(
                data@.subrange(o, o + buffer_size),
                corrupt,
            ),
{
    let data_len = data.len();
    let mut parser = ChunkedParser::new(buffer_size, show_positions);
    let mut cursor: usize = 0;
    let ghost mut overrun = false;
    while !parser.is_finished()
        invariant
            parser.wf(),
            parser.stamps_positions() == show_positions,
            parser.buffer_capacity() == buffer_size,
            cursor <= data@.len(),
            !parser.done() && !overrun ==> parser.accounted() == cursor,
            overrun ==> {
                let els = parser.emitted();
                &&& cursor == data@.len()
                &&& parser.pending().len() == 0
                &&& sum_extents(els) > data@.len()
                &&& els.len() > 0
                &&& els.last().body is Binary
                &&& !is_corrupted(els.last())
                &&& sum_extents(els.drop_last()) < data@.len()
            },
            parser.done() && !overrun ==> sum_extents(parser.emitted()) == data@.len(),
            !parser.done() && !overrun ==> parser.pending() == data@.subrange(
                sum_extents(parser.emitted()) as int,
                cursor as int,
            ),
            forall|k: int|
                0 <= k < parser.emitted().len() && !is_corrupted(#[trigger] parser.emitted()[k])
                    ==> found_in(parser.emitted(), k, data@, 0),
        decreases data@.len() - cursor + (if parser.done() {
            0int
        } else {
            1int
        }),
    {
        let space = parser.space();
        let available = data.len() - cursor;
        let n = if space < available {
            space
        } else {
            available
        };
        let chunk = &data[cursor..cursor + n];
        let ghost old_els = parser.emitted();
        let ghost c0 = cursor;
        let ghost old_sum = sum_extents(parser.emitted());
        let ghost view = parser.pending() + chunk@;
        let skip = match parser.feed(chunk) {
            Ok(s) => s,
            Err(e) => {
                proof {
                    if !overrun {
                        assert(view =~= data@.subrange(old_sum as int, c0 + n));
                        if e == Error::Overflow {
                            let o = choose|o: int|
                                0 <= o <= view.len() && #[trigger] position_overflows(
                                    view,
                                    o,
                                    old_sum as int,
                                );
                            lemma_overflow_in_data(view, data@, old_sum as int, o);
                        }
                        if e == Error::OutOfBufferSpace {
                            assert(stalls(
                                data@.subrange(old_sum as int, old_sum + buffer_size),
                                parser.in_corrupt_mode(),
                            ));
                        }
                    }
                }
                return Err(e);
            },
        };
        proof {
            if n > 0 {
                assert(view =~= data@.subrange(old_sum as int, cursor + n));
                lemma_found_after_feed(old_els, parser.emitted(), view, data@, old_sum as int);
            } else {
                lemma_found_after_end(old_els, parser.emitted(), data@);
            }
        }
        cursor = cursor + n;
        if n > 0 {
            if skip > data.len() - cursor {
                proof {
                    overrun = true;
                }
                cursor = data.len();
            } else {
                cursor = cursor + skip;
                proof {
                    assert(view =~= data@.subrange(old_sum as int, c0 + n));
                    lemma_pending_after_feed(
                        data@,
                        old_sum as int,
                        view,
                        parser.pending(),
                        sum_extents(parser.emitted()) as int,
                        skip as int,
                        cursor as int,
                    );
                }
            }
        }
    }
    let elements = parser.into_elements();
    proof {
        let els = elements@;
        if sum_extents(els) > data@.len() {
            assert(els.subrange(0, els.len() - 1) =~= els.drop_last());
            assert(found_in(els, els.len() - 1, data@, 0));
        }
    }
    let data_len = data.len();
    proof {
        if show_positions {
            lemma_positions_reparse(elements@, data@);
        }
    }
    Ok(elements)
}

} // verus!
