use vstd::prelude::*;

use crate::status::{GeneralStatus, Status};

verus! {

/// Whether `r` reports that `n` of `wanted` bytes were handled: `OkCompleted`
/// for all of them, `OkPartial(n)` for some, and a status that is not a
/// success for none.
pub open spec fn reports(r: Status, n: nat, wanted: nat) -> bool {
    &&& n == wanted ==> r == Status::General(GeneralStatus::OkCompleted)
    &&& 0 < n < wanted ==> r == Status::General(GeneralStatus::OkPartial(n as u64))
    &&& n == 0 ==> !(r matches Status::General(g) && (g is OkCompleted || g is OkPartial))
}

/// A source of bytes.
pub trait Reader {
    /// The bytes that the source delivers next, in order.
    spec fn upcoming(&self) -> Seq<u8>;

    /// How many bytes a read or skip that asks for `wanted` bytes handles; at
    /// most `wanted` and at most what is upcoming (a short read is allowed).
    spec fn delivers(&self, wanted: nat) -> nat;

    /// The absolute byte position in the stream.
    spec fn offset(&self) -> nat;

    /// The bytes that the source holds, whether read yet or not.
    spec fn held(&self) -> Seq<u8>;

    /// Reads up to `num_to_read` bytes into the front of `buffer` and advances
    /// by the number read.
    fn read(&mut self, num_to_read: usize, buffer: &mut [u8]) -> (r: Status)
        requires
            0 < num_to_read <= old(buffer)@.len(),
        ensures
            ({
                let n = old(self).delivers(num_to_read as nat);
                let up = old(self).upcoming();
                &&& n <= num_to_read
                &&& n <= up.len()
                &&& final(buffer)@ == up.subrange(0, n as int) + old(buffer)@.subrange(
                    n as int,
                    old(buffer)@.len() as int,
                )
                &&& final(self).upcoming() == up.subrange(n as int, up.len() as int)
                &&& final(self).offset() == old(self).offset() + n
                &&& final(self).held() == old(self).held()
                &&& reports(r, n, num_to_read as nat)
                &&& up.len() == 0 ==> r == Status::General(GeneralStatus::EndOfFile)
            }),
    ;

    /// Skips up to `num_to_skip` bytes, with the statuses of `read`.
    fn skip(&mut self, num_to_skip: usize) -> (r: Status)
        requires
            0 < num_to_skip,
        ensures
            ({
                let n = old(self).delivers(num_to_skip as nat);
                let up = old(self).upcoming();
                &&& n <= num_to_skip
                &&& n <= up.len()
                &&& final(self).upcoming() == up.subrange(n as int, up.len() as int)
                &&& final(self).offset() == old(self).offset() + n
                &&& final(self).held() == old(self).held()
                &&& reports(r, n, num_to_skip as nat)
                &&& up.len() == 0 ==> r == Status::General(GeneralStatus::EndOfFile)
            }),
    ;

    /// The reader's absolute byte position in the stream.
    fn position(&self) -> (r: u64)
        ensures
            r == self.offset(),
    ;
}

/// A reader over bytes held in memory.
pub struct BufferReader {
    data: Vec<u8>,
    pos: usize,
}

impl BufferReader {
    /// The bytes and the offset of the next byte to read.
    pub closed spec fn contents(&self) -> Seq<u8> {
        self.data@
    }

    /// The offset of the next byte to read.
    pub closed spec fn offset(&self) -> nat {
        self.pos as nat
    }

    #[verifier::type_invariant]
    spec fn offset_within(&self) -> bool {
        self.pos <= self.data@.len()
    }

    /// A reader positioned at the first of `data`.
    pub fn new(data: Vec<u8>) -> (r: BufferReader)
        ensures
            r.contents() == data@,
            r.offset() == 0,
    {
        BufferReader { data, pos: 0 }
    }

    /// The number of bytes held.
    pub fn size(&self) -> (r: usize)
        ensures
            r == self.contents().len(),
    {
        self.data.len()
    }

    /// The status of handing over `n` of the `wanted` bytes, `n` not above `wanted`.
    fn status_of(n: usize, wanted: usize) -> (r: Status)
        ensures
            n == 0 ==> r == Status::General(GeneralStatus::EndOfFile),
            0 < n < wanted ==> r == Status::General(GeneralStatus::OkPartial(n as u64)),
            0 < n && n >= wanted ==> r == Status::General(GeneralStatus::OkCompleted),
    {
        if n == 0 {
            Status::General(GeneralStatus::EndOfFile)
        } else if n < wanted {
            Status::General(GeneralStatus::OkPartial(n as u64))
        } else {
            Status::General(GeneralStatus::OkCompleted)
        }
    }

    /// Copies up to `num_to_read` of the next bytes into the front of `buffer`.
    pub fn read_bytes(&mut self, num_to_read: usize, buffer: &mut [u8]) -> (r: Status)
        requires
            0 < num_to_read <= old(buffer)@.len(),
        ensures
            old(self).offset() <= old(self).contents().len(),
            final(self).offset() <= final(self).contents().len(),
            final(self).contents() == old(self).contents(),
            final(buffer)@.len() == old(buffer)@.len(),
            ({
                let n = final(self).offset() - old(self).offset();
                let start = old(self).offset() as int;
                &&& n == vstd::math::min(
                    num_to_read as int,
                    old(self).contents().len() - old(self).offset(),
                )
                &&& final(buffer)@ == old(self).contents().subrange(start, start + n)
                    + old(buffer)@.subrange(n, old(buffer)@.len() as int)
                &&& n == 0 ==> r == Status::General(GeneralStatus::EndOfFile)
                &&& 0 < n < num_to_read ==> r == Status::General(
                    GeneralStatus::OkPartial(n as u64),
                )
                &&& n == num_to_read ==> r == Status::General(GeneralStatus::OkCompleted)
            }),
    {
        proof {
            use_type_invariant(&*self);
        }
        let remaining = self.data.len() - self.pos;
        let n = if num_to_read > remaining {
            remaining
        } else {
            num_to_read
        };
        let start = self.pos;
        let data_len = self.data.len();
        let mut i: usize = 0;
        while i < n
            invariant
                i <= n <= num_to_read <= buffer@.len(),
                start + n <= data_len,
                data_len == self.data@.len(),
                start == self.pos,
                self.pos <= self.data@.len(),
                buffer@.len() == old(buffer)@.len(),
                forall|j: int| 0 <= j < i ==> buffer@[j] == self.data@[start + j],
                forall|j: int| i <= j < buffer@.len() ==> buffer@[j] == old(buffer)@[j],
            decreases n - i,
        {
            buffer[i] = self.data[start + i];
            i = i + 1;
        }
        self.pos = start + n;
        proof {
            use_type_invariant(&*self);
        }
        assert(buffer@ =~= self.data@.subrange(start as int, start + n) + old(buffer)@.subrange(
            n as int,
            old(buffer)@.len() as int,
        ));
        BufferReader::status_of(n, num_to_read)
    }

    /// Skips up to `num_to_skip` of the next bytes.
    pub fn skip_bytes(&mut self, num_to_skip: usize) -> (r: Status)
        requires
            0 < num_to_skip,
        ensures
            old(self).offset() <= old(self).contents().len(),
            final(self).offset() <= final(self).contents().len(),
            final(self).contents() == old(self).contents(),
            ({
                let n = final(self).offset() - old(self).offset();
                &&& n == vstd::math::min(
                    num_to_skip as int,
                    old(self).contents().len() - old(self).offset(),
                )
                &&& n == 0 ==> r == Status::General(GeneralStatus::EndOfFile)
                &&& 0 < n < num_to_skip ==> r == Status::General(
                    GeneralStatus::OkPartial(n as u64),
                )
                &&& n == num_to_skip ==> r == Status::General(GeneralStatus::OkCompleted)
            }),
    {
        proof {
            use_type_invariant(&*self);
        }
        let remaining = self.data.len() - self.pos;
        let n = if num_to_skip > remaining {
            remaining
        } else {
            num_to_skip
        };
        self.pos = self.pos + n;
        proof {
            use_type_invariant(&*self);
        }
        BufferReader::status_of(n, num_to_skip)
    }

    /// The offset of the next byte to read.
    pub fn current_position(&self) -> (r: u64)
        ensures
            r == self.offset() as u64,
    {
        self.pos as u64
    }
}

impl Reader for BufferReader {
    open spec fn upcoming(&self) -> Seq<u8> {
        self.contents().subrange(self.offset() as int, self.contents().len() as int)
    }

    open spec fn delivers(&self, wanted: nat) -> nat {
        vstd::math::min(wanted as int, self.contents().len() - self.offset()) as nat
    }

    open spec fn offset(&self) -> nat {
        self.offset()
    }

    open spec fn held(&self) -> Seq<u8> {
        self.contents()
    }

    fn read(&mut self, num_to_read: usize, buffer: &mut [u8]) -> (r: Status) {
        let r = self.read_bytes(num_to_read, buffer);
        assert(self.contents().subrange(self.offset() as int, self.contents().len() as int)
            =~= old(self).contents().subrange(old(self).offset() as int, old(self).contents().len() as int).subrange(
            (self.offset() - old(self).offset()) as int,
            (old(self).contents().len() - old(self).offset()) as int,
        ));
        assert(old(self).contents().subrange(old(self).offset() as int, old(self).contents().len() as int).subrange(
            0,
            (self.offset() - old(self).offset()) as int,
        ) =~= old(self).contents().subrange(old(self).offset() as int, self.offset() as int));
        r
    }

    fn skip(&mut self, num_to_skip: usize) -> (r: Status) {
        let r = self.skip_bytes(num_to_skip);
        assert(self.contents().subrange(self.offset() as int, self.contents().len() as int)
            =~= old(self).contents().subrange(old(self).offset() as int, old(self).contents().len() as int).subrange(
            (self.offset() - old(self).offset()) as int,
            (old(self).contents().len() - old(self).offset()) as int,
        ));
        r
    }

    fn position(&self) -> (r: u64) {
        self.current_position()
    }
}

} // verus!
