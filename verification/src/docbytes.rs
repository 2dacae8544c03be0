use vstd::prelude::*;

verus! {

broadcast use vstd::std_specs::vec::group_vec_axioms, vstd::seq::group_seq_axioms;

use vstd::string::StringExecFns;

use crate::text::dec_chars;
use crate::text::u64_to_dec;

/// Fewest bytes a record can declare: the 4-byte size prefix plus the
/// single trailing terminator byte.
pub const MIN_BSON_SIZE: u32 = 5;

/// Most bytes a record can declare: 16 MiB plus 16 KiB, the largest
/// single record this format must support.
pub const MAX_BSON_SIZE: u32 = 16 * 1024 * 1024 + 16 * 1024;

/// One complete record: the size its prefix declared, and all of its
/// bytes, the four size bytes included.
#[derive(Debug)]
pub struct BsonBytes {
    pub size: u32,
    pub bytes: Vec<u8>,
}

/// Why the stream stopped: an underlying read that could not complete,
/// or a declared size outside the accepted bounds. A too-small size is
/// reported through an 8-bit field; every size below the 5-byte floor
/// fits in it.
#[derive(Debug, PartialEq, Eq)]
pub enum Error {
    IOError,
    TooSmallError(u8),
    TooLargeError(u32),
}

/// The message each error prints.
pub open spec fn error_message_chars(e: Error) -> Seq<char> {
    match e {
        Error::IOError => "failed to fill whole buffer"@,
        Error::TooSmallError(size) => "invalid BSONSize: "@ + dec_chars(size as nat)
            + " bytes is less than "@ + dec_chars(MIN_BSON_SIZE as nat) + " bytes"@,
        Error::TooLargeError(size) => "invalid BSONSize: "@ + dec_chars(size as nat)
            + " bytes is larger than than maximum of "@ + dec_chars(MAX_BSON_SIZE as nat)
            + " bytes"@,
    }
}

impl Error {
    /// Renders the message this error stands for, exactly as
    /// `error_message_chars` describes it.
    pub fn message(&self) -> (s: String)
        ensures
            s@ == error_message_chars(*self),
    {
        let mut s = String::new();
        match self {
            Error::IOError => {
                s.append("failed to fill whole buffer");
            },
            Error::TooSmallError(size) => {
                s.append("invalid BSONSize: ");
                let d = u64_to_dec(*size as u64);
                s.append(d.as_str());
                s.append(" bytes is less than ");
                let m = u64_to_dec(MIN_BSON_SIZE as u64);
                s.append(m.as_str());
                s.append(" bytes");
            },
            Error::TooLargeError(size) => {
                s.append("invalid BSONSize: ");
                let d = u64_to_dec(*size as u64);
                s.append(d.as_str());
                s.append(" bytes is larger than than maximum of ");
                let m = u64_to_dec(MAX_BSON_SIZE as u64);
                s.append(m.as_str());
                s.append(" bytes");
            },
        }
        proof {
            assert(s@ =~= error_message_chars(*self));
        }
        s
    }
}

/// The unsigned value of four bytes read little-endian. The wire format
/// declares sizes as signed 32-bit integers reinterpreted as unsigned;
/// both readings take the same four bytes the same way.
pub open spec fn le_u32_spec(b0: u8, b1: u8, b2: u8, b3: u8) -> u32 {
    (b0 + b1 * 0x100 + b2 * 0x1_0000 + b3 * 0x100_0000) as u32
}

fn le_u32(b0: u8, b1: u8, b2: u8, b3: u8) -> (r: u32)
    ensures
        r == le_u32_spec(b0, b1, b2, b3),
{
    (b0 as u32) + (b1 as u32) * 0x100 + (b2 as u32) * 0x1_0000 + (b3 as u32) * 0x100_0000
}

/// The size the next record declares, read from the first four bytes
/// of what remains of the stream.
pub open spec fn declared_size(rem: Seq<u8>) -> u32
    recommends
        rem.len() >= 4,
{
    le_u32_spec(rem[0], rem[1], rem[2], rem[3])
}

/// A pull-based cursor over a byte stream, yielding one record per
/// declared size prefix. It enforces the size bounds, advances by
/// exactly one record's declared size per successful read, and stops
/// for good at a clean end of stream or at the first error.
pub struct Source {
    data: Vec<u8>,
    pos: usize,
    done: bool,
}

impl Source {
    /// All bytes of the input stream.
    pub closed spec fn stream(self) -> Seq<u8> {
        self.data@
    }

    /// How many bytes the cursor has consumed.
    pub closed spec fn cursor(self) -> int {
        self.pos as int
    }

    /// Whether the stream has stopped for good: a clean end or an
    /// error already yielded. No further record follows either.
    pub closed spec fn stopped(self) -> bool {
        self.done
    }

    /// The bytes not yet consumed.
    pub open spec fn remaining(self) -> Seq<u8> {
        self.stream().subrange(self.cursor(), self.stream().len() as int)
    }

    /// The cursor stays within the stream.
    pub open spec fn wf(self) -> bool {
        0 <= self.cursor() <= self.stream().len()
    }

    /// Pulls the next record. The returned value follows the stream's
    /// state exactly: `None` at a clean end of stream, an error that
    /// stops the stream for good when the four size bytes cannot be
    /// read, when the declared size is out of bounds, or when the body
    /// falls short, and otherwise the record whose bytes are the four
    /// size bytes followed by its body.
    pub fn next(&mut self) -> (r: Option<Result<BsonBytes, Error>>)
        requires
            old(self).wf(),
        ensures
            final (self).wf(),
            final (self).stream() == old(self).stream(),
            old(self).stopped() ==> r is None && *final (self) == *old(self),
            !old(self).stopped() && old(self).remaining().len() == 0 ==> r is None && final (
                self
            ).stopped(),
            !old(self).stopped() && 0 < old(self).remaining().len() < 4 ==> r == Some(
                Result::<BsonBytes, Error>::Err(Error::IOError),
            ) && final (self).stopped(),
            !old(self).stopped() && old(self).remaining().len() >= 4 ==> {
                let size = declared_size(old(self).remaining());
                &&& size < MIN_BSON_SIZE ==> r == Some(
                    Result::<BsonBytes, Error>::Err(Error::TooSmallError(size as u8)),
                ) && final (self).stopped()
                &&& size > MAX_BSON_SIZE ==> r == Some(
                    Result::<BsonBytes, Error>::Err(Error::TooLargeError(size)),
                ) && final (self).stopped()
                &&& MIN_BSON_SIZE <= size <= MAX_BSON_SIZE && old(self).remaining().len()
                    < size ==> r == Some(Result::<BsonBytes, Error>::Err(Error::IOError)) && final (
                    self
                ).stopped()
                &&& MIN_BSON_SIZE <= size <= MAX_BSON_SIZE && old(self).remaining().len()
                    >= size ==> {
                    &&& r matches Some(Ok(record))
                    &&& record.size == size
                    &&& record.bytes@ == old(self).remaining().subrange(0, size as int)
                    &&& record.bytes@.len() == 4 + (size - 4)
                    &&& final (self).cursor() == old(self).cursor() + size
                    &&& !final (self).stopped()
                }
            },
    {
        if self.done {
            return None;
        }
        let len = self.data.len();
        let avail = len - self.pos;
        if avail == 0 {
            self.done = true;
            return None;
        }
        if avail < 4 {
            self.done = true;
            return Some(Err(Error::IOError));
        }
        let b0 = self.data[self.pos];
        let b1 = self.data[self.pos + 1];
        let b2 = self.data[self.pos + 2];
        let b3 = self.data[self.pos + 3];
        let size = le_u32(b0, b1, b2, b3);
        if size < MIN_BSON_SIZE {
            self.done = true;
            return Some(Err(Error::TooSmallError(size as u8)));
        }
        if size > MAX_BSON_SIZE {
            self.done = true;
            return Some(Err(Error::TooLargeError(size)));
        }
        if size as usize > avail {
            self.done = true;
            return Some(Err(Error::IOError));
        }
        let start = self.pos;
        let end = start + size as usize;
        let mut raw_data: Vec<u8> = Vec::new();
        for i in start..end
            invariant
                start <= i <= end,
                end <= self.data@.len(),
                self.data@ == old(self).stream(),
                raw_data@ == self.data@.subrange(start as int, i as int),
        {
            raw_data.push(self.data[i]);
            proof {
                assert(self.data@.subrange(start as int, i + 1 as int) =~= self.data@.subrange(
                    start as int,
                    i as int,
                ).push(self.data@[i as int]));
            }
        }
        self.pos = end;
        proof {
            assert(raw_data@ =~= old(self).remaining().subrange(0, size as int));
        }
        Some(Ok(BsonBytes { size, bytes: raw_data }))
    }
}

/// Wraps a byte stream for record-by-record reading from its start.
pub fn source(data: Vec<u8>) -> (s: Source)
    ensures
        s.wf(),
        s.stream() == data@,
        s.cursor() == 0,
        !s.stopped(),
{
    Source { data, pos: 0, done: false }
}

} // verus!
