//! Bounded byte accumulator that reports how much of a write it absorbed.
use bytes::{Bytes, BytesMut};
use vstd::prelude::*;
use vstd::string::StrSliceExecFns;

verus! {

#[verifier::external_type_specification]
#[verifier::external_body]
pub struct ExBytesMut(BytesMut);

#[verifier::external_type_specification]
#[verifier::external_body]
pub struct ExBytes(Bytes);

/// The bytes that a `BytesMut` holds, in order.
pub uninterp spec fn bytes_mut_contents(b: BytesMut) -> Seq<u8>;

/// The bytes that a `Bytes` holds, in order.
pub uninterp spec fn bytes_contents(b: Bytes) -> Seq<u8>;

/// Relies on `BytesMut::with_capacity`: the new buffer is empty. It allocates
/// through `Vec::with_capacity`, which panics past `isize::MAX` bytes.
pub assume_specification[ BytesMut::with_capacity ](capacity: usize) -> (r: BytesMut)
    requires
        capacity <= isize::MAX,
    ensures
        bytes_mut_contents(r) == Seq::<u8>::empty(),
;

/// Relies on `BytesMut::new`: the new buffer is empty.
pub assume_specification[ BytesMut::new ]() -> (r: BytesMut)
    ensures
        bytes_mut_contents(r) == Seq::<u8>::empty(),
;

/// Relies on `BytesMut::len`: the number of bytes held.
pub assume_specification[ BytesMut::len ](b: &BytesMut) -> (r: usize)
    ensures
        r == bytes_mut_contents(*b).len(),
;

/// Relies on `BytesMut::extend_from_slice` (what `BufMut::put_slice` does for
/// `BytesMut`): the slice is appended. Growing reserves through `Vec`, which
/// panics past `isize::MAX` bytes.
pub assume_specification[ BytesMut::extend_from_slice ](b: &mut BytesMut, extend: &[u8])
    requires
        bytes_mut_contents(*old(b)).len() + extend@.len() <= isize::MAX,
    ensures
        bytes_mut_contents(*final(b)) == bytes_mut_contents(*old(b)) + extend@,
;

/// Relies on `BytesMut::split_to`: the first `at` bytes are split off and
/// returned, and the rest stay. It panics if `at` exceeds the length.
pub assume_specification[ BytesMut::split_to ](b: &mut BytesMut, at: usize) -> (r: BytesMut)
    requires
        at <= bytes_mut_contents(*old(b)).len(),
    ensures
        bytes_mut_contents(r) == bytes_mut_contents(*old(b)).subrange(0, at as int),
        bytes_mut_contents(*final(b)) == bytes_mut_contents(*old(b)).subrange(
            at as int,
            bytes_mut_contents(*old(b)).len() as int,
        ),
;

/// Relies on `BytesMut::clear`: all bytes are removed.
pub assume_specification[ BytesMut::clear ](b: &mut BytesMut)
    ensures
        bytes_mut_contents(*final(b)) == Seq::<u8>::empty(),
;

/// Relies on `BytesMut`'s `Clone`: a copy of the same bytes.
pub assume_specification[ <BytesMut as Clone>::clone ](b: &BytesMut) -> (r: BytesMut)
    ensures
        bytes_mut_contents(r) == bytes_mut_contents(*b),
;

/// Relies on `BytesMut::freeze`: the same bytes, made immutable.
pub assume_specification[ BytesMut::freeze ](b: BytesMut) -> (r: Bytes)
    ensures
        bytes_contents(r) == bytes_mut_contents(b),
;

/// Relies on `From<Bytes> for Vec<u8>`: the same bytes in a `Vec`.
#[verifier::external_body]
pub(crate) fn bytes_into_vec(b: Bytes) -> (r: Vec<u8>)
    ensures
        r@ == bytes_contents(b),
{
    Vec::from(b)
}

/// How many of `data_len` bytes fit into a buffer that holds `len` of `cap`.
pub open spec fn fitting(len: nat, cap: nat, data_len: nat) -> nat {
    if cap < len {
        0
    } else if data_len <= cap - len {
        data_len
    } else {
        (cap - len) as nat
    }
}

/// A write of `size` bytes into a buffer that holds `len` of `cap` bytes,
/// when fewer than `size` bytes are free, takes exactly the free room and
/// leaves the buffer full; a write that fits takes all of its bytes.
pub proof fn lemma_overflow_takes_free_room(len: nat, cap: nat, size: nat)
    requires
        len <= cap,
    ensures
        size > cap - len ==> fitting(len, cap, size) == cap - len && len + fitting(len, cap, size) == cap,
        size <= cap - len ==> fitting(len, cap, size) == size,
        len + fitting(len, cap, size) <= cap,
{
}

/// A write that filled the buffer: `bytes_written` of the offered bytes went in.
#[derive(Debug)]
pub struct BufferFullError {
    pub bytes_written: usize,
}

/// The decimal digit for `d` (below ten).
pub open spec fn digit_char(d: nat) -> char {
    seq!['0', '1', '2', '3', '4', '5', '6', '7', '8', '9'][d as int]
}

/// The decimal digits of `n`, most significant first.
pub open spec fn decimal(n: nat) -> Seq<char>
    decreases n,
{
    if n < 10 {
        seq![digit_char(n)]
    } else {
        decimal(n / 10).push(digit_char(n % 10))
    }
}

/// Appends the decimal digits of `n` to `s`.
fn append_decimal(s: &mut String, n: usize)
    ensures
        final(s)@ == old(s)@ + decimal(n as nat),
    decreases n,
{
    if n >= 10 {
        append_decimal(s, n / 10);
    }
    let digits = "0123456789";
    proof {
        reveal_strlit("0123456789");
    }
    let k = n % 10;
    s.append(digits.substring_char(k, k + 1));
    assert(digits@.subrange(k as int, k + 1) =~= seq![digit_char(k as nat)]);
}

impl BufferFullError {
    /// The error's text: "buffer is full, N bytes written".
    pub fn to_string(&self) -> (r: String)
        ensures
            r@ == "buffer is full, "@ + decimal(self.bytes_written as nat) + " bytes written"@,
    {
        let mut s = String::from_str("buffer is full, ");
        append_decimal(&mut s, self.bytes_written);
        s.append(" bytes written");
        s
    }
}

pub struct Buffer {
    buffer: BytesMut,
    max_size: usize,
}

impl Buffer {
    /// The bytes held, in the order written.
    pub closed spec fn contents(&self) -> Seq<u8> {
        bytes_mut_contents(self.buffer)
    }

    /// The fixed capacity in bytes.
    pub closed spec fn capacity(&self) -> nat {
        self.max_size as nat
    }

    /// The contents never exceed the capacity.
    pub closed spec fn wf(&self) -> bool {
        &&& self.contents().len() <= self.max_size
        &&& self.max_size <= isize::MAX
    }

    pub fn new(max_size: usize) -> (b: Self)
        requires
            max_size <= isize::MAX,
        ensures
            b.wf(),
            b.capacity() == max_size,
            b.contents() == Seq::<u8>::empty(),
    {
        Buffer { buffer: BytesMut::with_capacity(max_size), max_size }
    }

    /// Appends as many bytes of `data` as fit. The result is an error exactly
    /// when `data` does not fit into the free room; the buffer is then full.
    /// Either way it carries the number of bytes taken, and the caller keeps
    /// the rest.
    pub fn write(&mut self, data: &[u8]) -> (r: Result<usize, BufferFullError>)
        requires
            old(self).wf(),
        ensures
            final(self).wf(),
            final(self).capacity() == old(self).capacity(),
            final(self).contents() == old(self).contents() + data@.subrange(
                0,
                fitting(old(self).contents().len(), old(self).capacity(), data@.len()) as int,
            ),
            r is Err <==> data@.len() > old(self).capacity() - old(self).contents().len(),
            r is Err ==> final(self).contents().len() == final(self).capacity(),
            match r {
                Ok(n) => n == fitting(old(self).contents().len(), old(self).capacity(), data@.len()),
                Err(e) => e.bytes_written == fitting(
                    old(self).contents().len(),
                    old(self).capacity(),
                    data@.len(),
                ),
            },
    {
        let available = self.max_size - self.buffer.len();
        if data.len() > available {
            self.buffer.extend_from_slice(&data[0..available]);
            return Err(BufferFullError { bytes_written: available });
        }
        self.buffer.extend_from_slice(data);
        Ok(data.len())
    }

    /// Empties the buffer; the capacity stays.
    pub fn reset(&mut self)
        requires
            old(self).wf(),
        ensures
            final(self).wf(),
            final(self).capacity() == old(self).capacity(),
            final(self).contents() == Seq::<u8>::empty(),
    {
        self.buffer.clear();
    }

    /// A copy of the bytes held.
    pub fn as_bytes(&self) -> (r: Bytes)
        ensures
            bytes_contents(r) == self.contents(),
    {
        self.buffer.clone().freeze()
    }
}

} // verus!
