//! Synthesizer stage: batches reply text into bounded synthesis requests.
use crate::buffer::Buffer;
use crate::message::{decode_all, Chunk, InvalidText};
use vstd::prelude::*;
use vstd::utf8::{decode_utf8, valid_utf8};

verus! {

/// The blocks of `cap` bytes that are split off the front of `s`, in order,
/// while more than `cap` bytes remain: a full block leaves only when a byte
/// follows it.
pub open spec fn full_blocks(s: Seq<u8>, cap: nat) -> Seq<Seq<u8>>
    decreases s.len(),
{
    if cap == 0 || s.len() <= cap {
        Seq::empty()
    } else {
        seq![s.subrange(0, cap as int)] + full_blocks(s.subrange(cap as int, s.len() as int), cap)
    }
}

/// What is left of `s` after those blocks: at most `cap` bytes.
pub open spec fn leftover(s: Seq<u8>, cap: nat) -> Seq<u8>
    decreases s.len(),
{
    if cap == 0 || s.len() <= cap {
        s
    } else {
        leftover(s.subrange(cap as int, s.len() as int), cap)
    }
}

/// The synthesis requests that one chunk causes, given the bytes pending
/// before it: every block that fills the buffer on a fragment, and whatever
/// is pending at the end of a message (nothing, if nothing is).
pub open spec fn requests_for(pending: Seq<u8>, cap: nat, chunk: Chunk) -> Seq<Seq<u8>> {
    match chunk {
        Chunk::Fragment(d) => full_blocks(pending + d@, cap),
        Chunk::EndOfMessage => if pending.len() == 0 {
            Seq::empty()
        } else {
            seq![pending]
        },
    }
}

/// The bytes pending after one chunk.
pub open spec fn pending_after(pending: Seq<u8>, cap: nat, chunk: Chunk) -> Seq<u8> {
    match chunk {
        Chunk::Fragment(d) => leftover(pending + d@, cap),
        Chunk::EndOfMessage => Seq::empty(),
    }
}

pub struct Synthesizer {
    buf: Buffer,
}

impl Synthesizer {
    /// The reply bytes taken in but not yet sent for synthesis.
    pub closed spec fn pending(&self) -> Seq<u8> {
        self.buf.contents()
    }

    /// The size of one synthesis batch.
    pub closed spec fn capacity(&self) -> nat {
        self.buf.capacity()
    }

    /// A non-empty batch size, and never more than a batch pending.
    pub closed spec fn wf(&self) -> bool {
        &&& self.buf.wf()
        &&& self.buf.capacity() > 0
        &&& self.buf.contents().len() <= self.buf.capacity()
    }

    pub fn new(buf_size: usize) -> (s: Self)
        requires
            0 < buf_size <= isize::MAX,
        ensures
            s.wf(),
            s.capacity() == buf_size,
            s.pending() == Seq::<u8>::empty(),
    {
        Synthesizer { buf: Buffer::new(buf_size) }
    }

    /// Takes one chunk of a reply and returns the byte batches to synthesize,
    /// in order. A fragment that overflows the buffer flushes it and carries
    /// the rest of the fragment into the emptied buffer, as often as needed;
    /// the end of a message flushes what is pending. No byte is lost: the
    /// batches followed by what stays pending are the bytes pending before
    /// followed by the fragment.
    pub fn take(&mut self, chunk: &Chunk) -> (r: Vec<Vec<u8>>)
        requires
            old(self).wf(),
        ensures
            final(self).wf(),
            final(self).capacity() == old(self).capacity(),
            r@.map_values(|v: Vec<u8>| v@) == requests_for(
                old(self).pending(),
                old(self).capacity(),
                *chunk,
            ),
            final(self).pending() == pending_after(
                old(self).pending(),
                old(self).capacity(),
                *chunk,
            ),
    {
        let mut out: Vec<Vec<u8>> = Vec::new();
        match chunk {
            Chunk::EndOfMessage => {
                let b = crate::buffer::bytes_into_vec(self.buf.as_bytes());
                if b.len() > 0 {
                    out.push(b);
                }
                self.buf.reset();
                assert(out@.map_values(|v: Vec<u8>| v@) =~= requests_for(
                    old(self).pending(),
                    old(self).capacity(),
                    *chunk,
                ));
            },
            Chunk::Fragment(data) => {
                let ghost cap = self.capacity();
                let ghost whole = old(self).pending() + data@;
                let mut start: usize = 0;
                assert(data@.subrange(0, data@.len() as int) =~= data@);
                assert(out@.map_values(|v: Vec<u8>| v@) + full_blocks(whole, cap) =~= full_blocks(
                    whole,
                    cap,
                ));
                loop
                    invariant
                        self.wf(),
                        self.capacity() == cap,
                        cap == old(self).capacity(),
                        whole == old(self).pending() + data@,
                        start <= data@.len(),
                        out@.map_values(|v: Vec<u8>| v@) + full_blocks(
                            self.pending() + data@.subrange(start as int, data@.len() as int),
                            cap,
                        ) == full_blocks(whole, cap),
                        leftover(
                            self.pending() + data@.subrange(start as int, data@.len() as int),
                            cap,
                        ) == leftover(whole, cap),
                    ensures
                        start == data@.len(),
                    decreases data@.len() - start, self.pending().len(),
                {
                    let ghost p = self.pending();
                    let ghost rest = data@.subrange(start as int, data@.len() as int);
                    let ghost produced = out@.map_values(|v: Vec<u8>| v@);
                    match self.buf.write(&data[start..data.len()]) {
                        Ok(_) => {
                            assert(self.pending() == p + rest);
                            assert(full_blocks(p + rest, cap) == Seq::<Seq<u8>>::empty());
                            assert(produced + Seq::<Seq<u8>>::empty() =~= produced);
                            start = data.len();
                            assert(data@.subrange(start as int, data@.len() as int)
                                =~= Seq::<u8>::empty());
                            assert(p + rest + Seq::<u8>::empty() =~= p + rest);
                            break;
                        },
                        Err(e) => {
                            let n = e.bytes_written;
                            let block = crate::buffer::bytes_into_vec(self.buf.as_bytes());
                            let ghost pr = p + rest;
                            assert(pr.len() >= cap);
                            assert(block@ =~= pr.subrange(0, cap as int));
                            assert(pr.subrange(cap as int, pr.len() as int) =~= data@.subrange(
                                start + n,
                                data@.len() as int,
                            ));
                            out.push(block);
                            self.buf.reset();
                            assert(out@.map_values(|v: Vec<u8>| v@) =~= produced.push(block@));
                            assert(full_blocks(pr, cap) == seq![block@] + full_blocks(
                                data@.subrange(start + n, data@.len() as int),
                                cap,
                            ));
                            assert(Seq::<u8>::empty() + data@.subrange(start + n, data@.len() as int)
                                =~= data@.subrange(start + n, data@.len() as int));
                            assert(produced.push(block@) + full_blocks(
                                data@.subrange(start + n, data@.len() as int),
                                cap,
                            ) =~= produced + (seq![block@] + full_blocks(
                                data@.subrange(start + n, data@.len() as int),
                                cap,
                            )));
                            start = start + n;
                        },
                    }
                }
                assert(self.pending() + data@.subrange(start as int, data@.len() as int)
                    =~= self.pending());
                assert(full_blocks(self.pending(), cap) == Seq::<Seq<u8>>::empty());
                assert(out@.map_values(|v: Vec<u8>| v@) + Seq::<Seq<u8>>::empty() =~= out@.map_values(
                    |v: Vec<u8>| v@,
                ));
            },
        }
        out
    }

    /// Takes one chunk and returns the text of each batch to synthesize;
    /// fails, after the same change of state, if a batch is not UTF-8.
    pub fn on_chunk(&mut self, chunk: &Chunk) -> (r: Result<Vec<String>, InvalidText>)
        requires
            old(self).wf(),
        ensures
            final(self).wf(),
            final(self).capacity() == old(self).capacity(),
            final(self).pending() == pending_after(
                old(self).pending(),
                old(self).capacity(),
                *chunk,
            ),
            ({
                let reqs = requests_for(old(self).pending(), old(self).capacity(), *chunk);
                &&& r is Ok <==> forall|i: int| 0 <= i < reqs.len() ==> valid_utf8(#[trigger] reqs[i])
                &&& r matches Ok(texts) ==> texts@.map_values(|t: String| t@) == reqs.map_values(
                    |b: Seq<u8>| decode_utf8(b),
                )
            }),
    {
        let batches = self.take(chunk);
        let ghost reqs = requests_for(old(self).pending(), old(self).capacity(), *chunk);
        assert forall|i: int| 0 <= i < reqs.len() implies reqs[i] == #[trigger] batches@[i]@ by {
            assert(batches@.map_values(|v: Vec<u8>| v@)[i] == batches@[i]@);
        }
        let r = decode_all(&batches);
        proof {
            if r is Ok {
                let texts = r->Ok_0;
                assert(texts@.map_values(|t: String| t@) =~= reqs.map_values(
                    |b: Seq<u8>| decode_utf8(b),
                ));
            }
        }
        r
    }
}

} // verus!
