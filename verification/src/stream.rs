//! An in-memory byte stream: one direction of a connection.

use vstd::prelude::*;
use std::collections::VecDeque;

verus! {

/// Bytes in transit in one direction. Writers append at the back, readers
/// take from the front, so bytes leave in the order in which they came.
///
/// The view of a stream is the sequence of bytes written and not yet read.
pub struct ByteStream {
    pending: VecDeque<u8>,
}

impl View for ByteStream {
    type V = Seq<u8>;

    closed spec fn view(&self) -> Seq<u8> {
        self.pending@
    }
}

impl ByteStream {
    /// A stream with nothing in it.
    pub fn new() -> (stream: ByteStream)
        ensures
            stream@ == Seq::<u8>::empty(),
    {
        ByteStream { pending: VecDeque::new() }
    }

    /// A stream that holds `bytes`, the first of them next to be read.
    pub fn from_bytes(bytes: &[u8]) -> (stream: ByteStream)
        ensures
            stream@ == bytes@,
    {
        let mut stream = ByteStream::new();
        stream.write_all(bytes);
        assert(Seq::<u8>::empty() + bytes@ =~= bytes@);
        stream
    }

    /// Number of bytes that can be read.
    pub fn available(&self) -> (n: usize)
        ensures
            n == self@.len(),
    {
        self.pending.len()
    }

    /// A copy of the bytes that can be read, the next one first. The stream
    /// keeps them.
    pub fn to_vec(&self) -> (bytes: Vec<u8>)
        ensures
            bytes@ == self@,
    {
        let mut bytes: Vec<u8> = Vec::new();
        let mut i: usize = 0;
        while i < self.pending.len()
            invariant
                i <= self@.len(),
                bytes@ == self@.take(i as int),
            decreases self@.len() - i,
        {
            bytes.push(self.pending[i]);
            proof {
                assert(bytes@ =~= self@.take(i + 1));
            }
            i = i + 1;
        }
        proof {
            assert(self@.take(self@.len() as int) =~= self@);
        }
        bytes
    }

    /// Appends `bytes` behind what the stream holds.
    pub fn write_all(&mut self, bytes: &[u8])
        ensures
            final(self)@ == old(self)@ + bytes@,
    {
        let mut i: usize = 0;
        while i < bytes.len()
            invariant
                i <= bytes@.len(),
                self@ == old(self)@ + bytes@.take(i as int),
            decreases bytes@.len() - i,
        {
            self.pending.push_back(bytes[i]);
            proof {
                assert(bytes@.take(i + 1) =~= bytes@.take(i as int).push(bytes@[i as int]));
                assert(self@ =~= old(self)@ + bytes@.take(i + 1));
            }
            i = i + 1;
        }
        proof {
            assert(bytes@.take(bytes@.len() as int) =~= bytes@);
        }
    }

    /// Takes the next `n` bytes. When fewer than `n` are there, the stream is
    /// drained and nothing is returned.
    pub fn read_exact(&mut self, n: usize) -> (bytes: Option<Vec<u8>>)
        ensures
            old(self)@.len() >= n ==> bytes.is_some() && bytes.unwrap()@ == old(self)@.take(
                n as int,
            ) && final(self)@ == old(self)@.skip(n as int),
            old(self)@.len() < n ==> bytes.is_none() && final(self)@ == Seq::<u8>::empty(),
    {
        if self.pending.len() < n {
            self.pending.clear();
            return None;
        }
        let mut out: Vec<u8> = Vec::new();
        let mut i: usize = 0;
        while i < n
            invariant
                i <= n <= old(self)@.len(),
                out@ == old(self)@.take(i as int),
                self@ == old(self)@.skip(i as int),
            decreases n - i,
        {
            let next: Option<u8> = self.pending.pop_front();
            match next {
                Some(byte) => {
                    out.push(byte);
                },
                None => {
                    assert(false);
                },
            }
            proof {
                assert(out@ =~= old(self)@.take(i + 1));
                assert(self@ =~= old(self)@.skip(i + 1));
            }
            i = i + 1;
        }
        Some(out)
    }
}

} // verus!
