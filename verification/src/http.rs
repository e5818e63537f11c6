//! The decision kernel of the HTTP client demo.
//!
//! The client reads a response in chunks and prints it as text.  A chunk
//! may end in the middle of a multi-byte UTF-8 character; the assembler
//! here hands out everything received so far that ends on a character
//! boundary and carries the incomplete tail into the next chunk, so no
//! byte is lost, duplicated or reordered.  Reading the response stays with
//! the caller.

use vstd::prelude::*;

verus! {

/// The length of the longest prefix of `bytes` that is valid UTF-8,
/// as `core::str::from_utf8` determines it.
pub uninterp spec fn utf8_prefix_len(bytes: Seq<u8>) -> int;

/// Relies on core::str::from_utf8: it accepts exactly the valid UTF-8
/// slices, and on failure `Utf8Error::valid_up_to` gives the length of the
/// longest valid prefix, never past the end.  Either way the boundary is a
/// function of the bytes alone.
#[verifier::external_body]
fn utf8_boundary(bytes: &[u8]) -> (n: usize)
    ensures
        n as int == utf8_prefix_len(bytes@),
        n <= bytes@.len(),
{
    match core::str::from_utf8(bytes) {
        Ok(_) => bytes.len(),
        Err(e) => e.valid_up_to(),
    }
}

/// Whether `status` is in the success class of response statuses (2xx);
/// any other class fails the request.
pub fn status_is_success(status: u16) -> (r: bool)
    ensures
        r == (200 <= status <= 299),
{
    200 <= status && status <= 299
}

/// Carries the bytes of an incomplete UTF-8 character between chunks.
pub struct ChunkAssembler {
    pending: Vec<u8>,
}

impl View for ChunkAssembler {
    type V = Seq<u8>;

    closed spec fn view(&self) -> Seq<u8> {
        self.pending@
    }
}

impl ChunkAssembler {
    /// An assembler with nothing pending.
    pub fn new() -> (a: ChunkAssembler)
        ensures
            a@.len() == 0,
    {
        ChunkAssembler { pending: Vec::new() }
    }

    /// The bytes still waiting for the rest of their character.
    pub fn pending(&self) -> (p: &Vec<u8>)
        ensures
            p@ == self@,
    {
        &self.pending
    }

    /// Absorbs one received chunk.  Everything received so far up to the
    /// last UTF-8 character boundary comes out, ready to print; the bytes
    /// after it stay pending.  Nothing is lost or reordered: the output
    /// followed by the new pending tail is exactly the old pending tail
    /// followed by the chunk.
    pub fn absorb(&mut self, chunk: &Vec<u8>) -> (out: Vec<u8>)
        ensures
            out@ + final(self)@ == old(self)@ + chunk@,
            out@.len() == utf8_prefix_len(old(self)@ + chunk@),
    {
        let ghost whole: Seq<u8> = old(self)@ + chunk@;
        let mut i: usize = 0;
        while i < chunk.len()
            invariant
                i <= chunk@.len(),
                self@ == old(self)@ + chunk@.take(i as int),
            decreases chunk@.len() - i,
        {
            self.pending.push(chunk[i]);
            i = i + 1;
        }
        proof {
            assert(chunk@.take(chunk@.len() as int) =~= chunk@);
            assert(self@ =~= whole);
        }
        let n: usize = utf8_boundary(self.pending.as_slice());
        let mut out: Vec<u8> = Vec::new();
        let mut j: usize = 0;
        while j < n
            invariant
                j <= n <= self@.len(),
                self@ == whole,
                out@ == self@.take(j as int),
            decreases n - j,
        {
            out.push(self.pending[j]);
            j = j + 1;
        }
        let mut rest: Vec<u8> = Vec::new();
        let mut k: usize = n;
        while k < self.pending.len()
            invariant
                n <= k <= self@.len(),
                self@ == whole,
                rest@ == self@.subrange(n as int, k as int),
            decreases self@.len() - k,
        {
            rest.push(self.pending[k]);
            k = k + 1;
        }
        proof {
            assert(out@ + rest@ =~= whole);
        }
        self.pending = rest;
        out
    }
}

} // verus!
