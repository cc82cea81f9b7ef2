//! A forward-only reader over an owned byte buffer.
use vstd::prelude::*;
use vstd::slice::{slice_subrange, slice_to_vec};
use vstd::utf8::{decode_utf8, valid_utf8};

use crate::format::{
    be_value, byte_span, lemma_be_value_bound, parse_skip, parse_string, parse_u16, parse_u64,
    parse_u8, DecodeError, Parsed, TrackField,
};

verus! {

/// What a reader that returned `r` promised, given the spec reading `p` of
/// the bytes it started on and the bytes `after` it left unread.
pub open spec fn read_as<T>(r: Result<T, DecodeError>, p: Parsed<T>, after: Seq<u8>) -> bool {
    match p {
        Ok((v, rest)) => r == Ok::<T, DecodeError>(v) && after == rest,
        Err(e) => r == Err::<T, DecodeError>(e),
    }
}

/// Relies on `String::from_utf8`: it succeeds exactly when the bytes are
/// UTF-8, and the string then holds the characters they encode.
#[verifier::external_body]
fn utf8_string(bytes: Vec<u8>) -> (r: Option<String>)
    ensures
        r is Some <==> valid_utf8(bytes@),
        r matches Some(s) ==> s@ == decode_utf8(bytes@),
{
    String::from_utf8(bytes).ok()
}

/// A read position in a byte buffer.
pub struct ByteCursor {
    data: Vec<u8>,
    pos: usize,
}

impl View for ByteCursor {
    type V = Seq<u8>;

    /// The bytes not read yet.
    closed spec fn view(&self) -> Seq<u8> {
        self.data@.skip(self.pos as int)
    }
}

impl ByteCursor {
    pub closed spec fn wf(&self) -> bool {
        self.pos <= self.data@.len()
    }

    /// A cursor at the start of `data`.
    pub fn new(data: Vec<u8>) -> (r: ByteCursor)
        ensures
            r.wf(),
            r@ == data@,
    {
        let r = ByteCursor { data, pos: 0 };
        assert(r@ =~= r.data@);
        r
    }

    /// How many bytes remain.
    pub fn remaining(&self) -> (n: usize)
        requires
            self.wf(),
        ensures
            n == self@.len(),
    {
        self.data.len() - self.pos
    }

    proof fn lemma_advance(&self, n: int)
        requires
            self.wf(),
            0 <= n <= self@.len(),
        ensures
            self.data@.skip(self.pos + n) == self@.skip(n),
    {
        assert(self.data@.skip(self.pos + n) =~= self@.skip(n));
    }

    /// Reads one byte.
    pub fn read_u8(&mut self, field: TrackField) -> (r: Result<u8, DecodeError>)
        requires
            old(self).wf(),
        ensures
            final(self).wf(),
            read_as(r, parse_u8(old(self)@, field), final(self)@),
    {
        if self.data.len() - self.pos < 1 {
            return Err(DecodeError::UnexpectedEof(field));
        }
        let v = self.data[self.pos];
        proof {
            self.lemma_advance(1);
        }
        self.pos = self.pos + 1;
        Ok(v)
    }

    /// Reads a big-endian 16-bit integer.
    pub fn read_u16_be(&mut self, field: TrackField) -> (r: Result<u16, DecodeError>)
        requires
            old(self).wf(),
        ensures
            final(self).wf(),
            read_as(r, parse_u16(old(self)@, field), final(self)@),
    {
        if self.data.len() - self.pos < 2 {
            return Err(DecodeError::UnexpectedEof(field));
        }
        let hi = self.data[self.pos];
        let lo = self.data[self.pos + 1];
        let v: u16 = (hi as u16) * 256 + lo as u16;
        proof {
            let s = self@.take(2);
            assert(s.drop_last().drop_last() =~= Seq::<u8>::empty());
            assert(s.drop_last() =~= seq![hi]);
            assert(be_value(s.drop_last().drop_last()) == 0);
            assert(be_value(s.drop_last()) == hi as nat);
            assert(be_value(s) == hi as nat * 256 + lo as nat);
            self.lemma_advance(2);
        }
        self.pos = self.pos + 2;
        Ok(v)
    }

    /// Reads a big-endian 64-bit integer.
    pub fn read_u64_be(&mut self, field: TrackField) -> (r: Result<u64, DecodeError>)
        requires
            old(self).wf(),
        ensures
            final(self).wf(),
            read_as(r, parse_u64(old(self)@, field), final(self)@),
    {
        if self.data.len() - self.pos < 8 {
            return Err(DecodeError::UnexpectedEof(field));
        }
        let ghost s = self@.take(8);
        let end: usize = self.pos + 8;
        let mut v: u64 = 0;
        let mut i: usize = 0;
        while i < 8
            invariant
                self.wf(),
                self.data@.len() - self.pos >= 8,
                end == self.pos + 8,
                s == self@.take(8),
                0 <= i <= 8,
                v == be_value(s.take(i as int)),
            decreases 8 - i,
        {
            let b = self.data[self.pos + i];
            proof {
                let t = s.take(i as int + 1);
                assert(t.drop_last() =~= s.take(i as int));
                assert(t.last() == b);
                lemma_be_value_bound(s.take(i as int));
                reveal_with_fuel(byte_span, 8);
                assert(byte_span(i as nat) <= byte_span(7));
                assert(v * 256 + b < 0x1_0000_0000_0000_0000) by (nonlinear_arith)
                    requires
                        v < byte_span(7),
                        byte_span(7) == 0x100_0000_0000_0000,
                        b < 256,
                ;
            }
            v = v * 256 + b as u64;
            i = i + 1;
        }
        proof {
            assert(s.take(8) =~= s);
            self.lemma_advance(8);
        }
        self.pos = end;
        Ok(v)
    }

    /// Moves past `n` bytes; fails, without moving, when fewer remain.
    pub fn skip(&mut self, n: usize, field: TrackField) -> (r: Result<(), DecodeError>)
        requires
            old(self).wf(),
        ensures
            final(self).wf(),
            read_as(r, parse_skip(old(self)@, n as nat, field), final(self)@),
            r is Err ==> final(self)@ == old(self)@,
    {
        if self.data.len() - self.pos < n {
            return Err(DecodeError::UnexpectedEof(field));
        }
        proof {
            self.lemma_advance(n as int);
        }
        self.pos = self.pos + n;
        Ok(())
    }

    /// Reads a string: a big-endian 16-bit byte count, then that many bytes
    /// of UTF-8.
    pub fn read_string(&mut self, field: TrackField) -> (r: Result<String, DecodeError>)
        requires
            old(self).wf(),
        ensures
            final(self).wf(),
            match parse_string(old(self)@, field) {
                Ok((s, rest)) => r matches Ok(t) && t@ == s && final(self)@ == rest,
                Err(e) => r == Err::<String, DecodeError>(e),
            },
    {
        let n = self.read_u16_be(field)?;
        let ghost body = self@;
        if self.data.len() - self.pos < n as usize {
            return Err(DecodeError::UnexpectedEof(field));
        }
        let end = self.pos + n as usize;
        let bytes = slice_to_vec(slice_subrange(self.data.as_slice(), self.pos, end));
        proof {
            assert(bytes@ =~= body.take(n as int));
            self.lemma_advance(n as int);
        }
        self.pos = end;
        match utf8_string(bytes) {
            Some(s) => Ok(s),
            None => Err(DecodeError::InvalidUtf8(field)),
        }
    }
}

} // verus!
