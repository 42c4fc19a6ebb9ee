//! Windows over borrowed bytes.
//!
//! `&[u8]` reads from the front of the bytes it refers to, and `&mut [u8]`
//! writes over the front of the bytes it refers to. Either way the window is
//! set to what lies behind the bytes that were moved, so it only ever shrinks
//! from the front, and an empty window is the end of the stream.
use vstd::prelude::*;
use vstd::math::min;
use vstd::string::StringExecFns;
use vstd::utf8::{decode_utf8, decode_utf8_encode_utf8, valid_utf8};
use crate::bytes::{copy_front, delimited_len, ends_scan, find_byte, lemma_delimited_len, NEWLINE};
use crate::error::Error;
use crate::text::as_text;
use crate::traits::{BufRead, Initializer, Read, Write};

verus! {

impl<'a> Read for &'a [u8] {
    /// Moves as many bytes as the buffer and the window both have, from the
    /// front of the window to the front of the buffer.
    open spec fn read_ensures(
        &self,
        post: &Self,
        before: Seq<u8>,
        after: Seq<u8>,
        r: Result<usize, Error>,
    ) -> bool {
        let amt = min(before.len() as int, self@.len() as int);
        &&& r == Ok::<usize, Error>(amt as usize)
        &&& post@ =~= self@.skip(amt)
        &&& after =~= self@.take(amt) + before.skip(amt)
    }

    /// Fills the buffer from the front of the window, or, where the window
    /// holds too little, fails and leaves window and buffer alone.
    open spec fn read_exact_ensures(
        &self,
        post: &Self,
        before: Seq<u8>,
        after: Seq<u8>,
        r: Result<(), Error>,
    ) -> bool {
        if before.len() > self@.len() {
            &&& r == Err::<(), Error>(Error::unexpected_eof())
            &&& post@ =~= self@
            &&& after =~= before
        } else {
            &&& r == Ok::<(), Error>(())
            &&& post@ =~= self@.skip(before.len() as int)
            &&& after =~= self@.take(before.len() as int)
        }
    }

    /// Appends the whole window and empties it.
    open spec fn read_to_end_ensures(
        &self,
        post: &Self,
        before: Seq<u8>,
        after: Seq<u8>,
        r: Result<usize, Error>,
    ) -> bool {
        &&& r == Ok::<usize, Error>(self@.len() as usize)
        &&& post@ =~= Seq::<u8>::empty()
        &&& after =~= before + self@
    }

    /// Empties the window, and appends what it held if that is text.
    open spec fn read_to_string_ensures(
        &self,
        post: &Self,
        before: Seq<char>,
        after: Seq<char>,
        r: Result<usize, Error>,
    ) -> bool {
        &&& post@ =~= Seq::<u8>::empty()
        &&& if valid_utf8(self@) {
            &&& r == Ok::<usize, Error>(self@.len() as usize)
            &&& after =~= before + decode_utf8(self@)
        } else {
            &&& r == Err::<usize, Error>(Error::invalid_text())
            &&& after =~= before
        }
    }

    /// A window never looks at the buffer it fills.
    open spec fn needs_zeroed_buffer(&self) -> bool {
        false
    }

    fn initializer(&self) -> (i: Initializer)
        ensures
            !i.should_initialize(),
    {
        Initializer::nop()
    }

    fn read(&mut self, buf: &mut [u8]) -> (r: Result<usize, Error>)
        ensures
            r == Ok::<usize, Error>(min(old(buf)@.len() as int, old(self)@.len() as int) as usize),
            final(self)@ == old(self)@.skip(r.unwrap() as int),
            final(buf)@ == old(self)@.take(r.unwrap() as int) + old(buf)@.skip(r.unwrap() as int),
            old(self)@.len() == 0 ==> r == Ok::<usize, Error>(0) && final(buf)@ == old(buf)@,
    {
        let amt: usize = if buf.len() < self.len() {
            buf.len()
        } else {
            self.len()
        };
        let (a, b) = self.split_at(amt);
        copy_front(buf, a, amt);
        *self = b;
        Ok(amt)
    }

    fn read_exact(&mut self, buf: &mut [u8]) -> (r: Result<(), Error>)
        ensures
            r is Ok <==> old(buf)@.len() <= old(self)@.len(),
            r is Err ==> {
                &&& r == Err::<(), Error>(Error::unexpected_eof())
                &&& final(self)@ == old(self)@
                &&& final(buf)@ == old(buf)@
            },
            r is Ok ==> {
                &&& final(self)@ == old(self)@.skip(old(buf)@.len() as int)
                &&& final(buf)@ == old(self)@.take(old(buf)@.len() as int)
            },
    {
        if buf.len() > self.len() {
            return Err(Error::unexpected_eof());
        }
        let (a, b) = self.split_at(buf.len());
        copy_front(buf, a, buf.len());
        *self = b;
        Ok(())
    }

    fn read_to_end(&mut self, buf: &mut Vec<u8>) -> (r: Result<usize, Error>)
        ensures
            r == Ok::<usize, Error>(old(self)@.len() as usize),
            final(self)@.len() == 0,
            final(buf)@ == old(buf)@ + old(self)@,
    {
        buf.extend_from_slice(*self);
        let len = self.len();
        let (_, b) = self.split_at(len);
        *self = b;
        Ok(len)
    }

    fn read_to_string(&mut self, buf: &mut String) -> (r: Result<usize, Error>)
        ensures
            final(self)@.len() == 0,
            r is Ok <==> valid_utf8(old(self)@),
            r is Ok ==> {
                &&& r == Ok::<usize, Error>(old(self)@.len() as usize)
                &&& final(buf)@ == old(buf)@ + decode_utf8(old(self)@)
            },
            r is Err ==> {
                &&& r == Err::<usize, Error>(Error::invalid_text())
                &&& final(buf)@ == old(buf)@
            },
    {
        let len = self.len();
        let (a, b) = self.split_at(len);
        assert(a@ =~= old(self)@);
        *self = b;
        match as_text(a) {
            Ok(text) => {
                proof {
                    decode_utf8_encode_utf8(a@);
                }
                buf.append(text);
                assert(buf@.skip(old(buf)@.len() as int) =~= text@);
                Ok(len)
            },
            Err(e) => Err(e),
        }
    }
}

impl<'a> BufRead for &'a [u8] {
    /// All of a window is ready.
    open spec fn available(&self) -> Seq<u8> {
        self@
    }

    /// Shows the whole window and leaves it alone.
    open spec fn fill_buf_ensures(&self, post: &Self, r: Result<Seq<u8>, Error>) -> bool {
        &&& post@ =~= self@
        &&& r matches Ok(view)
        &&& view =~= self@
    }

    /// Drops `amt` bytes from the front of the window.
    open spec fn consume_ensures(&self, post: &Self, amt: usize) -> bool {
        post@ =~= self@.skip(amt as int)
    }

    /// Moves the bytes up to and including the first `delim`, or the whole
    /// window if it holds none, to the end of the buffer.
    open spec fn read_until_ensures(
        &self,
        post: &Self,
        delim: u8,
        before: Seq<u8>,
        after: Seq<u8>,
        r: Result<usize, Error>,
    ) -> bool {
        let n = delimited_len(self@, delim);
        &&& r == Ok::<usize, Error>(n as usize)
        &&& post@ =~= self@.skip(n as int)
        &&& after =~= before + self@.take(n as int)
    }

    /// Takes one line from the window, and appends it if it is text.
    open spec fn read_line_ensures(
        &self,
        post: &Self,
        before: Seq<char>,
        after: Seq<char>,
        r: Result<usize, Error>,
    ) -> bool {
        let n = delimited_len(self@, NEWLINE);
        let line = self@.take(n as int);
        &&& post@ =~= self@.skip(n as int)
        &&& if valid_utf8(line) {
            &&& r == Ok::<usize, Error>(n as usize)
            &&& after =~= before + decode_utf8(line)
        } else {
            &&& r == Err::<usize, Error>(Error::invalid_text())
            &&& after =~= before
        }
    }

    fn fill_buf(&mut self) -> (r: Result<&[u8], Error>)
        ensures
            r is Ok,
            r.unwrap()@ == old(self)@,
            final(self)@ == old(self)@,
    {
        Ok(*self)
    }

    fn consume(&mut self, amt: usize)
        ensures
            final(self)@ == old(self)@.skip(amt as int),
    {
        let (_, b) = self.split_at(amt);
        *self = b;
    }

    fn read_until(&mut self, delim: u8, buf: &mut Vec<u8>) -> (r: Result<usize, Error>)
        ensures
            r == Ok::<usize, Error>(delimited_len(old(self)@, delim) as usize),
            ends_scan(old(self)@, delim, r.unwrap() as int),
            final(self)@ == old(self)@.skip(r.unwrap() as int),
            final(buf)@ == old(buf)@ + old(self)@.take(r.unwrap() as int),
    {
        let n: usize = match find_byte(delim, *self) {
            Some(i) => i + 1,
            None => self.len(),
        };
        let (a, b) = self.split_at(n);
        proof {
            lemma_delimited_len(self@, delim, n as int);
        }
        buf.extend_from_slice(a);
        *self = b;
        Ok(n)
    }

    fn read_line(&mut self, buf: &mut String) -> (r: Result<usize, Error>)
        ensures
            final(self)@ == old(self)@.skip(delimited_len(old(self)@, NEWLINE) as int),
            r is Ok <==> valid_utf8(old(self)@.take(delimited_len(old(self)@, NEWLINE) as int)),
            r is Ok ==> {
                &&& r == Ok::<usize, Error>(delimited_len(old(self)@, NEWLINE) as usize)
                &&& final(buf)@ == old(buf)@ + decode_utf8(
                    old(self)@.take(delimited_len(old(self)@, NEWLINE) as int),
                )
            },
            r is Err ==> {
                &&& r == Err::<usize, Error>(Error::invalid_text())
                &&& final(buf)@ == old(buf)@
            },
    {
        let n: usize = match find_byte(NEWLINE, *self) {
            Some(i) => i + 1,
            None => self.len(),
        };
        let (a, b) = self.split_at(n);
        *self = b;
        match as_text(a) {
            Ok(text) => {
                proof {
                    decode_utf8_encode_utf8(a@);
                }
                buf.append(text);
                assert(buf@.skip(old(buf)@.len() as int) =~= text@);
                Ok(n)
            },
            Err(e) => Err(e),
        }
    }
}

impl<'a> Write for &'a mut [u8] {
    /// Takes as many bytes as the data and the window both have, and shrinks
    /// by as many.
    open spec fn write_ensures(&self, post: &Self, data: Seq<u8>, r: Result<usize, Error>) -> bool {
        let amt = min(data.len() as int, self@.len() as int);
        &&& r == Ok::<usize, Error>(amt as usize)
        &&& post@ =~= self@.skip(amt)
    }

    /// Does what `write` does, and fails if that did not take all the data.
    open spec fn write_all_ensures(
        &self,
        post: &Self,
        data: Seq<u8>,
        r: Result<(), Error>,
    ) -> bool {
        let amt = min(data.len() as int, self@.len() as int);
        &&& post@ =~= self@.skip(amt)
        &&& r == if data.len() <= self@.len() {
            Ok::<(), Error>(())
        } else {
            Err::<(), Error>(Error::write_zero())
        }
    }

    /// Does nothing.
    open spec fn flush_ensures(&self, post: &Self, r: Result<(), Error>) -> bool {
        &&& *post == *self
        &&& r == Ok::<(), Error>(())
    }

    /// Besides what `write_ensures` says: the bytes that the window referred
    /// to end up as the bytes taken from `data`, followed by whatever the
    /// window that is left ends up as.
    fn write(&mut self, data: &[u8]) -> (r: Result<usize, Error>)
        ensures
            r == Ok::<usize, Error>(min(data@.len() as int, old(self)@.len() as int) as usize),
            final(self)@ == old(self)@.skip(r.unwrap() as int),
            final(self)@.len() == old(self)@.len() - r.unwrap(),
            final(*old(self))@ == data@.take(r.unwrap() as int) + final(*final(self))@,
    {
        let amt: usize = if data.len() < self.len() {
            data.len()
        } else {
            self.len()
        };
        let mut whole: &'a mut [u8] = &mut [];
        core::mem::swap(self, &mut whole);
        let (a, b) = whole.split_at_mut(amt);
        copy_front(a, data, amt);
        *self = b;
        Ok(amt)
    }

    /// Besides what `write_all_ensures` says: the bytes that the window
    /// referred to end up as the bytes taken from `data`, followed by whatever
    /// the window that is left ends up as.
    fn write_all(&mut self, data: &[u8]) -> (r: Result<(), Error>)
        ensures
            r is Ok <==> data@.len() <= old(self)@.len(),
            r is Err ==> r == Err::<(), Error>(Error::write_zero()),
            final(self)@ == old(self)@.skip(min(data@.len() as int, old(self)@.len() as int)),
            final(*old(self))@ == data@.take(min(data@.len() as int, old(self)@.len() as int))
                + final(*final(self))@,
    {
        match self.write(data) {
            Ok(n) => {
                if n == data.len() {
                    Ok(())
                } else {
                    Err(Error::write_zero())
                }
            },
            Err(e) => Err(e),
        }
    }

    fn flush(&mut self) -> (r: Result<(), Error>)
        ensures
            r == Ok::<(), Error>(()),
            *final(self) == *old(self),
    {
        Ok(())
    }
}

} // verus!
