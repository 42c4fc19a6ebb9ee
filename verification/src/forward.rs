//! Forwarding: `&mut T` and `Box<T>` have every capability that `T` has,
//! and each of their operations is the same operation of `T`.
//!
//! The relation of a forwarded operation is the relation of `T`'s operation
//! between the `T` before and the `T` after, so whatever `T` promises of a call
//! holds of the same call through a `&mut T` or a `Box<T>`. Of that promise,
//! only what `T` states in its `..._ensures` relation passes through; for a
//! `&mut [u8]` inside, this leaves out where the written bytes end up.
//! For `&mut T`, each operation adds that the reference still refers to the
//! same place afterwards.
use vstd::prelude::*;
use crate::error::Error;
use crate::traits::{shown, BufRead, Initializer, Read, Seek, SeekFrom, Write};

verus! {

impl<'a, R: Read + ?Sized> Read for &'a mut R {
    open spec fn read_ensures(
        &self,
        post: &Self,
        before: Seq<u8>,
        after: Seq<u8>,
        r: Result<usize, Error>,
    ) -> bool {
        (**self).read_ensures(&**post, before, after, r)
    }

    open spec fn read_exact_ensures(
        &self,
        post: &Self,
        before: Seq<u8>,
        after: Seq<u8>,
        r: Result<(), Error>,
    ) -> bool {
        (**self).read_exact_ensures(&**post, before, after, r)
    }

    open spec fn read_to_end_ensures(
        &self,
        post: &Self,
        before: Seq<u8>,
        after: Seq<u8>,
        r: Result<usize, Error>,
    ) -> bool {
        (**self).read_to_end_ensures(&**post, before, after, r)
    }

    open spec fn read_to_string_ensures(
        &self,
        post: &Self,
        before: Seq<char>,
        after: Seq<char>,
        r: Result<usize, Error>,
    ) -> bool {
        (**self).read_to_string_ensures(&**post, before, after, r)
    }

    open spec fn needs_zeroed_buffer(&self) -> bool {
        (**self).needs_zeroed_buffer()
    }

    fn initializer(&self) -> (i: Initializer) {
        (**self).initializer()
    }

    fn read(&mut self, buf: &mut [u8]) -> (r: Result<usize, Error>)
        ensures
            R::read_ensures(&**old(self), &**final(self), old(buf)@, final(buf)@, r),
            &*final(*final(self)) == &*final(*old(self)),
    {
        (**self).read(buf)
    }

    fn read_exact(&mut self, buf: &mut [u8]) -> (r: Result<(), Error>)
        ensures
            R::read_exact_ensures(&**old(self), &**final(self), old(buf)@, final(buf)@, r),
            &*final(*final(self)) == &*final(*old(self)),
    {
        (**self).read_exact(buf)
    }

    fn read_to_end(&mut self, buf: &mut Vec<u8>) -> (r: Result<usize, Error>)
        ensures
            R::read_to_end_ensures(&**old(self), &**final(self), old(buf)@, final(buf)@, r),
            &*final(*final(self)) == &*final(*old(self)),
    {
        (**self).read_to_end(buf)
    }

    fn read_to_string(&mut self, buf: &mut String) -> (r: Result<usize, Error>)
        ensures
            R::read_to_string_ensures(&**old(self), &**final(self), old(buf)@, final(buf)@, r),
            &*final(*final(self)) == &*final(*old(self)),
    {
        (**self).read_to_string(buf)
    }
}

impl<'a, W: Write + ?Sized> Write for &'a mut W {
    open spec fn write_ensures(&self, post: &Self, data: Seq<u8>, r: Result<usize, Error>) -> bool {
        (**self).write_ensures(&**post, data, r)
    }

    open spec fn write_all_ensures(
        &self,
        post: &Self,
        data: Seq<u8>,
        r: Result<(), Error>,
    ) -> bool {
        (**self).write_all_ensures(&**post, data, r)
    }

    open spec fn flush_ensures(&self, post: &Self, r: Result<(), Error>) -> bool {
        (**self).flush_ensures(&**post, r)
    }

    fn write(&mut self, data: &[u8]) -> (r: Result<usize, Error>)
        ensures
            W::write_ensures(&**old(self), &**final(self), data@, r),
            &*final(*final(self)) == &*final(*old(self)),
    {
        (**self).write(data)
    }

    fn write_all(&mut self, data: &[u8]) -> (r: Result<(), Error>)
        ensures
            W::write_all_ensures(&**old(self), &**final(self), data@, r),
            &*final(*final(self)) == &*final(*old(self)),
    {
        (**self).write_all(data)
    }

    fn flush(&mut self) -> (r: Result<(), Error>)
        ensures
            W::flush_ensures(&**old(self), &**final(self), r),
            &*final(*final(self)) == &*final(*old(self)),
    {
        (**self).flush()
    }
}

impl<'a, S: Seek + ?Sized> Seek for &'a mut S {
    open spec fn position(&self) -> u64 {
        (**self).position()
    }

    open spec fn extent(&self) -> u64 {
        (**self).extent()
    }

    open spec fn seek_ensures(&self, post: &Self, pos: SeekFrom, r: Result<u64, Error>) -> bool {
        (**self).seek_ensures(&**post, pos, r)
    }

    fn seek(&mut self, pos: SeekFrom) -> (r: Result<u64, Error>)
        ensures
            S::seek_ensures(&**old(self), &**final(self), pos, r),
            &*final(*final(self)) == &*final(*old(self)),
    {
        (**self).seek(pos)
    }
}

impl<'a, B: BufRead + ?Sized> BufRead for &'a mut B {
    open spec fn available(&self) -> Seq<u8> {
        (**self).available()
    }

    open spec fn fill_buf_ensures(&self, post: &Self, r: Result<Seq<u8>, Error>) -> bool {
        (**self).fill_buf_ensures(&**post, r)
    }

    open spec fn consume_ensures(&self, post: &Self, amt: usize) -> bool {
        (**self).consume_ensures(&**post, amt)
    }

    open spec fn read_until_ensures(
        &self,
        post: &Self,
        delim: u8,
        before: Seq<u8>,
        after: Seq<u8>,
        r: Result<usize, Error>,
    ) -> bool {
        (**self).read_until_ensures(&**post, delim, before, after, r)
    }

    open spec fn read_line_ensures(
        &self,
        post: &Self,
        before: Seq<char>,
        after: Seq<char>,
        r: Result<usize, Error>,
    ) -> bool {
        (**self).read_line_ensures(&**post, before, after, r)
    }

    fn fill_buf(&mut self) -> (r: Result<&[u8], Error>)
        ensures
            B::fill_buf_ensures(&**old(self), &**final(self), shown(r)),
            &*final(*final(self)) == &*final(*old(self)),
    {
        (**self).fill_buf()
    }

    fn consume(&mut self, amt: usize)
        ensures
            B::consume_ensures(&**old(self), &**final(self), amt),
            &*final(*final(self)) == &*final(*old(self)),
    {
        (**self).consume(amt)
    }

    fn read_until(&mut self, delim: u8, buf: &mut Vec<u8>) -> (r: Result<usize, Error>)
        ensures
            B::read_until_ensures(&**old(self), &**final(self), delim, old(buf)@, final(buf)@, r),
            &*final(*final(self)) == &*final(*old(self)),
    {
        (**self).read_until(delim, buf)
    }

    fn read_line(&mut self, buf: &mut String) -> (r: Result<usize, Error>)
        ensures
            B::read_line_ensures(&**old(self), &**final(self), old(buf)@, final(buf)@, r),
            &*final(*final(self)) == &*final(*old(self)),
    {
        (**self).read_line(buf)
    }
}

impl<R: Read + ?Sized> Read for Box<R> {
    open spec fn read_ensures(
        &self,
        post: &Self,
        before: Seq<u8>,
        after: Seq<u8>,
        r: Result<usize, Error>,
    ) -> bool {
        (**self).read_ensures(&**post, before, after, r)
    }

    open spec fn read_exact_ensures(
        &self,
        post: &Self,
        before: Seq<u8>,
        after: Seq<u8>,
        r: Result<(), Error>,
    ) -> bool {
        (**self).read_exact_ensures(&**post, before, after, r)
    }

    open spec fn read_to_end_ensures(
        &self,
        post: &Self,
        before: Seq<u8>,
        after: Seq<u8>,
        r: Result<usize, Error>,
    ) -> bool {
        (**self).read_to_end_ensures(&**post, before, after, r)
    }

    open spec fn read_to_string_ensures(
        &self,
        post: &Self,
        before: Seq<char>,
        after: Seq<char>,
        r: Result<usize, Error>,
    ) -> bool {
        (**self).read_to_string_ensures(&**post, before, after, r)
    }

    open spec fn needs_zeroed_buffer(&self) -> bool {
        (**self).needs_zeroed_buffer()
    }

    fn initializer(&self) -> (i: Initializer)
        ensures
            i.should_initialize() == (**self).needs_zeroed_buffer(),
    {
        (**self).initializer()
    }

    fn read(&mut self, buf: &mut [u8]) -> (r: Result<usize, Error>)
        ensures
            R::read_ensures(&**old(self), &**final(self), old(buf)@, final(buf)@, r),
    {
        (**self).read(buf)
    }

    fn read_exact(&mut self, buf: &mut [u8]) -> (r: Result<(), Error>)
        ensures
            R::read_exact_ensures(&**old(self), &**final(self), old(buf)@, final(buf)@, r),
    {
        (**self).read_exact(buf)
    }

    fn read_to_end(&mut self, buf: &mut Vec<u8>) -> (r: Result<usize, Error>)
        ensures
            R::read_to_end_ensures(&**old(self), &**final(self), old(buf)@, final(buf)@, r),
    {
        (**self).read_to_end(buf)
    }

    fn read_to_string(&mut self, buf: &mut String) -> (r: Result<usize, Error>)
        ensures
            R::read_to_string_ensures(&**old(self), &**final(self), old(buf)@, final(buf)@, r),
    {
        (**self).read_to_string(buf)
    }
}

impl<W: Write + ?Sized> Write for Box<W> {
    open spec fn write_ensures(&self, post: &Self, data: Seq<u8>, r: Result<usize, Error>) -> bool {
        (**self).write_ensures(&**post, data, r)
    }

    open spec fn write_all_ensures(
        &self,
        post: &Self,
        data: Seq<u8>,
        r: Result<(), Error>,
    ) -> bool {
        (**self).write_all_ensures(&**post, data, r)
    }

    open spec fn flush_ensures(&self, post: &Self, r: Result<(), Error>) -> bool {
        (**self).flush_ensures(&**post, r)
    }

    fn write(&mut self, data: &[u8]) -> (r: Result<usize, Error>)
        ensures
            W::write_ensures(&**old(self), &**final(self), data@, r),
    {
        (**self).write(data)
    }

    fn write_all(&mut self, data: &[u8]) -> (r: Result<(), Error>)
        ensures
            W::write_all_ensures(&**old(self), &**final(self), data@, r),
    {
        (**self).write_all(data)
    }

    fn flush(&mut self) -> (r: Result<(), Error>)
        ensures
            W::flush_ensures(&**old(self), &**final(self), r),
    {
        (**self).flush()
    }
}

impl<S: Seek + ?Sized> Seek for Box<S> {
    open spec fn position(&self) -> u64 {
        (**self).position()
    }

    open spec fn extent(&self) -> u64 {
        (**self).extent()
    }

    open spec fn seek_ensures(&self, post: &Self, pos: SeekFrom, r: Result<u64, Error>) -> bool {
        (**self).seek_ensures(&**post, pos, r)
    }

    fn seek(&mut self, pos: SeekFrom) -> (r: Result<u64, Error>)
        ensures
            S::seek_ensures(&**old(self), &**final(self), pos, r),
    {
        (**self).seek(pos)
    }
}

impl<B: BufRead + ?Sized> BufRead for Box<B> {
    open spec fn available(&self) -> Seq<u8> {
        (**self).available()
    }

    open spec fn fill_buf_ensures(&self, post: &Self, r: Result<Seq<u8>, Error>) -> bool {
        (**self).fill_buf_ensures(&**post, r)
    }

    open spec fn consume_ensures(&self, post: &Self, amt: usize) -> bool {
        (**self).consume_ensures(&**post, amt)
    }

    open spec fn read_until_ensures(
        &self,
        post: &Self,
        delim: u8,
        before: Seq<u8>,
        after: Seq<u8>,
        r: Result<usize, Error>,
    ) -> bool {
        (**self).read_until_ensures(&**post, delim, before, after, r)
    }

    open spec fn read_line_ensures(
        &self,
        post: &Self,
        before: Seq<char>,
        after: Seq<char>,
        r: Result<usize, Error>,
    ) -> bool {
        (**self).read_line_ensures(&**post, before, after, r)
    }

    fn fill_buf(&mut self) -> (r: Result<&[u8], Error>)
        ensures
            B::fill_buf_ensures(&**old(self), &**final(self), shown(r)),
    {
        (**self).fill_buf()
    }

    fn consume(&mut self, amt: usize)
        ensures
            B::consume_ensures(&**old(self), &**final(self), amt),
    {
        (**self).consume(amt)
    }

    fn read_until(&mut self, delim: u8, buf: &mut Vec<u8>) -> (r: Result<usize, Error>)
        ensures
            B::read_until_ensures(&**old(self), &**final(self), delim, old(buf)@, final(buf)@, r),
    {
        (**self).read_until(delim, buf)
    }

    fn read_line(&mut self, buf: &mut String) -> (r: Result<usize, Error>)
        ensures
            B::read_line_ensures(&**old(self), &**final(self), old(buf)@, final(buf)@, r),
    {
        (**self).read_line(buf)
    }
}

} // verus!
