//! The four capabilities of a byte source or sink.
//!
//! Every operation that changes its receiver has a relation, named after the
//! operation with `_ensures` at the end, between the receiver before the call
//! (`self`), the receiver after it (`post`), the contents of the caller's
//! buffer before and after, and the result. The operation's contract is that
//! its relation holds, together with what is true of every implementation.
//! An implementation over memory defines the relation exactly; one over an
//! outside source defines it as loosely as the source behaves.
use vstd::prelude::*;
use vstd::utf8::encode_utf8;
use crate::error::Error;

verus! {

/// Whether a reader wants the buffers handed to `read` zeroed beforehand.
#[derive(Clone, Copy, Debug)]
pub struct Initializer(bool);

impl Initializer {
    pub closed spec fn spec_should_initialize(&self) -> bool {
        self.0
    }

    /// The hint of a reader that may look at the buffer before it fills it.
    pub fn zeroing() -> (i: Initializer)
        ensures
            i.should_initialize(),
    {
        Initializer(true)
    }

    /// The hint of a reader that never looks at the buffer it fills.
    pub fn nop() -> (i: Initializer)
        ensures
            !i.should_initialize(),
    {
        Initializer(false)
    }

    #[verifier::when_used_as_spec(spec_should_initialize)]
    pub fn should_initialize(&self) -> (b: bool)
        ensures
            b == self.should_initialize(),
    {
        self.0
    }
}

/// A position to seek to.
#[derive(Clone, Copy, Debug, PartialEq, Eq, Structural)]
pub enum SeekFrom {
    /// So many bytes from the start.
    Start(u64),
    /// So many bytes from the end; negative is before the end.
    End(i64),
    /// So many bytes from the current position; negative is backwards.
    Current(i64),
}

/// The absolute offset that `pos` names in a stream of `extent` bytes whose
/// cursor stands at `position`. It may be negative: then there is no such offset.
pub open spec fn seek_target(position: u64, extent: u64, pos: SeekFrom) -> int {
    match pos {
        SeekFrom::Start(n) => n as int,
        SeekFrom::End(d) => extent + d,
        SeekFrom::Current(d) => position + d,
    }
}

/// What a successful `fill_buf` shows, as a sequence of bytes.
pub open spec fn shown(r: Result<&[u8], Error>) -> Result<Seq<u8>, Error> {
    match r {
        Ok(view) => Ok(view@),
        Err(e) => Err(e),
    }
}

/// A source of bytes.
pub trait Read {
    /// What `read` may do: `before` and `after` are the caller's buffer.
    spec fn read_ensures(
        &self,
        post: &Self,
        before: Seq<u8>,
        after: Seq<u8>,
        r: Result<usize, Error>,
    ) -> bool;

    /// What `read_exact` may do: `before` and `after` are the caller's buffer.
    spec fn read_exact_ensures(
        &self,
        post: &Self,
        before: Seq<u8>,
        after: Seq<u8>,
        r: Result<(), Error>,
    ) -> bool;

    /// What `read_to_end` may do: `before` and `after` are the caller's sink.
    spec fn read_to_end_ensures(
        &self,
        post: &Self,
        before: Seq<u8>,
        after: Seq<u8>,
        r: Result<usize, Error>,
    ) -> bool;

    /// What `read_to_string` may do: `before` and `after` are the caller's string.
    spec fn read_to_string_ensures(
        &self,
        post: &Self,
        before: Seq<char>,
        after: Seq<char>,
        r: Result<usize, Error>,
    ) -> bool;

    /// Whether this reader may look at a buffer before filling it. A reader
    /// that does not say otherwise is taken to need zeroed buffers.
    open spec fn needs_zeroed_buffer(&self) -> bool {
        true
    }

    /// The reader's hint on whether buffers must be zeroed before `read`.
    fn initializer(&self) -> (i: Initializer)
        ensures
            i.should_initialize() == Self::needs_zeroed_buffer(self),
    ;

    /// Moves up to `buf.len()` bytes from the source to the front of `buf` and
    /// returns how many. Fewer than asked for is no failure; none at all, for a
    /// buffer that is not empty, means that the source has ended. An empty
    /// buffer always succeeds with 0.
    fn read(&mut self, buf: &mut [u8]) -> (r: Result<usize, Error>)
        ensures
            Self::read_ensures(&*old(self), &*final(self), old(buf)@, final(buf)@, r),
            final(buf)@.len() == old(buf)@.len(),
            r matches Ok(n) ==> n <= old(buf)@.len(),
            old(buf)@.len() == 0 ==> r is Ok,
    ;

    /// Fills all of `buf` from the source, or fails. After a failure nothing
    /// is known of the contents of `buf`.
    fn read_exact(&mut self, buf: &mut [u8]) -> (r: Result<(), Error>)
        ensures
            Self::read_exact_ensures(&*old(self), &*final(self), old(buf)@, final(buf)@, r),
            final(buf)@.len() == old(buf)@.len(),
            old(buf)@.len() == 0 ==> r is Ok,
    ;

    /// Appends to `buf` everything the source still yields and returns how
    /// many bytes that was. Nothing already in `buf` is changed.
    fn read_to_end(&mut self, buf: &mut Vec<u8>) -> (r: Result<usize, Error>)
        ensures
            Self::read_to_end_ensures(&*old(self), &*final(self), old(buf)@, final(buf)@, r),
            old(buf)@.is_prefix_of(final(buf)@),
            r matches Ok(n) ==> final(buf)@.len() == old(buf)@.len() + n,
    ;

    /// Appends to `buf`, as text, everything the source still yields and
    /// returns how many bytes that was. Nothing already in `buf` is changed.
    fn read_to_string(&mut self, buf: &mut String) -> (r: Result<usize, Error>)
        ensures
            Self::read_to_string_ensures(&*old(self), &*final(self), old(buf)@, final(buf)@, r),
            old(buf)@.is_prefix_of(final(buf)@),
            r matches Ok(n) ==> encode_utf8(final(buf)@.skip(old(buf)@.len() as int)).len() == n,
    ;
}

/// A destination for bytes.
pub trait Write {
    /// What `write` may do with `data`.
    spec fn write_ensures(&self, post: &Self, data: Seq<u8>, r: Result<usize, Error>) -> bool;

    /// What `write_all` may do with `data`.
    spec fn write_all_ensures(&self, post: &Self, data: Seq<u8>, r: Result<(), Error>) -> bool;

    /// What `flush` may do.
    spec fn flush_ensures(&self, post: &Self, r: Result<(), Error>) -> bool;

    /// Takes bytes from the front of `data` and returns how many it took.
    /// Fewer than all is no failure.
    fn write(&mut self, data: &[u8]) -> (r: Result<usize, Error>)
        ensures
            Self::write_ensures(&*old(self), &*final(self), data@, r),
            r matches Ok(n) ==> n <= data@.len(),
    ;

    /// Takes all of `data`, or fails. Writing nothing always succeeds.
    fn write_all(&mut self, data: &[u8]) -> (r: Result<(), Error>)
        ensures
            Self::write_all_ensures(&*old(self), &*final(self), data@, r),
            data@.len() == 0 ==> r is Ok,
    ;

    /// Passes on whatever the destination still holds back.
    fn flush(&mut self) -> (r: Result<(), Error>)
        ensures
            Self::flush_ensures(&*old(self), &*final(self), r),
    ;
}

/// A stream with a cursor that can be moved.
pub trait Seek {
    /// Where the cursor stands, in bytes from the start.
    spec fn position(&self) -> u64;

    /// How many bytes the stream holds.
    spec fn extent(&self) -> u64;

    /// What `seek` may do.
    spec fn seek_ensures(&self, post: &Self, pos: SeekFrom, r: Result<u64, Error>) -> bool;

    /// Moves the cursor to `pos` and returns its new offset from the start.
    /// There is no offset before the start: such a `pos` fails.
    fn seek(&mut self, pos: SeekFrom) -> (r: Result<u64, Error>)
        ensures
            Self::seek_ensures(&*old(self), &*final(self), pos, r),
            seek_target((*old(self)).position(), (*old(self)).extent(), pos) < 0 ==> r is Err,
            r matches Ok(n) ==> {
                &&& n == seek_target((*old(self)).position(), (*old(self)).extent(), pos)
                &&& (*final(self)).position() == n
            },
    ;
}

/// A source of bytes that holds some of them ready and lets the caller look
/// at them before taking them.
pub trait BufRead: Read {
    /// The bytes that the reader holds ready: what `fill_buf` last showed,
    /// less what has been consumed since.
    spec fn available(&self) -> Seq<u8>;

    /// What `fill_buf` may do: `r` holds the bytes it showed.
    spec fn fill_buf_ensures(&self, post: &Self, r: Result<Seq<u8>, Error>) -> bool;

    /// What `consume` does.
    spec fn consume_ensures(&self, post: &Self, amt: usize) -> bool;

    /// What `read_until` may do: `before` and `after` are the caller's sink.
    spec fn read_until_ensures(
        &self,
        post: &Self,
        delim: u8,
        before: Seq<u8>,
        after: Seq<u8>,
        r: Result<usize, Error>,
    ) -> bool;

    /// What `read_line` may do: `before` and `after` are the caller's string.
    spec fn read_line_ensures(
        &self,
        post: &Self,
        before: Seq<char>,
        after: Seq<char>,
        r: Result<usize, Error>,
    ) -> bool;

    /// Shows the bytes that are ready, without taking them. While bytes are
    /// ready, a second look shows the same bytes.
    fn fill_buf(&mut self) -> (r: Result<&[u8], Error>)
        ensures
            Self::fill_buf_ensures(&*old(self), &*final(self), shown(r)),
            r matches Ok(view) ==> view@ == (*final(self)).available(),
            (*old(self)).available().len() > 0 ==> {
                &&& r is Ok
                &&& (*final(self)).available() == (*old(self)).available()
            },
    ;

    /// Takes `amt` of the bytes that are ready. The caller may take no more
    /// than were shown.
    fn consume(&mut self, amt: usize)
        requires
            amt <= (*old(self)).available().len(),
        ensures
            Self::consume_ensures(&*old(self), &*final(self), amt),
            (*final(self)).available() == (*old(self)).available().skip(amt as int),
    ;

    /// Appends bytes from the source to `buf` up to and including the first
    /// `delim`, or up to the end of the source, and returns how many. Nothing
    /// already in `buf` is changed, and no appended byte but the last is `delim`.
    fn read_until(&mut self, delim: u8, buf: &mut Vec<u8>) -> (r: Result<usize, Error>)
        ensures
            Self::read_until_ensures(
                &*old(self),
                &*final(self),
                delim,
                old(buf)@,
                final(buf)@,
                r,
            ),
            old(buf)@.is_prefix_of(final(buf)@),
            r matches Ok(n) ==> {
                &&& final(buf)@.len() == old(buf)@.len() + n
                &&& forall|i: int|
                    old(buf)@.len() <= i < final(buf)@.len() - 1 ==> final(buf)@[i] != delim
            },
    ;

    /// Appends one line from the source to `buf`, its newline included, and
    /// returns how many bytes that was. Nothing already in `buf` is changed.
    fn read_line(&mut self, buf: &mut String) -> (r: Result<usize, Error>)
        ensures
            Self::read_line_ensures(&*old(self), &*final(self), old(buf)@, final(buf)@, r),
            old(buf)@.is_prefix_of(final(buf)@),
            r matches Ok(n) ==> encode_utf8(final(buf)@.skip(old(buf)@.len() as int)).len() == n,
    ;
}

} // verus!
