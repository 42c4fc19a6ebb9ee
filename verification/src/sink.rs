//! A sink that grows: `Vec<u8>` takes every byte written to it at its end.
use vstd::prelude::*;
use crate::error::Error;
use crate::traits::Write;

verus! {

impl Write for Vec<u8> {
    /// Appends all of the data.
    open spec fn write_ensures(&self, post: &Self, data: Seq<u8>, r: Result<usize, Error>) -> bool {
        &&& r == Ok::<usize, Error>(data.len() as usize)
        &&& post@ =~= self@ + data
    }

    /// Appends all of the data.
    open spec fn write_all_ensures(
        &self,
        post: &Self,
        data: Seq<u8>,
        r: Result<(), Error>,
    ) -> bool {
        &&& r == Ok::<(), Error>(())
        &&& post@ =~= self@ + data
    }

    /// Does nothing.
    open spec fn flush_ensures(&self, post: &Self, r: Result<(), Error>) -> bool {
        &&& *post == *self
        &&& r == Ok::<(), Error>(())
    }

    fn write(&mut self, data: &[u8]) -> (r: Result<usize, Error>)
        ensures
            r == Ok::<usize, Error>(data@.len() as usize),
            final(self)@ == old(self)@ + data@,
    {
        self.extend_from_slice(data);
        Ok(data.len())
    }

    fn write_all(&mut self, data: &[u8]) -> (r: Result<(), Error>)
        ensures
            r == Ok::<(), Error>(()),
            final(self)@ == old(self)@ + data@,
    {
        self.extend_from_slice(data);
        Ok(())
    }

    fn flush(&mut self) -> (r: Result<(), Error>)
        ensures
            r == Ok::<(), Error>(()),
            *final(self) == *old(self),
    {
        Ok(())
    }
}

} // verus!
