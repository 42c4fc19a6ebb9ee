//! Byte-oriented input and output.
//!
//! Four capabilities describe what a byte source or sink can do: [`Read`],
//! [`Write`], [`Seek`] and [`BufRead`]. Each operation of a capability comes
//! with a relation (`..._ensures`) between the state before the call, the state
//! after it, what went in and what came out; an implementation defines the
//! relation and proves that its code keeps it.
//!
//! Three in-memory backends implement the capabilities: `&[u8]` is a read-only
//! window that shrinks from the front as it is read, `&mut [u8]` is a writable
//! window that shrinks from the front as it is written, and `Vec<u8>` is a sink
//! that grows at its end. `&mut T` and `Box<T>` forward every operation to the
//! `T` they refer to.
pub mod bytes;
pub mod error;
pub mod forward;
pub mod laws;
pub mod sink;
pub mod text;
pub mod traits;
pub mod window;

pub use crate::error::{Error, ErrorKind};
pub use crate::traits::{BufRead, Initializer, Read, Seek, SeekFrom, Write};
