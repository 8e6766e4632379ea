//! The byte destination behind a structured sink.

use vstd::prelude::*;
use crate::event::ReportError;

verus! {

/// A destination that takes bytes in order: a terminal, a file, a pipe, or a
/// buffer in memory.
///
/// A sink never looks at what its medium holds; it only hands bytes over and
/// learns whether they were taken.
///
/// A medium may keep account of the bytes it took and of those it has made
/// visible. One that does says so through `accepted` and `flushed`, and what
/// a sink has written to it can then be stated exactly. A medium that leaves
/// `accepted`, `flushed` and `dependable` as they are given here promises
/// nothing, and meets the contract below whatever it does.
pub trait Medium {
    /// The bytes this medium holds, in order, where it keeps account of
    /// them; `None` where it does not.
    open spec fn accepted(&self) -> Option<Seq<u8>> {
        None
    }

    /// The bytes that a reader of this medium can see, where it keeps
    /// account of them: what it held when it was last flushed with success.
    open spec fn flushed(&self) -> Option<Seq<u8>> {
        None
    }

    /// Whether this medium never refuses a write or a flush.
    open spec fn dependable(&self) -> bool {
        false
    }

    /// Takes all of `bytes`, or fails. After a failure any part of `bytes`
    /// may have been taken.
    fn write_all(&mut self, bytes: &[u8]) -> (r: Result<(), ReportError>)
        ensures
            old(self).accepted() is Some && r is Ok ==> final(self).accepted() == Some(
                old(self).accepted()->0 + bytes@,
            ),
            final(self).accepted() is Some == old(self).accepted() is Some,
            old(self).dependable() ==> r is Ok,
            final(self).dependable() == old(self).dependable(),
    ;

    /// Makes what was taken visible to whoever reads the medium. After a
    /// success nothing that was taken is left unseen.
    fn flush(&mut self) -> (r: Result<(), ReportError>)
        ensures
            final(self).accepted() == old(self).accepted(),
            old(self).accepted() is Some && r is Ok
                ==> final(self).flushed() == final(self).accepted(),
            old(self).dependable() ==> r is Ok,
            final(self).dependable() == old(self).dependable(),
    ;
}

/// A growable buffer in memory takes every byte, never fails, and holds
/// nothing back: what it took can be read at once.
impl Medium for Vec<u8> {
    open spec fn accepted(&self) -> Option<Seq<u8>> {
        Some(self@)
    }

    open spec fn flushed(&self) -> Option<Seq<u8>> {
        Some(self@)
    }

    open spec fn dependable(&self) -> bool {
        true
    }

    fn write_all(&mut self, bytes: &[u8]) -> (r: Result<(), ReportError>) {
        self.extend_from_slice(bytes);
        Ok(())
    }

    fn flush(&mut self) -> (r: Result<(), ReportError>) {
        Ok(())
    }
}

} // verus!
