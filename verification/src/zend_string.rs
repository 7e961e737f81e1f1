//! The owned string container: a reference-counted, length-prefixed runtime
//! string with manual lifetime control.
//!
//! The wrapper holds a raw handle into the runtime's string heap and a release
//! flag.  Ownership is tri-state: owned (the flag is set, so disposal releases
//! the cell exactly once), borrowed (the flag is clear, disposal is a no-op),
//! or released (`release` consumed the wrapper, so nothing is left to run).

use vstd::prelude::*;
use vstd::string::StrSliceExecFns;
use vstd::utf8::decode_utf8;
use vstd::utf8::encode_utf8;
use vstd::utf8::valid_utf8;

use crate::Error;
use crate::runtime::Runtime;
use crate::runtime::StrCellModel;
use crate::runtime::cell_at;
use crate::runtime::has_interned;
use crate::runtime::release_model;
use crate::runtime::valid_handle;

verus! {

/// A wrapper around one runtime string cell: the raw handle, and whether the
/// wrapper owns the cell (and so must release it when disposed of).
#[derive(Debug)]
pub struct ZendString {
    ptr: usize,
    free: bool,
}

impl ZendString {
    /// The raw handle held by the wrapper.
    pub closed spec fn ptr_spec(&self) -> usize {
        self.ptr
    }

    /// Whether disposal releases the cell.
    pub closed spec fn free_spec(&self) -> bool {
        self.free
    }

    /// Creates a new runtime string holding a copy of `s`, in the requested
    /// lifetime class (`persistent` survives the request boundary).  The
    /// wrapper owns the new cell.  The cell stores the UTF-8 bytes of `s`
    /// with an explicit length, so `s` may contain zero bytes.
    pub fn new(rt: &mut Runtime, s: &str, persistent: bool) -> (zs: ZendString)
        requires
            old(rt)@.len() < usize::MAX,
        ensures
            final(rt)@ =~= old(rt)@.push(
                Some(
                    StrCellModel {
                        bytes: encode_utf8(s@),
                        refcount: 1,
                        persistent: persistent,
                        interned: false,
                    },
                ),
            ),
            zs.ptr_spec() == old(rt)@.len() + 1,
            zs.free_spec(),
            valid_handle(final(rt)@, zs.ptr_spec()),
    {
        let bytes = s.as_bytes_vec();
        let ptr = rt.string_init(bytes, persistent);
        ZendString { ptr, free: true }
    }

    /// Creates a new interned runtime string from `s`: equal content shares
    /// one persistent allocation.  The wrapper owns its reference.
    pub fn new_interned(rt: &mut Runtime, s: &str) -> (zs: ZendString)
        requires
            old(rt)@.len() < usize::MAX,
        ensures
            valid_handle(final(rt)@, zs.ptr_spec()),
            cell_at(final(rt)@, zs.ptr_spec()).bytes == encode_utf8(s@),
            cell_at(final(rt)@, zs.ptr_spec()).interned,
            cell_at(final(rt)@, zs.ptr_spec()).persistent,
            zs.free_spec(),
            has_interned(old(rt)@, encode_utf8(s@)) ==> final(rt)@ == old(rt)@,
            !has_interned(old(rt)@, encode_utf8(s@)) ==> final(rt)@ =~= old(rt)@.push(
                Some(
                    StrCellModel {
                        bytes: encode_utf8(s@),
                        refcount: 1,
                        persistent: true,
                        interned: true,
                    },
                ),
            ),
    {
        let bytes = s.as_bytes_vec();
        let ptr = rt.string_init_interned(bytes);
        ZendString { ptr, free: true }
    }

    /// Adopts an existing raw handle.  A null handle yields nothing; `free`
    /// says whether disposing of the wrapper should release the cell.
    pub fn from_ptr(ptr: usize, free: bool) -> (r: Option<ZendString>)
        ensures
            match r {
                Some(zs) => ptr != 0 && zs.ptr_spec() == ptr && zs.free_spec() == free,
                None => ptr == 0,
            },
    {
        if ptr == 0 {
            return None;
        }
        Some(ZendString { ptr, free })
    }

    /// Releases the string, returning the raw handle and transferring
    /// ownership to the caller.  Consuming the wrapper disarms its disposal:
    /// after `release` the wrapper no longer exists, so it performs no
    /// further release of its own.
    pub fn release(self) -> (r: usize)
        ensures
            r == self.ptr_spec(),
    {
        let mut this = self;
        this.free = false;
        this.ptr
    }

    /// Borrows the underlying raw handle without transferring ownership.
    pub fn borrow_ptr(&self) -> (r: usize)
        ensures
            r == self.ptr_spec(),
    {
        self.ptr
    }

    /// Ends the wrapper's life, mirroring the destructor: an owning wrapper
    /// with a non-null handle decrements the cell's reference count exactly
    /// once (freeing the cell when the count reaches zero); a released or
    /// never-owning wrapper leaves the runtime untouched.
    pub fn dispose(self, rt: &mut Runtime)
        requires
            self.free_spec() && self.ptr_spec() != 0 ==> valid_handle(
                old(rt)@,
                self.ptr_spec(),
            ),
        ensures
            self.free_spec() && self.ptr_spec() != 0 ==> final(rt)@ =~= release_model(
                old(rt)@,
                self.ptr_spec(),
            ),
            !(self.free_spec() && self.ptr_spec() != 0) ==> final(rt)@ == old(rt)@,
    {
        if self.free && self.ptr != 0 {
            rt.string_release(self.ptr);
        }
    }

    /// Converts the runtime string to native text.  The byte range is
    /// validated as well-formed UTF-8: a null or stale handle is an invalid
    /// pointer, and bytes that are not well-formed text fail with an invalid
    /// encoding condition rather than decoding lossily.  The source cell is
    /// never mutated.
    pub fn try_into_string(&self, rt: &Runtime) -> (r: Result<String, Error>)
        ensures
            match r {
                Ok(s) => valid_handle(rt@, self.ptr_spec()) && valid_utf8(
                    cell_at(rt@, self.ptr_spec()).bytes,
                ) && s@ == decode_utf8(cell_at(rt@, self.ptr_spec()).bytes),
                Err(e) => if e == Error::InvalidPointer {
                    !valid_handle(rt@, self.ptr_spec())
                } else {
                    e == Error::InvalidEncoding && valid_handle(rt@, self.ptr_spec())
                        && !valid_utf8(cell_at(rt@, self.ptr_spec()).bytes)
                },
            },
    {
        match rt.string_bytes(self.ptr) {
            None => Err(Error::InvalidPointer),
            Some(bytes) => match bytes_into_string(bytes) {
                Some(s) => Ok(s),
                None => Err(Error::InvalidEncoding),
            },
        }
    }
}

/// Relies on `String::from_utf8`: returns the text whose UTF-8 encoding is
/// the given byte buffer, and nothing when the bytes are not well-formed
/// UTF-8.
#[verifier::external_body]
pub(crate) fn bytes_into_string(bytes: Vec<u8>) -> (r: Option<String>)
    ensures
        match r {
            Some(s) => valid_utf8(bytes@) && s@ == decode_utf8(bytes@),
            None => !valid_utf8(bytes@),
        },
{
    String::from_utf8(bytes).ok()
}

} // verus!
