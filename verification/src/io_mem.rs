//! Register windows: memory-mapped device registers of a fixed size.
//!
//! A window does not access the device. It checks an access against its
//! bounds and describes it as an [`IoRequest`] for the caller to carry out.

use crate::error::Error;
use vstd::prelude::*;

verus! {

/// The width of a register word in bytes.
pub const WORD_BYTES: usize = 4;

/// One access to the registers of a device, by byte offset into its window.
#[derive(Clone, Copy, Debug, PartialEq, Eq, Structural)]
pub enum IoRequest {
    /// Write the word `value` at `offset`, with no ordering against other
    /// accesses.
    Write { offset: usize, value: u32 },
    /// Read the word at `offset`, with no ordering against other accesses.
    Read { offset: usize },
    /// Copy `len` bytes from `offset` on into the buffer of the caller.
    Copy { offset: usize, len: usize },
}

impl IoRequest {
    /// The offset of the first byte that the access touches.
    pub open spec fn start(self) -> int {
        match self {
            IoRequest::Write { offset, value } => offset as int,
            IoRequest::Read { offset } => offset as int,
            IoRequest::Copy { offset, len } => offset as int,
        }
    }

    /// The number of bytes that the access touches.
    pub open spec fn extent(self) -> int {
        match self {
            IoRequest::Write { offset, value } => WORD_BYTES as int,
            IoRequest::Read { offset } => WORD_BYTES as int,
            IoRequest::Copy { offset, len } => len as int,
        }
    }

    /// Whether the access is one of a whole word.
    pub open spec fn is_word(self) -> bool {
        self is Write || self is Read
    }

    /// Whether the access stays inside a window of `size` bytes, and on a
    /// word boundary where it is one of a word.
    pub open spec fn fits(self, size: int) -> bool {
        &&& self.start() + self.extent() <= size
        &&& self.is_word() ==> self.start() % (WORD_BYTES as int) == 0
    }
}

/// Whether a word at `offset` lies inside a window of `size` bytes, on a
/// word boundary.
pub open spec fn word_fits(offset: int, size: int) -> bool {
    offset + WORD_BYTES <= size && offset % (WORD_BYTES as int) == 0
}

/// A window of `SIZE` bytes of device registers, mapped at a base address.
/// The base is set when the window is made and never changes.
#[derive(Debug)]
pub struct IoMem<const SIZE: usize> {
    base: usize,
}

impl<const SIZE: usize> IoMem<SIZE> {
    /// The address at which the window is mapped.
    pub closed spec fn spec_base(&self) -> usize {
        self.base
    }

    /// The window of the registers mapped at `base`.
    pub fn new(base: usize) -> (mem: Self)
        ensures
            mem.spec_base() == base,
    {
        IoMem { base }
    }

    /// The address at which the window is mapped.
    pub fn base(&self) -> (base: usize)
        ensures
            base == self.spec_base(),
    {
        self.base
    }

    /// The size of the window in bytes.
    pub fn size(&self) -> (size: usize)
        ensures
            size == SIZE,
    {
        SIZE
    }

    /// Whether a word at `offset` lies inside the window, on a word
    /// boundary.
    pub fn offset_ok(offset: usize) -> (ok: bool)
        ensures
            ok == word_fits(offset as int, SIZE as int),
    {
        SIZE >= WORD_BYTES && offset <= SIZE - WORD_BYTES && offset % WORD_BYTES == 0
    }

    /// The write of `value` to the word at `offset`, which lies inside the
    /// window.
    pub fn writel_relaxed(&self, value: u32, offset: usize) -> (request: IoRequest)
        requires
            word_fits(offset as int, SIZE as int),
        ensures
            request == (IoRequest::Write { offset, value }),
            request.fits(SIZE as int),
    {
        IoRequest::Write { offset, value }
    }

    /// The write of `value` to the word at `offset`, or `OutOfRange` where
    /// that word does not lie inside the window on a word boundary.
    pub fn try_writel_relaxed(&self, value: u32, offset: usize) -> (r: Result<IoRequest, Error>)
        ensures
            word_fits(offset as int, SIZE as int) ==> r == Ok::<IoRequest, Error>(
                IoRequest::Write { offset, value },
            ),
            !word_fits(offset as int, SIZE as int) ==> r == Err::<IoRequest, Error>(
                Error::OutOfRange,
            ),
    {
        if Self::offset_ok(offset) {
            Ok(self.writel_relaxed(value, offset))
        } else {
            Err(Error::OutOfRange)
        }
    }

    /// The read of the word at `offset`, which lies inside the window.
    pub fn readl_relaxed(&self, offset: usize) -> (request: IoRequest)
        requires
            word_fits(offset as int, SIZE as int),
        ensures
            request == (IoRequest::Read { offset }),
            request.fits(SIZE as int),
    {
        IoRequest::Read { offset }
    }

    /// The read of the word at `offset`, or `OutOfRange` where that word
    /// does not lie inside the window on a word boundary.
    pub fn try_readl_relaxed(&self, offset: usize) -> (r: Result<IoRequest, Error>)
        ensures
            word_fits(offset as int, SIZE as int) ==> r == Ok::<IoRequest, Error>(
                IoRequest::Read { offset },
            ),
            !word_fits(offset as int, SIZE as int) ==> r == Err::<IoRequest, Error>(
                Error::OutOfRange,
            ),
    {
        if Self::offset_ok(offset) {
            Ok(self.readl_relaxed(offset))
        } else {
            Err(Error::OutOfRange)
        }
    }

    /// The copy of `len` bytes from `offset` on, or `OutOfRange` where
    /// these bytes do not all lie inside the window.
    pub fn try_memcpy_fromio(&self, len: usize, offset: usize) -> (r: Result<IoRequest, Error>)
        ensures
            offset + len <= SIZE ==> r == Ok::<IoRequest, Error>(IoRequest::Copy { offset, len }),
            offset + len > SIZE ==> r == Err::<IoRequest, Error>(Error::OutOfRange),
            r matches Ok(request) ==> request.fits(SIZE as int),
    {
        if offset <= SIZE && len <= SIZE - offset {
            Ok(IoRequest::Copy { offset, len })
        } else {
            Err(Error::OutOfRange)
        }
    }
}

} // verus!
