//! A zero-copy, reference-counted window onto a byte region owned by a
//! foreign runtime.
//!
//! A [`ZeroCopyBuf`] holds a counted handle to a [`BackingStore`] together
//! with a byte offset and byte length. The handle is what keeps the region
//! resident: the store may be reclaimed by its owner only once the last
//! handle (original or clone) is gone. Cloning a buffer duplicates the handle
//! and copies the window, never the bytes.
//!
//! The store models the foreign runtime's reference-counted memory object: an
//! atomically counted allocation whose bytes stay resident while any handle
//! exists, plus the flag saying whether the object is shared between foreign
//! execution contexts. Construction of a buffer rejects shared objects: the
//! read/write window below assumes no uncoordinated foreign mutation, and a
//! shared object breaks that assumption.
//!
//! Two buffers over overlapping windows of one store still alias: a write
//! through one is seen by reads through the other. No ordering between
//! concurrent users of overlapping windows is promised; this component
//! guarantees residency, not race freedom. Each single byte access takes the
//! store's internal lock, so an individual read or write is whole, but a
//! caller that needs a whole region to be stable must coordinate its writers
//! itself.

use std::sync::Arc;
use std::sync::Mutex;
use vstd::prelude::*;

verus! {

/// The foreign runtime's lock around a store's bytes. Declared so that the
/// locked cells can stand in a field; every use of the lock itself sits in
/// the trusted accessors of [`BackingStore`].
#[verifier::external_type_specification]
#[verifier::external_body]
#[verifier::reject_recursive_types(T)]
pub struct ExMutex<T: ?Sized>(Mutex<T>);

/// A reference-counted byte region owned by the foreign runtime.
///
/// The handle is the sole lifetime authority: the region stays allocated as
/// long as some handle exists, and dropping the last handle releases the
/// region's last reference exactly once. `byte_length` and `shared` are fixed
/// when the region is allocated and never change afterwards; the trusted
/// accessors below never resize the cells, which keeps the recorded
/// `byte_length` equal to the length of the byte vector under the lock.
pub struct BackingStore {
    cells: Arc<Mutex<Vec<u8>>>,
    byte_length: usize,
    shared: bool,
}

/// The error a buffer constructor reports when handed a view over a memory
/// object it must refuse: the kind found and the kind required.
#[derive(Clone, Copy, Debug)]
pub enum DataError {
    BadType { actual: &'static str, expected: &'static str },
}

impl BackingStore {
    /// The length in bytes of the region, fixed at allocation.
    pub closed spec fn spec_len(&self) -> usize {
        self.byte_length
    }

    /// Whether the memory object is shared between foreign execution
    /// contexts, fixed at allocation.
    pub closed spec fn spec_shared(&self) -> bool {
        self.shared
    }

    /// Allocate a region holding the given bytes. `shared` marks the region
    /// as concurrently mutable from several foreign contexts, which buffer
    /// construction must then refuse.
    pub fn new(bytes: Vec<u8>, shared: bool) -> (r: BackingStore)
        ensures
            r.spec_len() == bytes@.len(),
            r.spec_shared() == shared,
    {
        let byte_length = bytes.len();
        BackingStore { cells: Arc::new(new_cells(bytes)), byte_length, shared }
    }

    /// The length in bytes of the region.
    pub fn len(&self) -> (r: usize)
        ensures
            r == self.spec_len(),
    {
        self.byte_length
    }

    /// Whether the memory object is shared between foreign contexts.
    pub fn is_shared(&self) -> (r: bool)
        ensures
            r == self.spec_shared(),
    {
        self.shared
    }

    /// Relies on std::sync::Mutex::lock: yields the bytes as they stand at
    /// the moment the lock is taken. Another handle may write at any time, so
    /// nothing beyond the fixed length holds of the copied contents.
    #[verifier::external_body]
    pub fn snapshot(&self) -> (r: Vec<u8>)
        ensures
            r@.len() == self.spec_len(),
    {
        self.cells.lock().unwrap().clone()
    }

    /// Relies on std::sync::Mutex::lock: reads one byte of the region. The
    /// value depends on what other handles have written, so nothing is
    /// promised of it.
    #[verifier::external_body]
    pub fn load_byte(&self, index: usize) -> u8
        requires
            index < self.spec_len(),
    {
        self.cells.lock().unwrap()[index]
    }

    /// Relies on std::sync::Mutex::lock: writes one byte of the region,
    /// observable afterwards through every handle to this store.
    #[verifier::external_body]
    pub fn store_byte(&self, index: usize, value: u8)
        requires
            index < self.spec_len(),
    {
        self.cells.lock().unwrap()[index] = value;
    }

    /// Relies on std::sync::Arc::strong_count: the number of live handles to
    /// the region, at least one while `self` exists. The count is global
    /// state that any context may change, so no more is promised.
    #[verifier::external_body]
    pub fn ref_count(&self) -> (r: usize)
        ensures
            r >= 1,
    {
        Arc::strong_count(&self.cells)
    }
}

impl Clone for BackingStore {
    /// Duplicate the handle: the region's reference count rises by one and
    /// both handles address the same bytes.
    fn clone(&self) -> (r: Self)
        ensures
            r == *self,
    {
        BackingStore {
            cells: clone_cells(&self.cells),
            byte_length: self.byte_length,
            shared: self.shared,
        }
    }
}

/// Relies on std::sync::Mutex::new: wraps the byte vector in the foreign
/// runtime's lock. The result is opaque, so nothing is stated of it here; the
/// accessors of [`BackingStore`] carry the contracts.
#[verifier::external_body]
fn new_cells(bytes: Vec<u8>) -> Mutex<Vec<u8>>
{
    Mutex::new(bytes)
}

/// Relies on std::sync::Arc::clone: a new counted handle to the same
/// allocation, hence to the same value.
#[verifier::external_body]
fn clone_cells(cells: &Arc<Mutex<Vec<u8>>>) -> (r: Arc<Mutex<Vec<u8>>>)
    ensures
        r == *cells,
{
    cells.clone()
}

/// The foreign runtime's view object: a window with its own byte offset and
/// byte length into a memory object. The runtime only hands out views that
/// fit inside their buffer, which is what [`BufferView::new`] enforces.
pub struct BufferView {
    /// The memory object under the view.
    pub buffer: BackingStore,
    /// Where the window starts inside the memory object, in bytes.
    pub byte_offset: usize,
    /// How long the window is, in bytes.
    pub byte_length: usize,
}

impl BufferView {
    /// The window fits inside the memory object.
    pub open spec fn wf(&self) -> bool {
        self.byte_offset + self.byte_length <= self.buffer.spec_len()
    }

    /// Make a view over `[byte_offset, byte_offset + byte_length)` of the
    /// given region; refused when the window does not fit.
    pub fn new(buffer: BackingStore, byte_offset: usize, byte_length: usize) -> (r: Option<
        BufferView,
    >)
        ensures
            byte_offset + byte_length <= buffer.spec_len() ==> (r matches Some(v) && v.wf()
                && v.buffer == buffer && v.byte_offset == byte_offset && v.byte_length
                == byte_length),
            byte_offset + byte_length > buffer.spec_len() ==> r is None,
    {
        if byte_length <= buffer.len() && byte_offset <= buffer.len() - byte_length {
            Some(BufferView { buffer, byte_offset, byte_length })
        } else {
            None
        }
    }
}

/// A shared, counted window onto a [`BackingStore`], readable and writable as
/// plain bytes. The handle it holds keeps the underlying region resident; it
/// behaves much like a counted byte slice.
///
/// Cloning a `ZeroCopyBuf` does not clone the contents of the region, it
/// creates a new reference to the same region over the same window.
pub struct ZeroCopyBuf {
    /// The counted handle that keeps the region alive.
    pub backing_store: BackingStore,
    /// Where the window starts inside the region, in bytes.
    pub byte_offset: usize,
    /// How long the window is, in bytes.
    pub byte_length: usize,
}

impl ZeroCopyBuf {
    /// The window fits inside the region, and the region is not shared
    /// between foreign contexts: the two facts construction establishes and
    /// every access relies on.
    pub open spec fn wf(&self) -> bool {
        &&& self.byte_offset + self.byte_length <= self.backing_store.spec_len()
        &&& !self.backing_store.spec_shared()
    }

    /// Borrow the view's region and window. Fails with a type mismatch,
    /// naming the kind found and the kind required, when the memory object is
    /// shared between foreign contexts: the byte window below assumes no
    /// uncoordinated foreign mutation. No handle is retained on failure.
    pub fn try_new(view: &BufferView) -> (r: Result<ZeroCopyBuf, DataError>)
        requires
            view.wf(),
        ensures
            view.buffer.spec_shared() ==> (r matches Err(DataError::BadType { actual, expected })
                && actual@ == "shared ArrayBufferView"@ && expected@
                == "non-shared ArrayBufferView"@),
            !view.buffer.spec_shared() ==> (r matches Ok(b) && b.wf() && b.backing_store
                == view.buffer && b.byte_offset == view.byte_offset && b.byte_length
                == view.byte_length),
    {
        let backing_store = view.buffer.clone();
        if backing_store.is_shared() {
            return Err(
                DataError::BadType {
                    actual: "shared ArrayBufferView",
                    expected: "non-shared ArrayBufferView",
                },
            );
        }
        Ok(ZeroCopyBuf { backing_store, byte_offset: view.byte_offset, byte_length: view.byte_length })
    }

    /// Borrow the view's region and window unconditionally, for call sites
    /// that have already established that the memory object is not shared.
    pub fn new(view: &BufferView) -> (b: ZeroCopyBuf)
        requires
            view.wf(),
            !view.buffer.spec_shared(),
        ensures
            b.wf(),
            b.backing_store == view.buffer,
            b.byte_offset == view.byte_offset,
            b.byte_length == view.byte_length,
    {
        match Self::try_new(view) {
            Ok(b) => b,
            Err(_) => vstd::pervasive::unreached(),
        }
    }

    /// The length of the window in bytes.
    pub fn len(&self) -> (r: usize)
        ensures
            r == self.byte_length,
    {
        self.byte_length
    }

    /// The window's bytes at the moment of the read: exactly
    /// `[byte_offset, byte_offset + byte_length)` of the region, copied out.
    /// The contents are whatever the latest writes through aliasing handles
    /// left there, so only the length is pinned here; the windowing itself is
    /// [`window_of`], with its exact contract.
    pub fn read_bytes(&self) -> (r: Vec<u8>)
        requires
            self.wf(),
        ensures
            r@.len() == self.byte_length,
    {
        let snap = self.backing_store.snapshot();
        window_of(&snap, self.byte_offset, self.byte_length)
    }

    /// One byte of the window. The value is whatever the latest write
    /// through any aliasing handle left at `byte_offset + index`.
    pub fn byte_at(&self, index: usize) -> u8
        requires
            self.wf(),
            index < self.byte_length,
    {
        self.backing_store.load_byte(self.byte_offset + index)
    }

    /// Write one byte of the window, observable by a subsequent read through
    /// any handle whose window covers `byte_offset + index`. The handle and
    /// the window themselves do not change.
    pub fn write_byte(&mut self, index: usize, value: u8)
        requires
            old(self).wf(),
            index < old(self).byte_length,
        ensures
            *final(self) == *old(self),
    {
        self.backing_store.store_byte(self.byte_offset + index, value);
    }

    /// Write one byte over the whole window, observable like
    /// [`Self::write_byte`]. The handle and the window themselves do not
    /// change.
    pub fn fill(&mut self, value: u8)
        requires
            old(self).wf(),
        ensures
            *final(self) == *old(self),
    {
        let mut index: usize = 0;
        while index < self.byte_length
            invariant
                *self == *old(self),
                old(self).wf(),
                index <= self.byte_length,
            decreases self.byte_length - index,
        {
            self.backing_store.store_byte(self.byte_offset + index, value);
            index = index + 1;
        }
    }
}

impl Clone for ZeroCopyBuf {
    /// Duplicate the handle and copy the window, never the bytes: the clone
    /// addresses the same region over the same window, and the region's
    /// reference count rises by one.
    fn clone(&self) -> (r: Self)
        ensures
            r == *self,
    {
        ZeroCopyBuf {
            backing_store: self.backing_store.clone(),
            byte_offset: self.byte_offset,
            byte_length: self.byte_length,
        }
    }
}

/// The window `[offset, offset + length)` of a byte vector, copied out
/// byte for byte.
pub fn window_of(bytes: &Vec<u8>, offset: usize, length: usize) -> (r: Vec<u8>)
    requires
        offset + length <= bytes@.len(),
    ensures
        r@ == bytes@.subrange(offset as int, offset as int + length as int),
{
    let total: usize = bytes.len();
    let mut r: Vec<u8> = Vec::new();
    let mut index: usize = 0;
    while index < length
        invariant
            index <= length,
            offset + length <= total,
            total == bytes@.len(),
            r@ == bytes@.subrange(offset as int, offset as int + index as int),
        decreases length - index,
    {
        r.push(bytes[offset + index]);
        index = index + 1;
        proof {
            assert(r@ =~= bytes@.subrange(offset as int, offset as int + index as int));
        }
    }
    r
}

} // verus!
