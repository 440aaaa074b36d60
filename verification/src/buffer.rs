//! Frame buffers and the scoped lock on their pixel memory.
//!
//! Whoever holds a [`LockGuard`] holds the buffer: the guard is made from
//! the buffer by value and gives it back when it is unlocked. So a buffer
//! has at most one guard, and nothing of a guard can be used after the
//! unlock.

use vstd::prelude::*;
use crate::error::SCError;
use crate::handle::{NativeHandle, OwnedHandle};

verus! {

/// The access that a lock is taken for.
#[derive(Debug, Clone, Copy, PartialEq, Eq, Structural, Hash)]
pub enum PixelBufferLockFlags {
    ReadOnly,
    ReadWrite,
}

impl PixelBufferLockFlags {
    /// The option bits of the native lock and unlock calls.
    pub open spec fn bits(self) -> u32 {
        match self {
            PixelBufferLockFlags::ReadOnly => 1,
            PixelBufferLockFlags::ReadWrite => 0,
        }
    }

    /// The option bits of the native lock and unlock calls: 1 for read-only
    /// access, 0 for read-write.
    pub fn as_u32(self) -> (b: u32)
        ensures
            b == self.bits(),
    {
        match self {
            PixelBufferLockFlags::ReadOnly => 1,
            PixelBufferLockFlags::ReadWrite => 0,
        }
    }
}

/// Where one plane of pixel memory lies, as the native layer reports it
/// for a locked surface.
#[derive(Debug, Clone, Copy, PartialEq, Eq, Structural)]
pub struct PlaneLayout {
    pub base_address: usize,
    pub bytes_per_row: usize,
    pub width: usize,
    pub height: usize,
}

/// Where the pixel memory of a locked surface lies: the whole surface, and
/// each plane of a multi-planar format.
#[derive(Debug)]
pub struct SurfaceLayout {
    pub whole: PlaneLayout,
    pub planes: Vec<PlaneLayout>,
}

/// One delivered frame: the sample, and its pixel surface if it has one.
#[derive(Debug)]
pub struct FrameBuffer {
    sample: OwnedHandle,
    surface: Option<NativeHandle>,
    source_id: u32,
    width: usize,
    height: usize,
}

/// A native call to make on a surface: the handle and the option bits.
#[derive(Debug, Clone, Copy, PartialEq, Eq, Structural)]
pub struct SurfaceCall {
    pub surface: NativeHandle,
    pub options: u32,
}

impl FrameBuffer {
    /// The sample that the frame owns.
    pub closed spec fn sample_of(&self) -> OwnedHandle {
        self.sample
    }

    /// The pixel surface, if the frame has one.
    pub closed spec fn surface_of(&self) -> Option<NativeHandle> {
        self.surface
    }

    /// The id of the display or window that the frame shows.
    pub closed spec fn source_of(&self) -> u32 {
        self.source_id
    }

    /// Width and height in pixels.
    pub closed spec fn dimensions(&self) -> (usize, usize) {
        (self.width, self.height)
    }

    /// Whether a lock is granted when the native lock call reports `status`.
    pub open spec fn lockable(&self, status: i32) -> bool {
        self.surface_of() is Some && status == 0
    }

    /// A frame over `sample`. A null `surface` means that the sample carries
    /// no pixel surface.
    pub fn new(
        sample: OwnedHandle,
        surface: NativeHandle,
        source_id: u32,
        width: usize,
        height: usize,
    ) -> (frame: Self)
        ensures
            frame.sample_of() == sample,
            frame.surface_of() == (if surface.addr == 0 {
                None
            } else {
                Some(surface)
            }),
            frame.source_of() == source_id,
            frame.dimensions() == (width, height),
    {
        let surface = if surface.is_null() {
            None
        } else {
            Some(surface)
        };
        FrameBuffer { sample, surface, source_id, width, height }
    }

    /// The sample handle, for native calls.
    pub fn sample(&self) -> (h: NativeHandle)
        ensures
            h == self.sample_of().raw(),
    {
        self.sample.as_raw()
    }

    /// The pixel surface, if the frame has one.
    pub fn surface(&self) -> (s: Option<NativeHandle>)
        ensures
            s == self.surface_of(),
    {
        self.surface
    }

    /// The id of the display or window that the frame shows.
    pub fn source_id(&self) -> (id: u32)
        ensures
            id == self.source_of(),
    {
        self.source_id
    }

    /// Width in pixels.
    pub fn width(&self) -> (w: usize)
        ensures
            w == self.dimensions().0,
    {
        self.width
    }

    /// Height in pixels.
    pub fn height(&self) -> (h: usize)
        ensures
            h == self.dimensions().1,
    {
        self.height
    }

    /// The native lock call to make for `mode`, if there is a surface to lock.
    pub fn lock_call(&self, mode: PixelBufferLockFlags) -> (call: Option<SurfaceCall>)
        ensures
            call == match self.surface_of() {
                Some(surface) => Some(SurfaceCall { surface, options: mode.bits() }),
                None => None,
            },
    {
        match self.surface {
            Some(surface) => Some(SurfaceCall { surface, options: mode.as_u32() }),
            None => None,
        }
    }

    /// Locks the pixel memory for `mode`, given the `status` that the native
    /// lock call reported and the `layout` it reported with it. The lock is
    /// granted if there is a surface and the status is 0. Else it fails with
    /// `LockFailed` and the buffer is handed back as it was.
    pub fn lock(self, mode: PixelBufferLockFlags, status: i32, layout: SurfaceLayout) -> (r: Result<
        LockGuard,
        (SCError, FrameBuffer),
    >)
        ensures
            r is Ok <==> self.lockable(status),
            r is Ok ==> {
                &&& r->Ok_0.buffer() == self
                &&& r->Ok_0.mode_of() == mode
                &&& r->Ok_0.layout() == layout
            },
            r is Err ==> r == Err::<LockGuard, (SCError, FrameBuffer)>((SCError::LockFailed, self)),
    {
        if self.surface.is_some() && status == 0 {
            Ok(LockGuard { buffer: self, mode, layout })
        } else {
            Err((SCError::LockFailed, self))
        }
    }

    /// Ends the frame and hands out its sample for release.
    pub fn into_sample(self) -> (sample: OwnedHandle)
        ensures
            sample == self.sample_of(),
    {
        self.sample
    }
}

/// The proof that a buffer's pixel memory is locked, and the only way to
/// its addresses.
#[derive(Debug)]
pub struct LockGuard {
    buffer: FrameBuffer,
    mode: PixelBufferLockFlags,
    layout: SurfaceLayout,
}

impl LockGuard {
    /// The buffer that is locked.
    pub closed spec fn buffer(&self) -> FrameBuffer {
        self.buffer
    }

    /// The access that the lock was taken for.
    pub closed spec fn mode_of(&self) -> PixelBufferLockFlags {
        self.mode
    }

    /// Where the locked memory lies.
    pub closed spec fn layout(&self) -> SurfaceLayout {
        self.layout
    }

    /// The access that the lock was taken for.
    pub fn mode(&self) -> (m: PixelBufferLockFlags)
        ensures
            m == self.mode_of(),
    {
        self.mode
    }

    /// The address of the first pixel.
    pub fn base_address(&self) -> (a: usize)
        ensures
            a == self.layout().whole.base_address,
    {
        self.layout.whole.base_address
    }

    /// The row stride in bytes.
    pub fn bytes_per_row(&self) -> (n: usize)
        ensures
            n == self.layout().whole.bytes_per_row,
    {
        self.layout.whole.bytes_per_row
    }

    /// Width in pixels.
    pub fn width(&self) -> (w: usize)
        ensures
            w == self.layout().whole.width,
    {
        self.layout.whole.width
    }

    /// Height in pixels.
    pub fn height(&self) -> (h: usize)
        ensures
            h == self.layout().whole.height,
    {
        self.layout.whole.height
    }

    /// How many bytes the locked memory spans: stride times height. `None`
    /// if that does not fit in an address.
    pub fn data_len(&self) -> (n: Option<usize>)
        ensures
            n is Some <==> self.layout().whole.bytes_per_row * self.layout().whole.height
                <= usize::MAX,
            n is Some ==> n->Some_0 == self.layout().whole.bytes_per_row
                * self.layout().whole.height,
    {
        self.layout.whole.bytes_per_row.checked_mul(self.layout.whole.height)
    }

    /// How many planes a multi-planar surface has; 0 for a packed format.
    pub fn plane_count(&self) -> (n: usize)
        ensures
            n == self.layout().planes@.len(),
    {
        self.layout.planes.len()
    }

    /// The layout of plane `index`, if there is such a plane.
    pub fn plane(&self, index: usize) -> (p: Option<PlaneLayout>)
        ensures
            p == (if index < self.layout().planes@.len() {
                Some(self.layout().planes@[index as int])
            } else {
                None
            }),
    {
        if index < self.layout.planes.len() {
            Some(self.layout.planes[index])
        } else {
            None
        }
    }

    /// Ends the lock. The buffer comes back as it was before the lock, with
    /// the native unlock call to make, once, with the lock's option bits.
    pub fn unlock(self) -> (r: (FrameBuffer, Option<SurfaceCall>))
        ensures
            r.0 == self.buffer(),
            r.1 == match self.buffer().surface_of() {
                Some(surface) => Some(SurfaceCall { surface, options: self.mode_of().bits() }),
                None => None,
            },
    {
        let call = self.buffer.lock_call(self.mode);
        (self.buffer, call)
    }
}

/// What a native unlock call that reported `status` comes to: a failure
/// unless the status is 0.
pub fn unlock_result(status: i32) -> (r: Result<(), SCError>)
    ensures
        r == (if status == 0 {
            Ok::<(), SCError>(())
        } else {
            Err::<(), SCError>(SCError::LockFailed)
        }),
{
    if status == 0 {
        Ok(())
    } else {
        Err(SCError::LockFailed)
    }
}

/// A lock leaves nothing behind: whether a buffer can be locked depends on
/// the buffer and on what the native layer reports, and the buffer that an
/// unlock hands back is the buffer that was locked. So after a lock and its
/// unlock, a second lock is granted whenever the native layer grants it.
pub proof fn lemma_relock_after_unlock(
    buffer: FrameBuffer,
    guard: LockGuard,
    first_status: i32,
    second_status: i32,
)
    requires
        buffer.lockable(first_status),
        guard.buffer() == buffer,
        second_status == 0,
    ensures
        guard.buffer().lockable(second_status),
{
}

} // verus!
