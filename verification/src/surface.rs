//! The surface: a pixel buffer that the painting process writes and the compositing process
//! binds to a texture, together with the record of who still owes its disposal.

use vstd::prelude::*;
use crate::context::{NativeCompositingGraphicsContext, NativePaintingGraphicsContext, NO_HANDLE};
use crate::driver;
use crate::error::SurfaceError;
use crate::geometry::Size2D;
use crate::memory;
use crate::state::SurfaceState;
use crate::texture::Texture;

verus! {

/// Bytes that one pixel takes. Surfaces hold 32-bit pixels; the number is a property of the
/// format and is never worked out from a stride and a width.
pub const BYTES_PER_PIXEL: i32 = 4;

/// The value of the driver's error flag when nothing has gone wrong.
pub const NO_ERROR: u32 = 0;

/// Optional payload that accompanies a surface when it is handed to the other process.
/// Further variants may be added; none is ever taken away.
#[derive(Clone, Copy, Debug, PartialEq, Eq, Structural)]
pub enum NativeSurfaceTransientData {
    NoTransientData,
}

/// What is reported when a surface is torn down while its disposal is still owed.
#[derive(Clone, Copy, Debug, PartialEq, Eq, Structural)]
pub struct LeakDiagnostic {
    /// The identity of the surface that would leak.
    pub surface_id: isize,
}

/// Whether a surface of this width and height can have rows of `stride` bytes.
pub open spec fn valid_dimensions(width: int, height: int, stride: int) -> bool {
    &&& width > 0
    &&& height > 0
    &&& stride >= width * BYTES_PER_PIXEL
}

/// The number of bytes behind a surface of `height` rows of `stride` bytes.
pub open spec fn buffer_len(height: int, stride: int) -> int {
    height * stride
}

/// What a surface is, to its callers.
pub struct SurfaceView {
    /// The identity that stands for the surface in both processes: the handle of the
    /// native resource behind it, or `NO_HANDLE` once the surface has been disposed of.
    pub id: isize,
    pub width: i32,
    pub height: i32,
    /// Bytes from the start of one row to the start of the next.
    pub stride: i32,
    /// The bytes of the backing buffer that this process holds, row after row.
    pub pixels: Seq<u8>,
    pub state: SurfaceState,
}

impl SurfaceView {
    /// Whether the surface has no extent in this process: it wraps a handle from the other
    /// process, or its buffer has been released.
    pub open spec fn is_empty(self) -> bool {
        &&& self.width == 0
        &&& self.height == 0
        &&& self.stride == 0
    }

    pub open spec fn wf(self) -> bool {
        &&& self.pixels.len() == buffer_len(self.height as int, self.stride as int)
        &&& self.is_empty() || valid_dimensions(
            self.width as int,
            self.height as int,
            self.stride as int,
        )
        &&& self.state.is_terminal() ==> self.is_empty() && self.id == NO_HANDLE
        &&& !self.is_empty() ==> self.id != NO_HANDLE
    }

    /// A surface just allocated under the identity `id`, with `pixels` behind it.
    pub open spec fn allocated(id: isize, size: Size2D<i32>, stride: i32, pixels: Seq<u8>)
        -> SurfaceView {
        SurfaceView {
            id,
            width: size.width,
            height: size.height,
            stride,
            pixels,
            state: SurfaceState::OwnedTracked,
        }
    }

    /// A surface that wraps the handle `id` received from the other process.
    pub open spec fn wrapped(id: isize) -> SurfaceView {
        SurfaceView {
            id,
            width: 0,
            height: 0,
            stride: 0,
            pixels: Seq::empty(),
            state: SurfaceState::OwnedPending,
        }
    }

    /// The surface after `data` has been written over its buffer.
    pub open spec fn uploaded(self, data: Seq<u8>) -> SurfaceView {
        SurfaceView { pixels: data, ..self }
    }

    /// The surface in the state `state`, everything else as it was.
    pub open spec fn in_state(self, state: SurfaceState) -> SurfaceView {
        SurfaceView { state, ..self }
    }

    /// The surface after disposal: the buffer is gone, and the identity with it.
    pub open spec fn disposed(self) -> SurfaceView {
        SurfaceView {
            id: NO_HANDLE,
            width: 0,
            height: 0,
            stride: 0,
            pixels: Seq::empty(),
            state: self.state.destroyed(),
        }
    }

    /// What tearing the surface down reports.
    pub open spec fn teardown(self) -> Result<(), LeakDiagnostic> {
        if self.state.will_leak() {
            Err(LeakDiagnostic { surface_id: self.id })
        } else {
            Ok(())
        }
    }
}

/// A buffer of `len` bytes, all zero.
pub open spec fn blank(len: int) -> Seq<u8> {
    Seq::new(len as nat, |i: int| 0u8)
}

/// A pixel buffer that can be written by the painting process and bound to a texture by
/// the compositing process.
#[derive(Debug)]
pub struct NativeSurface {
    pixmap: isize,
    size: Size2D<i32>,
    stride: i32,
    pixels: Vec<u8>,
    state: SurfaceState,
}

impl View for NativeSurface {
    type V = SurfaceView;

    closed spec fn view(&self) -> SurfaceView {
        SurfaceView {
            id: self.pixmap,
            width: self.size.width,
            height: self.size.height,
            stride: self.stride,
            pixels: self.pixels@,
            state: self.state,
        }
    }
}

/// Tells whether a surface of this size can have rows of `stride` bytes.
pub fn check_dimensions(size: Size2D<i32>, stride: i32) -> (valid: bool)
    ensures
        valid == valid_dimensions(size.width as int, size.height as int, stride as int),
{
    size.width > 0 && size.height > 0 && (stride as i64) >= (size.width as i64) * (
    BYTES_PER_PIXEL as i64)
}

/// The number of bytes behind a surface of valid dimensions.
fn backing_len(size: Size2D<i32>, stride: i32) -> (len: u64)
    requires
        valid_dimensions(size.width as int, size.height as int, stride as int),
    ensures
        len == buffer_len(size.height as int, stride as int),
        len > 0,
{
    let rows = size.height as u64;
    let row = stride as u64;
    assert(0 < rows * row <= 0x7fff_ffff * 0x7fff_ffff) by (nonlinear_arith)
        requires
            0 < rows <= 0x7fff_ffff,
            0 < row <= 0x7fff_ffff,
    ;
    rows * row
}

/// Obtains `len` zeroed bytes, or `None` where the allocator has no room for them. Whether
/// it has is for the allocator to say; `blank_if_reserved` tells what is made of its answer.
fn allocate_blank(len: usize) -> (buffer: Option<Vec<u8>>)
    ensures
        buffer matches Some(bytes) ==> bytes@ == blank(len as int),
{
    let mut bytes: Vec<u8> = Vec::new();
    let reserved = bytes.try_reserve(len).is_ok();
    let buffer = blank_if_reserved(reserved, bytes, len);
    assert(Seq::<u8>::empty() + blank(len as int) =~= blank(len as int));
    buffer
}

/// What a reservation yields: where the allocator granted the room, the bytes of `bytes`
/// followed by `len` zeroed bytes; where it refused, nothing.
fn blank_if_reserved(reserved: bool, bytes: Vec<u8>, len: usize) -> (buffer: Option<Vec<u8>>)
    ensures
        reserved ==> (buffer matches Some(filled) && filled@ == bytes@ + blank(len as int)),
        !reserved ==> buffer is None,
{
    if !reserved {
        return None;
    }
    let mut filled = bytes;
    let mut count: usize = 0;
    assert(filled@ =~= bytes@ + blank(0));
    while count < len
        invariant
            count <= len,
            filled@ == bytes@ + blank(count as int),
        decreases len - count,
    {
        filled.push(0u8);
        assert(filled@ =~= bytes@ + blank(count + 1));
        count = count + 1;
    }
    Some(filled)
}

/// Writes `data` over `buffer`, byte for byte, and hands the buffer back. No memory is
/// allocated or released: the buffer that comes back is the one that went in.
fn overwrite(buffer: Vec<u8>, data: &[u8]) -> (written: Vec<u8>)
    requires
        buffer@.len() == data@.len(),
    ensures
        written@ == data@,
{
    let mut written = buffer;
    let len = data.len();
    let mut at: usize = 0;
    while at < len
        invariant
            at <= len,
            len == data@.len(),
            len == written@.len(),
            forall|i: int| 0 <= i < at ==> written@[i] == data@[i],
        decreases len - at,
    {
        written.set(at, data[at]);
        at = at + 1;
    }
    assert(written@ =~= data@);
    written
}

/// What becomes of an attempt to bind, given the driver's answer to the attachment and the
/// error flag it left: the binding stands only if the driver attached the surface and
/// flagged no error.
pub fn bind_outcome(attached: bool, status: u32) -> (bound: Result<(), SurfaceError>)
    ensures
        bound == if attached && status == NO_ERROR {
            Ok::<(), SurfaceError>(())
        } else {
            Err::<(), SurfaceError>(SurfaceError::BindFailed)
        },
{
    if attached && status == NO_ERROR {
        Ok(())
    } else {
        Err(SurfaceError::BindFailed)
    }
}

impl NativeSurface {
    #[verifier::type_invariant]
    pub closed spec fn inv(self) -> bool {
        self@.wf()
    }

    /// Wraps a handle received from the other process. Nothing is allocated. Who disposes
    /// of the surface is not settled by the transfer, so the surface starts out pending.
    pub fn from_eglsurface(surface: isize) -> (wrapped: NativeSurface)
        ensures
            wrapped@ == SurfaceView::wrapped(surface),
            wrapped@.wf(),
    {
        NativeSurface {
            pixmap: surface,
            size: Size2D { width: 0, height: 0 },
            stride: 0,
            pixels: Vec::new(),
            state: SurfaceState::OwnedPending,
        }
    }

    /// Makes a surface of the given dimensions around `buffer`. The surface is tracked: the
    /// caller is its disposer. Its identity is the address of the memory behind `buffer`,
    /// which the allocator chose; no two buffers that are allocated at the same time share
    /// one, but that is the allocator's doing and nothing here proves it.
    pub fn from_buffer(
        _native_context: &NativePaintingGraphicsContext,
        size: Size2D<i32>,
        stride: i32,
        buffer: Vec<u8>,
    ) -> (made: Result<NativeSurface, SurfaceError>)
        ensures
            match made {
                Ok(surface) => {
                    &&& valid_dimensions(size.width as int, size.height as int, stride as int)
                    &&& buffer@.len() == buffer_len(size.height as int, stride as int)
                    &&& surface@ == SurfaceView::allocated(surface@.id, size, stride, buffer@)
                    &&& surface@.id != NO_HANDLE
                    &&& surface@.wf()
                },
                Err(error) => {
                    if !valid_dimensions(size.width as int, size.height as int, stride as int) {
                        error == SurfaceError::InvalidDimensions
                    } else {
                        &&& error == SurfaceError::SizeMismatch
                        &&& buffer@.len() != buffer_len(size.height as int, stride as int)
                    }
                },
            },
    {
        if !check_dimensions(size, stride) {
            return Err(SurfaceError::InvalidDimensions);
        }
        let len = backing_len(size, stride);
        if buffer.len() as u64 != len {
            return Err(SurfaceError::SizeMismatch);
        }
        let id = memory::buffer_address(&buffer);
        Ok(
            NativeSurface {
                pixmap: id,
                size,
                stride,
                pixels: buffer,
                state: SurfaceState::OwnedTracked,
            },
        )
    }

    /// Allocates a surface of `size.height` rows of `stride` bytes, zeroed. Dimensions that
    /// are not valid are rejected; with valid dimensions the surface is made unless the
    /// allocator has no room for it. The identity of the surface is the address of its
    /// buffer, as `from_buffer` says.
    pub fn new(native_context: &NativePaintingGraphicsContext, size: Size2D<i32>, stride: i32)
        -> (made: Result<NativeSurface, SurfaceError>)
        ensures
            match made {
                Ok(surface) => {
                    &&& valid_dimensions(size.width as int, size.height as int, stride as int)
                    &&& surface@ == SurfaceView::allocated(
                        surface@.id,
                        size,
                        stride,
                        blank(buffer_len(size.height as int, stride as int)),
                    )
                    &&& surface@.id != NO_HANDLE
                    &&& surface@.wf()
                },
                Err(error) => error == if valid_dimensions(
                    size.width as int,
                    size.height as int,
                    stride as int,
                ) {
                    SurfaceError::AllocationFailed
                } else {
                    SurfaceError::InvalidDimensions
                },
            },
    {
        if !check_dimensions(size, stride) {
            return Err(SurfaceError::InvalidDimensions);
        }
        let len = backing_len(size, stride);
        if len > usize::MAX as u64 {
            return Err(SurfaceError::AllocationFailed);
        }
        match allocate_blank(len as usize) {
            Some(buffer) => NativeSurface::from_buffer(native_context, size, stride, buffer),
            None => Err(SurfaceError::AllocationFailed),
        }
    }

    /// Attaches the surface to `texture` as the source of its pixels, without copying them.
    /// Only the compositing process can do this. The driver is handed the display of the
    /// context and the identity of the surface, never the bytes: it has to know the identity
    /// as one of its own surfaces. A surface that has been disposed of has nothing to
    /// attach; otherwise the driver decides, and `bind_outcome` tells what is made of its
    /// answer.
    pub fn bind_to_texture(
        &self,
        native_context: &NativeCompositingGraphicsContext,
        texture: &Texture,
        _size: Size2D<isize>,
    ) -> (bound: Result<(), SurfaceError>)
        ensures
            bound matches Err(error) ==> error == SurfaceError::BindFailed,
            self@.state.is_terminal() ==> bound is Err,
    {
        match self.state {
            SurfaceState::Disposed => Err(SurfaceError::BindFailed),
            _ => {
                driver::bind_texture(texture.id());
                let attached = driver::bind_tex_image(native_context.display(), self.pixmap);
                let status = driver::last_error();
                bind_outcome(attached, status)
            },
        }
    }

    /// Writes `data` over the backing buffer, in place: the buffer stays where it is, and so
    /// does the identity of the surface. Only the painting process can do this. The data
    /// must have exactly the length of the buffer; otherwise nothing is written.
    pub fn upload(&mut self, _graphics_context: &NativePaintingGraphicsContext, data: &[u8]) -> (done:
        Result<(), SurfaceError>)
        ensures
            old(self)@.wf(),
            final(self)@.wf(),
            data@.len() == buffer_len(old(self)@.height as int, old(self)@.stride as int) ==> done
                == Ok::<(), SurfaceError>(()) && final(self)@ == old(self)@.uploaded(data@),
            data@.len() != buffer_len(old(self)@.height as int, old(self)@.stride as int) ==> done
                == Err::<(), SurfaceError>(SurfaceError::SizeMismatch) && final(self)@ == old(
                self,
            )@,
    {
        proof {
            use_type_invariant(&*self);
        }
        if data.len() != self.pixels.len() {
            return Err(SurfaceError::SizeMismatch);
        }
        let mut taken = NativeSurface::from_eglsurface(NO_HANDLE);
        core::mem::swap(self, &mut taken);
        let NativeSurface { pixmap, size, stride, pixels, state } = taken;
        let pixels = overwrite(pixels, data);
        *self = NativeSurface { pixmap, size, stride, pixels, state };
        Ok(())
    }

    /// The identity of the surface: the one value that crosses the process boundary. It
    /// stays the same from the making of the surface to its disposal, whatever is uploaded
    /// or marked in between. It does not outlive the disposal: the resource behind it is
    /// gone then and its handle may be given out again, so a surface that has been disposed
    /// of answers `NO_HANDLE`.
    pub fn get_id(&self) -> (id: isize)
        ensures
            id == self@.id,
    {
        self.pixmap
    }

    /// Disposes of the surface: releases the buffer that this process holds for it, records
    /// the disposal and invalidates the identity. Only the painting process can do this.
    ///
    /// Two uses are errors of the caller. A surface is disposed of once: disposing of it
    /// again is ruled out by the precondition. And a surface that wraps a handle from the
    /// other process is not this process's to dispose of: this process never allocated its
    /// buffer, so nothing is released by the call, here or in the other process. The call
    /// only makes this surface count as disposed, and whoever allocated the buffer still
    /// has to release it. Use `mark_wont_leak` to give up such a surface.
    pub fn destroy(&mut self, _graphics_context: &NativePaintingGraphicsContext)
        requires
            !old(self)@.state.is_terminal(),
        ensures
            final(self)@ == old(self)@.disposed(),
            final(self)@.state == SurfaceState::Disposed,
            final(self)@.id == NO_HANDLE,
            final(self)@.wf(),
    {
        *self = NativeSurface {
            pixmap: NO_HANDLE,
            size: Size2D { width: 0, height: 0 },
            stride: 0,
            pixels: Vec::new(),
            state: SurfaceState::Disposed,
        };
    }

    /// Declares that the disposal of the surface is owed by its holder. The buffer is not
    /// touched. A surface that has been disposed of stays so.
    pub fn mark_will_leak(&mut self)
        ensures
            final(self)@ == old(self)@.in_state(old(self)@.state.marked_will_leak()),
            old(self)@.wf(),
            final(self)@.wf(),
    {
        proof {
            use_type_invariant(&*self);
        }
        self.state = self.state.with_leak_marked();
    }

    /// Declares that the disposal of the surface is not owed by its holder, as when the
    /// other process will dispose of it. The buffer is not touched, and not released.
    pub fn mark_wont_leak(&mut self)
        ensures
            final(self)@ == old(self)@.in_state(old(self)@.state.marked_wont_leak()),
            old(self)@.wf(),
            final(self)@.wf(),
    {
        proof {
            use_type_invariant(&*self);
        }
        self.state = self.state.with_leak_waived();
    }

    /// Gives the surface up. A surface whose disposal is still owed must not be given up:
    /// for such a surface the diagnostic that names it is returned, and the caller is
    /// expected to stop the program with it. No buffer is released here.
    pub fn teardown(self) -> (report: Result<(), LeakDiagnostic>)
        ensures
            report == self@.teardown(),
            self@.wf(),
    {
        proof {
            use_type_invariant(&self);
        }
        if self.state.leaks() {
            Err(LeakDiagnostic { surface_id: self.pixmap })
        } else {
            Ok(())
        }
    }

    /// The disposal-tracking flag: whether giving the surface up now would leak it.
    pub fn will_leak(&self) -> (flag: bool)
        ensures
            flag == self@.state.will_leak(),
    {
        self.state.leaks()
    }

    pub fn state(&self) -> (state: SurfaceState)
        ensures
            state == self@.state,
            self@.wf(),
    {
        proof {
            use_type_invariant(self);
        }
        self.state
    }

    pub fn size(&self) -> (size: Size2D<i32>)
        ensures
            size.width == self@.width,
            size.height == self@.height,
            self@.wf(),
    {
        proof {
            use_type_invariant(self);
        }
        self.size
    }

    pub fn stride(&self) -> (stride: i32)
        ensures
            stride == self@.stride,
            self@.wf(),
    {
        proof {
            use_type_invariant(self);
        }
        self.stride
    }

    /// The bytes of the backing buffer that this process holds.
    pub fn pixels(&self) -> (bytes: &Vec<u8>)
        ensures
            bytes@ == self@.pixels,
            self@.wf(),
    {
        proof {
            use_type_invariant(self);
        }
        &self.pixels
    }
}

/// A surface allocated with valid dimensions holds exactly `height * stride` bytes and is
/// tracked: its allocator is accounted for as its disposer.
pub proof fn lemma_allocation_is_exact_and_tracked(id: isize, size: Size2D<i32>, stride: i32)
    requires
        valid_dimensions(size.width as int, size.height as int, stride as int),
        id != NO_HANDLE,
    ensures
        ({
            let len = buffer_len(size.height as int, stride as int);
            let made = SurfaceView::allocated(id, size, stride, blank(len));
            &&& len > 0
            &&& made.pixels.len() == len
            &&& made.state == SurfaceState::OwnedTracked
            &&& !made.state.will_leak()
            &&& made.id == id
            &&& made.wf()
        }),
{
    let rows = size.height as int;
    let row = stride as int;
    assert(rows * row > 0) by (nonlinear_arith)
        requires
            rows > 0,
            row > 0,
    ;
}

/// Tearing a surface down reports a leak exactly when its disposal is still owed, and the
/// report names the surface. A surface that has been disposed of is torn down silently,
/// whatever its state was before the disposal.
pub proof fn lemma_teardown_reports_pending_only(surface: SurfaceView)
    ensures
        surface.teardown() is Err <==> surface.state == SurfaceState::OwnedPending,
        surface.teardown() matches Err(report) ==> report.surface_id == surface.id,
        surface.disposed().teardown() is Ok,
{
}

/// Disposal takes a surface in any state that is not terminal to the terminal state and
/// leaves neither a buffer nor an identity behind.
pub proof fn lemma_disposal_is_terminal(surface: SurfaceView)
    requires
        !surface.state.is_terminal(),
    ensures
        surface.disposed().state == SurfaceState::Disposed,
        surface.disposed().id == NO_HANDLE,
        surface.disposed().pixels.len() == 0,
        surface.disposed().wf(),
{
}

/// After an upload the buffer holds exactly the bytes that were written last, whatever it
/// held before; identity, dimensions and state are as they were. This speaks of the buffer
/// in this process only: what a texture shows after a binding is the driver's matter.
pub proof fn lemma_upload_replaces_pixels(surface: SurfaceView, first: Seq<u8>, last: Seq<u8>)
    requires
        surface.wf(),
        first.len() == buffer_len(surface.height as int, surface.stride as int),
        last.len() == buffer_len(surface.height as int, surface.stride as int),
    ensures
        surface.uploaded(first).uploaded(last).pixels == last,
        surface.uploaded(first).uploaded(last) == surface.uploaded(last),
        surface.uploaded(last).id == surface.id,
        surface.uploaded(last).state == surface.state,
        surface.uploaded(last).wf(),
{
}

/// A live surface marked as owing its disposal reports a leak when it is torn down, even
/// if it was allocated here and tracked before. A surface marked as not owing it is torn
/// down silently, without any disposal. Neither mark touches the buffer or the identity.
pub proof fn lemma_marks_decide_the_report(surface: SurfaceView)
    requires
        surface.wf(),
    ensures
        !surface.state.is_terminal() ==> surface.in_state(
            surface.state.marked_will_leak(),
        ).teardown() == Err::<(), LeakDiagnostic>(LeakDiagnostic { surface_id: surface.id }),
        surface.in_state(surface.state.marked_wont_leak()).teardown() is Ok,
        surface.in_state(surface.state.marked_will_leak()).pixels == surface.pixels,
        surface.in_state(surface.state.marked_wont_leak()).pixels == surface.pixels,
        surface.in_state(surface.state.marked_will_leak()).wf(),
        surface.in_state(surface.state.marked_wont_leak()).wf(),
{
}

} // verus!
