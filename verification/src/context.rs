//! The two capabilities: one for the process that paints, one for the process that
//! composites. A surface operation names the context it needs in its signature, so that
//! painting operations cannot be called with a compositing context, nor the other way round.

use vstd::prelude::*;
use crate::driver;
use crate::error::SurfaceError;

verus! {

/// The handle that stands for "no display", "no surface" and "no context".
pub const NO_HANDLE: isize = 0;

/// Says which native display a painting context connects to.
#[derive(Clone, Copy, Debug, PartialEq, Eq, Structural)]
pub struct NativeGraphicsMetadata {
    /// The native display, or `NO_HANDLE` for the platform's default display.
    pub native_display: isize,
}

impl NativeGraphicsMetadata {
    /// The metadata that selects the platform's default display.
    pub fn default_display() -> (metadata: NativeGraphicsMetadata)
        ensures
            metadata.native_display == NO_HANDLE,
    {
        NativeGraphicsMetadata { native_display: NO_HANDLE }
    }
}

/// What a painting context is, to its callers.
pub struct PaintingView {
    /// The display that the context owns.
    pub display: isize,
}

impl PaintingView {
    pub open spec fn wf(self) -> bool {
        self.display != NO_HANDLE
    }
}

/// The display of the painting process. The context owns the display: it is acquired when
/// the context is made and released, once, when the context is given up with `release`.
#[derive(Debug)]
pub struct NativePaintingGraphicsContext {
    display: isize,
}

impl View for NativePaintingGraphicsContext {
    type V = PaintingView;

    closed spec fn view(&self) -> PaintingView {
        PaintingView { display: self.display }
    }
}

impl NativePaintingGraphicsContext {
    #[verifier::type_invariant]
    pub closed spec fn inv(self) -> bool {
        self@.wf()
    }

    /// Makes the context that owns `display`, which the driver has handed back for some
    /// native display. There is no context without a display.
    pub fn from_display(display: Option<isize>) -> (made: Result<
        NativePaintingGraphicsContext,
        SurfaceError,
    >)
        ensures
            match display {
                Some(handle) if handle != NO_HANDLE => (made matches Ok(context) && context@ == (
                PaintingView { display: handle })),
                _ => (made matches Err(error) && error == SurfaceError::DisplayUnavailable),
            },
    {
        match display {
            Some(handle) => {
                if handle != NO_HANDLE {
                    Ok(NativePaintingGraphicsContext { display: handle })
                } else {
                    Err(SurfaceError::DisplayUnavailable)
                }
            },
            None => Err(SurfaceError::DisplayUnavailable),
        }
    }

    /// Acquires the display that `metadata` describes. Whether the driver has such a display
    /// is for the driver to say; `from_display` tells what is made of its answer.
    pub fn from_metadata(metadata: &NativeGraphicsMetadata) -> (made: Result<
        NativePaintingGraphicsContext,
        SurfaceError,
    >)
        ensures
            made matches Ok(context) ==> context@.wf(),
            made matches Err(error) ==> error == SurfaceError::DisplayUnavailable,
    {
        let found = driver::get_display(metadata.native_display);
        NativePaintingGraphicsContext::from_display(found)
    }

    /// The display that this context owns.
    pub fn display(&self) -> (display: isize)
        ensures
            display == self@.display,
            self@.wf(),
    {
        proof {
            use_type_invariant(self);
        }
        self.display
    }

    /// Gives the context up and releases its display. The context is consumed, so the
    /// display cannot be released a second time. Returns what the driver said.
    pub fn release(self) -> (released: bool) {
        driver::terminate(self.display)
    }
}

/// What a compositing context is, to its callers.
pub struct CompositingView {
    pub display: isize,
    pub surface: isize,
    pub context: isize,
}

impl CompositingView {
    pub open spec fn wf(self) -> bool {
        &&& self.display != NO_HANDLE
        &&& self.surface != NO_HANDLE
        &&& self.context != NO_HANDLE
    }
}

/// The display, drawing surface and rendering context that are current in the compositing
/// process. The context only observes them: it acquires nothing and releases nothing, and
/// must not be kept beyond the life of the display.
#[derive(Clone, Copy, Debug)]
pub struct NativeCompositingGraphicsContext {
    display: isize,
    surface: isize,
    context: isize,
}

impl View for NativeCompositingGraphicsContext {
    type V = CompositingView;

    closed spec fn view(&self) -> CompositingView {
        CompositingView { display: self.display, surface: self.surface, context: self.context }
    }
}

/// Whether the three handles stand for an active display, surface and context.
pub open spec fn all_active(
    display: Option<isize>,
    surface: Option<isize>,
    context: Option<isize>,
) -> bool {
    &&& display matches Some(d) && d != NO_HANDLE
    &&& surface matches Some(s) && s != NO_HANDLE
    &&& context matches Some(c) && c != NO_HANDLE
}

impl NativeCompositingGraphicsContext {
    #[verifier::type_invariant]
    pub closed spec fn inv(self) -> bool {
        self@.wf()
    }

    /// Records the three handles that the caller found active. All three must be there:
    /// a display without a surface and a context cannot take a texture binding.
    pub fn from_handles(
        display: Option<isize>,
        surface: Option<isize>,
        context: Option<isize>,
    ) -> (made: Result<NativeCompositingGraphicsContext, SurfaceError>)
        ensures
            all_active(display, surface, context) ==> (made matches Ok(snapshot) && snapshot@ == (
            CompositingView {
                display: display.unwrap(),
                surface: surface.unwrap(),
                context: context.unwrap(),
            })),
            !all_active(display, surface, context) ==> (made matches Err(error) && error
                == SurfaceError::NoActiveContext),
    {
        match (display, surface, context) {
            (Some(d), Some(s), Some(c)) => {
                if d != NO_HANDLE && s != NO_HANDLE && c != NO_HANDLE {
                    Ok(NativeCompositingGraphicsContext { display: d, surface: s, context: c })
                } else {
                    Err(SurfaceError::NoActiveContext)
                }
            },
            _ => Err(SurfaceError::NoActiveContext),
        }
    }

    /// Captures what is current in the calling process. Nothing is created or made current.
    /// What is current is for the driver to say; `from_handles` tells what is made of it.
    pub fn new() -> (made: Result<NativeCompositingGraphicsContext, SurfaceError>)
        ensures
            made matches Ok(snapshot) ==> snapshot@.wf(),
            made matches Err(error) ==> error == SurfaceError::NoActiveContext,
    {
        let display = driver::current_display();
        let surface = driver::current_draw_surface();
        let context = driver::current_context();
        NativeCompositingGraphicsContext::from_handles(display, surface, context)
    }

    pub fn display(&self) -> (display: isize)
        ensures
            display == self@.display,
            self@.wf(),
    {
        proof {
            use_type_invariant(self);
        }
        self.display
    }

    pub fn surface(&self) -> (surface: isize)
        ensures
            surface == self@.surface,
            self@.wf(),
    {
        proof {
            use_type_invariant(self);
        }
        self.surface
    }

    pub fn context(&self) -> (context: isize)
        ensures
            context == self@.context,
            self@.wf(),
    {
        proof {
            use_type_invariant(self);
        }
        self.context
    }
}

} // verus!
