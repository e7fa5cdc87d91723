use native_surface::context::{
    NativeCompositingGraphicsContext, NativeGraphicsMetadata, NativePaintingGraphicsContext,
    NO_HANDLE,
};
use native_surface::error::SurfaceError;
use native_surface::geometry::Size2D;
use native_surface::state::SurfaceState;
use native_surface::surface::{
    bind_outcome, check_dimensions, NativeSurface, NativeSurfaceTransientData, BYTES_PER_PIXEL,
    NO_ERROR,
};
use native_surface::texture::Texture;

#[test]
fn painting_context_needs_a_display() {
    assert!(matches!(
        NativePaintingGraphicsContext::from_display(None),
        Err(SurfaceError::DisplayUnavailable)
    ));
    assert!(matches!(
        NativePaintingGraphicsContext::from_display(Some(NO_HANDLE)),
        Err(SurfaceError::DisplayUnavailable)
    ));
    let ctx = NativePaintingGraphicsContext::from_display(Some(0x1000)).unwrap();
    assert_eq!(ctx.display(), 0x1000);
}

#[test]
fn painting_context_from_metadata_owns_a_display_or_reports_none() {
    let metadata = NativeGraphicsMetadata::default_display();
    assert_eq!(metadata.native_display, NO_HANDLE);
    match NativePaintingGraphicsContext::from_metadata(&metadata) {
        Ok(ctx) => {
            assert_ne!(ctx.display(), NO_HANDLE);
            let _ = ctx.release();
        }
        Err(error) => assert_eq!(error, SurfaceError::DisplayUnavailable),
    }
}

#[test]
fn releasing_a_display_the_driver_never_gave_is_refused() {
    let ctx = NativePaintingGraphicsContext::from_display(Some(1)).unwrap();
    assert!(!ctx.release());
}

#[test]
fn compositing_context_needs_all_three_handles() {
    let made = NativeCompositingGraphicsContext::from_handles(Some(10), Some(20), Some(30)).unwrap();
    assert_eq!(made.display(), 10);
    assert_eq!(made.surface(), 20);
    assert_eq!(made.context(), 30);
    let missing: [(Option<isize>, Option<isize>, Option<isize>); 7] = [
        (None, Some(20), Some(30)),
        (Some(10), None, Some(30)),
        (Some(10), Some(20), None),
        (None, None, None),
        (Some(NO_HANDLE), Some(20), Some(30)),
        (Some(10), Some(NO_HANDLE), Some(30)),
        (Some(10), Some(20), Some(NO_HANDLE)),
    ];
    for (display, surface, context) in missing {
        assert!(matches!(
            NativeCompositingGraphicsContext::from_handles(display, surface, context),
            Err(SurfaceError::NoActiveContext)
        ));
    }
}

#[test]
fn compositing_context_without_anything_current_is_refused() {
    assert!(matches!(
        NativeCompositingGraphicsContext::new(),
        Err(SurfaceError::NoActiveContext)
    ));
}

#[test]
fn bind_outcome_needs_attachment_and_a_clear_error_flag() {
    assert_eq!(NO_ERROR, 0);
    assert_eq!(bind_outcome(true, NO_ERROR), Ok(()));
    assert_eq!(bind_outcome(false, NO_ERROR), Err(SurfaceError::BindFailed));
    assert_eq!(bind_outcome(true, 0x0502), Err(SurfaceError::BindFailed));
    assert_eq!(bind_outcome(false, 0x0505), Err(SurfaceError::BindFailed));
}

#[test]
fn binding_a_disposed_surface_fails() {
    let painting = NativePaintingGraphicsContext::from_display(Some(1)).unwrap();
    let compositing =
        NativeCompositingGraphicsContext::from_handles(Some(1), Some(2), Some(3)).unwrap();
    let mut s = NativeSurface::from_eglsurface(40);
    s.destroy(&painting);
    let texture = Texture::new(1);
    assert_eq!(
        s.bind_to_texture(&compositing, &texture, Size2D::new(8, 8)),
        Err(SurfaceError::BindFailed)
    );
}

#[test]
fn binding_through_handles_the_driver_never_gave_fails() {
    let compositing =
        NativeCompositingGraphicsContext::from_handles(Some(1), Some(2), Some(3)).unwrap();
    let s = NativeSurface::from_eglsurface(40);
    let texture = Texture::new(7);
    assert_eq!(texture.id(), 7);
    assert_eq!(
        s.bind_to_texture(&compositing, &texture, Size2D::new(8, 8)),
        Err(SurfaceError::BindFailed)
    );
    assert_eq!(s.state(), SurfaceState::OwnedPending);
    assert_eq!(s.get_id(), 40);
}

#[test]
fn checkerboard_crosses_to_the_compositing_side_by_id() {
    let painting = NativePaintingGraphicsContext::from_display(Some(1)).unwrap();
    let mut painted = NativeSurface::new(&painting, Size2D::new(8, 8), 32).unwrap();
    let mut checkerboard = Vec::new();
    for row in 0..8u32 {
        for column in 0..8u32 {
            let shade: u8 = if (row + column) % 2 == 0 { 0xFF } else { 0x00 };
            checkerboard.extend_from_slice(&[shade, shade, shade, 0xFF]);
        }
    }
    assert_eq!(painted.upload(&painting, &checkerboard), Ok(()));
    let id = painted.get_id();
    let transient = NativeSurfaceTransientData::NoTransientData;
    assert_eq!(transient, NativeSurfaceTransientData::NoTransientData);

    let mut received = NativeSurface::from_eglsurface(id);
    assert_eq!(received.get_id(), id);
    match NativeCompositingGraphicsContext::new() {
        Ok(compositing) => {
            let bound = received.bind_to_texture(&compositing, &Texture::new(1), Size2D::new(8, 8));
            assert!(matches!(bound, Ok(()) | Err(SurfaceError::BindFailed)));
        }
        Err(error) => assert_eq!(error, SurfaceError::NoActiveContext),
    }
    assert_eq!(painted.pixels(), &checkerboard);
    received.mark_wont_leak();
    assert_eq!(received.teardown(), Ok(()));
    painted.destroy(&painting);
    assert_eq!(painted.teardown(), Ok(()));
}

#[test]
fn dimensions_are_checked_against_four_bytes_a_pixel() {
    assert_eq!(BYTES_PER_PIXEL, 4);
    assert!(check_dimensions(Size2D::new(64, 64), 256));
    assert!(check_dimensions(Size2D::new(64, 64), 300));
    assert!(!check_dimensions(Size2D::new(64, 64), 255));
    assert!(!check_dimensions(Size2D::new(0, 64), 256));
    assert!(!check_dimensions(Size2D::new(64, 0), 256));
    assert!(check_dimensions(Size2D::new(0x1fff_ffff, 1), i32::MAX));
    assert!(!check_dimensions(Size2D::new(0x2000_0000, 1), i32::MAX));
}

#[test]
fn states_move_as_the_marks_say() {
    let accounted = SurfaceState::OwnedTracked;
    let pending = SurfaceState::OwnedPending;
    let disposed = SurfaceState::Disposed;
    assert_eq!(accounted.with_leak_marked(), pending);
    assert_eq!(pending.with_leak_marked(), pending);
    assert_eq!(disposed.with_leak_marked(), disposed);
    assert_eq!(accounted.with_leak_waived(), accounted);
    assert_eq!(pending.with_leak_waived(), accounted);
    assert_eq!(disposed.with_leak_waived(), disposed);
    assert!(pending.leaks());
    assert!(!accounted.leaks());
    assert!(!disposed.leaks());
}

#[test]
fn size_is_copied_field_by_field() {
    let size = Size2D::new(3isize, 4isize);
    let copy = size.clone();
    assert_eq!(copy.width, 3);
    assert_eq!(copy.height, 4);
    assert_eq!(size.width, 3);
}
