//! The calls into the EGL and OpenGL ES bindings.
//!
//! Nothing here is proved. What each call returns depends on the driver and on what is
//! current in the calling process, so no function below promises anything about its
//! result: the callers are verified for every value that may come back.

use vstd::prelude::*;

verus! {

/// `egl::get_display`: asks the driver for its display connection to the native display
/// `native_display`. The binding returns `None` where the driver hands back no display.
/// Nothing is claimed about which of the two happens.
#[verifier::external_body]
pub(crate) fn get_display(native_display: isize) -> (found: Option<isize>) {
    match egl::get_display(native_display as egl::EGLNativeDisplayType) {
        Some(display) => Some(display as isize),
        None => None,
    }
}

/// `egl::terminate`: releases the driver's resources for `display` and returns whether the
/// driver reported success. Nothing is claimed about the answer.
#[verifier::external_body]
pub(crate) fn terminate(display: isize) -> (released: bool) {
    egl::terminate(display as egl::EGLDisplay)
}

/// `egl::get_current_display`: the display of the context that is current on the calling
/// thread, or `None` where there is none. Nothing is claimed about the answer.
#[verifier::external_body]
pub(crate) fn current_display() -> (found: Option<isize>) {
    match egl::get_current_display() {
        Some(display) => Some(display as isize),
        None => None,
    }
}

/// `egl::get_current_surface` with `egl::EGL_DRAW`: the surface that the current context
/// draws to, or `None` where there is none. Nothing is claimed about the answer.
#[verifier::external_body]
pub(crate) fn current_draw_surface() -> (found: Option<isize>) {
    match egl::get_current_surface(egl::EGL_DRAW) {
        Some(surface) => Some(surface as isize),
        None => None,
    }
}

/// `egl::get_current_context`: the rendering context that is current on the calling
/// thread, or `None` where there is none. Nothing is claimed about the answer.
#[verifier::external_body]
pub(crate) fn current_context() -> (found: Option<isize>) {
    match egl::get_current_context() {
        Some(context) => Some(context as isize),
        None => None,
    }
}

/// `opengles::glesv2::bind_texture` with `GL_TEXTURE_2D`: makes `texture` the target of the
/// texture calls that follow. It returns nothing; errors are left in the driver's error flag.
#[verifier::external_body]
pub(crate) fn bind_texture(texture: u32) {
    opengles::glesv2::bind_texture(opengles::glesv2::GL_TEXTURE_2D, texture)
}

/// `egl::bind_tex_image` with `egl::EGL_BACK_BUFFER`: asks the driver to make the colour
/// buffer of `surface` the image of the texture that is bound, without copying it, and
/// returns whether the driver reported success. Nothing is claimed about the answer.
#[verifier::external_body]
pub(crate) fn bind_tex_image(display: isize, surface: isize) -> (attached: bool) {
    egl::bind_tex_image(
        display as egl::EGLDisplay,
        surface as egl::EGLSurface,
        egl::EGL_BACK_BUFFER,
    )
}

/// `opengles::glesv2::get_error`: reads and clears the driver's error flag. Nothing is
/// claimed about the value.
#[verifier::external_body]
pub(crate) fn last_error() -> (status: u32) {
    opengles::glesv2::get_error()
}

} // verus!
