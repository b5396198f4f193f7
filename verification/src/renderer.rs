//! The renderer handle and its operations.

use vstd::prelude::*;
use crate::error::{ErrorKind, NativeFailure, TOO_MANY_POINTS};
use crate::geometry::{Color, Point, Rect};
use crate::native::{ColorQuery, StatusCall, VoidCall};
use crate::surface::Surface;
use crate::texture::{Texture, TextureQuery};

verus! {

/// Handle to the rendering state of a window, known by the address of the
/// native rendering context.
///
/// A renderer holds nothing but that address. Every operation borrows it
/// unchanged, and so does what comes of one: the call that it asks for, and
/// a texture. Only [`Renderer::destroy`] consumes the renderer, so the
/// context is released at most once, after its last call and its last texture.
#[derive(Debug, PartialEq, Eq)]
pub struct Renderer {
    handle: usize,
}

/// The count that the native library is handed for `len` points: `len`
/// itself where a 32-bit signed count can hold it, else a refusal.
pub fn native_count(len: usize) -> (count: Result<i32, ErrorKind>)
    ensures
        len <= i32::MAX ==> count == Ok::<i32, ErrorKind>(len as i32),
        len > i32::MAX ==> count == Err::<i32, ErrorKind>(ErrorKind::Validation(TOO_MANY_POINTS)),
{
    if len > i32::MAX as usize {
        Err(ErrorKind::Validation(TOO_MANY_POINTS))
    } else {
        Ok(len as i32)
    }
}

impl Renderer {
    /// The address of the native rendering context.
    pub closed spec fn spec_handle(&self) -> usize {
        self.handle
    }

    /// The call that `set_draw_color` asks for.
    pub open spec fn set_draw_color_call(&self, color: Color) -> StatusCall<'_> {
        StatusCall::SetRenderDrawColor {
            renderer: self,
            r: color.r,
            g: color.g,
            b: color.b,
            a: color.a,
        }
    }

    /// The renderer whose native rendering context is at this address.
    pub fn new(handle: usize) -> (renderer: Renderer)
        ensures
            renderer.handle() == handle,
    {
        Renderer { handle }
    }

    /// The address of the native rendering context.
    #[verifier::when_used_as_spec(spec_handle)]
    pub fn handle(&self) -> (handle: usize)
        ensures
            handle == self.handle(),
    {
        self.handle
    }

    /// Makes a texture with the contents of the surface: the call that does
    /// so. The texture that comes of it borrows this renderer.
    pub fn create_texture_from_surface<'ren, 'surf>(&'ren self, surf: &'surf Surface) -> (query:
        TextureQuery<'ren, 'surf>)
        ensures
            query == (TextureQuery { renderer: self, surface: surf }),
    {
        TextureQuery { renderer: self, surface: surf }
    }

    /// Obtains the current draw color: the call that reads it.
    pub fn draw_color(&self) -> (query: ColorQuery<'_>)
        ensures
            query == (ColorQuery { renderer: self }),
    {
        ColorQuery { renderer: self }
    }

    /// Assigns the color used for drawing: the call that writes its four
    /// channels, each as it is in `color`.
    pub fn set_draw_color(&self, color: Color) -> (call: StatusCall<'_>)
        ensures
            call == self.set_draw_color_call(color),
    {
        StatusCall::SetRenderDrawColor {
            renderer: self,
            r: color.r,
            g: color.g,
            b: color.b,
            a: color.a,
        }
    }

    /// Clears the render target with the current draw color: the call that does so.
    pub fn clear(&self) -> (call: StatusCall<'_>)
        ensures
            call == (StatusCall::RenderClear { renderer: self }),
    {
        StatusCall::RenderClear { renderer: self }
    }

    /// Draws a line that includes both end points: the call that does so.
    pub fn draw_line(&self, x1: i32, y1: i32, x2: i32, y2: i32) -> (call: StatusCall<'_>)
        ensures
            call == (StatusCall::RenderDrawLine { renderer: self, x1, y1, x2, y2 }),
    {
        StatusCall::RenderDrawLine { renderer: self, x1, y1, x2, y2 }
    }

    /// Using the slice of `n` points, draws `n-1` lines end to end: the call
    /// that does so, with the slice as it was given and `n` as its count.
    ///
    /// More points than a 32-bit signed count can hold are refused, and then
    /// no call is to be made.
    pub fn draw_lines<'a>(&'a self, points: &'a [Point]) -> (call: Result<
        StatusCall<'a>,
        ErrorKind,
    >)
        ensures
            points@.len() <= i32::MAX ==> call == Ok::<StatusCall<'a>, ErrorKind>(
                StatusCall::RenderDrawLines {
                    renderer: self,
                    points,
                    count: points@.len() as i32,
                },
            ),
            points@.len() > i32::MAX ==> call == Err::<StatusCall<'a>, ErrorKind>(
                ErrorKind::Validation(TOO_MANY_POINTS),
            ),
    {
        match native_count(points.len()) {
            Ok(count) => Ok(StatusCall::RenderDrawLines { renderer: self, points, count }),
            Err(error) => Err(error),
        }
    }

    /// Blits the texture to the rendering target: the call that does so, with
    /// both rectangles as they were given.
    ///
    /// * `src`: the part of the texture to copy from. If `None`, the whole
    ///   texture is used.
    /// * `dst`: the part of the render target to copy to. If `None`, the
    ///   whole render target is used.
    pub fn copy<'a>(&'a self, t: &'a Texture<'a>, src: Option<Rect>, dst: Option<Rect>) -> (call:
        StatusCall<'a>)
        ensures
            call == (StatusCall::RenderCopy { renderer: self, texture: t, src, dst }),
    {
        StatusCall::RenderCopy { renderer: self, texture: t, src, dst }
    }

    /// Presents the backbuffer to the user: the call that does so.
    ///
    /// After a present, all backbuffer data should be taken as invalid: clear
    /// the backbuffer before the next render pass, even if that pass writes
    /// every pixel.
    pub fn present(&self) -> (call: VoidCall<'_>)
        ensures
            call == (VoidCall::RenderPresent { renderer: self }),
    {
        VoidCall::RenderPresent { renderer: self }
    }

    /// Gives the renderer up: the call that releases its rendering context.
    /// No texture and no call of this renderer can be left by then.
    pub fn destroy(self) -> (call: VoidCall<'static>)
        ensures
            call == (VoidCall::DestroyRenderer { renderer: self.handle() }),
    {
        VoidCall::DestroyRenderer { renderer: self.handle }
    }
}

/// Round trip of the draw color: where the native library answers the read
/// with status zero and with the four channels that `set_draw_color` handed
/// it, `draw_color` gives the color that was set.
pub proof fn lemma_draw_color_round_trip(renderer: Renderer, color: Color)
    ensures
        renderer.set_draw_color_call(color) matches StatusCall::SetRenderDrawColor {
            r,
            g,
            b,
            a,
            ..
        } && ColorQuery::outcome_of(0, r, g, b, a) == Ok::<Color, NativeFailure>(color),
{
}

/// A renderer carries nothing from one call to the next: a renderer that has
/// been used, whatever for and however its calls ended, is the renderer that
/// is fresh from the same address. What it asks for after a present is
/// therefore what a fresh one asks for, and what an answer means depends on
/// that answer alone.
pub proof fn lemma_renderer_keeps_no_state(used: Renderer, fresh: Renderer)
    requires
        used.handle() == fresh.handle(),
    ensures
        used == fresh,
{
}

} // verus!
