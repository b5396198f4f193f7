//! The native calls that the operations ask for, sorted by what the native
//! library answers a call with, and what an answer means: the value that the
//! operation returns, or a failure whose text is still to be fetched.
//!
//! A call borrows the renderer, the texture, the surface and the points that
//! it speaks of, so none of them can be given up while the call is still to
//! be made. Only the two calls that release a native object carry its bare
//! address: the value that owned it is gone by then.

use vstd::prelude::*;
use crate::error::NativeFailure;
use crate::geometry::{Color, Point, Rect};
use crate::renderer::Renderer;
use crate::texture::Texture;

verus! {

/// A native call that answers with a status code: zero for success.
#[derive(Debug, PartialEq, Eq)]
pub enum StatusCall<'a> {
    /// Write the four channels of the draw color.
    SetRenderDrawColor { renderer: &'a Renderer, r: u8, g: u8, b: u8, a: u8 },
    /// Fill the whole render target with the draw color.
    RenderClear { renderer: &'a Renderer },
    /// Draw the segment from `(x1, y1)` to `(x2, y2)`, both end points included.
    RenderDrawLine { renderer: &'a Renderer, x1: i32, y1: i32, x2: i32, y2: i32 },
    /// Draw the segments that join the first `count` of `points`, each to the next.
    RenderDrawLines { renderer: &'a Renderer, points: &'a [Point], count: i32 },
    /// Copy the part `src` of the texture to the part `dst` of the render
    /// target. `None` goes to the native library as a null pointer: the whole
    /// texture, the whole render target.
    RenderCopy {
        renderer: &'a Renderer,
        texture: &'a Texture<'a>,
        src: Option<Rect>,
        dst: Option<Rect>,
    },
}

impl<'a> StatusCall<'a> {
    /// What a status code means: zero is success, anything else is failure.
    pub open spec fn outcome_of(status: i32) -> Result<(), NativeFailure> {
        if status == 0 {
            Ok(())
        } else {
            Err(NativeFailure)
        }
    }

    /// What the status code that answered this call means.
    pub fn outcome(&self, status: i32) -> (outcome: Result<(), NativeFailure>)
        ensures
            outcome == Self::outcome_of(status),
    {
        if status == 0 {
            Ok(())
        } else {
            Err(NativeFailure)
        }
    }
}

/// The native call that reads the draw color. It answers with a status code,
/// zero for success, and with the four channels.
#[derive(Debug, PartialEq, Eq)]
pub struct ColorQuery<'a> {
    pub renderer: &'a Renderer,
}

impl<'a> ColorQuery<'a> {
    /// What a status code and four channels mean: with status zero, the color
    /// made of the channels as they came; else failure.
    pub open spec fn outcome_of(status: i32, r: u8, g: u8, b: u8, a: u8) -> Result<
        Color,
        NativeFailure,
    > {
        if status == 0 {
            Ok(Color { r, g, b, a })
        } else {
            Err(NativeFailure)
        }
    }

    /// What the status code and the channels that answered this call mean.
    pub fn outcome(&self, status: i32, r: u8, g: u8, b: u8, a: u8) -> (outcome: Result<
        Color,
        NativeFailure,
    >)
        ensures
            outcome == Self::outcome_of(status, r, g, b, a),
    {
        if status == 0 {
            Ok(Color { r, g, b, a })
        } else {
            Err(NativeFailure)
        }
    }
}

/// A native call that answers nothing.
#[derive(Debug, PartialEq, Eq)]
pub enum VoidCall<'a> {
    /// Publish the backbuffer to the display.
    RenderPresent { renderer: &'a Renderer },
    /// Release the native texture at the address `texture`, which `renderer` made.
    DestroyTexture { texture: usize, renderer: &'a Renderer },
    /// Release the native rendering context at the address `renderer`.
    DestroyRenderer { renderer: usize },
}

} // verus!
