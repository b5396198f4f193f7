//! The decisions of a safe wrapper around a native 2D rendering library,
//! kept apart from the native calls themselves.
//!
//! Nothing here touches the native library. An operation on a [`Renderer`]
//! yields the native call that has to be made, with its arguments
//! marshalled, or fails before any call is made. Whoever drives the library
//! makes that call and hands what the native library answered to the call's
//! `outcome`, which gives the value that the operation returns or a
//! [`NativeFailure`]. A failure becomes the operation's error once the native
//! library's last-error text has been fetched for it.

pub mod error;
pub mod flags;
pub mod geometry;
pub mod native;
pub mod renderer;
pub mod surface;
pub mod texture;

pub use error::{ErrorKind, NativeFailure, TOO_MANY_POINTS};
pub use flags::{FlagSet, RendererFlags};
pub use geometry::{Color, Point, Rect};
pub use native::{ColorQuery, StatusCall, VoidCall};
pub use renderer::{native_count, Renderer};
pub use surface::Surface;
pub use texture::{Texture, TextureQuery};
