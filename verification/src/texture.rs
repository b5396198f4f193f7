//! Textures: image data that the rendering backend holds.

use vstd::prelude::*;
use crate::error::NativeFailure;
use crate::native::VoidCall;
use crate::renderer::Renderer;
use crate::surface::Surface;

verus! {

/// A texture of the rendering backend, known by the address of the native
/// texture. It borrows the renderer that made it, so the renderer cannot be
/// destroyed while the texture is there.
#[derive(Debug, PartialEq, Eq)]
pub struct Texture<'ren> {
    handle: usize,
    renderer: &'ren Renderer,
}

impl<'ren> Texture<'ren> {
    /// A texture is never the null address.
    #[verifier::type_invariant]
    spec fn not_null(self) -> bool {
        self.handle != 0
    }

    /// The address of the native texture.
    pub closed spec fn spec_handle(&self) -> usize {
        self.handle
    }

    /// The renderer that made the texture.
    pub closed spec fn spec_renderer(&self) -> &'ren Renderer {
        self.renderer
    }

    /// The address of the native texture, which is not null.
    #[verifier::when_used_as_spec(spec_handle)]
    pub fn handle(&self) -> (handle: usize)
        ensures
            handle == self.handle(),
            handle != 0,
    {
        proof {
            use_type_invariant(self);
        }
        self.handle
    }

    /// The renderer that made the texture.
    #[verifier::when_used_as_spec(spec_renderer)]
    pub fn renderer(&self) -> (renderer: &'ren Renderer)
        ensures
            renderer == self.renderer(),
    {
        self.renderer
    }

    /// Gives the texture up: the call that releases it, which is still to be
    /// made while the renderer is there.
    pub fn destroy(self) -> (call: VoidCall<'ren>)
        ensures
            call == (VoidCall::DestroyTexture {
                texture: self.handle(),
                renderer: self.renderer(),
            }),
    {
        VoidCall::DestroyTexture { texture: self.handle, renderer: self.renderer }
    }
}

/// The native call that makes a texture with the contents of a surface. It
/// answers with the address of the new texture, null for failure.
#[derive(Debug, PartialEq, Eq)]
pub struct TextureQuery<'ren, 'surf> {
    /// The renderer that the texture is made for.
    pub renderer: &'ren Renderer,
    /// The surface that holds the pixels.
    pub surface: &'surf Surface,
}

impl<'ren, 'surf> TextureQuery<'ren, 'surf> {
    /// What the address that answered this call means: null is failure, any
    /// other address is a texture of the renderer that asked.
    pub fn outcome(self, address: usize) -> (outcome: Result<Texture<'ren>, NativeFailure>)
        ensures
            address == 0 ==> outcome == Err::<Texture<'ren>, NativeFailure>(NativeFailure),
            address != 0 ==> (outcome matches Ok(texture) && texture.handle() == address
                && texture.renderer() == self.renderer),
    {
        if address == 0 {
            Err(NativeFailure)
        } else {
            Ok(Texture { handle: address, renderer: self.renderer })
        }
    }
}

} // verus!
