//! Flags for renderer creation.

use vstd::prelude::*;

verus! {

/// Bit of the native flag word: the renderer is a software fallback.
pub const SOFTWARE: u32 = 0x1;

/// Bit of the native flag word: the renderer uses hardware acceleration.
pub const ACCELERATED: u32 = 0x2;

/// Bit of the native flag word: present is synchronized with the refresh rate.
pub const PRESENT_VSYNC: u32 = 0x4;

/// Bit of the native flag word: the renderer supports rendering to texture.
pub const TARGET_TEXTURE: u32 = 0x8;

/// What a [`RendererFlags`] value says, flag by flag.
pub struct FlagSet {
    pub accelerated: bool,
    pub present_vsync: bool,
    pub software: bool,
    pub target_texture: bool,
}

impl FlagSet {
    /// The native flag word that holds exactly these flags.
    pub open spec fn word(self) -> int {
        (if self.software { SOFTWARE as int } else { 0 })
            + (if self.accelerated { ACCELERATED as int } else { 0 })
            + (if self.present_vsync { PRESENT_VSYNC as int } else { 0 })
            + (if self.target_texture { TARGET_TEXTURE as int } else { 0 })
    }
}

/// Flags for renderer creation.
#[derive(Debug, Clone, Copy)]
pub struct RendererFlags(u32);

impl View for RendererFlags {
    type V = FlagSet;

    closed spec fn view(&self) -> FlagSet {
        FlagSet {
            accelerated: self.0 & ACCELERATED != 0,
            present_vsync: self.0 & PRESENT_VSYNC != 0,
            software: self.0 & SOFTWARE != 0,
            target_texture: self.0 & TARGET_TEXTURE != 0,
        }
    }
}

impl Default for RendererFlags {
    /// No flag set.
    fn default() -> (flags: RendererFlags)
        ensures
            flags@ == (FlagSet {
                accelerated: false,
                present_vsync: false,
                software: false,
                target_texture: false,
            }),
    {
        assert(0u32 & 0x1 == 0 && 0u32 & 0x2 == 0 && 0u32 & 0x4 == 0 && 0u32 & 0x8 == 0 && 0u32
            & !0xFu32 == 0) by (bit_vector);
        RendererFlags(0)
    }
}

/// Setting or clearing one known bit of a flag word changes that bit, leaves
/// each other known bit as it was, and sets no unknown bit.
proof fn lemma_write_bit(word: u32, mask: u32, other: u32)
    by (bit_vector)
    requires
        mask == 0x1 || mask == 0x2 || mask == 0x4 || mask == 0x8,
        other == 0x1 || other == 0x2 || other == 0x4 || other == 0x8,
    ensures
        (word | mask) & mask != 0,
        (word & !mask) & mask == 0,
        other != mask ==> (word | mask) & other == word & other,
        other != mask ==> (word & !mask) & other == word & other,
        word & !0xFu32 == 0 ==> (word | mask) & !0xFu32 == 0,
        word & !0xFu32 == 0 ==> (word & !mask) & !0xFu32 == 0,
{
}

/// A flag word without unknown bits is the sum of its known bits.
proof fn lemma_word_is_sum(word: u32)
    by (bit_vector)
    requires
        word & !0xFu32 == 0,
    ensures
        word == (word & 0x1) + (word & 0x2) + (word & 0x4) + (word & 0x8),
        word & 0x1 == 0 || word & 0x1 == 0x1,
        word & 0x2 == 0 || word & 0x2 == 0x2,
        word & 0x4 == 0 || word & 0x4 == 0x4,
        word & 0x8 == 0 || word & 0x8 == 0x8,
{
}

impl RendererFlags {
    /// Only the four known bits are ever set.
    #[verifier::type_invariant]
    spec fn known_bits_only(self) -> bool {
        self.0 & !0xFu32 == 0
    }

    /// The same flags, with the one flag that `mask` stands for set or cleared.
    fn with_bit(self, mask: u32, on: bool) -> (flags: RendererFlags)
        requires
            mask == SOFTWARE || mask == ACCELERATED || mask == PRESENT_VSYNC || mask
                == TARGET_TEXTURE,
        ensures
            flags@.software == (if mask == SOFTWARE { on } else { self@.software }),
            flags@.accelerated == (if mask == ACCELERATED { on } else { self@.accelerated }),
            flags@.present_vsync == (if mask == PRESENT_VSYNC { on } else { self@.present_vsync }),
            flags@.target_texture == (if mask == TARGET_TEXTURE { on } else {
                self@.target_texture
            }),
    {
        proof {
            use_type_invariant(self);
            lemma_write_bit(self.0, mask, SOFTWARE);
            lemma_write_bit(self.0, mask, ACCELERATED);
            lemma_write_bit(self.0, mask, PRESENT_VSYNC);
            lemma_write_bit(self.0, mask, TARGET_TEXTURE);
        }
        if on {
            RendererFlags(self.0 | mask)
        } else {
            RendererFlags(self.0 & !mask)
        }
    }

    /// Whether hardware acceleration is asked for.
    pub fn accelerated(self) -> (on: bool)
        ensures
            on == self@.accelerated,
    {
        (self.0 & ACCELERATED) != 0
    }

    /// The same flags, with hardware acceleration asked for or not.
    pub fn with_accelerated(self, on: bool) -> (flags: RendererFlags)
        ensures
            flags@ == (FlagSet { accelerated: on, ..self@ }),
    {
        self.with_bit(ACCELERATED, on)
    }

    /// Whether present is to wait for the display's refresh.
    pub fn present_vsync(self) -> (on: bool)
        ensures
            on == self@.present_vsync,
    {
        (self.0 & PRESENT_VSYNC) != 0
    }

    /// The same flags, with synchronized present asked for or not.
    pub fn with_present_vsync(self, on: bool) -> (flags: RendererFlags)
        ensures
            flags@ == (FlagSet { present_vsync: on, ..self@ }),
    {
        self.with_bit(PRESENT_VSYNC, on)
    }

    /// Whether a software fallback is asked for.
    pub fn software(self) -> (on: bool)
        ensures
            on == self@.software,
    {
        (self.0 & SOFTWARE) != 0
    }

    /// The same flags, with the software fallback asked for or not.
    pub fn with_software(self, on: bool) -> (flags: RendererFlags)
        ensures
            flags@ == (FlagSet { software: on, ..self@ }),
    {
        self.with_bit(SOFTWARE, on)
    }

    /// Whether rendering to a texture is asked for.
    pub fn target_texture(self) -> (on: bool)
        ensures
            on == self@.target_texture,
    {
        (self.0 & TARGET_TEXTURE) != 0
    }

    /// The same flags, with rendering to a texture asked for or not.
    pub fn with_target_texture(self, on: bool) -> (flags: RendererFlags)
        ensures
            flags@ == (FlagSet { target_texture: on, ..self@ }),
    {
        self.with_bit(TARGET_TEXTURE, on)
    }

    /// The native flag word: the sum of the bits of the flags that are set.
    pub fn bits(self) -> (word: u32)
        ensures
            word == self@.word(),
    {
        proof {
            use_type_invariant(self);
            lemma_word_is_sum(self.0);
        }
        self.0
    }
}

} // verus!
