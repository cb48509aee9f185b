//! Owned pixel buffers with nearest-neighbor sampling, and the per-block
//! texture table.

use crate::block::{color_s, ordinal_s, BlockType};
use crate::vec3::Vec3;
use vstd::arithmetic::div_mod::lemma_multiply_divide_le;
use vstd::arithmetic::mul::{lemma_mul_inequality, lemma_mul_upper_bound};
use vstd::prelude::*;

verus! {

/// An owned RGB pixel buffer in row-major order.
pub struct Texture {
    pub pixels: Vec<(u8, u8, u8)>,
    pub width: u32,
    pub height: u32,
}

/// Nearest-neighbor lookup: the coordinates are first clamped into the
/// unit interval, then scaled and clamped to the last row and column, so
/// sampling is total.
pub open spec fn sample_s(t: Texture, u: int, v: int) -> (u8, u8, u8) {
    let uc = crate::fixed::fp_clamp_s(u, 0, 65536);
    let vc = crate::fixed::fp_clamp_s(v, 0, 65536);
    let x = if (uc * t.width) / 65536 < t.width - 1 {
        (uc * t.width) / 65536
    } else {
        t.width - 1
    };
    let y = if (vc * t.height) / 65536 < t.height - 1 {
        (vc * t.height) / 65536
    } else {
        t.height - 1
    };
    t.pixels@[y * t.width + x]
}

impl Texture {
    pub open spec fn wf_s(self) -> bool {
        &&& self.pixels@.len() == (self.width as int) * (self.height as int)
        &&& 1 <= self.width <= 0x1000
        &&& 1 <= self.height <= 0x1000
    }

    /// A solid one-color texture.
    pub fn new(width: u32, height: u32, color: (u8, u8, u8)) -> (r: Texture)
        requires
            1 <= width <= 0x1000,
            1 <= height <= 0x1000,
        ensures
            r.wf_s(),
            r.width == width,
            r.height == height,
            forall|i: int| 0 <= i < r.pixels@.len() ==> r.pixels@[i] == color,
    {
        proof {
            assert((width as int) * (height as int) <= 0x1000000) by (nonlinear_arith)
                requires
                    width <= 0x1000,
                    height <= 0x1000,
            ;
        }
        let total: usize = (width as usize) * (height as usize);
        let mut pixels: Vec<(u8, u8, u8)> = Vec::new();
        let mut i: usize = 0;
        while i < total
            invariant
                i <= total,
                pixels@.len() == i,
                forall|j: int| 0 <= j < i ==> pixels@[j] == color,
            decreases total - i,
        {
            pixels.push(color);
            i = i + 1;
        }
        Texture { pixels, width, height }
    }

    /// A texture over an already-decoded pixel buffer.
    pub fn from_pixels(width: u32, height: u32, pixels: Vec<(u8, u8, u8)>) -> (r: Texture)
        requires
            1 <= width <= 0x1000,
            1 <= height <= 0x1000,
            pixels@.len() == (width as int) * (height as int),
        ensures
            r.wf_s(),
            r.width == width,
            r.height == height,
            r.pixels == pixels,
    {
        Texture { pixels, width, height }
    }

    /// Nearest-neighbor sample at normalized fixed-point coordinates; out
    /// of range coordinates clamp into the valid range, so sampling never
    /// fails.
    pub fn sample(&self, u: i64, v: i64) -> (r: (u8, u8, u8))
        requires
            self.wf_s(),
        ensures
            r == sample_s(*self, u as int, v as int),
    {
        let u: i64 = crate::fixed::fp_clamp01(u);
        let v: i64 = crate::fixed::fp_clamp01(v);
        proof {
            lemma_mul_upper_bound(u as int, 65536, self.width as int, 0x1000);
            lemma_mul_upper_bound(v as int, 65536, self.height as int, 0x1000);
        }
        let xr: u64 = ((u as u64) * (self.width as u64)) / 65536;
        let yr: u64 = ((v as u64) * (self.height as u64)) / 65536;
        proof {
            lemma_mul_inequality(u as int, 65536, self.width as int);
            lemma_multiply_divide_le((u as int) * (self.width as int), 65536, self.width as int);
            lemma_mul_inequality(v as int, 65536, self.height as int);
            lemma_multiply_divide_le((v as int) * (self.height as int), 65536, self.height as int);
        }
        let x: u64 = if xr < (self.width - 1) as u64 {
            xr
        } else {
            (self.width - 1) as u64
        };
        let y: u64 = if yr < (self.height - 1) as u64 {
            yr
        } else {
            (self.height - 1) as u64
        };
        proof {
            assert(0 <= (y as int) * (self.width as int) && (y as int) * (self.width as int) + (
            x as int) < (self.width as int) * (self.height as int) && (self.width as int) * (
            self.height as int) <= 0x1000000) by (nonlinear_arith)
                requires
                    0 <= (x as int) && (x as int) < (self.width as int),
                    0 <= (y as int) && (y as int) < (self.height as int),
                    self.width <= 0x1000,
                    self.height <= 0x1000,
            ;
        }
        let idx: usize = (y as usize) * (self.width as usize) + (x as usize);
        self.pixels[idx]
    }
}

/// One byte channel of a fixed-point color channel.
pub open spec fn channel_byte_s(c: int) -> int {
    (c * 255) / 65536
}

/// The solid fallback color of a block kind, as pixel bytes.
pub open spec fn byte_color_s(b: BlockType) -> (u8, u8, u8) {
    (
        channel_byte_s(color_s(b).x as int) as u8,
        channel_byte_s(color_s(b).y as int) as u8,
        channel_byte_s(color_s(b).z as int) as u8,
    )
}

/// Convert a fixed-point unit channel to a byte.
pub fn channel_to_byte(c: i64) -> (r: u8)
    requires
        0 <= c <= 65536,
    ensures
        r == channel_byte_s(c as int),
{
    proof {
        lemma_mul_inequality(c as int, 65536, 255);
        lemma_multiply_divide_le((c as int) * 255, 65536, 255);
    }
    (((c as u64) * 255) / 65536) as u8
}

/// The pixel bytes of a block's fallback color.
pub fn fallback_color_bytes(b: BlockType) -> (r: (u8, u8, u8))
    ensures
        r == byte_color_s(b),
{
    let c: Vec3 = b.get_color();
    (channel_to_byte(c.x), channel_to_byte(c.y), channel_to_byte(c.z))
}

/// One texture per block kind, indexed by the kind's ordinal.
pub struct TextureManager {
    pub textures: Vec<Texture>,
}

impl TextureManager {
    pub open spec fn wf_s(self) -> bool {
        &&& self.textures@.len() == 13
        &&& forall|i: int| 0 <= i < 13 ==> self.textures@[i].wf_s()
    }

    pub fn new() -> (r: TextureManager)
        ensures
            r.textures@.len() == 0,
    {
        TextureManager { textures: Vec::new() }
    }

    /// A table over externally supplied textures, one per block kind.
    pub fn from_textures(textures: Vec<Texture>) -> (r: TextureManager)
        requires
            textures@.len() == 13,
            forall|i: int| 0 <= i < 13 ==> textures@[i].wf_s(),
        ensures
            r.wf_s(),
            r.textures == textures,
    {
        TextureManager { textures }
    }

    /// The placeholder table: a 16 x 16 solid texture in each block's
    /// fallback color.
    pub fn with_fallback_colors() -> (r: TextureManager)
        ensures
            r.wf_s(),
            forall|i: int, j: int|
                0 <= i < 13 && 0 <= j < r.textures@[i].pixels@.len()
                    ==> r.textures@[i].pixels@[j] == byte_color_s(ordinal_block_s(i)),
    {
        let mut textures: Vec<Texture> = Vec::new();
        textures.push(Texture::new(16, 16, fallback_color_bytes(BlockType::Aire)));
        textures.push(Texture::new(16, 16, fallback_color_bytes(BlockType::TerracotaNaranja)));
        textures.push(Texture::new(16, 16, fallback_color_bytes(BlockType::Netherrack)));
        textures.push(Texture::new(16, 16, fallback_color_bytes(BlockType::BloqueMagma)));
        textures.push(Texture::new(16, 16, fallback_color_bytes(BlockType::TerracotaNormal)));
        textures.push(Texture::new(16, 16, fallback_color_bytes(BlockType::TerracotaAmarilla)));
        textures.push(Texture::new(16, 16, fallback_color_bytes(BlockType::ObsidianaNormal)));
        textures.push(Texture::new(16, 16, fallback_color_bytes(BlockType::Lava)));
        textures.push(Texture::new(16, 16, fallback_color_bytes(BlockType::BloqueOro)));
        textures.push(Texture::new(16, 16, fallback_color_bytes(BlockType::Cofre)));
        textures.push(Texture::new(16, 16, fallback_color_bytes(BlockType::EscaleraPiedra)));
        textures.push(Texture::new(16, 16, fallback_color_bytes(BlockType::SlabPiedra)));
        textures.push(Texture::new(16, 16, fallback_color_bytes(BlockType::CryingObsidian)));
        TextureManager { textures }
    }

    /// The texture assigned to a block kind.
    pub fn get_texture(&self, block_type: BlockType) -> (r: &Texture)
        requires
            self.wf_s(),
        ensures
            *r == self.textures@[ordinal_s(block_type)],
            r.wf_s(),
    {
        &self.textures[block_type.ordinal()]
    }
}

/// The block kind at a given ordinal, inverse of `ordinal_s`.
pub open spec fn ordinal_block_s(i: int) -> BlockType {
    if i == 0 {
        BlockType::Aire
    } else if i == 1 {
        BlockType::TerracotaNaranja
    } else if i == 2 {
        BlockType::Netherrack
    } else if i == 3 {
        BlockType::BloqueMagma
    } else if i == 4 {
        BlockType::TerracotaNormal
    } else if i == 5 {
        BlockType::TerracotaAmarilla
    } else if i == 6 {
        BlockType::ObsidianaNormal
    } else if i == 7 {
        BlockType::Lava
    } else if i == 8 {
        BlockType::BloqueOro
    } else if i == 9 {
        BlockType::Cofre
    } else if i == 10 {
        BlockType::EscaleraPiedra
    } else if i == 11 {
        BlockType::SlabPiedra
    } else {
        BlockType::CryingObsidian
    }
}

} // verus!
