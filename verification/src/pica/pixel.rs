use vstd::prelude::*;
use crate::bits::{field, le_byte, le_half, le_word, make_le_half, make_le_word, take_field, take_le_byte};
use crate::pica::state::{BlendState, FramebufferFormat, ShaderOp, TextureFormat};

verus! {

/// The colour that no texel stands for: opaque white.
pub const NO_TEXEL: u32 = 0xFFFF_FFFF;

/// A 5-6-5 colour unpacked to RGBA8 with full alpha: each channel is shifted up
/// to eight bits.
pub open spec fn unpack_565(raw: u16) -> u32 {
    le_word(
        ((((raw >> 11u16) & 0x1F) as u8) << 3u8),
        ((((raw >> 5u16) & 0x3F) as u8) << 2u8),
        (((raw & 0x1F) as u8) << 3u8),
        0xFF,
    )
}

/// An RGBA8 colour packed to 5-6-5: the low bits of each channel are dropped.
pub open spec fn pack_565(rgba: u32) -> u16 {
    (((le_byte(rgba, 0) as u16) >> 3u16) << 11u16) | (((le_byte(rgba, 1) as u16) >> 2u16) << 5u16)
        | ((le_byte(rgba, 2) as u16) >> 3u16)
}

/// The colour as the framebuffer holds it: unchanged for RGBA8, and reduced to
/// the precision of 5-6-5 for RGB565.
pub open spec fn converted(format: FramebufferFormat, rgba: u32) -> u32 {
    match format {
        FramebufferFormat::Rgba8 => rgba,
        FramebufferFormat::Rgb565 => unpack_565(pack_565(rgba)),
    }
}

/// Byte offset of the texel that a texture coordinate selects: the coordinates
/// wrap at the texture's size.
pub open spec fn texel_offset(size: (u16, u16), texcoord: u32, texel_bytes: int) -> int {
    let w: int = if size.0 == 0 {
        1
    } else {
        size.0 as int
    };
    let h: int = if size.1 == 0 {
        1
    } else {
        size.1 as int
    };
    (((field(texcoord, 16, 0xFFFF) as int % h) * w) + ((texcoord & 0xFFFF) as int % w)) * texel_bytes
}

/// The texel that a texture coordinate selects, as RGBA8; white where the texture
/// data does not reach.
pub open spec fn sampled(
    format: TextureFormat,
    size: (u16, u16),
    data: Seq<u8>,
    texcoord: u32,
) -> u32 {
    match format {
        TextureFormat::Rgba8 => {
            let idx = texel_offset(size, texcoord, 4);
            if idx + 3 >= data.len() {
                NO_TEXEL
            } else {
                le_word(data[idx], data[idx + 1], data[idx + 2], data[idx + 3])
            }
        },
        TextureFormat::Rgb565 => {
            let idx = texel_offset(size, texcoord, 2);
            if idx + 1 >= data.len() {
                NO_TEXEL
            } else {
                unpack_565(le_half(data[idx], data[idx + 1]))
            }
        },
    }
}

/// Sum of two channels, saturating at 255.
pub open spec fn channel_sum(a: u8, b: u8) -> u8 {
    if a + b > 255 {
        255
    } else {
        (a + b) as u8
    }
}

/// Mean of two channels, rounded down.
pub open spec fn channel_mean(a: u8, b: u8) -> u8 {
    ((a + b) / 2) as u8
}

/// The first combiner stage: the vertex colour alone while the stage is off, else
/// the saturating sum of vertex colour and texel with the vertex colour's alpha.
pub open spec fn combined(tev_stage0: u32, a: u32, b: u32) -> u32 {
    if tev_stage0 & 1 == 0 {
        a
    } else {
        le_word(
            channel_sum(le_byte(a, 0), le_byte(b, 0)),
            channel_sum(le_byte(a, 1), le_byte(b, 1)),
            channel_sum(le_byte(a, 2), le_byte(b, 2)),
            le_byte(a, 3),
        )
    }
}

/// Blending: equation 0 overwrites with the source; any other equation takes the
/// mean of destination and source with the source's alpha.
pub open spec fn blended(blend: BlendState, dst: u32, src: u32) -> u32 {
    if blend.equation_rgb == 0 {
        src
    } else {
        le_word(
            channel_mean(le_byte(dst, 0), le_byte(src, 0)),
            channel_mean(le_byte(dst, 1), le_byte(src, 1)),
            channel_mean(le_byte(dst, 2), le_byte(src, 2)),
            le_byte(src, 3),
        )
    }
}

/// One shader step: XOR with the constant, or a rotation of the three colour
/// channels below the top byte.
pub open spec fn shader_step(op: ShaderOp, constant: u32, color: u32) -> u32 {
    match op {
        ShaderOp::XorConst => color ^ constant,
        ShaderOp::RotateChannels => le_word(
            le_byte(color, 1),
            le_byte(color, 2),
            le_byte(color, 0),
            le_byte(color, 3),
        ),
    }
}

/// The colour after the first `count` steps of the translated shader.
pub open spec fn shaded(ops: Seq<ShaderOp>, constant: u32, color: u32, count: int) -> u32
    decreases count,
{
    if count <= 0 {
        color
    } else {
        shader_step(ops[count - 1], constant, shaded(ops, constant, color, count - 1))
    }
}

/// The step that a microcode word translates to: its low bit selects the rotation.
pub open spec fn translated(word: u32) -> ShaderOp {
    if word & 1 == 0 {
        ShaderOp::XorConst
    } else {
        ShaderOp::RotateChannels
    }
}

pub const HASH_BASIS: u64 = 0xcbf2_9ce4_8422_2325;

pub const HASH_PRIME: u64 = 0x1000_0000_01B3;

/// Hash of the first `count` words: each word is XORed in and the hash multiplied
/// by the prime, modulo 2^64.
pub open spec fn word_hash(words: Seq<u32>, count: int) -> u64
    decreases count,
{
    if count <= 0 {
        HASH_BASIS
    } else {
        (word_hash(words, count - 1) ^ (words[count - 1] as u64)).wrapping_mul(HASH_PRIME)
    }
}

pub fn unpack_rgb565(raw: u16) -> (rgba: u32)
    ensures
        rgba == unpack_565(raw),
{
    proof {
        assert(((raw >> 11u16) & 0x1F) <= 0x1F && ((raw >> 5u16) & 0x3F) <= 0x3F && (raw & 0x1F)
            <= 0x1F) by (bit_vector);
    }
    make_le_word(
        (((raw >> 11u16) & 0x1F) as u8) << 3u8,
        (((raw >> 5u16) & 0x3F) as u8) << 2u8,
        ((raw & 0x1F) as u8) << 3u8,
        0xFF,
    )
}

pub fn pack_rgb565(rgba: u32) -> (raw: u16)
    ensures
        raw == pack_565(rgba),
{
    (((take_le_byte(rgba, 0) as u16) >> 3u16) << 11u16) | (((take_le_byte(rgba, 1) as u16)
        >> 2u16) << 5u16) | ((take_le_byte(rgba, 2) as u16) >> 3u16)
}

pub fn convert_framebuffer_format(format: FramebufferFormat, rgba: u32) -> (color: u32)
    ensures
        color == converted(format, rgba),
{
    match format {
        FramebufferFormat::Rgba8 => rgba,
        FramebufferFormat::Rgb565 => unpack_rgb565(pack_rgb565(rgba)),
    }
}

fn texel_index(size: (u16, u16), texcoord: u32, texel_bytes: u64) -> (idx: u64)
    requires
        texel_bytes == 2 || texel_bytes == 4,
    ensures
        idx == texel_offset(size, texcoord, texel_bytes as int),
        idx <= 0x4_0000_0000,
{
    let w: u64 = if size.0 == 0 {
        1
    } else {
        size.0 as u64
    };
    let h: u64 = if size.1 == 0 {
        1
    } else {
        size.1 as u64
    };
    proof {
        crate::bits::lemma_mask_bound(texcoord, 0xFFFF);
    }
    let x = (texcoord & 0xFFFF) as u64 % w;
    let y = take_field(texcoord, 16, 0xFFFF) as u64 % h;
    assert(y * w <= 0xFFFF * 0xFFFF) by (nonlinear_arith)
        requires
            y <= 0xFFFF,
            w <= 0xFFFF,
    ;
    assert((y * w + x) * texel_bytes <= 0x1_0000_0000 * 4) by (nonlinear_arith)
        requires
            y * w <= 0xFFFF * 0xFFFF,
            x <= 0xFFFF,
            texel_bytes <= 4,
    ;
    (y * w + x) * texel_bytes
}

pub fn sample_texture(format: TextureFormat, size: (u16, u16), data: &Vec<u8>, texcoord: u32) -> (color:
    u32)
    ensures
        color == sampled(format, size, data@, texcoord),
{
    match format {
        TextureFormat::Rgba8 => {
            let idx = texel_index(size, texcoord, 4);
            if idx + 3 >= data.len() as u64 {
                return NO_TEXEL;
            }
            let i = idx as usize;
            make_le_word(data[i], data[i + 1], data[i + 2], data[i + 3])
        },
        TextureFormat::Rgb565 => {
            let idx = texel_index(size, texcoord, 2);
            if idx + 1 >= data.len() as u64 {
                return NO_TEXEL;
            }
            let i = idx as usize;
            unpack_rgb565(make_le_half(data[i], data[i + 1]))
        },
    }
}

fn add_channels(a: u8, b: u8) -> (sum: u8)
    ensures
        sum == channel_sum(a, b),
{
    let wide = a as u16 + b as u16;
    if wide > 255 {
        255
    } else {
        wide as u8
    }
}

fn mean_channels(a: u8, b: u8) -> (mean: u8)
    ensures
        mean == channel_mean(a, b),
{
    ((a as u16 + b as u16) / 2) as u8
}

pub fn combine_color(tev_stage0: u32, a: u32, b: u32) -> (color: u32)
    ensures
        color == combined(tev_stage0, a, b),
{
    if tev_stage0 & 1 == 0 {
        return a;
    }
    make_le_word(
        add_channels(take_le_byte(a, 0), take_le_byte(b, 0)),
        add_channels(take_le_byte(a, 1), take_le_byte(b, 1)),
        add_channels(take_le_byte(a, 2), take_le_byte(b, 2)),
        take_le_byte(a, 3),
    )
}

pub fn blend_color(blend: BlendState, dst: u32, src: u32) -> (color: u32)
    ensures
        color == blended(blend, dst, src),
{
    if blend.equation_rgb == 0 {
        return src;
    }
    make_le_word(
        mean_channels(take_le_byte(dst, 0), take_le_byte(src, 0)),
        mean_channels(take_le_byte(dst, 1), take_le_byte(src, 1)),
        mean_channels(take_le_byte(dst, 2), take_le_byte(src, 2)),
        take_le_byte(src, 3),
    )
}

pub fn run_shader_pipeline(ops: &Vec<ShaderOp>, constant: u32, color: u32) -> (out: u32)
    ensures
        out == shaded(ops@, constant, color, ops@.len() as int),
{
    let mut acc = color;
    let mut i: usize = 0;
    while i < ops.len()
        invariant
            i <= ops@.len(),
            acc == shaded(ops@, constant, color, i as int),
        decreases ops@.len() - i,
    {
        acc = match ops[i] {
            ShaderOp::XorConst => acc ^ constant,
            ShaderOp::RotateChannels => make_le_word(
                take_le_byte(acc, 1),
                take_le_byte(acc, 2),
                take_le_byte(acc, 0),
                take_le_byte(acc, 3),
            ),
        };
        i += 1;
    }
    acc
}

pub fn translate_shader_microcode(microcode: &Vec<u32>) -> (ops: Vec<ShaderOp>)
    ensures
        ops@ == Seq::new(microcode@.len(), |i: int| translated(microcode@[i])),
{
    let mut ops: Vec<ShaderOp> = Vec::new();
    let mut i: usize = 0;
    while i < microcode.len()
        invariant
            i <= microcode@.len(),
            ops@ == Seq::new(i as nat, |k: int| translated(microcode@[k])),
        decreases microcode@.len() - i,
    {
        ops.push(
            if microcode[i] & 1 == 0 {
                ShaderOp::XorConst
            } else {
                ShaderOp::RotateChannels
            },
        );
        assert(ops@ =~= Seq::new((i + 1) as nat, |k: int| translated(microcode@[k])));
        i += 1;
    }
    ops
}

pub fn hash_words(words: &Vec<u32>) -> (hash: u64)
    ensures
        hash == word_hash(words@, words@.len() as int),
{
    let mut hash: u64 = HASH_BASIS;
    let mut i: usize = 0;
    while i < words.len()
        invariant
            i <= words@.len(),
            hash == word_hash(words@, i as int),
        decreases words@.len() - i,
    {
        hash = (hash ^ (words[i] as u64)).wrapping_mul(HASH_PRIME);
        i += 1;
    }
    hash
}

} // verus!
