//! FreeRDP pixel format descriptors.

use vstd::prelude::*;

verus! {

/// Pixel type code of FreeRDP for an RGBA layout.
pub const PIXEL_FORMAT_TYPE_RGBA: u32 = 3;

/// The format word that `get_rdp_pixel_format` builds: the bits-per-pixel and
/// the type are added in the top half, and the four channel widths are or-ed in
/// below them.
pub open spec fn pixel_format_word(bpp: u32, tp: u32, a: u32, r: u32, g: u32, b: u32) -> u32 {
    (((bpp << 24u32) + (tp << 16u32)) as u32) | (a << 12u32) | (r << 8u32) | (g << 4u32) | b
}

/// Whether every field of a format fits its slot: eight bits for the bits per
/// pixel and for the type, four bits for each channel width.
pub open spec fn fields_in_range(bpp: u32, tp: u32, a: u32, r: u32, g: u32, b: u32) -> bool {
    bpp < 256 && tp < 256 && a < 16 && r < 16 && g < 16 && b < 16
}

/// Packs a FreeRDP pixel format descriptor.
pub fn get_rdp_pixel_format(bpp: u32, tp: u32, a: u32, r: u32, g: u32, b: u32) -> (format: u32)
    requires
        (bpp << 24u32) + (tp << 16u32) <= u32::MAX,
    ensures
        format == pixel_format_word(bpp, tp, a, r, g, b),
{
    (bpp << 24) + (tp << 16) | (a << 12) | (r << 8) | (g << 4) | b
}

/// The 32-bit RGBX format with eight bits per colour channel and no alpha,
/// which the client asks the GDI to render into.
pub fn rgbx32_pixel_format() -> (format: u32)
    ensures
        format == pixel_format_word(32, PIXEL_FORMAT_TYPE_RGBA, 0, 8, 8, 8),
        format == 0x2003_0888,
{
    assert((32u32 << 24u32) + (3u32 << 16u32) <= u32::MAX) by (bit_vector);
    assert(pixel_format_word(32, 3, 0, 8, 8, 8) == 0x2003_0888) by (bit_vector);
    get_rdp_pixel_format(32, PIXEL_FORMAT_TYPE_RGBA, 0, 8, 8, 8)
}

/// When every field fits its slot, the format word is the fields' positional
/// sum and no addition overflows.
pub proof fn lemma_pixel_format_is_positional(bpp: u32, tp: u32, a: u32, r: u32, g: u32, b: u32)
    requires
        fields_in_range(bpp, tp, a, r, g, b),
    ensures
        (bpp << 24u32) + (tp << 16u32) <= u32::MAX,
        pixel_format_word(bpp, tp, a, r, g, b) == bpp * 0x100_0000 + tp * 0x1_0000 + a * 0x1000
            + r * 0x100 + g * 0x10 + b,
{
    assert((bpp << 24u32) + (tp << 16u32) <= u32::MAX) by (bit_vector)
        requires
            bpp < 256 && tp < 256,
    ;
    assert(pixel_format_word(bpp, tp, a, r, g, b) == bpp * 0x100_0000 + tp * 0x1_0000 + a * 0x1000
        + r * 0x100 + g * 0x10 + b) by (bit_vector)
        requires
            bpp < 256 && tp < 256 && a < 16 && r < 16 && g < 16 && b < 16,
    ;
}

/// Each field of an in-range format can be read back from its slot of the
/// format word.
pub proof fn lemma_pixel_format_fields_recoverable(
    bpp: u32,
    tp: u32,
    a: u32,
    r: u32,
    g: u32,
    b: u32,
)
    requires
        fields_in_range(bpp, tp, a, r, g, b),
    ensures
        pixel_format_word(bpp, tp, a, r, g, b) >> 24u32 == bpp,
        (pixel_format_word(bpp, tp, a, r, g, b) >> 16u32) & 0xff == tp,
        (pixel_format_word(bpp, tp, a, r, g, b) >> 12u32) & 0xf == a,
        (pixel_format_word(bpp, tp, a, r, g, b) >> 8u32) & 0xf == r,
        (pixel_format_word(bpp, tp, a, r, g, b) >> 4u32) & 0xf == g,
        pixel_format_word(bpp, tp, a, r, g, b) & 0xf == b,
{
    assert({
        let f = (((bpp << 24u32) + (tp << 16u32)) as u32) | (a << 12u32) | (r << 8u32) | (g
            << 4u32) | b;
        &&& f >> 24u32 == bpp
        &&& (f >> 16u32) & 0xff == tp
        &&& (f >> 12u32) & 0xf == a
        &&& (f >> 8u32) & 0xf == r
        &&& (f >> 4u32) & 0xf == g
        &&& f & 0xf == b
    }) by (bit_vector)
        requires
            bpp < 256 && tp < 256 && a < 16 && r < 16 && g < 16 && b < 16,
    ;
}

} // verus!
