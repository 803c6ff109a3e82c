use vstd::prelude::*;

verus! {

/// The COLORREF (0x00BBGGRR) that holds the three channel values.
pub open spec fn colorref_of(r: int, g: int, b: int) -> int {
    r + 256 * g + 65536 * b
}

/// The red, green and blue bytes of a COLORREF.
pub open spec fn colorref_channels(cr: int) -> (int, int, int) {
    (cr % 256, (cr / 256) % 256, (cr / 65536) % 256)
}

/// Packs three channel values into a Win32 COLORREF (0x00BBGGRR): red in the
/// low byte, green shifted left by 8 bits, blue by 16, all or-ed together.
pub fn pack_colorref(r: u32, g: u32, b: u32) -> (cr: u32)
    ensures
        cr == (r | (g << 8u32) | (b << 16u32)),
        r < 256 && g < 256 && b < 256 ==> cr == colorref_of(r as int, g as int, b as int),
{
    let cr = r | (g << 8u32) | (b << 16u32);
    proof {
        if r < 256 && g < 256 && b < 256 {
            assert(r < 256 && g < 256 && b < 256 ==> (r | (g << 8u32) | (b << 16u32)) == r + 256
                * g + 65536 * b) by (bit_vector);
        }
    }
    cr
}

/// Unpacks a Win32 COLORREF into its red, green and blue bytes.
pub fn unpack_colorref(cr: u32) -> (rgb: (u32, u32, u32))
    ensures
        (rgb.0 as int, rgb.1 as int, rgb.2 as int) == colorref_channels(cr as int),
{
    let r = cr & 0xFFu32;
    let g = (cr >> 8u32) & 0xFFu32;
    let b = (cr >> 16u32) & 0xFFu32;
    assert(r == cr % 256 && g == (cr / 256) % 256 && b == (cr / 65536) % 256) by (bit_vector)
        requires
            r == cr & 0xFFu32,
            g == (cr >> 8u32) & 0xFFu32,
            b == (cr >> 16u32) & 0xFFu32,
    ;
    (r, g, b)
}

/// The red, green and blue bytes of a DWM colorization colour
/// (0xAARRGGBB: alpha in the top byte, blue in the low byte).
pub open spec fn argb_channels(color: int) -> (int, int, int) {
    ((color / 65536) % 256, (color / 256) % 256, color % 256)
}

/// Unpacks the red, green and blue bytes of a DWM colorization colour.
pub fn theme_channels(color: u32) -> (rgb: (u32, u32, u32))
    ensures
        (rgb.0 as int, rgb.1 as int, rgb.2 as int) == argb_channels(color as int),
{
    let r = (color >> 16u32) & 0xFFu32;
    let g = (color >> 8u32) & 0xFFu32;
    let b = color & 0xFFu32;
    assert(r == (color / 65536) % 256 && g == (color / 256) % 256 && b == color % 256)
        by (bit_vector)
        requires
            r == (color >> 16u32) & 0xFFu32,
            g == (color >> 8u32) & 0xFFu32,
            b == color & 0xFFu32,
    ;
    (r, g, b)
}

/// Law: unpacking a packed COLORREF gives back the three channels, when each
/// fits in a byte.
pub proof fn lemma_colorref_roundtrip(r: int, g: int, b: int)
    requires
        0 <= r < 256,
        0 <= g < 256,
        0 <= b < 256,
    ensures
        colorref_channels(colorref_of(r, g, b)) == (r, g, b),
{
    let cr = colorref_of(r, g, b);
    assert(cr / 256 == g + 256 * b) by (nonlinear_arith)
        requires
            cr == r + 256 * g + 65536 * b,
            0 <= r < 256,
    ;
    assert(cr / 65536 == b) by (nonlinear_arith)
        requires
            cr == r + 256 * g + 65536 * b,
            0 <= r < 256,
            0 <= g < 256,
    ;
    assert(cr % 256 == r) by (nonlinear_arith)
        requires
            cr == r + 256 * g + 65536 * b,
            0 <= r < 256,
    ;
    assert((g + 256 * b) % 256 == g) by (nonlinear_arith)
        requires
            0 <= g < 256,
            0 <= b,
    ;
}

/// Law: packing the three channels of a COLORREF gives back its low 24 bits.
pub proof fn lemma_colorref_repack(cr: int)
    requires
        0 <= cr,
    ensures
        ({
            let (r, g, b) = colorref_channels(cr);
            colorref_of(r, g, b) == cr % 16777216
        }),
{
    let r = cr % 256;
    let q1 = cr / 256;
    let g = q1 % 256;
    let q2 = q1 / 256;
    let b = q2 % 256;
    assert(cr == r + 256 * q1);
    assert(q1 == g + 256 * q2);
    assert(q2 == b + 256 * (q2 / 256));
    assert(q2 == cr / 65536) by (nonlinear_arith)
        requires
            q1 == cr / 256,
            q2 == q1 / 256,
            cr >= 0,
    ;
    assert(cr == r + 256 * g + 65536 * b + 16777216 * (q2 / 256)) by (nonlinear_arith)
        requires
            cr == r + 256 * q1,
            q1 == g + 256 * q2,
            q2 == b + 256 * (q2 / 256),
    ;
    assert(0 <= r + 256 * g + 65536 * b < 16777216) by (nonlinear_arith)
        requires
            0 <= r < 256,
            0 <= g < 256,
            0 <= b < 256,
    ;
    assert(cr % 16777216 == r + 256 * g + 65536 * b) by (nonlinear_arith)
        requires
            cr == r + 256 * g + 65536 * b + 16777216 * (q2 / 256),
            0 <= r + 256 * g + 65536 * b < 16777216,
    ;
}

} // verus!
