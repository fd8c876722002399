//! RGBA colors and the straight-alpha "over" blend.
//!
//! A color is four bytes: red, green, blue, alpha. Alpha and opacity are read
//! as fractions of 255. The blend is computed exactly over the rationals and
//! then truncated to a byte.
use vstd::prelude::*;

verus! {

/// The largest channel value; stands for 1.0 in fractional arithmetic.
pub const CHANNEL_MAX: u8 = 255;

/// One color channel of `src` (with alpha `sa`) drawn over `d` (with alpha `da`):
/// `floor(255 * (s/255 * sa/255 + d/255 * da/255 * (1 - sa/255)))`.
pub open spec fn blend_channel(s: int, sa: int, d: int, da: int) -> int {
    (s * sa * 255 + d * da * (255 - sa)) / 65025int
}

/// The alpha after drawing alpha `sa` over alpha `da`:
/// `floor(255 * (sa/255 + da/255 * (1 - sa/255)))`.
pub open spec fn blend_alpha(sa: int, da: int) -> int {
    sa + (da * (255 - sa)) / 255
}

/// The four bytes of `src` drawn over `dst`.
pub open spec fn blend(src: Seq<u8>, dst: Seq<u8>) -> Seq<u8> {
    seq![
        blend_channel(src[0] as int, src[3] as int, dst[0] as int, dst[3] as int) as u8,
        blend_channel(src[1] as int, src[3] as int, dst[1] as int, dst[3] as int) as u8,
        blend_channel(src[2] as int, src[3] as int, dst[2] as int, dst[3] as int) as u8,
        blend_alpha(src[3] as int, dst[3] as int) as u8,
    ]
}

/// A channel scaled by an opacity given in 255ths, truncated.
pub open spec fn premultiply(c: int, opacity: int) -> int {
    c * opacity / 255
}

/// All four channels of `color` scaled by `opacity` (in 255ths).
pub open spec fn apply_opacity(color: Seq<u8>, opacity: int) -> Seq<u8> {
    seq![
        premultiply(color[0] as int, opacity) as u8,
        premultiply(color[1] as int, opacity) as u8,
        premultiply(color[2] as int, opacity) as u8,
        premultiply(color[3] as int, opacity) as u8,
    ]
}

proof fn lemma_blend_channel_bounds(s: int, sa: int, d: int, da: int)
    requires
        0 <= s <= 255,
        0 <= sa <= 255,
        0 <= d <= 255,
        0 <= da <= 255,
    ensures
        0 <= s * sa * 255 + d * da * (255 - sa) <= 255 * 255 * 255,
        0 <= blend_channel(s, sa, d, da) <= 255,
{
    assert(0 <= s * sa * 255 <= 255 * sa * 255) by (nonlinear_arith)
        requires 0 <= s <= 255, 0 <= sa <= 255;
    assert(0 <= d * da * (255 - sa) <= 255 * 255 * (255 - sa)) by (nonlinear_arith)
        requires 0 <= d <= 255, 0 <= da <= 255, 0 <= sa <= 255;
    let n = s * sa * 255 + d * da * (255 - sa);
    assert(n <= 255 * 255 * 255) by (nonlinear_arith)
        requires
            n == s * sa * 255 + d * da * (255 - sa),
            s * sa * 255 <= 255 * sa * 255,
            d * da * (255 - sa) <= 255 * 255 * (255 - sa);
    assert(0 <= n / 65025int <= 255) by (nonlinear_arith)
        requires 0 <= n <= 255 * 255 * 255;
}

proof fn lemma_blend_alpha_bounds(sa: int, da: int)
    requires
        0 <= sa <= 255,
        0 <= da <= 255,
    ensures
        sa <= blend_alpha(sa, da) <= 255,
{
    assert(0 <= da * (255 - sa) <= 255 * (255 - sa)) by (nonlinear_arith)
        requires 0 <= da <= 255, 0 <= sa <= 255;
    assert(0 <= (da * (255 - sa)) / 255 <= 255 - sa) by (nonlinear_arith)
        requires 0 <= da * (255 - sa) <= 255 * (255 - sa);
}

fn blend_channel_exec(s: u8, sa: u8, d: u8, da: u8) -> (r: u8)
    ensures
        r as int == blend_channel(s as int, sa as int, d as int, da as int),
{
    proof {
        lemma_blend_channel_bounds(s as int, sa as int, d as int, da as int);
        assert(0 <= (s as int) * (sa as int) <= 255 * 255) by (nonlinear_arith)
            requires 0 <= s <= 255, 0 <= sa <= 255;
        assert(0 <= (d as int) * (da as int) <= 255 * 255) by (nonlinear_arith)
            requires 0 <= d <= 255, 0 <= da <= 255;
    }
    let n: u32 = (s as u32) * (sa as u32) * 255 + (d as u32) * (da as u32) * (255 - sa as u32);
    (n / 65025) as u8
}

/// Draws `src` over `dst` with the straight-alpha "over" operator.
pub fn blend_over(src: [u8; 4], dst: [u8; 4]) -> (r: [u8; 4])
    ensures
        r@ == blend(src@, dst@),
{
    proof {
        lemma_blend_alpha_bounds(src[3] as int, dst[3] as int);
        assert(0 <= (dst[3] as int) * (255 - src[3] as int) <= 255 * 255) by (nonlinear_arith)
            requires 0 <= dst[3] <= 255, 0 <= src[3] <= 255;
    }
    let red = blend_channel_exec(src[0], src[3], dst[0], dst[3]);
    let green = blend_channel_exec(src[1], src[3], dst[1], dst[3]);
    let blue = blend_channel_exec(src[2], src[3], dst[2], dst[3]);
    let alpha: u8 = src[3] + ((dst[3] as u32) * (255 - src[3] as u32) / 255) as u8;
    let r = [red, green, blue, alpha];
    assert(r@ =~= blend(src@, dst@));
    r
}

/// Scales every channel of `color` by `opacity`, given in 255ths.
pub fn scale_by_opacity(color: [u8; 4], opacity: u8) -> (r: [u8; 4])
    ensures
        r@ == apply_opacity(color@, opacity as int),
{
    let mut out: [u8; 4] = [0, 0, 0, 0];
    let mut i: usize = 0;
    while i < 4
        invariant
            0 <= i <= 4,
            forall|j: int| 0 <= j < i ==> out@[j] as int == premultiply(color@[j] as int, opacity as int),
        decreases 4 - i,
    {
        proof {
            let c = color[i as int] as int;
            assert(0 <= c * (opacity as int) <= 255 * 255) by (nonlinear_arith)
                requires 0 <= c <= 255, 0 <= opacity <= 255;
            assert(c * (opacity as int) / 255 <= 255) by (nonlinear_arith)
                requires 0 <= c * (opacity as int) <= 255 * 255;
        }
        out[i] = ((color[i] as u32) * (opacity as u32) / 255) as u8;
        i = i + 1;
    }
    assert(out@ =~= apply_opacity(color@, opacity as int));
    out
}

/// A fully opaque color drawn over anything gives that color.
pub proof fn lemma_blend_opaque(src: Seq<u8>, dst: Seq<u8>)
    requires
        src.len() == 4,
        src[3] == CHANNEL_MAX,
    ensures
        blend(src, dst) == src,
{
    assert(blend(src, dst) =~= src);
}

/// Full opacity leaves a color as it is.
pub proof fn lemma_full_opacity(color: Seq<u8>)
    requires
        color.len() == 4,
    ensures
        apply_opacity(color, CHANNEL_MAX as int) == color,
{
    assert(apply_opacity(color, CHANNEL_MAX as int) =~= color);
}

} // verus!
